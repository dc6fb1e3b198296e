//! The simulation engine: wind regions, particles, drifting asteroids, and
//! the stepping state machine that owns the ship and advances the world.

use crate::geom::{
    all_in_range, clamped, cosdeg, dtr, in_range, in_rect, lemma_abs_mul_bound,
    lemma_sin_full_bounds, norm360, polys_collide, pt_add, pt_scale, sindeg, spec_rot, Point, Trig,
    CMAX, TRIG_ONE,
};
use crate::levels::{all_in_cfg, in_cfg, spec_wall_shape, GameData};
use crate::rand::Random;
use vstd::prelude::*;

verus! {

/// The acceleration a wind region imparts per tick: its power resolved
/// along its orientation through the angle table.
pub open spec fn wind_accel(power: int, orientation: int) -> Point {
    Point {
        x: clamped(dtr(power * cosdeg(orientation), TRIG_ONE as int)) as i64,
        y: clamped(dtr(power * sindeg(orientation), TRIG_ONE as int)) as i64,
    }
}

/// A static force region: ships overlapping `shape` receive `accel` each
/// tick.  The acceleration is fixed at construction from the immutable
/// power and orientation.
pub struct Wind {
    pub shape: Vec<Point>,
    pub power: i64,
    pub orientation: i32,
    pub accel: Point,
}

pub open spec fn wind_wf(w: Wind) -> bool {
    &&& w.shape@.len() >= 1
    &&& all_in_cfg(w.shape@)
    &&& -1_000_000 <= w.power <= 1_000_000
    &&& w.accel == wind_accel(w.power as int, w.orientation as int)
}

impl Wind {
    /// A wind region of the given shape, with `power` milli-units of
    /// acceleration per tick directed along `orientation` degrees.
    pub fn new(shape: Vec<Point>, power: i64, orientation: i32, tr: &Trig) -> (r: Wind)
        requires
            shape@.len() >= 1,
            all_in_cfg(shape@),
            -1_000_000 <= power <= 1_000_000,
            tr.wf(),
        ensures
            wind_wf(r),
            r.shape == shape,
            r.power == power,
            r.orientation == orientation,
    {
        let c: i64 = tr.cos(orientation);
        let s: i64 = tr.sin(orientation);
        proof {
            lemma_sin_full_bounds(norm360(orientation as int));
            lemma_abs_mul_bound(power as int, c as int, 1_000_000, TRIG_ONE as int);
            lemma_abs_mul_bound(power as int, s as int, 1_000_000, TRIG_ONE as int);
        }
        let accel = Point {
            x: crate::geom::clamp64(crate::geom::div_trunc(power * c, TRIG_ONE)),
            y: crate::geom::clamp64(crate::geom::div_trunc(power * s, TRIG_ONE)),
        };
        Wind { shape, power, orientation, accel }
    }

    pub fn shape(&self) -> (r: &Vec<Point>)
        ensures
            r == &self.shape,
    {
        &self.shape
    }

    /// The per-tick acceleration this region imparts.
    pub fn accel(&self) -> (r: &Point)
        ensures
            r == &self.accel,
    {
        &self.accel
    }

    pub fn direction(&self) -> (r: i32)
        ensures
            r == self.orientation,
    {
        self.orientation
    }
}

/// What a particle is drawn as.
#[derive(Clone, Copy, PartialEq, Eq, Structural, Debug)]
pub enum ParticleColor {
    /// Thrust exhaust.
    Exhaust,
    /// Explosion debris.
    Explosion,
}

/// A decaying visual point: it drifts by its velocity and counts `life`
/// down to zero, at which point the engine removes it.
#[derive(Clone, Copy, Debug)]
pub struct Particle {
    pub pos: Point,
    pub dir: Point,
    pub col: ParticleColor,
    pub life: u32,
}

pub open spec fn particle_wf(p: Particle) -> bool {
    &&& in_range(p.pos)
    &&& in_range(p.dir)
}

/// Lifetime a particle starts from.
pub const PARTICLE_LIFE: u32 = 20;

/// One tick of a particle: while alive it drifts and decays; once dead it
/// stays as it is (the engine prunes it).
pub open spec fn particle_step(p: Particle) -> Particle {
    if p.life > 0 {
        Particle { pos: pt_add(p.pos, p.dir), dir: p.dir, col: p.col, life: (p.life - 1) as u32 }
    } else {
        p
    }
}

impl Particle {
    pub fn new(col: ParticleColor, pos: Point, dir: Point) -> (r: Particle)
        ensures
            r == (Particle { pos, dir, col, life: PARTICLE_LIFE }),
    {
        Particle { pos, dir, col, life: PARTICLE_LIFE }
    }

    #[verifier::rlimit(100)]
    pub fn move_step(&mut self)
        requires
            particle_wf(*old(self)),
        ensures
            particle_wf(*final(self)),
            *final(self) == particle_step(*old(self)),
    {
        if self.life > 0 {
            self.pos.add(&self.dir);
            self.life = self.life - 1;
        }
    }

    pub fn finished(&self) -> (r: bool)
        ensures
            r == (self.life == 0),
    {
        self.life == 0
    }

    /// Opacity in thousandths: fully opaque above half life, then fading
    /// linearly to zero.
    pub fn alpha(&self) -> (r: u32)
        requires
            self.life <= PARTICLE_LIFE,
        ensures
            r == spec_alpha(self.life as int),
    {
        if self.life > 10 {
            return 1000;
        }
        self.life * 100
    }

    pub fn color(&self) -> (r: ParticleColor)
        ensures
            r == self.col,
    {
        self.col
    }

    pub fn position(&self) -> (r: &Point)
        ensures
            r == &self.pos,
    {
        &self.pos
    }
}

/// Opacity in thousandths for a remaining lifetime: 1000 while more than
/// half the life remains, then 100 per remaining tick.
pub open spec fn spec_alpha(life: int) -> int {
    if life > 10 {
        1000
    } else {
        life * 100
    }
}

/// Margin beyond the playfield within which asteroids may drift before
/// bouncing, in milli-units.
pub const ASTEROID_MARGIN: i64 = 30_000;

/// A drifting, rotating polygon.  `vert` is its shape in local space;
/// `pos`, `rot` place it in the world; `dpos`, `drot` advance it per tick.
pub struct Asteroid {
    pub vert: Vec<Point>,
    pub pos: Point,
    pub rot: i32,
    pub dpos: Point,
    pub drot: i32,
}

pub open spec fn asteroid_wf(a: Asteroid) -> bool {
    &&& a.vert@.len() >= 1
    &&& all_in_range(a.vert@)
    &&& in_range(a.pos)
    &&& in_range(a.dpos)
    &&& 0 <= a.rot < 360
    &&& -360 <= a.drot <= 360
}

/// One tick of an asteroid: drift, spin, and bounce softly at the extended
/// boundary.  On each axis, once the asteroid is beyond the margin outside
/// the playfield and still moving outward, that axis of its velocity flips
/// sign; a flipped asteroid moving back inward is left alone.
pub open spec fn asteroid_step(a: Asteroid, area: Point) -> Asteroid {
    let pos = pt_add(a.pos, a.dpos);
    let rot = norm360(a.rot + a.drot) as i32;
    let dx: int = if pos.x < -ASTEROID_MARGIN && a.dpos.x < 0 {
        -a.dpos.x
    } else if pos.x >= area.x + ASTEROID_MARGIN && a.dpos.x > 0 {
        -a.dpos.x
    } else {
        a.dpos.x as int
    };
    let dy: int = if pos.y < -ASTEROID_MARGIN && a.dpos.y < 0 {
        -a.dpos.y
    } else if pos.y >= area.y + ASTEROID_MARGIN && a.dpos.y > 0 {
        -a.dpos.y
    } else {
        a.dpos.y as int
    };
    Asteroid {
        vert: a.vert,
        pos,
        rot,
        dpos: Point { x: dx as i64, y: dy as i64 },
        drot: a.drot,
    }
}

/// A local vertex carried into the world: rotated by `rot`, then moved to
/// `pos`.
pub open spec fn remap_pt(p: Point, rot: int, pos: Point) -> Point {
    pt_add(spec_rot(p, rot), pos)
}

/// An asteroid's vertices carried into the world.
pub open spec fn spec_remap(a: Asteroid) -> Seq<Point> {
    a.vert@.map_values(|p: Point| remap_pt(p, a.rot as int, a.pos))
}

/// The asteroid's collision hull: its world polygon, opened with its own
/// center and closed with a repeat of the first vertex, so the collision
/// fan wraps the whole shape.
pub open spec fn spec_remap4coll(a: Asteroid) -> Seq<Point> {
    seq![a.pos] + spec_remap(a) + seq![spec_remap(a)[0]]
}

impl Asteroid {
    /// Advance one tick; see `asteroid_step` for the bounce rule.
    pub fn move_step(&mut self, area: &Point)
        requires
            asteroid_wf(*old(self)),
            in_cfg(*area),
            0 <= area.x,
            0 <= area.y,
        ensures
            asteroid_wf(*final(self)),
            *final(self) == asteroid_step(*old(self), *area),
    {
        self.pos.add(&self.dpos);
        let r: u32 = crate::geom::norm_deg(self.rot + self.drot);
        self.rot = r as i32;
        if self.pos.x() < -ASTEROID_MARGIN && self.dpos.x() < 0 {
            self.dpos.flipx();
        }
        if self.pos.x() >= area.x() + ASTEROID_MARGIN && self.dpos.x() > 0 {
            self.dpos.flipx();
        }
        if self.pos.y() < -ASTEROID_MARGIN && self.dpos.y() < 0 {
            self.dpos.flipy();
        }
        if self.pos.y() >= area.y() + ASTEROID_MARGIN && self.dpos.y() > 0 {
            self.dpos.flipy();
        }
    }

    /// Asteroids never expire on their own; the pruning hook reports so.
    pub fn finished(&self) -> (r: bool)
        ensures
            r == false,
    {
        false
    }

    /// The world polygon of this asteroid.
    pub fn remap(&self, tr: &Trig) -> (r: Vec<Point>)
        requires
            asteroid_wf(*self),
            tr.wf(),
        ensures
            r@ == spec_remap(*self),
            r@.len() == self.vert@.len(),
            all_in_range(r@),
    {
        let n: usize = self.vert.len();
        let mut out: Vec<Point> = Vec::new();
        let mut i: usize = 0;
        while i < n
            invariant
                n == self.vert@.len(),
                i <= n,
                out@.len() == i,
                asteroid_wf(*self),
                tr.wf(),
                forall|j: int|
                    0 <= j < i ==> out@[j] == remap_pt(self.vert@[j], self.rot as int, self.pos),
            decreases n - i,
        {
            let p: Point = self.vert[i];
            let mut q: Point = tr.rot(&p, self.rot);
            q.add(&self.pos);
            out.push(q);
            i = i + 1;
        }
        proof {
            assert(out@ =~= spec_remap(*self));
        }
        out
    }

    /// The collision hull: the world polygon wrapped around the asteroid's
    /// center so the fan triangulation covers the closed shape.
    pub fn remap4coll(&self, tr: &Trig) -> (r: Vec<Point>)
        requires
            asteroid_wf(*self),
            tr.wf(),
        ensures
            r@ == spec_remap4coll(*self),
            r@.len() == self.vert@.len() + 2,
            all_in_range(r@),
    {
        let mut rv: Vec<Point> = Vec::new();
        rv.push(self.pos);
        let mut remap: Vec<Point> = self.remap(tr);
        let p0: Point = remap[0];
        let mut k: usize = 0;
        let m: usize = remap.len();
        while k < m
            invariant
                m == spec_remap(*self).len(),
                remap@ == spec_remap(*self),
                k <= m,
                rv@.len() == k + 1,
                rv@[0] == self.pos,
                asteroid_wf(*self),
                forall|j: int| 0 <= j < k ==> rv@[j + 1] == spec_remap(*self)[j],
            decreases m - k,
        {
            rv.push(remap[k]);
            k = k + 1;
        }
        rv.push(p0);
        proof {
            assert(rv@ =~= spec_remap4coll(*self));
        }
        rv
    }
}


/// Rotation step, in degrees per tick, applied while a turn key is held.
pub const ROT_STEP: i32 = 6;

/// Local-space ship hull: nose and the two rear corners, in milli-units.
pub open spec fn ship_local_hull() -> Seq<Point> {
    seq![
        Point { x: 0, y: -20_000i64 },
        Point { x: -10_000i64, y: 10_000 },
        Point { x: 10_000, y: 10_000 },
    ]
}

/// The ship hull carried into the world for a given attitude and position.
pub open spec fn spec_ship_shape_at(rot: int, pos: Point) -> Seq<Point> {
    ship_local_hull().map_values(|p: Point| remap_pt(p, rot, pos))
}

/// The landing pad rectangle, as a polygon: the configured horizontal band
/// at the configured height, 5 units tall.
pub open spec fn spec_land_shape(c: GameData) -> Seq<Point> {
    seq![
        Point { x: c.target_x0, y: c.target_y },
        Point { x: c.target_x1, y: c.target_y },
        Point { x: c.target_x1, y: (c.target_y + 5000) as i64 },
        Point { x: c.target_x0, y: (c.target_y + 5000) as i64 },
    ]
}

/// Whether `p` lies in the landing band.
pub open spec fn spec_in_pad(c: GameData, p: Point) -> bool {
    in_rect(p, c.target_x0 as int, c.target_y as int, c.target_x1 as int, c.target_y + 5000)
}

/// Level attitude: not blown up, rotation within the configured band around
/// zero, and both velocity components strictly under their thresholds.
pub open spec fn spec_is_level_at(c: GameData, rot: int, speed: Point, blownup: bool) -> bool {
    &&& !blownup
    &&& (rot < c.levelling_rot || rot > 360 - c.levelling_rot)
    &&& -c.levelling_speed_x < speed.x < c.levelling_speed_x
    &&& -c.levelling_speed_y < speed.y < c.levelling_speed_y
}

/// The three-point landing footprint test: the point 10 units below the
/// ship's local origin must fall in the pad band.  A nose sample that
/// misses only vertically fails the landing; one that misses the band
/// horizontally may still touch down on either of the two wider rear
/// corner samples.
pub open spec fn spec_landing_at(
    c: GameData,
    rot: int,
    pos: Point,
    speed: Point,
    blownup: bool,
) -> bool {
    if !spec_is_level_at(c, rot, speed, blownup) || blownup {
        false
    } else {
        let touch = remap_pt(Point { x: 0, y: 10_000 }, rot, pos);
        if spec_in_pad(c, touch) {
            true
        } else if touch.x < c.target_x0 || touch.x > c.target_x1 {
            let t1 = remap_pt(Point { x: -10_000i64, y: 10_000 }, rot, pos);
            if spec_in_pad(c, t1) {
                true
            } else {
                spec_in_pad(c, remap_pt(Point { x: 10_000, y: 10_000 }, rot, pos))
            }
        } else {
            false
        }
    }
}

/// The collision test applied to a ship hull: any hull vertex out of the
/// playfield, or overlap with any wall (as it stands at the given step
/// counter), any asteroid hull, or the landing pad itself.
pub open spec fn spec_collision_parts(
    c: GameData,
    draw_step: int,
    asts: Seq<Asteroid>,
    ship: Seq<Point>,
) -> bool {
    ||| exists|i: int|
        0 <= i < ship.len() && !in_rect(#[trigger] ship[i], 0, 0, c.area.x as int, c.area.y as int)
    ||| exists|i: int|
        0 <= i < c.walls@.len() && polys_collide(
            ship,
            spec_wall_shape(#[trigger] c.walls@[i], draw_step),
        )
    ||| exists|i: int|
        0 <= i < asts.len() && polys_collide(ship, spec_remap4coll(#[trigger] asts[i]))
    ||| polys_collide(ship, spec_land_shape(c))
}

/// The stepping state machine: ship kinematics, fuel, entity collections,
/// the trig table and random source, advanced one fixed tick at a time.
pub struct GameEngine {
    pub rot: i32,
    pub pos: Point,
    pub speed: Point,
    pub thrust: bool,
    pub block_alert: bool,
    pub lrot: bool,
    pub rrot: bool,
    pub fuel: u32,
    pub fuel_warn: u32,
    pub collided: bool,
    pub landed: bool,
    pub particles: Vec<Particle>,
    pub asteroids: Vec<Asteroid>,
    pub blownup: bool,
    pub rng: Random,
    pub trig: Trig,
    pub draw_step: u32,
    pub viewport_pos: Option<Point>,
    pub config: GameData,
}

impl GameEngine {
    pub open spec fn wf(self) -> bool {
        &&& self.trig.wf()
        &&& self.rng.wf()
        &&& 0 <= self.rot < 360
        &&& in_range(self.pos)
        &&& in_range(self.speed)
        &&& self.config.wf()
        &&& self.draw_step < 30
        &&& forall|i: int|
            0 <= i < self.particles@.len() ==> particle_wf(#[trigger] self.particles@[i])
                && self.particles@[i].life <= PARTICLE_LIFE
        &&& forall|i: int| 0 <= i < self.asteroids@.len() ==> asteroid_wf(#[trigger] self.asteroids@[i])
        &&& match self.viewport_pos {
            Some(p) => in_range(p),
            None => true,
        }
    }

    /// Fuel is at or under the warning threshold.
    pub fn fuel_warn(&self) -> (r: bool)
        ensures
            r == (self.fuel <= self.fuel_warn),
    {
        self.fuel <= self.fuel_warn
    }

    pub fn ship_pos(&self) -> (r: Point)
        ensures
            r == self.pos,
    {
        self.pos
    }

    pub fn set_thrust(&mut self, value: bool)
        ensures
            *final(self) == (GameEngine { thrust: value, ..*old(self) }),
    {
        self.thrust = value;
    }

    /// Turn the ship by `value` degrees, wrapping into `[0, 360)`; ignored
    /// once landed.
    pub fn rotate(&mut self, value: i32)
        ensures
            *final(self) == (
            GameEngine {
                rot: if old(self).landed {
                    old(self).rot
                } else {
                    norm360(old(self).rot + value) as i32
                },
                ..*old(self)
            }),
    {
        if !self.landed {
            let r: u32 = crate::geom::norm_deg64(self.rot as i64 + value as i64);
            self.rot = r as i32;
        }
    }

    /// Update whichever turn-key flags are supplied, leaving the other as
    /// it is.
    pub fn set_rotation(&mut self, left: Option<bool>, right: Option<bool>)
        ensures
            *final(self) == (
            GameEngine {
                lrot: match left {
                    Some(v) => v,
                    None => old(self).lrot,
                },
                rrot: match right {
                    Some(v) => v,
                    None => old(self).rrot,
                },
                ..*old(self)
            }),
    {
        if let Some(v) = left {
            self.lrot = v;
        }
        if let Some(v) = right {
            self.rrot = v;
        }
    }

    /// Whether the ship's attitude is level; see `spec_is_level_at`.
    pub fn is_level(&self) -> (r: bool)
        requires
            self.config.wf(),
        ensures
            r == spec_is_level_at(self.config, self.rot as int, self.speed, self.blownup),
    {
        !self.blownup && (self.rot < self.config.levelling_rot || self.rot > 360
            - self.config.levelling_rot) && (self.speed.x() < self.config.levelling_speed_x
            && self.speed.x() > -self.config.levelling_speed_x) && (self.speed.y()
            < self.config.levelling_speed_y && self.speed.y() > -self.config.levelling_speed_y)
    }

    pub fn has_collided(&self) -> (r: bool)
        ensures
            r == self.collided,
    {
        self.collided
    }

    pub fn has_landed(&self) -> (r: bool)
        ensures
            r == self.landed,
    {
        self.landed
    }

    /// The wind animation phase: 0 for the first half of the 30-tick cycle,
    /// 1 for the second.
    pub fn get_step(&self) -> (r: u32)
        ensures
            r == (if self.draw_step < 15 {
                0u32
            } else {
                1u32
            }),
    {
        if self.draw_step < 15 {
            return 0u32;
        }
        1u32
    }

    /// A local-space point carried to the ship's world position and
    /// attitude.
    pub fn remap_ship(&self, p: &Point) -> (r: Point)
        requires
            self.trig.wf(),
            in_range(self.pos),
            in_range(*p),
        ensures
            r == remap_pt(*p, self.rot as int, self.pos),
            in_range(r),
    {
        let mut tr: Point = self.trig.rot(p, self.rot);
        tr.add(&self.pos);
        tr
    }

    /// The fuel gauge width: the remaining fraction of a full tank, scaled
    /// to `maxref`.
    pub fn fuel_sz(&self, maxref: i64) -> (r: i64)
        requires
            self.config.wf(),
            0 <= maxref <= 1_000_000,
        ensures
            r == self.fuel * maxref / (self.config.full_fuel as int),
    {
        proof {
            lemma_abs_mul_bound(self.fuel as int, maxref as int, u32::MAX as int, 1_000_000);
            vstd::arithmetic::div_mod::lemma_div_pos_is_pos(
                (self.fuel as int) * (maxref as int),
                self.config.full_fuel as int,
            );
            vstd::arithmetic::div_mod::lemma_div_is_ordered(
                (self.fuel as int) * (maxref as int),
                u32::MAX as int * 1_000_000,
                self.config.full_fuel as int,
            );
            vstd::arithmetic::div_mod::lemma_div_is_ordered_by_denominator(
                u32::MAX as int * 1_000_000,
                1,
                self.config.full_fuel as int,
            );
        }
        ((self.fuel as u64) * (maxref as u64) / (self.config.full_fuel as u64)) as i64
    }

    /// The ship hull in world space: nose and rear corners, or no polygon
    /// at all once the ship has blown up.
    pub fn ship_shape(&self) -> (r: Vec<Point>)
        requires
            self.trig.wf(),
            in_range(self.pos),
        ensures
            !self.blownup ==> r@ == spec_ship_shape_at(self.rot as int, self.pos),
            self.blownup ==> r@.len() == 0,
            all_in_range(r@),
            !self.blownup ==> r@.len() == 3,
    {
        if self.blownup {
            let r: Vec<Point> = Vec::new();
            return r;
        }
        let mut out: Vec<Point> = Vec::new();
        out.push(self.remap_ship(&Point { x: 0, y: -20_000 }));
        out.push(self.remap_ship(&Point { x: -10_000, y: 10_000 }));
        out.push(self.remap_ship(&Point { x: 10_000, y: 10_000 }));
        proof {
            assert(out@ =~= spec_ship_shape_at(self.rot as int, self.pos));
        }
        out
    }

    /// The landing pad polygon.
    pub fn land_shape(&self) -> (r: Vec<Point>)
        requires
            self.config.wf(),
        ensures
            r@ == spec_land_shape(self.config),
            r@.len() == 4,
            all_in_range(r@),
    {
        let mut out: Vec<Point> = Vec::new();
        out.push(Point { x: self.config.target_x0, y: self.config.target_y });
        out.push(Point { x: self.config.target_x1, y: self.config.target_y });
        out.push(Point { x: self.config.target_x1, y: self.config.target_y + 5000 });
        out.push(Point { x: self.config.target_x0, y: self.config.target_y + 5000 });
        proof {
            assert(out@ =~= spec_land_shape(self.config));
        }
        out
    }

    /// Every asteroid's world polygon.
    pub fn aster_shape(&self) -> (r: Vec<Vec<Point>>)
        requires
            self.wf(),
        ensures
            r@.len() == self.asteroids@.len(),
            forall|i: int|
                0 <= i < r@.len() ==> #[trigger] r@[i]@ == spec_remap(self.asteroids@[i]),
    {
        let n: usize = self.asteroids.len();
        let mut rv: Vec<Vec<Point>> = Vec::new();
        let mut i: usize = 0;
        while i < n
            invariant
                n == self.asteroids@.len(),
                i <= n,
                rv@.len() == i,
                self.wf(),
                forall|j: int|
                    0 <= j < i ==> #[trigger] rv@[j]@ == spec_remap(self.asteroids@[j]),
            decreases n - i,
        {
            let s: Vec<Point> = self.asteroids[i].remap(&self.trig);
            rv.push(s);
            i = i + 1;
        }
        rv
    }

    /// The wall polygons as they stand at the current step counter.
    pub fn obs_shape(&self) -> (r: Vec<Vec<Point>>)
        requires
            self.wf(),
        ensures
            r@.len() == self.config.walls@.len(),
            forall|i: int|
                0 <= i < r@.len() ==> #[trigger] r@[i]@ == spec_wall_shape(
                    self.config.walls@[i],
                    self.draw_step as int,
                ),
    {
        self.config.get_walls(self.draw_step, &self.trig)
    }

    /// The wind regions (read-only).
    pub fn iter_winds(&self) -> (r: &Vec<Wind>)
        ensures
            r == &self.config.winds,
    {
        &self.config.winds
    }

    /// The live particles (read-only).
    pub fn iter_part(&self) -> (r: &Vec<Particle>)
        ensures
            r == &self.particles,
    {
        &self.particles
    }

    /// The session is over: the ship blew up and its debris burnt out, or
    /// it is stuck, or it landed.
    pub fn finished(&self) -> (r: bool)
        ensures
            r == ((self.blownup && self.particles@.len() == 0) || spec_stuck(*self)
                || self.landed),
    {
        (self.blownup && self.particles.len() == 0) || self.stuck() || self.landed
    }

    fn stuck(&self) -> (r: bool)
        ensures
            r == spec_stuck(*self),
    {
        !self.landed && !self.blownup && self.fuel == 0 && self.speed.is_zero()
            && self.config.gravity.is_zero()
    }

    pub fn area_width(&self) -> (r: i64)
        ensures
            r == self.config.area.x,
    {
        self.config.area.x
    }

    pub fn area_height(&self) -> (r: i64)
        ensures
            r == self.config.area.y,
    {
        self.config.area.y
    }

    pub fn scrollable(&self) -> (r: bool)
        ensures
            r == self.config.viewport.is_some(),
    {
        match &self.config.viewport {
            Some(_) => true,
            None => false,
        }
    }

    pub fn viewport_width(&self) -> (r: i64)
        ensures
            r == match self.config.viewport {
                Some(v) => v.x,
                None => self.config.area.x,
            },
    {
        match &self.config.viewport {
            Some(v) => v.x,
            None => self.config.area.x,
        }
    }

    pub fn viewport_height(&self) -> (r: i64)
        ensures
            r == match self.config.viewport {
                Some(v) => v.y,
                None => self.config.area.y,
            },
    {
        match &self.config.viewport {
            Some(v) => v.y,
            None => self.config.area.y,
        }
    }

    pub fn viewport_pos(&self) -> (r: Point)
        ensures
            r == match self.viewport_pos {
                Some(v) => v,
                None => Point { x: 0, y: 0 },
            },
    {
        match &self.viewport_pos {
            Some(v) => *v,
            None => Point { x: 0, y: 0 },
        }
    }

    pub fn block_alert(&self) -> (r: bool)
        ensures
            r == self.block_alert,
    {
        self.block_alert
    }

    pub fn set_block_alert(&mut self, v: bool)
        ensures
            *final(self) == (GameEngine { block_alert: v, ..*old(self) }),
    {
        self.block_alert = v;
    }
}

/// An unrecoverable idle state: flying with no fuel, no motion, and no
/// gravity to bring the ship anywhere.
pub open spec fn spec_stuck(e: GameEngine) -> bool {
    &&& !e.landed
    &&& !e.blownup
    &&& e.fuel == 0
    &&& e.speed == (Point { x: 0, y: 0 })
    &&& e.config.gravity == (Point { x: 0, y: 0 })
}


/// Integer minimum.
pub open spec fn imin(a: int, b: int) -> int {
    if a <= b {
        a
    } else {
        b
    }
}

/// Integer maximum.
pub open spec fn imax(a: int, b: int) -> int {
    if a >= b {
        a
    } else {
        b
    }
}

fn min64(a: i64, b: i64) -> (r: i64)
    ensures
        r == imin(a as int, b as int),
{
    if a < b {
        a
    } else {
        b
    }
}

fn max64(a: i64, b: i64) -> (r: i64)
    ensures
        r == imax(a as int, b as int),
{
    if a > b {
        a
    } else {
        b
    }
}

/// The rotation applied per tick from the held turn keys: left and right
/// cancel.
pub open spec fn spec_rot_delta(lrot: bool, rrot: bool, amt: int) -> int {
    (if rrot {
        amt
    } else {
        0
    }) - (if lrot {
        amt
    } else {
        0
    })
}

/// The velocity increment one tick of thrust produces at attitude `rot`:
/// `pow` milli-units along the ship's nose.
pub open spec fn spec_thrust_vec(pow: int, rot: int) -> Point {
    Point {
        x: dtr(pow * sindeg(rot), TRIG_ONE as int) as i64,
        y: (-dtr(pow * cosdeg(rot), TRIG_ONE as int)) as i64,
    }
}

/// The rearward jitter of one exhaust particle scattered at angle `d`: half
/// a unit opposite the nose direction for that angle.
pub open spec fn spec_jitter(d: int) -> Point {
    Point {
        x: (-dtr(500 * sindeg(d), TRIG_ONE as int)) as i64,
        y: dtr(500 * cosdeg(d), TRIG_ONE as int) as i64,
    }
}

/// The ship's velocity after the first `k` wind regions have been applied:
/// each region whose shape overlaps the hull adds its acceleration, in
/// order.
pub open spec fn spec_apply_wind(winds: Seq<Wind>, ship: Seq<Point>, speed: Point, k: int) -> Point
    decreases k,
{
    if k <= 0 {
        speed
    } else {
        let prev = spec_apply_wind(winds, ship, speed, k - 1);
        if polys_collide(ship, winds[k - 1].shape@) {
            pt_add(prev, winds[k - 1].accel)
        } else {
            prev
        }
    }
}

/// One tick of the particle layer: every particle steps once, and those
/// whose life has run out are dropped, in order.
pub open spec fn spec_step_parts(s: Seq<Particle>) -> Seq<Particle>
    decreases s.len(),
{
    if s.len() == 0 {
        Seq::<Particle>::empty()
    } else {
        let q = particle_step(s[0]);
        let rest = spec_step_parts(s.drop_first());
        if q.life == 0 {
            rest
        } else {
            seq![q] + rest
        }
    }
}

proof fn lemma_step_parts_push(s: Seq<Particle>, x: Particle)
    ensures
        spec_step_parts(s.push(x)) == spec_step_parts(s) + (if particle_step(x).life == 0 {
            Seq::<Particle>::empty()
        } else {
            seq![particle_step(x)]
        }),
    decreases s.len(),
{
    let tail = if particle_step(x).life == 0 {
        Seq::<Particle>::empty()
    } else {
        seq![particle_step(x)]
    };
    if s.len() == 0 {
        assert(s.push(x).len() == 1);
        assert(s.push(x)[0] == x);
        assert(s.push(x).drop_first() =~= Seq::<Particle>::empty());
        assert(spec_step_parts(s.push(x).drop_first()) == Seq::<Particle>::empty());
        assert(spec_step_parts(s) == Seq::<Particle>::empty());
        if particle_step(x).life == 0 {
            assert(spec_step_parts(s.push(x)) == Seq::<Particle>::empty());
            assert(spec_step_parts(s) + tail =~= Seq::<Particle>::empty());
        } else {
            assert(spec_step_parts(s.push(x)) == seq![particle_step(x)]
                + Seq::<Particle>::empty());
            assert(seq![particle_step(x)] + Seq::<Particle>::empty() =~= tail);
            assert(spec_step_parts(s) + tail =~= tail);
        }
    } else {
        lemma_step_parts_push(s.drop_first(), x);
        assert(s.push(x).drop_first() =~= s.drop_first().push(x));
        assert(s.push(x)[0] == s[0]);
        let a = spec_step_parts(s.drop_first());
        assert(spec_step_parts(s.push(x).drop_first()) == a + tail);
        if particle_step(s[0]).life == 0 {
            assert(spec_step_parts(s.push(x)) == a + tail);
            assert(spec_step_parts(s) == a);
        } else {
            assert(spec_step_parts(s.push(x)) == seq![particle_step(s[0])] + (a + tail));
            assert(spec_step_parts(s) == seq![particle_step(s[0])] + a);
            assert(seq![particle_step(s[0])] + (a + tail) =~= (seq![particle_step(s[0])] + a)
                + tail);
        }
    }
}

/// One of the 200 explosion debris particles: scattered in a 32x32-unit box
/// around `base`, with a velocity pointing away from `base` (scaled down by
/// a drawn divisor) plus the ship's velocity at impact.
pub open spec fn is_explosion_particle(q: Particle, base: Point, speed: Point) -> bool {
    exists|bx: int, by: int, kx: int, ky: int|
        #![trigger clamped(base.x - 15000 + bx * 1000), clamped(base.y - 15000 + by * 1000), dtr(q.pos.x - base.x, kx), dtr(q.pos.y - base.y, ky)]
        {
            &&& 0 <= bx < 32
            &&& 0 <= by < 32
            &&& 5 <= kx <= 12
            &&& 5 <= ky <= 12
            &&& q.pos == Point {
                x: clamped(base.x - 15000 + bx * 1000) as i64,
                y: clamped(base.y - 15000 + by * 1000) as i64,
            }
            &&& q.dir == Point {
                x: clamped(dtr(q.pos.x - base.x, kx) + speed.x) as i64,
                y: clamped(dtr(q.pos.y - base.y, ky) + speed.y) as i64,
            }
            &&& q.col == ParticleColor::Explosion
            &&& q.life == PARTICLE_LIFE
        }
}

/// The exhaust particle one tick of thrust emits: placed at the ship's
/// local tail point, drifting with the ship's new velocity plus a jitter
/// drawn from a 64-degree scatter around the tail direction.
pub open spec fn is_exhaust_particle(q: Particle, rot: int, pos: Point, speed_after: Point) -> bool {
    &&& q.col == ParticleColor::Exhaust
    &&& q.life == PARTICLE_LIFE
    &&& q.pos == remap_pt(Point { x: 0, y: 10_000 }, rot, pos)
    &&& exists|d: int|
        rot - 31 <= d <= rot + 32 && q.dir == pt_add(#[trigger] spec_jitter(d), speed_after)
}

/// The viewport position after the follow rule: pulled so the ship stays
/// within a 150-unit margin of its edges, then clamped to show at most 30
/// units beyond the playfield.  A world without a viewport keeps none.
pub open spec fn spec_viewport_at(c: GameData, vp: Option<Point>, pos: Point) -> Option<Point> {
    match c.viewport {
        None => vp,
        Some(v) => {
            let vpx0 = match vp {
                Some(p) => p.x as int,
                None => 0,
            };
            let vpy0 = match vp {
                Some(p) => p.y as int,
                None => 0,
            };
            let vpx1 = imin(vpx0, pos.x - 150_000);
            let vpx2 = imax(vpx1 + v.x, pos.x + 150_000) - v.x;
            let vpx3 = imax(vpx2, -30_000);
            let vpx4 = imin(vpx3, c.area.x - v.x + 30_000);
            let vpy1 = imin(vpy0, pos.y - 150_000);
            let vpy2 = imax(vpy1 + v.y, pos.y + 150_000) - v.y;
            let vpy3 = imax(vpy2, -30_000);
            let vpy4 = imin(vpy3, c.area.y - v.y + 30_000);
            Some(Point { x: vpx4 as i64, y: vpy4 as i64 })
        },
    }
}

impl GameEngine {
    fn apply_gravity(&mut self)
        requires
            in_range(old(self).speed),
            in_cfg(old(self).config.gravity),
        ensures
            *final(self) == (
            GameEngine { speed: pt_add(old(self).speed, old(self).config.gravity), ..*old(self) }),
    {
        let g: Point = self.config.gravity;
        self.speed.add(&g);
    }

    fn apply_wind(&mut self, ship: &Vec<Point>)
        requires
            old(self).wf(),
            ship@.len() >= 1,
            all_in_range(ship@),
        ensures
            *final(self) == (GameEngine { speed: final(self).speed, ..*old(self) }),
            final(self).speed == spec_apply_wind(
                old(self).config.winds@,
                ship@,
                old(self).speed,
                old(self).config.winds@.len() as int,
            ),
            in_range(final(self).speed),
    {
        let ghost e0 = *self;
        let n: usize = self.config.winds.len();
        let mut i: usize = 0;
        while i < n
            invariant
                n == e0.config.winds@.len(),
                i <= n,
                e0.wf(),
                ship@.len() >= 1,
                all_in_range(ship@),
                *self == (GameEngine { speed: self.speed, ..e0 }),
                in_range(self.speed),
                self.speed == spec_apply_wind(e0.config.winds@, ship@, e0.speed, i as int),
            decreases n - i,
        {
            let w: &Wind = &self.config.winds[i];
            proof {
                assert(wind_wf(e0.config.winds@[i as int]));
            }
            if crate::geom::collide(ship, w.shape()) {
                let acc: Point = *w.accel();
                proof {
                    assert(in_range(acc));
                }
                self.speed.add(&acc);
            }
            i = i + 1;
        }
    }

    fn friction(&mut self, amt: i64)
        requires
            in_range(old(self).speed),
            -1_000_000 <= amt <= 1_000_000,
        ensures
            *final(self) == (
            GameEngine { speed: pt_scale(old(self).speed, amt as int), ..*old(self) }),
    {
        self.speed.mul(amt);
    }

    fn apply_rotation(&mut self, amt: i32)
        requires
            0 <= amt <= 1000,
        ensures
            *final(self) == (
            GameEngine {
                rot: if old(self).landed {
                    old(self).rot
                } else {
                    norm360(
                        old(self).rot + spec_rot_delta(old(self).lrot, old(self).rrot, amt as int),
                    ) as i32
                },
                ..*old(self)
            }),
    {
        let mut drot: i32 = 0;
        if self.lrot {
            drot = drot - amt;
        }
        if self.rrot {
            drot = drot + amt;
        }
        self.rotate(drot);
    }

    fn apply_thrust(&mut self, amt: i64)
        requires
            old(self).wf(),
            -1_000_000 <= amt <= 1_000_000,
        ensures
            final(self).wf(),
            !(!old(self).blownup && old(self).thrust && old(self).fuel > 0) ==> *final(self)
                == *old(self),
            (!old(self).blownup && old(self).thrust && old(self).fuel > 0) ==> {
                &&& *final(self) == (
                GameEngine {
                    fuel: final(self).fuel,
                    speed: final(self).speed,
                    particles: final(self).particles,
                    rng: final(self).rng,
                    ..*old(self)
                })
                &&& final(self).fuel == old(self).fuel - 1
                &&& final(self).speed == pt_add(
                    old(self).speed,
                    spec_thrust_vec(amt as int, old(self).rot as int),
                )
                &&& final(self).particles@.len() == old(self).particles@.len() + 1
                &&& final(self).particles@.subrange(0, old(self).particles@.len() as int) == old(
                    self,
                ).particles@
                &&& is_exhaust_particle(
                    final(self).particles@.last(),
                    old(self).rot as int,
                    old(self).pos,
                    final(self).speed,
                )
                &&& final(self).rng.data == old(self).rng.data
            },
    {
        if !self.blownup && self.thrust && self.fuel > 0 {
            let ghost e0 = *self;
            self.fuel = self.fuel - 1;
            let s: i64 = self.trig.sin(self.rot);
            let c: i64 = self.trig.cos(self.rot);
            proof {
                lemma_sin_full_bounds(norm360(self.rot as int));
                lemma_abs_mul_bound(amt as int, s as int, 1_000_000, TRIG_ONE as int);
                lemma_abs_mul_bound(amt as int, c as int, 1_000_000, TRIG_ONE as int);
                crate::geom::lemma_dtr_bound(
                    amt as int * s as int,
                    TRIG_ONE as int,
                    10_000_000_000,
                );
                crate::geom::lemma_dtr_bound(
                    amt as int * c as int,
                    TRIG_ONE as int,
                    10_000_000_000,
                );
            }
            let tv = Point {
                x: crate::geom::div_trunc(amt * s, TRIG_ONE),
                y: -crate::geom::div_trunc(amt * c, TRIG_ONE),
            };
            self.speed.add(&tv);
            let b: u8 = self.rng.nextbits(6);
            proof {
                assert(1u8 << 6 == 64) by (bit_vector);
            }
            let drot: i32 = self.rot - 31 + (b as i32);
            let pt: Point = self.remap_ship(&Point { x: 0, y: 10_000 });
            let sj: i64 = self.trig.sin(drot);
            let cj: i64 = self.trig.cos(drot);
            proof {
                lemma_sin_full_bounds(norm360(drot as int));
                lemma_abs_mul_bound(500, sj as int, 500, TRIG_ONE as int);
                lemma_abs_mul_bound(500, cj as int, 500, TRIG_ONE as int);
                crate::geom::lemma_dtr_bound(500 * sj as int, TRIG_ONE as int, 5_000_000);
                crate::geom::lemma_dtr_bound(500 * cj as int, TRIG_ONE as int, 5_000_000);
            }
            let mut delta = Point {
                x: -crate::geom::div_trunc(500 * sj, TRIG_ONE),
                y: crate::geom::div_trunc(500 * cj, TRIG_ONE),
            };
            proof {
                assert(delta == spec_jitter(drot as int));
            }
            delta.add(&self.speed);
            let q: Particle = Particle::new(ParticleColor::Exhaust, pt, delta);
            self.particles.push(q);
            proof {
                assert(q.dir == pt_add(spec_jitter(drot as int), self.speed));
                assert(is_exhaust_particle(q, e0.rot as int, e0.pos, self.speed));
                assert(self.particles@.subrange(0, e0.particles@.len() as int) =~= e0.particles@);
            }
        }
    }

    fn blowup(&mut self)
        requires
            old(self).wf(),
        ensures
            final(self).wf(),
            *final(self) == (
            GameEngine { particles: final(self).particles, rng: final(self).rng, ..*old(self) }),
            final(self).rng.data == old(self).rng.data,
            final(self).particles@.len() == old(self).particles@.len() + 200,
            final(self).particles@.subrange(0, old(self).particles@.len() as int) == old(
                self,
            ).particles@,
            forall|i: int|
                old(self).particles@.len() <= i < final(self).particles@.len()
                    ==> is_explosion_particle(
                    #[trigger] final(self).particles@[i],
                    old(self).pos,
                    old(self).speed,
                ),
    {
        let ghost e0 = *self;
        let base: Point = self.remap_ship(&Point { x: 0, y: 0 });
        proof {
            assert(spec_rot(Point { x: 0, y: 0 }, self.rot as int) == (Point { x: 0, y: 0 }));
            assert(base == e0.pos);
            assert(1u8 << 5 == 32) by (bit_vector);
            assert(1u8 << 3 == 8) by (bit_vector);
        }
        let mut k: usize = 0;
        while k < 200
            invariant
                k <= 200,
                e0.wf(),
                base == e0.pos,
                *self == (GameEngine { particles: self.particles, rng: self.rng, ..e0 }),
                self.rng.wf(),
                self.rng.data == e0.rng.data,
                self.particles@.len() == e0.particles@.len() + k,
                self.particles@.subrange(0, e0.particles@.len() as int) == e0.particles@,
                forall|i: int|
                    e0.particles@.len() <= i < self.particles@.len() ==> is_explosion_particle(
                        #[trigger] self.particles@[i],
                        e0.pos,
                        e0.speed,
                    ),
                forall|i: int|
                    0 <= i < self.particles@.len() ==> particle_wf(#[trigger] self.particles@[i])
                        && self.particles@[i].life <= PARTICLE_LIFE,
            decreases 200 - k,
        {
            proof {
                assert(1u8 << 5 == 32) by (bit_vector);
                assert(1u8 << 3 == 8) by (bit_vector);
            }
            let bx: u8 = self.rng.nextbits(5);
            let by: u8 = self.rng.nextbits(5);
            let px: i64 = crate::geom::clamp64(base.x - 15_000 + (bx as i64) * 1000);
            let py: i64 = crate::geom::clamp64(base.y - 15_000 + (by as i64) * 1000);
            let kxb: u8 = self.rng.nextbits(3);
            let kyb: u8 = self.rng.nextbits(3);
            let kx: i64 = kxb as i64 + 5;
            let ky: i64 = kyb as i64 + 5;
            proof {
                crate::geom::lemma_dtr_bound(px as int - base.x, kx as int, 2 * CMAX as int);
                crate::geom::lemma_dtr_bound(py as int - base.y, ky as int, 2 * CMAX as int);
                vstd::arithmetic::div_mod::lemma_div_is_ordered_by_denominator(
                    2 * CMAX as int,
                    1,
                    kx as int,
                );
                vstd::arithmetic::div_mod::lemma_div_is_ordered_by_denominator(
                    2 * CMAX as int,
                    1,
                    ky as int,
                );
            }
            let dx: i64 = crate::geom::clamp64(
                crate::geom::div_trunc(px - base.x, kx) + self.speed.x,
            );
            let dy: i64 = crate::geom::clamp64(
                crate::geom::div_trunc(py - base.y, ky) + self.speed.y,
            );
            let q: Particle = Particle::new(
                ParticleColor::Explosion,
                Point { x: px, y: py },
                Point { x: dx, y: dy },
            );
            self.particles.push(q);
            proof {
                assert(q.pos == Point {
                    x: clamped(base.x - 15000 + (bx as int) * 1000) as i64,
                    y: clamped(base.y - 15000 + (by as int) * 1000) as i64,
                });
                assert(q.dir == Point {
                    x: clamped(dtr(q.pos.x - base.x, kx as int) + e0.speed.x) as i64,
                    y: clamped(dtr(q.pos.y - base.y, ky as int) + e0.speed.y) as i64,
                });
                assert(is_explosion_particle(q, e0.pos, e0.speed));
                assert(self.particles@.subrange(0, e0.particles@.len() as int) =~= e0.particles@);
            }
            k = k + 1;
        }
    }

    fn landing(&self) -> (r: bool)
        requires
            self.wf(),
        ensures
            r == spec_landing_at(
                self.config,
                self.rot as int,
                self.pos,
                self.speed,
                self.blownup,
            ),
    {
        if !self.is_level() || self.blownup {
            return false;
        }
        let touch: Point = self.remap_ship(&Point { x: 0, y: 10_000 });
        let ty: i64 = self.config.target_y;
        if crate::geom::inside_rect(
            &touch,
            self.config.target_x0,
            ty,
            self.config.target_x1,
            ty + 5000,
        ) {
            return true;
        }
        if touch.x() >= self.config.target_x0 && touch.x() <= self.config.target_x1 {
            return false;
        }
        let touch2: Point = self.remap_ship(&Point { x: -10_000, y: 10_000 });
        if crate::geom::inside_rect(
            &touch2,
            self.config.target_x0,
            ty,
            self.config.target_x1,
            ty + 5000,
        ) {
            return true;
        }
        let touch3: Point = self.remap_ship(&Point { x: 10_000, y: 10_000 });
        crate::geom::inside_rect(
            &touch3,
            self.config.target_x0,
            ty,
            self.config.target_x1,
            ty + 5000,
        )
    }

    #[verifier::rlimit(50)]
    fn collision(&self, ship: &Vec<Point>) -> (r: bool)
        requires
            self.wf(),
            ship@.len() >= 1,
            all_in_range(ship@),
        ensures
            r == spec_collision_parts(
                self.config,
                self.draw_step as int,
                self.asteroids@,
                ship@,
            ),
    {
        let ns: usize = ship.len();
        let mut i: usize = 0;
        while i < ns
            invariant
                ns == ship@.len(),
                i <= ns,
                self.wf(),
                forall|j: int|
                    0 <= j < i ==> in_rect(
                        #[trigger] ship@[j],
                        0,
                        0,
                        self.config.area.x as int,
                        self.config.area.y as int,
                    ),
            decreases ns - i,
        {
            let p: Point = ship[i];
            if !crate::geom::inside_rect(&p, 0, 0, self.config.area.x, self.config.area.y) {
                return true;
            }
            i = i + 1;
        }
        let walls: Vec<Vec<Point>> = self.obs_shape();
        let nw: usize = walls.len();
        let mut iw: usize = 0;
        while iw < nw
            invariant
                nw == walls@.len(),
                nw == self.config.walls@.len(),
                iw <= nw,
                self.wf(),
                ship@.len() >= 1,
                all_in_range(ship@),
                forall|j: int|
                    0 <= j < nw ==> #[trigger] walls@[j]@ == spec_wall_shape(
                        self.config.walls@[j],
                        self.draw_step as int,
                    ),
                forall|j: int| 0 <= j < nw ==> all_in_range(#[trigger] walls@[j]@),
                forall|j: int| 0 <= j < nw ==> #[trigger] walls@[j]@.len() >= 1,
                forall|j: int|
                    0 <= j < iw ==> !polys_collide(
                        ship@,
                        spec_wall_shape(#[trigger] self.config.walls@[j], self.draw_step as int),
                    ),
            decreases nw - iw,
        {
            if crate::geom::collide(ship, &walls[iw]) {
                return true;
            }
            iw = iw + 1;
        }
        let na: usize = self.asteroids.len();
        let mut ia: usize = 0;
        while ia < na
            invariant
                na == self.asteroids@.len(),
                ia <= na,
                self.wf(),
                ship@.len() >= 1,
                all_in_range(ship@),
                forall|j: int|
                    0 <= j < ia ==> !polys_collide(
                        ship@,
                        spec_remap4coll(#[trigger] self.asteroids@[j]),
                    ),
            decreases na - ia,
        {
            let hull: Vec<Point> = self.asteroids[ia].remap4coll(&self.trig);
            if crate::geom::collide(ship, &hull) {
                return true;
            }
            ia = ia + 1;
        }
        let pad: Vec<Point> = self.land_shape();
        if crate::geom::collide(ship, &pad) {
            return true;
        }
        false
    }

    fn reposition_viewport(&mut self)
        requires
            old(self).wf(),
        ensures
            final(self).wf(),
            *final(self) == (
            GameEngine {
                viewport_pos: spec_viewport_at(
                    old(self).config,
                    old(self).viewport_pos,
                    old(self).pos,
                ),
                ..*old(self)
            }),
    {
        let vp: Point = match &self.config.viewport {
            Some(v) => *v,
            None => {
                return ;
            },
        };
        let vpx0: i64 = match &self.viewport_pos {
            Some(v) => v.x,
            None => 0,
        };
        let vpy0: i64 = match &self.viewport_pos {
            Some(v) => v.y,
            None => 0,
        };
        let aw: i64 = self.config.area.x;
        let ah: i64 = self.config.area.y;
        let vpx: i64 = min64(vpx0, self.pos.x - 150_000);
        let vpx: i64 = max64(vpx + vp.x, self.pos.x + 150_000) - vp.x;
        let vpx: i64 = max64(vpx, -30_000);
        let vpx: i64 = min64(vpx, aw - vp.x + 30_000);
        let vpy: i64 = min64(vpy0, self.pos.y - 150_000);
        let vpy: i64 = max64(vpy + vp.y, self.pos.y + 150_000) - vp.y;
        let vpy: i64 = max64(vpy, -30_000);
        let vpy: i64 = min64(vpy, ah - vp.y + 30_000);
        self.viewport_pos = Some(Point { x: vpx, y: vpy });
    }
}


/// A drawn asteroid outline: vertex `i` sits at radius `dists[i]` (a
/// milli-unit length in the 30 to 61 unit band) along angle `angles[i]`,
/// through the table; the angles start below 64 degrees and strictly
/// increase by 30 to 61 degrees each, so the fan around the center covers
/// the star-shaped polygon.
pub open spec fn asteroid_outline(vert: Seq<Point>, angles: Seq<int>, dists: Seq<int>) -> bool {
    &&& angles.len() == vert.len()
    &&& dists.len() == vert.len()
    &&& forall|i: int|
        0 <= i < vert.len() ==> #[trigger] vert[i] == (Point {
            x: dtr(dists[i] * sindeg(angles[i]), TRIG_ONE as int) as i64,
            y: dtr(dists[i] * cosdeg(angles[i]), TRIG_ONE as int) as i64,
        })
    &&& forall|i: int| 0 <= i < vert.len() ==> 30_000 <= #[trigger] dists[i] <= 61_000
    &&& forall|i: int| 0 <= i < vert.len() ==> 0 <= #[trigger] angles[i] < 360
    &&& vert.len() > 0 ==> 0 <= angles[0] < 64
    &&& forall|i: int|
        0 < i < vert.len() ==> angles[i - 1] + 30 <= #[trigger] angles[i] <= angles[i - 1] + 61
}

/// An asteroid as the generator hands it out: upright, with a small drawn
/// spin and drift, a 5-to-12-vertex outline drawn in the 30-61 unit band
/// at strictly increasing angles, placed inside the configured spawn box.
pub open spec fn spec_fresh_asteroid(a: Asteroid, cfg: GameData) -> bool {
    &&& asteroid_wf(a)
    &&& a.rot == 0
    &&& -4 <= a.drot <= 3
    &&& 200 <= a.dpos.x <= 1200
    &&& 200 <= a.dpos.y <= 1200
    &&& 5 <= a.vert@.len() <= 12
    &&& forall|i: int|
        0 <= i < a.vert@.len() ==> -61_000 <= (#[trigger] a.vert@[i]).x <= 61_000 && -61_000
            <= a.vert@[i].y <= 61_000
    &&& exists|angles: Seq<int>, dists: Seq<int>| #[trigger] asteroid_outline(
        a.vert@,
        angles,
        dists,
    )
    &&& cfg.asteroid_pos0.x <= a.pos.x <= cfg.asteroid_pos0.x + max0(cfg.asteroid_area.x as int)
    &&& cfg.asteroid_pos0.y <= a.pos.y <= cfg.asteroid_pos0.y + max0(cfg.asteroid_area.y as int)
}

/// The bound `a` if it is positive, else 0: the largest value a bounded
/// draw over `a` can produce.
pub open spec fn max0(a: int) -> int {
    if a > 0 {
        a
    } else {
        0
    }
}

impl GameEngine {
    /// Draw a fresh asteroid: a fan of vertices 30 to 61 units from its
    /// center at drawn angles, placed in the configured spawn box, with a
    /// small drawn velocity and spin.
    fn new_asteroid(&mut self) -> (r: Asteroid)
        requires
            old(self).wf(),
        ensures
            final(self).wf(),
            *final(self) == (GameEngine { rng: final(self).rng, ..*old(self) }),
            final(self).rng.data == old(self).rng.data,
            spec_fresh_asteroid(r, old(self).config),
    {
        let ghost e0 = *self;
        proof {
            assert(1u8 << 6 == 64) by (bit_vector);
        }
        let mut v: Vec<Point> = Vec::new();
        let ghost mut angles: Seq<int> = Seq::empty();
        let ghost mut dists: Seq<int> = Seq::empty();
        let mut vgen: i32 = self.rng.nextbits(6) as i32;
        while vgen < 360
            invariant
                e0.wf(),
                *self == (GameEngine { rng: self.rng, ..e0 }),
                self.rng.wf(),
                self.rng.data == e0.rng.data,
                0 <= vgen <= 420,
                v@.len() == 0 ==> vgen < 64,
                v@.len() * 30 <= vgen,
                vgen <= 63 + 61 * v@.len(),
                v@.len() <= 12,
                forall|i: int|
                    0 <= i < v@.len() ==> -61_000 <= (#[trigger] v@[i]).x <= 61_000 && -61_000
                        <= v@[i].y <= 61_000,
                asteroid_outline(v@, angles, dists),
                v@.len() > 0 ==> angles.last() + 30 <= vgen <= angles.last() + 61,
            decreases 500 - vgen,
        {
            proof {
                assert(1u8 << 5 == 32) by (bit_vector);
            }
            let vd: u8 = self.rng.nextbits(5);
            let vdist: i64 = ((vd as i64) + 30) * 1000;
            let si: i64 = self.trig.sin(vgen);
            let co: i64 = self.trig.cos(vgen);
            proof {
                lemma_sin_full_bounds(norm360(vgen as int));
                lemma_abs_mul_bound(vdist as int, si as int, 61_000, TRIG_ONE as int);
                lemma_abs_mul_bound(vdist as int, co as int, 61_000, TRIG_ONE as int);
                crate::geom::lemma_dtr_bound(
                    vdist as int * si as int,
                    TRIG_ONE as int,
                    610_000_000,
                );
                crate::geom::lemma_dtr_bound(
                    vdist as int * co as int,
                    TRIG_ONE as int,
                    610_000_000,
                );
            }
            v.push(
                Point {
                    x: crate::geom::div_trunc(vdist * si, TRIG_ONE),
                    y: crate::geom::div_trunc(vdist * co, TRIG_ONE),
                },
            );
            proof {
                angles = angles.push(vgen as int);
                dists = dists.push(vdist as int);
                assert(asteroid_outline(v@, angles, dists));
            }
            let adv: u8 = self.rng.nextbits(5);
            vgen = vgen + (adv as i32) + 30;
        }
        let mx: i32 = self.config.asteroid_area.x as i32;
        let my: i32 = self.config.asteroid_area.y as i32;
        let rx: i32 = self.rng.rand(mx);
        let ry: i32 = self.rng.rand(my);
        let p = Point {
            x: self.config.asteroid_pos0.x + (rx as i64),
            y: self.config.asteroid_pos0.y + (ry as i64),
        };
        let dpx: i64 = 200 + (self.rng.rand(1000) as i64);
        let dpy: i64 = 200 + (self.rng.rand(1000) as i64);
        proof {
            assert(1u8 << 3 == 8) by (bit_vector);
        }
        let dr: i32 = (self.rng.nextbits(3) as i32) - 4;
        let r = Asteroid {
            vert: v,
            pos: p,
            rot: 0,
            dpos: Point { x: dpx, y: dpy },
            drot: dr,
        };
        proof {
            assert(0 <= rx as int <= max0(e0.config.asteroid_area.x as int));
            assert(0 <= ry as int <= max0(e0.config.asteroid_area.y as int));
            assert(5 <= r.vert@.len());
            assert(asteroid_outline(r.vert@, angles, dists));
        }
        r
    }

    /// A fresh play session from a configuration: the ship at its initial
    /// state, a full entropy buffer, a fresh angle table, and the
    /// configured number of asteroids spawned.
    pub fn new(cfg: GameData) -> (r: GameEngine)
        requires
            cfg.wf(),
        ensures
            r.wf(),
            r.rot == 0,
            r.pos == cfg.pos0,
            r.speed == cfg.speed0,
            !r.thrust,
            !r.block_alert,
            !r.lrot,
            !r.rrot,
            r.fuel == cfg.initial_fuel,
            r.fuel_warn == cfg.full_fuel as int / 5,
            !r.collided,
            !r.landed,
            r.particles@.len() == 0,
            r.asteroids@.len() == cfg.num_asteroids,
            forall|i: int|
                0 <= i < r.asteroids@.len() ==> spec_fresh_asteroid(
                    #[trigger] r.asteroids@[i],
                    cfg,
                ),
            !r.blownup,
            r.draw_step == 0,
            r.viewport_pos == cfg.viewport_pos0,
            r.config == cfg,
    {
        let tr: Trig = Trig::new();
        let rng: Random = Random::new();
        let num: u32 = cfg.num_asteroids;
        let mut rv = GameEngine {
            rot: 0,
            pos: cfg.pos0,
            speed: cfg.speed0,
            thrust: false,
            block_alert: false,
            lrot: false,
            rrot: false,
            fuel: cfg.initial_fuel,
            fuel_warn: cfg.full_fuel / 5,
            collided: false,
            landed: false,
            particles: Vec::new(),
            asteroids: Vec::new(),
            rng,
            blownup: false,
            trig: tr,
            draw_step: 0,
            viewport_pos: cfg.viewport_pos0,
            config: cfg,
        };
        let mut i: u32 = 0;
        while i < num
            invariant
                i <= num,
                rv.wf(),
                rv.asteroids@.len() == i,
                forall|j: int|
                    0 <= j < i ==> spec_fresh_asteroid(#[trigger] rv.asteroids@[j], cfg),
                rv.config == cfg,
                rv.rot == 0,
                rv.pos == rv.config.pos0,
                rv.speed == rv.config.speed0,
                !rv.thrust,
                !rv.block_alert,
                !rv.lrot,
                !rv.rrot,
                rv.fuel == rv.config.initial_fuel,
                rv.fuel_warn == rv.config.full_fuel as int / 5,
                !rv.collided,
                !rv.landed,
                rv.particles@.len() == 0,
                !rv.blownup,
                rv.draw_step == 0,
                rv.viewport_pos == rv.config.viewport_pos0,
            decreases num - i,
        {
            let ast: Asteroid = rv.new_asteroid();
            rv.asteroids.push(ast);
            i = i + 1;
        }
        rv
    }

    fn step_asteroids(&mut self)
        requires
            old(self).wf(),
        ensures
            final(self).wf(),
            *final(self) == (GameEngine { asteroids: final(self).asteroids, ..*old(self) }),
            final(self).asteroids@.len() == old(self).asteroids@.len(),
            forall|i: int|
                0 <= i < final(self).asteroids@.len() ==> #[trigger] final(self).asteroids@[i]
                    == asteroid_step(old(self).asteroids@[i], old(self).config.area),
    {
        let ghost e0 = *self;
        let area: Point = self.config.area;
        let n: usize = self.asteroids.len();
        let mut i: usize = 0;
        while i < n
            invariant
                e0.wf(),
                n == e0.asteroids@.len(),
                i <= n,
                area == e0.config.area,
                *self == (GameEngine { asteroids: self.asteroids, ..e0 }),
                self.asteroids@.len() == n,
                forall|j: int|
                    0 <= j < i ==> #[trigger] self.asteroids@[j] == asteroid_step(
                        e0.asteroids@[j],
                        area,
                    ),
                forall|j: int| i <= j < n ==> #[trigger] self.asteroids@[j] == e0.asteroids@[j],
                forall|j: int| 0 <= j < n ==> asteroid_wf(#[trigger] self.asteroids@[j]),
            decreases n - i,
        {
            self.asteroids[i].move_step(&area);
            i = i + 1;
        }
        // pruning hook: asteroids never report themselves finished today,
        // but the removal pass mirrors the particle layer's
        let mut k: usize = 0;
        while k < self.asteroids.len()
            invariant
                e0.wf(),
                k <= self.asteroids@.len(),
                *self == (GameEngine { asteroids: self.asteroids, ..e0 }),
                self.asteroids@.len() == n,
                n == e0.asteroids@.len(),
                forall|j: int|
                    0 <= j < n ==> #[trigger] self.asteroids@[j] == asteroid_step(
                        e0.asteroids@[j],
                        area,
                    ),
                forall|j: int| 0 <= j < n ==> asteroid_wf(#[trigger] self.asteroids@[j]),
                area == e0.config.area,
            decreases self.asteroids@.len() - k,
        {
            if self.asteroids[k].finished() {
                let _ = self.asteroids.remove(k);
            } else {
                k = k + 1;
            }
        }
    }

    fn step_particles(&mut self)
        requires
            old(self).wf(),
        ensures
            final(self).wf(),
            *final(self) == (GameEngine { particles: final(self).particles, ..*old(self) }),
            final(self).particles@ == spec_step_parts(old(self).particles@),
    {
        let ghost pstart = self.particles@;
        let np: usize = self.particles.len();
        let mut out: Vec<Particle> = Vec::new();
        let mut ip: usize = 0;
        while ip < np
            invariant
                np == pstart.len(),
                self.particles@ == pstart,
                ip <= np,
                forall|j: int|
                    0 <= j < np ==> particle_wf(#[trigger] pstart[j]) && pstart[j].life
                        <= PARTICLE_LIFE,
                out@ == spec_step_parts(pstart.subrange(0, ip as int)),
                forall|j: int|
                    0 <= j < out@.len() ==> particle_wf(#[trigger] out@[j]) && out@[j].life
                        <= PARTICLE_LIFE,
            decreases np - ip,
        {
            let mut p: Particle = self.particles[ip];
            p.move_step();
            proof {
                lemma_step_parts_push(pstart.subrange(0, ip as int), pstart[ip as int]);
                assert(pstart.subrange(0, ip + 1 as int) =~= pstart.subrange(
                    0,
                    ip as int,
                ).push(pstart[ip as int]));
            }
            if !p.finished() {
                out.push(p);
            }
            proof {
                if particle_step(pstart[ip as int]).life == 0 {
                    assert(out@ =~= spec_step_parts(pstart.subrange(0, ip as int))
                        + Seq::<Particle>::empty());
                } else {
                    assert(out@ =~= spec_step_parts(pstart.subrange(0, ip as int))
                        + seq![particle_step(pstart[ip as int])]);
                }
            }
            ip = ip + 1;
        }
        proof {
            assert(pstart.subrange(0, np as int) =~= pstart);
        }
        self.particles = out;
    }
}


impl GameEngine {
    /// The ship's part of a tick, after the asteroids have moved: position
    /// integration, then landing, collision/explosion, or the force
    /// pipeline.  Asteroids, particles' decay, the step counter and the
    /// viewport are handled by the caller.
    #[verifier::rlimit(100)]
    fn tick_ship(&mut self)
        requires
            old(self).wf(),
        ensures
            final(self).wf(),
            *final(self) == (
            GameEngine {
                pos: final(self).pos,
                speed: final(self).speed,
                rot: final(self).rot,
                fuel: final(self).fuel,
                landed: final(self).landed,
                collided: final(self).collided,
                blownup: final(self).blownup,
                particles: final(self).particles,
                rng: final(self).rng,
                ..*old(self)
            }),
            final(self).rng.data == old(self).rng.data,
            old(self).blownup ==> *final(self) == *old(self),
            !old(self).blownup ==> {
                let e0 = *old(self);
                let pos1 = pt_add(e0.pos, e0.speed);
                let landed1 = e0.landed || spec_landing_at(
                    e0.config,
                    e0.rot as int,
                    pos1,
                    e0.speed,
                    false,
                );
                &&& final(self).pos == pos1
                &&& final(self).landed == landed1
                &&& (landed1 ==> {
                    &&& final(self).collided == false
                    &&& final(self).rot == 0
                    &&& final(self).speed == (Point { x: 0, y: 0 })
                    &&& final(self).fuel == e0.fuel
                    &&& !final(self).blownup
                    &&& final(self).particles == e0.particles
                    &&& final(self).rng == e0.rng
                })
                &&& (!landed1 ==> {
                    let ship = spec_ship_shape_at(e0.rot as int, pos1);
                    let collided1 = spec_collision_parts(
                        e0.config,
                        e0.draw_step as int,
                        e0.asteroids@,
                        ship,
                    );
                    let rot2 = norm360(
                        e0.rot + spec_rot_delta(e0.lrot, e0.rrot, ROT_STEP as int),
                    );
                    let thrust_applied = !collided1 && e0.thrust && e0.fuel > 0;
                    let speed_g = pt_add(e0.speed, e0.config.gravity);
                    let speed_w = spec_apply_wind(
                        e0.config.winds@,
                        ship,
                        speed_g,
                        e0.config.winds@.len() as int,
                    );
                    let speed_t = if thrust_applied {
                        pt_add(speed_w, spec_thrust_vec(e0.config.thrust_pow as int, rot2))
                    } else {
                        speed_w
                    };
                    &&& final(self).collided == collided1
                    &&& final(self).blownup == collided1
                    &&& final(self).rot == rot2
                    &&& final(self).fuel == (if thrust_applied {
                        (e0.fuel - 1) as u32
                    } else {
                        e0.fuel
                    })
                    &&& final(self).speed == pt_scale(speed_t, e0.config.friction as int)
                    &&& final(self).particles@.len() == e0.particles@.len() + (if collided1 {
                        200int
                    } else {
                        0
                    }) + (if thrust_applied {
                        1int
                    } else {
                        0
                    })
                    &&& final(self).particles@.subrange(0, e0.particles@.len() as int)
                        == e0.particles@
                    &&& (collided1 ==> forall|i: int|
                        e0.particles@.len() <= i < e0.particles@.len() + 200
                            ==> is_explosion_particle(
                            #[trigger] final(self).particles@[i],
                            pos1,
                            e0.speed,
                        ))
                    &&& (thrust_applied ==> is_exhaust_particle(
                        final(self).particles@.last(),
                        rot2 as int,
                        pos1,
                        speed_t,
                    ))
                })
            },
    {
        if self.blownup {
            return ;
        }
        let ghost e0 = *self;
        let sp: Point = self.speed;
        self.pos.add(&sp);
        let land_now: bool = self.landing();
        self.landed = self.landed || land_now;
        if self.landed {
            self.collided = false;
            self.rot = 0;
            self.speed = Point { x: 0, y: 0 };
        } else {
            let ship: Vec<Point> = self.ship_shape();
            let coll: bool = self.collision(&ship);
            self.collided = coll;
            if coll {
                self.blownup = true;
                self.blowup();
            }
            self.apply_gravity();
            self.apply_wind(&ship);
            self.apply_rotation(ROT_STEP);
            let tp: i64 = self.config.thrust_pow;
            self.apply_thrust(tp);
            let fr: i64 = self.config.friction;
            self.friction(fr);
        }
    }

    /// Advance the world one tick: asteroids drift and bounce; the ship
    /// integrates its velocity and either lands, collides and blows up, or
    /// receives gravity, wind, rotation input, thrust and friction;
    /// particles decay; the viewport follows the ship.
    #[verifier::rlimit(100)]
    pub fn move_step(&mut self)
        requires
            old(self).wf(),
        ensures
            final(self).wf(),
            final(self).config == old(self).config,
            final(self).thrust == old(self).thrust,
            final(self).block_alert == old(self).block_alert,
            final(self).lrot == old(self).lrot,
            final(self).rrot == old(self).rrot,
            final(self).fuel_warn == old(self).fuel_warn,
            final(self).trig == old(self).trig,
            final(self).rng.data == old(self).rng.data,
            final(self).draw_step == (old(self).draw_step + 1) % 30,
            final(self).asteroids@.len() == old(self).asteroids@.len(),
            forall|i: int|
                0 <= i < final(self).asteroids@.len() ==> #[trigger] final(self).asteroids@[i]
                    == asteroid_step(old(self).asteroids@[i], old(self).config.area),
            final(self).viewport_pos == spec_viewport_at(
                old(self).config,
                old(self).viewport_pos,
                final(self).pos,
            ),
            old(self).blownup ==> {
                &&& final(self).pos == old(self).pos
                &&& final(self).speed == old(self).speed
                &&& final(self).rot == old(self).rot
                &&& final(self).fuel == old(self).fuel
                &&& final(self).landed == old(self).landed
                &&& final(self).collided == old(self).collided
                &&& final(self).blownup
                &&& final(self).particles@ == spec_step_parts(old(self).particles@)
                &&& final(self).rng == old(self).rng
            },
            !old(self).blownup ==> {
                let e0 = *old(self);
                let pos1 = pt_add(e0.pos, e0.speed);
                let landed1 = e0.landed || spec_landing_at(
                    e0.config,
                    e0.rot as int,
                    pos1,
                    e0.speed,
                    false,
                );
                &&& final(self).pos == pos1
                &&& final(self).landed == landed1
                &&& (landed1 ==> {
                    &&& final(self).collided == false
                    &&& final(self).rot == 0
                    &&& final(self).speed == (Point { x: 0, y: 0 })
                    &&& final(self).fuel == e0.fuel
                    &&& !final(self).blownup
                    &&& final(self).particles@ == spec_step_parts(e0.particles@)
                    &&& final(self).rng == e0.rng
                })
                &&& (!landed1 ==> {
                    let ship = spec_ship_shape_at(e0.rot as int, pos1);
                    let ds1 = ((e0.draw_step + 1) % 30) as int;
                    let collided1 = spec_collision_parts(
                        e0.config,
                        ds1,
                        final(self).asteroids@,
                        ship,
                    );
                    let rot2 = norm360(
                        e0.rot + spec_rot_delta(e0.lrot, e0.rrot, ROT_STEP as int),
                    );
                    let thrust_applied = !collided1 && e0.thrust && e0.fuel > 0;
                    let speed_g = pt_add(e0.speed, e0.config.gravity);
                    let speed_w = spec_apply_wind(
                        e0.config.winds@,
                        ship,
                        speed_g,
                        e0.config.winds@.len() as int,
                    );
                    let speed_t = if thrust_applied {
                        pt_add(speed_w, spec_thrust_vec(e0.config.thrust_pow as int, rot2))
                    } else {
                        speed_w
                    };
                    &&& final(self).collided == collided1
                    &&& final(self).blownup == collided1
                    &&& final(self).rot == rot2
                    &&& final(self).fuel == (if thrust_applied {
                        (e0.fuel - 1) as u32
                    } else {
                        e0.fuel
                    })
                    &&& final(self).speed == pt_scale(speed_t, e0.config.friction as int)
                    &&& exists|adds: Seq<Particle>|
                        {
                            &&& #[trigger] adds.len() == (if collided1 {
                                200int
                            } else {
                                0
                            }) + (if thrust_applied {
                                1int
                            } else {
                                0
                            })
                            &&& (collided1 ==> forall|i: int|
                                0 <= i < 200 ==> is_explosion_particle(
                                    #[trigger] adds[i],
                                    pos1,
                                    e0.speed,
                                ))
                            &&& (thrust_applied ==> is_exhaust_particle(
                                adds.last(),
                                rot2 as int,
                                pos1,
                                speed_t,
                            ))
                            &&& final(self).particles@ == spec_step_parts(e0.particles@ + adds)
                        }
                })
            },
    {
        let ghost e0 = *self;
        self.draw_step = (self.draw_step + 1) % 30;
        self.step_asteroids();
        self.tick_ship();
        proof {
            let adds = self.particles@.subrange(
                e0.particles@.len() as int,
                self.particles@.len() as int,
            );
            assert(self.particles@ =~= e0.particles@ + adds);
        }
        let ghost e2 = *self;
        self.step_particles();
        self.reposition_viewport();
        proof {
            if !e0.blownup {
                let pos1 = pt_add(e0.pos, e0.speed);
                let landed1 = e0.landed || spec_landing_at(
                    e0.config,
                    e0.rot as int,
                    pos1,
                    e0.speed,
                    false,
                );
                if !landed1 {
                    let adds = e2.particles@.subrange(
                        e0.particles@.len() as int,
                        e2.particles@.len() as int,
                    );
                    assert(e2.particles@ =~= e0.particles@ + adds);
                    assert(forall|i: int|
                        0 <= i < adds.len() ==> #[trigger] adds[i] == e2.particles@[e0.particles@.len()
                            + i]);
                }
            }
        }
    }
}


/// The soft bounce law, x-axis: an asteroid whose drift carries it past the
/// margin left of the playfield while still moving left leaves the step
/// with its x-velocity flipped; at the same spot already moving back
/// inward, it keeps its velocity.
pub proof fn lemma_asteroid_bounce_x(a: Asteroid, area: Point)
    requires
        asteroid_wf(a),
        in_cfg(area),
        0 <= area.x,
        0 <= area.y,
        pt_add(a.pos, a.dpos).x < -ASTEROID_MARGIN,
    ensures
        a.dpos.x < 0 ==> asteroid_step(a, area).dpos.x == -a.dpos.x,
        a.dpos.x >= 0 ==> asteroid_step(a, area).dpos.x == a.dpos.x,
{
}

/// The soft bounce law, y-axis, at the far boundary: past the margin below
/// the playfield and still moving down, the y-velocity flips; moving back
/// up, it is kept.
pub proof fn lemma_asteroid_bounce_y(a: Asteroid, area: Point)
    requires
        asteroid_wf(a),
        in_cfg(area),
        0 <= area.x,
        0 <= area.y,
        pt_add(a.pos, a.dpos).y >= area.y + ASTEROID_MARGIN,
    ensures
        a.dpos.y > 0 ==> asteroid_step(a, area).dpos.y == -a.dpos.y,
        a.dpos.y <= 0 ==> asteroid_step(a, area).dpos.y == a.dpos.y,
{
}

/// The fade law: a particle born with a 20-tick life keeps full opacity
/// through its first 10 ticks of decay, then fades linearly, reaching 0 as
/// its life runs out (at which point the stepping pass removes it).
pub proof fn lemma_alpha_decay(k: int)
    requires
        0 <= k <= 20,
    ensures
        k <= 10 ==> spec_alpha(20 - k) == 1000,
        k > 10 ==> spec_alpha(20 - k) == (20 - k) * 100,
        k == 20 ==> spec_alpha(20 - k) == 0,
{
}

} // verus!
