//! Level configuration: static and parametrically animated wall polygons,
//! and the full configuration record the engine is constructed from.

use crate::engine::{wind_wf, Wind};
use crate::geom::{
    all_in_range, clamped, cosdeg, dtr, lemma_abs_mul_bound, pt_add, spec_rot, Point, Trig,
    TRIG_ONE,
};
use vstd::prelude::*;

verus! {

/// Largest magnitude a configured coordinate may take, in milli-units.
/// Keeping configuration an order of magnitude inside the saturation range
/// `CMAX` leaves headroom for translation and rotation.
pub const CFG_MAX: i64 = 100_000_000;

/// Both coordinates lie in the configuration range.
pub open spec fn in_cfg(p: Point) -> bool {
    &&& -CFG_MAX <= p.x <= CFG_MAX
    &&& -CFG_MAX <= p.y <= CFG_MAX
}

/// Every point of the sequence lies in the configuration range.
pub open spec fn all_in_cfg(s: Seq<Point>) -> bool {
    forall|i: int| 0 <= i < s.len() ==> in_cfg(#[trigger] s[i])
}

/// How a wall moves as the step counter advances.
#[derive(Clone, Copy, PartialEq, Eq, Structural, Debug)]
pub enum Motion {
    /// The shape never moves.
    Static,
    /// The shape rotates about a pivot.
    Rot,
    /// The shape oscillates horizontally on a cosine.
    XCos,
}

/// A wall polygon, either fixed or animated by the step counter.
pub struct Wall {
    pub shape: Vec<Point>,
    pub base: Point,
    pub motion: Motion,
    pub ampl: i64,
    pub freq: i32,
    pub step: u32,
    pub init: u32,
}

/// A frequency setting reduced to the supported range: values in `1..=6`
/// stand, anything else falls back to 4.
pub open spec fn spec_norm_freq(f: int) -> int {
    if 1 <= f <= 6 {
        f
    } else {
        4
    }
}

pub open spec fn wall_wf(w: Wall) -> bool {
    &&& w.shape@.len() >= 1
    &&& all_in_cfg(w.shape@)
    &&& in_cfg(w.base)
    &&& -1_000_000 <= w.ampl <= 1_000_000
    &&& w.motion != Motion::Static ==> {
        &&& 1 <= w.freq <= 6
        &&& w.step as int == 360int / (w.freq as int)
        &&& w.init < w.step
    }
}

/// The polygon a wall presents at step counter `gstep`.
pub open spec fn spec_wall_shape(w: Wall, gstep: int) -> Seq<Point> {
    match w.motion {
        Motion::Static => w.shape@,
        Motion::XCos => {
            let dx = dtr(cosdeg(w.freq * (gstep % (w.step as int))) * w.ampl, TRIG_ONE as int);
            w.shape@.map_values(|p: Point| Point { x: clamped(p.x + dx) as i64, y: p.y })
        },
        Motion::Rot => {
            let f = if w.ampl > 0 {
                w.freq as int
            } else {
                360 - w.freq
            };
            let a = f * ((w.init + gstep) % (w.step as int));
            w.shape@.map_values(|p: Point| pt_add(spec_rot(p, a), w.base))
        },
    }
}

impl Wall {
    /// A wall that never moves.
    pub fn fixed(shape: Vec<Point>) -> (r: Wall)
        requires
            shape@.len() >= 1,
            all_in_cfg(shape@),
        ensures
            wall_wf(r),
            r.motion == Motion::Static,
            r.shape == shape,
    {
        Wall {
            shape,
            motion: Motion::Static,
            base: Point { x: 0, y: 0 },
            ampl: 0,
            freq: 0,
            step: 0,
            init: 0,
        }
    }

    fn normalize_freq(freq: u8) -> (r: u8)
        ensures
            r == spec_norm_freq(freq as int),
            1 <= r <= 6,
    {
        match freq {
            1 => 1,
            2 => 2,
            3 => 3,
            4 => 4,
            5 => 5,
            6 => 6,
            _ => 4,
        }
    }

    /// A wall oscillating horizontally with amplitude `ampl` milli-units.
    pub fn xcos(shape: Vec<Point>, ampl: i64, freq: u8) -> (r: Wall)
        requires
            shape@.len() >= 1,
            all_in_cfg(shape@),
            -1_000_000 <= ampl <= 1_000_000,
        ensures
            wall_wf(r),
            r.motion == Motion::XCos,
            r.shape == shape,
            r.ampl == ampl,
            r.freq == spec_norm_freq(freq as int),
            r.init == 0,
    {
        let f: u8 = Self::normalize_freq(freq);
        proof {
            lemma_small_divs();
        }
        Wall {
            shape,
            motion: Motion::XCos,
            base: Point { x: 0, y: 0 },
            ampl,
            freq: f as i32,
            step: 360u32 / (f as u32),
            init: 0,
        }
    }

    /// A wall rotating about `base`, counter-clockwise when `ccw` is set,
    /// starting from phase `init`.
    pub fn rotating(base: Point, shape: Vec<Point>, init: u32, ccw: bool, freq: u8) -> (r: Wall)
        requires
            shape@.len() >= 1,
            all_in_cfg(shape@),
            in_cfg(base),
            init < 360int / spec_norm_freq(freq as int),
        ensures
            wall_wf(r),
            r.motion == Motion::Rot,
            r.shape == shape,
            r.base == base,
            r.freq == spec_norm_freq(freq as int),
            r.init == init,
            (r.ampl > 0) == !ccw,
    {
        let f: u8 = Self::normalize_freq(freq);
        proof {
            lemma_small_divs();
        }
        Wall {
            shape,
            motion: Motion::Rot,
            base,
            ampl: if ccw {
                -1000
            } else {
                1000
            },
            freq: f as i32,
            step: 360u32 / (f as u32),
            init,
        }
    }

    /// The polygon this wall presents at step counter `gstep`.
    pub fn shape(&self, gstep: u32, tr: &Trig) -> (r: Vec<Point>)
        requires
            wall_wf(*self),
            tr.wf(),
            gstep <= 1_000_000,
        ensures
            r@ == spec_wall_shape(*self, gstep as int),
            r@.len() == self.shape@.len(),
            all_in_range(r@),
    {
        match self.motion {
            Motion::Static => {
                let n: usize = self.shape.len();
                let mut out: Vec<Point> = Vec::new();
                let mut i: usize = 0;
                while i < n
                    invariant
                        n == self.shape@.len(),
                        i <= n,
                        out@.len() == i,
                        forall|j: int| 0 <= j < i ==> out@[j] == self.shape@[j],
                    decreases n - i,
                {
                    out.push(self.shape[i]);
                    i = i + 1;
                }
                proof {
                    assert(out@ =~= spec_wall_shape(*self, gstep as int));
                }
                out
            },
            Motion::XCos => {
                let ph: u32 = gstep % self.step;
                proof {
                    lemma_abs_mul_bound(self.freq as int, ph as int, 6, 359);
                }
                let deg: i32 = self.freq * (ph as i32);
                let c: i64 = tr.cos(deg);
                proof {
                    crate::geom::lemma_sin_full_bounds(crate::geom::norm360(deg as int));
                    lemma_abs_mul_bound(c as int, self.ampl as int, TRIG_ONE as int, 1_000_000);
                }
                proof {
                    crate::geom::lemma_dtr_bound(
                        c * self.ampl,
                        TRIG_ONE as int,
                        10_000_000_000,
                    );
                }
                let dx: i64 = crate::geom::div_trunc(c * self.ampl, TRIG_ONE);
                let ghost target = spec_wall_shape(*self, gstep as int);
                let n: usize = self.shape.len();
                let mut out: Vec<Point> = Vec::new();
                let mut i: usize = 0;
                while i < n
                    invariant
                        n == self.shape@.len(),
                        i <= n,
                        out@.len() == i,
                        all_in_cfg(self.shape@),
                        -1_000_000 <= dx <= 1_000_000,
                        dx == dtr(
                            cosdeg(self.freq * ((gstep as int) % (self.step as int))) * self.ampl,
                            TRIG_ONE as int,
                        ),
                        target == spec_wall_shape(*self, gstep as int),
                        self.motion == Motion::XCos,
                        forall|j: int|
                            0 <= j < i ==> out@[j] == (Point {
                                x: clamped(self.shape@[j].x + dx) as i64,
                                y: self.shape@[j].y,
                            }),
                    decreases n - i,
                {
                    let p: Point = self.shape[i];
                    out.push(Point { x: crate::geom::clamp64(p.x + dx), y: p.y });
                    i = i + 1;
                }
                proof {
                    assert(out@ =~= target);
                }
                out
            },
            Motion::Rot => {
                let f: i32 = if self.ampl > 0 {
                    self.freq
                } else {
                    360 - self.freq
                };
                let ph: u32 = (self.init + gstep) % self.step;
                proof {
                    lemma_abs_mul_bound(f as int, ph as int, 360, 359);
                }
                let a: i32 = f * (ph as i32);
                let ghost target = spec_wall_shape(*self, gstep as int);
                let n: usize = self.shape.len();
                let mut out: Vec<Point> = Vec::new();
                let mut i: usize = 0;
                while i < n
                    invariant
                        n == self.shape@.len(),
                        i <= n,
                        out@.len() == i,
                        all_in_cfg(self.shape@),
                        in_cfg(self.base),
                        tr.wf(),
                        a == (if self.ampl > 0 {
                            self.freq as int
                        } else {
                            360 - self.freq
                        }) * (((self.init + gstep) as int) % (self.step as int)),
                        target == spec_wall_shape(*self, gstep as int),
                        self.motion == Motion::Rot,
                        forall|j: int|
                            0 <= j < i ==> out@[j] == pt_add(
                                spec_rot(self.shape@[j], a as int),
                                self.base,
                            ),
                    decreases n - i,
                {
                    let p: Point = self.shape[i];
                    let mut q: Point = tr.rot(&p, a);
                    q.add(&self.base);
                    out.push(q);
                    i = i + 1;
                }
                proof {
                    assert(out@ =~= target);
                }
                out
            },
        }
    }
}

/// The configuration record a play session is built from.  All coordinates
/// are milli-units; `friction` is in thousandths; `thrust_pow` is a
/// milli-unit velocity increment per tick.
pub struct GameData {
    pub area: Point,
    pub viewport: Option<Point>,
    pub viewport_pos0: Option<Point>,
    pub pos0: Point,
    pub speed0: Point,
    pub target_y: i64,
    pub target_x0: i64,
    pub target_x1: i64,
    pub num_asteroids: u32,
    pub asteroid_pos0: Point,
    pub asteroid_area: Point,
    pub levelling_rot: i32,
    pub levelling_speed_x: i64,
    pub levelling_speed_y: i64,
    pub initial_fuel: u32,
    pub full_fuel: u32,
    pub thrust_pow: i64,
    pub gravity: Point,
    pub friction: i64,
    pub walls: Vec<Wall>,
    pub winds: Vec<Wind>,
}

impl GameData {
    pub open spec fn wf(self) -> bool {
        &&& in_cfg(self.area)
        &&& 0 <= self.area.x
        &&& 0 <= self.area.y
        &&& match self.viewport {
            Some(v) => in_cfg(v) && 0 <= v.x && 0 <= v.y,
            None => true,
        }
        &&& match self.viewport_pos0 {
            Some(v) => in_cfg(v),
            None => true,
        }
        &&& in_cfg(self.pos0)
        &&& in_cfg(self.speed0)
        &&& -CFG_MAX <= self.target_y <= CFG_MAX
        &&& -CFG_MAX <= self.target_x0 <= CFG_MAX
        &&& -CFG_MAX <= self.target_x1 <= CFG_MAX
        &&& in_cfg(self.asteroid_pos0)
        &&& in_cfg(self.asteroid_area)
        &&& 0 <= self.levelling_rot <= 360
        &&& 0 <= self.levelling_speed_x
        &&& 0 <= self.levelling_speed_y
        &&& self.full_fuel >= 1
        &&& -1_000_000 <= self.thrust_pow <= 1_000_000
        &&& in_cfg(self.gravity)
        &&& 0 <= self.friction <= 1000
        &&& forall|i: int| 0 <= i < self.walls@.len() ==> wall_wf(#[trigger] self.walls@[i])
        &&& forall|i: int| 0 <= i < self.winds@.len() ==> wind_wf(#[trigger] self.winds@[i])
    }

    /// The wall polygons as they stand at step counter `gstep`.
    pub fn get_walls(&self, gstep: u32, tr: &Trig) -> (r: Vec<Vec<Point>>)
        requires
            self.wf(),
            tr.wf(),
            gstep <= 1_000_000,
        ensures
            r@.len() == self.walls@.len(),
            forall|i: int|
                0 <= i < r@.len() ==> #[trigger] r@[i]@ == spec_wall_shape(
                    self.walls@[i],
                    gstep as int,
                ),
            forall|i: int| 0 <= i < r@.len() ==> all_in_range(#[trigger] r@[i]@),
            forall|i: int| 0 <= i < r@.len() ==> #[trigger] r@[i]@.len() >= 1,
    {
        let n: usize = self.walls.len();
        let mut out: Vec<Vec<Point>> = Vec::new();
        let mut i: usize = 0;
        while i < n
            invariant
                n == self.walls@.len(),
                i <= n,
                out@.len() == i,
                self.wf(),
                tr.wf(),
                gstep <= 1_000_000,
                forall|j: int|
                    0 <= j < i ==> #[trigger] out@[j]@ == spec_wall_shape(
                        self.walls@[j],
                        gstep as int,
                    ),
                forall|j: int| 0 <= j < i ==> all_in_range(#[trigger] out@[j]@),
                forall|j: int| 0 <= j < i ==> #[trigger] out@[j]@.len() >= 1,
            decreases n - i,
        {
            let w: Vec<Point> = self.walls[i].shape(gstep, tr);
            out.push(w);
            i = i + 1;
        }
        out
    }
}

proof fn lemma_small_divs()
    ensures
        360int / 1 == 360,
        360int / 2 == 180,
        360int / 3 == 120,
        360int / 4 == 90,
        360int / 5 == 72,
        360int / 6 == 60,
{
}



/// Asteroid count for a difficulty notch.
pub open spec fn spec_ast_default(a: int) -> int {
    if a == 0 { 0 } else if a == 1 { 1 } else if a == 2 { 3 }
    else if a == 3 { 5 } else if a == 4 { 7 } else { 3 }
}

/// Asteroid count for a difficulty notch on the large map.
pub open spec fn spec_ast_huge(a: int) -> int {
    if a == 0 { 0 } else if a == 1 { 1 } else if a == 2 { 5 }
    else if a == 3 { 9 } else if a == 4 { 12 } else { 5 }
}

/// Starting fuel for a fuel notch.
pub open spec fn spec_fuel_default(f: int) -> int {
    if f == 0 { 150 } else if f == 1 { 300 } else if f == 2 { 500 }
    else if f == 3 { 700 } else { 500 }
}

/// Starting fuel for a fuel notch on the longer maps.
pub open spec fn spec_fuel_increased(f: int) -> int {
    if f == 0 { 300 } else if f == 1 { 500 } else if f == 2 { 750 }
    else if f == 3 { 1000 } else { 750 }
}

/// Friction multiplier, in thousandths, for a friction notch.
pub open spec fn spec_friction_default(f: int) -> int {
    if f == 0 { 1000 } else if f == 1 { 996 } else if f == 2 { 980 }
    else if f == 3 { 970 } else if f == 4 { 930 } else { 996 }
}

/// Thrust power, in milli-units per tick, for a thrust notch.
pub open spec fn spec_thrust_default(t: int) -> int {
    if t == 0 { 100 } else if t == 1 { 120 } else if t == 2 { 140 }
    else if t == 3 { 240 } else { 120 }
}

/// Gravity multiplier, in thousandths, for a gravity notch.
pub open spec fn spec_gravity_default(g: int) -> int {
    if g == 0 { 0 } else if g == 1 { 300 } else if g == 2 { 1000 }
    else if g == 3 { 1500 } else if g == 4 { 1800 } else { 1000 }
}

/// The vertical gravity per tick, in milli-units, for a gravity notch: the
/// base pull of 0.06 units scaled by the notch's multiplier.
pub open spec fn spec_gravity_y(g: int) -> int {
    60 * spec_gravity_default(g) / 1000
}

impl GameData {
    fn ast_default(ast: u32) -> (r: u32)
        ensures r == spec_ast_default(ast as int),
    {
        match ast { 0 => 0, 1 => 1, 2 => 3, 3 => 5, 4 => 7, _ => 3 }
    }

    fn ast_huge(ast: u32) -> (r: u32)
        ensures r == spec_ast_huge(ast as int),
    {
        match ast { 0 => 0, 1 => 1, 2 => 5, 3 => 9, 4 => 12, _ => 5 }
    }

    fn fuel_default(fuel: u32) -> (r: u32)
        ensures r == spec_fuel_default(fuel as int), 150 <= r <= 700,
    {
        match fuel { 0 => 150, 1 => 300, 2 => 500, 3 => 700, _ => 500 }
    }

    fn fuel_increased(fuel: u32) -> (r: u32)
        ensures r == spec_fuel_increased(fuel as int), 300 <= r <= 1000,
    {
        match fuel { 0 => 300, 1 => 500, 2 => 750, 3 => 1000, _ => 750 }
    }

    fn friction_default(friction: u32) -> (r: i64)
        ensures r == spec_friction_default(friction as int), 930 <= r <= 1000,
    {
        match friction { 0 => 1000, 1 => 996, 2 => 980, 3 => 970, 4 => 930, _ => 996 }
    }

    fn thrust_default(thrust: u32) -> (r: i64)
        ensures r == spec_thrust_default(thrust as int), 100 <= r <= 240,
    {
        match thrust { 0 => 100, 1 => 120, 2 => 140, 3 => 240, _ => 120 }
    }

    fn gravity_default(grav: u32) -> (r: i64)
        ensures r == spec_gravity_default(grav as int), 0 <= r <= 1800,
    {
        match grav { 0 => 0, 1 => 300, 2 => 1000, 3 => 1500, 4 => 1800, _ => 1000 }
    }

    fn gravity_y(grav: u32) -> (r: i64)
        ensures r == spec_gravity_y(grav as int), 0 <= r <= 108,
    {
        let g: i64 = Self::gravity_default(grav);
        (((60 * g) as u64) / 1000) as i64
    }

    fn fuel_bar(f: u32, floor: u32) -> (r: u32)
        requires floor >= 1,
        ensures r == (if f as int > floor as int { f as int } else { floor as int }), r >= 1,
    {
        if f > floor { f } else { floor }
    }


    /// The plain introductory map: an open field with a wide pad.
    pub fn simple(ast: u32, thrust: u32, fuel: u32, gravity: u32, fric: u32) -> (r: GameData)
        ensures
            r.wf(),
            r.area == (Point { x: 320000, y: 640000 }),
            r.pos0 == (Point { x: 160000, y: 50000 }),
            r.speed0 == (Point { x: 0, y: 0 }),
            r.target_y == 600000,
            r.target_x0 == 100000,
            r.target_x1 == 220000,
            r.num_asteroids == spec_ast_default(ast as int),
            r.levelling_rot == 15,
            r.levelling_speed_x == 3500,
            r.levelling_speed_y == 2500,
            r.initial_fuel == spec_fuel_default(fuel as int),
            r.full_fuel == (if spec_fuel_default(fuel as int) > 500 { spec_fuel_default(fuel as int) } else { 500int }),
            r.thrust_pow == spec_thrust_default(thrust as int),
            r.gravity == (Point { x: 0, y: spec_gravity_y(gravity as int) as i64 }),
            r.friction == spec_friction_default(fric as int),
            r.walls@.len() == 0,
            r.winds@.len() == 0,
    {
        let na: u32 = Self::ast_default(ast);
        let f: u32 = Self::fuel_default(fuel);
        let fr: i64 = Self::friction_default(fric);
        let th: i64 = Self::thrust_default(thrust);
        let gy: i64 = Self::gravity_y(gravity);
        let ff: u32 = Self::fuel_bar(f, 500);
        GameData {
            area: Point::new(320000, 640000),
            viewport: None,
            viewport_pos0: None,
            pos0: Point::new(160000, 50000),
            speed0: Point::new(0, 0),
            target_y: 600000,
            target_x0: 100000,
            target_x1: 220000,
            num_asteroids: na,
            asteroid_pos0: Point::new(0, 120000),
            asteroid_area: Point::new(320000, 520000),
            levelling_rot: 15,
            levelling_speed_x: 3500,
            levelling_speed_y: 2500,
            initial_fuel: f,
            full_fuel: ff,
            thrust_pow: th,
            gravity: Point::new(0, gy),
            friction: fr,
            winds: vec![],
            walls: vec![],
        }
    }

    /// The open field crossed by alternating horizontal wind bands.
    pub fn shifted(ast: u32, thrust: u32, fuel: u32, gravity: u32, fric: u32) -> (r: GameData)
        ensures
            r.wf(),
            r.area == (Point { x: 320000, y: 640000 }),
            r.pos0 == (Point { x: 160000, y: 50000 }),
            r.speed0 == (Point { x: 0, y: 0 }),
            r.target_y == 600000,
            r.target_x0 == 100000,
            r.target_x1 == 220000,
            r.num_asteroids == spec_ast_default(ast as int),
            r.levelling_rot == 15,
            r.levelling_speed_x == 3500,
            r.levelling_speed_y == 2500,
            r.initial_fuel == spec_fuel_default(fuel as int),
            r.full_fuel == (if spec_fuel_default(fuel as int) > 500 { spec_fuel_default(fuel as int) } else { 500int }),
            r.thrust_pow == spec_thrust_default(thrust as int),
            r.gravity == (Point { x: 0, y: spec_gravity_y(gravity as int) as i64 }),
            r.friction == spec_friction_default(fric as int),
            r.walls@.len() == 0,
            r.winds@.len() == 5,
    {
        let na: u32 = Self::ast_default(ast);
        let f: u32 = Self::fuel_default(fuel);
        let fr: i64 = Self::friction_default(fric);
        let th: i64 = Self::thrust_default(thrust);
        let gy: i64 = Self::gravity_y(gravity);
        let ff: u32 = Self::fuel_bar(f, 500);
        let tr: Trig = Trig::new();
        GameData {
            area: Point::new(320000, 640000),
            viewport: None,
            viewport_pos0: None,
            pos0: Point::new(160000, 50000),
            speed0: Point::new(0, 0),
            target_y: 600000,
            target_x0: 100000,
            target_x1: 220000,
            num_asteroids: na,
            asteroid_pos0: Point::new(0, 120000),
            asteroid_area: Point::new(320000, 520000),
            levelling_rot: 15,
            levelling_speed_x: 3500,
            levelling_speed_y: 2500,
            initial_fuel: f,
            full_fuel: ff,
            thrust_pow: th,
            gravity: Point::new(0, gy),
            friction: fr,
            winds: vec![
            Wind::new(vec![Point::new(0, 100000), Point::new(320000, 100000), Point::new(320000, 200000), Point::new(0, 200000)], 60, 0, &tr),
            Wind::new(vec![Point::new(0, 200000), Point::new(320000, 200000), Point::new(320000, 300000), Point::new(0, 300000)], 60, 180, &tr),
            Wind::new(vec![Point::new(0, 300000), Point::new(320000, 300000), Point::new(320000, 400000), Point::new(0, 400000)], 55, 0, &tr),
            Wind::new(vec![Point::new(0, 400000), Point::new(320000, 400000), Point::new(320000, 500000), Point::new(0, 500000)], 55, 180, &tr),
            Wind::new(vec![Point::new(0, 500000), Point::new(320000, 500000), Point::new(320000, 600000), Point::new(0, 600000)], 55, 90, &tr),
        ],
            walls: vec![],
        }
    }

    /// A narrow winding descent between fixed walls.
    pub fn tunnel(ast: u32, thrust: u32, fuel: u32, gravity: u32, fric: u32) -> (r: GameData)
        ensures
            r.wf(),
            r.area == (Point { x: 350000, y: 700000 }),
            r.pos0 == (Point { x: 40000, y: 30000 }),
            r.speed0 == (Point { x: 0, y: 0 }),
            r.target_y == 650000,
            r.target_x0 == 200000,
            r.target_x1 == 350000,
            r.num_asteroids == spec_ast_default(ast as int),
            r.levelling_rot == 15,
            r.levelling_speed_x == 3500,
            r.levelling_speed_y == 2500,
            r.initial_fuel == spec_fuel_increased(fuel as int),
            r.full_fuel == (if spec_fuel_increased(fuel as int) > 750 { spec_fuel_increased(fuel as int) } else { 750int }),
            r.thrust_pow == spec_thrust_default(thrust as int),
            r.gravity == (Point { x: 0, y: spec_gravity_y(gravity as int) as i64 }),
            r.friction == spec_friction_default(fric as int),
            r.walls@.len() == 9,
            r.winds@.len() == 0,
    {
        let na: u32 = Self::ast_default(ast);
        let f: u32 = Self::fuel_increased(fuel);
        let fr: i64 = Self::friction_default(fric);
        let th: i64 = Self::thrust_default(thrust);
        let gy: i64 = Self::gravity_y(gravity);
        let ff: u32 = Self::fuel_bar(f, 750);
        GameData {
            area: Point::new(350000, 700000),
            viewport: None,
            viewport_pos0: None,
            pos0: Point::new(40000, 30000),
            speed0: Point::new(0, 0),
            target_y: 650000,
            target_x0: 200000,
            target_x1: 350000,
            num_asteroids: na,
            asteroid_pos0: Point::new(60000, 60000),
            asteroid_area: Point::new(290000, 640000),
            levelling_rot: 15,
            levelling_speed_x: 3500,
            levelling_speed_y: 2500,
            initial_fuel: f,
            full_fuel: ff,
            thrust_pow: th,
            gravity: Point::new(0, gy),
            friction: fr,
            winds: vec![],
            walls: vec![
            Wall::fixed(vec![Point::new(0, 80000), Point::new(10000, 80000), Point::new(10000, 400000), Point::new(0, 400000)]),
            Wall::fixed(vec![Point::new(10000, 280000), Point::new(280000, 280000), Point::new(290000, 350000), Point::new(10000, 400000)]),
            Wall::fixed(vec![Point::new(75000, 80000), Point::new(75000, 200000), Point::new(100000, 200000), Point::new(100000, 80000)]),
            Wall::fixed(vec![Point::new(100000, 0), Point::new(100000, 200000), Point::new(150000, 200000), Point::new(170000, 0)]),
            Wall::fixed(vec![Point::new(215000, 350000), Point::new(240000, 80000), Point::new(260000, 80000), Point::new(290000, 110000), Point::new(290000, 350000)]),
            Wall::fixed(vec![Point::new(350000, 410000), Point::new(85000, 460000), Point::new(85000, 550000), Point::new(350000, 550000)]),
            Wall::fixed(vec![Point::new(85000, 550000), Point::new(100000, 570000), Point::new(190000, 570000), Point::new(200000, 550000)]),
            Wall::fixed(vec![Point::new(0, 400000), Point::new(10000, 400000), Point::new(30000, 700000), Point::new(0, 700000)]),
            Wall::fixed(vec![Point::new(10000, 640000), Point::new(200000, 640000), Point::new(200000, 700000), Point::new(10000, 700000)]),
        ],
        }
    }

    /// Diamond pillars under a wind band.
    pub fn windy_pillars(ast: u32, thrust: u32, fuel: u32, gravity: u32, fric: u32) -> (r: GameData)
        ensures
            r.wf(),
            r.area == (Point { x: 300000, y: 700000 }),
            r.pos0 == (Point { x: 150000, y: 30000 }),
            r.speed0 == (Point { x: 0, y: 0 }),
            r.target_y == 650000,
            r.target_x0 == 50000,
            r.target_x1 == 250000,
            r.num_asteroids == spec_ast_default(ast as int),
            r.levelling_rot == 15,
            r.levelling_speed_x == 3500,
            r.levelling_speed_y == 2500,
            r.initial_fuel == spec_fuel_default(fuel as int),
            r.full_fuel == (if spec_fuel_default(fuel as int) > 500 { spec_fuel_default(fuel as int) } else { 500int }),
            r.thrust_pow == spec_thrust_default(thrust as int),
            r.gravity == (Point { x: 0, y: spec_gravity_y(gravity as int) as i64 }),
            r.friction == spec_friction_default(fric as int),
            r.walls@.len() == 3,
            r.winds@.len() == 1,
    {
        let na: u32 = Self::ast_default(ast);
        let f: u32 = Self::fuel_default(fuel);
        let fr: i64 = Self::friction_default(fric);
        let th: i64 = Self::thrust_default(thrust);
        let gy: i64 = Self::gravity_y(gravity);
        let ff: u32 = Self::fuel_bar(f, 500);
        let tr: Trig = Trig::new();
        GameData {
            area: Point::new(300000, 700000),
            viewport: None,
            viewport_pos0: None,
            pos0: Point::new(150000, 30000),
            speed0: Point::new(0, 0),
            target_y: 650000,
            target_x0: 50000,
            target_x1: 250000,
            num_asteroids: na,
            asteroid_pos0: Point::new(0, 150000),
            asteroid_area: Point::new(300000, 550000),
            levelling_rot: 15,
            levelling_speed_x: 3500,
            levelling_speed_y: 2500,
            initial_fuel: f,
            full_fuel: ff,
            thrust_pow: th,
            gravity: Point::new(0, gy),
            friction: fr,
            winds: vec![
            Wind::new(vec![Point::new(0, 320000), Point::new(300000, 320000), Point::new(300000, 450000), Point::new(0, 450000)], 40, 0, &tr),
        ],
            walls: vec![
            Self::pillar(150_000, 340_000, 30_000),
            Self::pillar(80_000, 440_000, 30_000),
            Self::pillar(220_000, 440_000, 30_000),
        ],
        }
    }

    /// An overhung cavern wall on each side of a narrow pad.
    pub fn cave(ast: u32, thrust: u32, fuel: u32, gravity: u32, fric: u32) -> (r: GameData)
        ensures
            r.wf(),
            r.area == (Point { x: 320000, y: 640000 }),
            r.pos0 == (Point { x: 160000, y: 30000 }),
            r.speed0 == (Point { x: 0, y: 0 }),
            r.target_y == 600000,
            r.target_x0 == 130000,
            r.target_x1 == 190000,
            r.num_asteroids == spec_ast_default(ast as int),
            r.levelling_rot == 15,
            r.levelling_speed_x == 3500,
            r.levelling_speed_y == 2500,
            r.initial_fuel == spec_fuel_default(fuel as int),
            r.full_fuel == (if spec_fuel_default(fuel as int) > 500 { spec_fuel_default(fuel as int) } else { 500int }),
            r.thrust_pow == spec_thrust_default(thrust as int),
            r.gravity == (Point { x: 0, y: spec_gravity_y(gravity as int) as i64 }),
            r.friction == spec_friction_default(fric as int),
            r.walls@.len() == 9,
            r.winds@.len() == 0,
    {
        let na: u32 = Self::ast_default(ast);
        let f: u32 = Self::fuel_default(fuel);
        let fr: i64 = Self::friction_default(fric);
        let th: i64 = Self::thrust_default(thrust);
        let gy: i64 = Self::gravity_y(gravity);
        let ff: u32 = Self::fuel_bar(f, 500);
        GameData {
            area: Point::new(320000, 640000),
            viewport: None,
            viewport_pos0: None,
            pos0: Point::new(160000, 30000),
            speed0: Point::new(0, 0),
            target_y: 600000,
            target_x0: 130000,
            target_x1: 190000,
            num_asteroids: na,
            asteroid_pos0: Point::new(0, 150000),
            asteroid_area: Point::new(320000, 490000),
            levelling_rot: 15,
            levelling_speed_x: 3500,
            levelling_speed_y: 2500,
            initial_fuel: f,
            full_fuel: ff,
            thrust_pow: th,
            gravity: Point::new(0, gy),
            friction: fr,
            winds: vec![],
            walls: vec![
            Wall::fixed(vec![Point::new(0, 50000), Point::new(50000, 90000), Point::new(0, 120000)]),
            Wall::fixed(vec![Point::new(50000, 90000), Point::new(100000, 80000), Point::new(130000, 90000), Point::new(128000, 100000), Point::new(70000, 130000)]),
            Wall::fixed(vec![Point::new(128000, 100000), Point::new(145000, 115000), Point::new(155000, 145000), Point::new(125000, 150000)]),
            Wall::fixed(vec![Point::new(115000, 145000), Point::new(155000, 145000), Point::new(185000, 165000), Point::new(190000, 190000), Point::new(180000, 210000), Point::new(120000, 250000), Point::new(80000, 240000)]),
            Wall::fixed(vec![Point::new(0, 80000), Point::new(80000, 240000), Point::new(0, 260000)]),
            Wall::fixed(vec![Point::new(0, 90000), Point::new(60000, 90000), Point::new(128000, 100000), Point::new(128000, 240000), Point::new(0, 240000)]),
            Wall::fixed(vec![Point::new(320000, 410000), Point::new(320000, 300000), Point::new(265000, 323000)]),
            Wall::fixed(vec![Point::new(320000, 400000), Point::new(275000, 320000), Point::new(220000, 330000), Point::new(195000, 355000)]),
            Wall::fixed(vec![Point::new(320000, 400000), Point::new(200000, 350000), Point::new(145000, 360000), Point::new(100000, 370000), Point::new(115000, 390000), Point::new(160000, 400000), Point::new(270000, 420000), Point::new(320000, 425000)]),
        ],
        }
    }

    /// A climb from the floor to a pad near the ceiling, past rows of spikes.
    pub fn up(ast: u32, thrust: u32, fuel: u32, gravity: u32, fric: u32) -> (r: GameData)
        ensures
            r.wf(),
            r.area == (Point { x: 360000, y: 700000 }),
            r.pos0 == (Point { x: 180000, y: 650000 }),
            r.speed0 == (Point { x: 0, y: 0 }),
            r.target_y == 100000,
            r.target_x0 == 150000,
            r.target_x1 == 210000,
            r.num_asteroids == spec_ast_default(ast as int),
            r.levelling_rot == 15,
            r.levelling_speed_x == 3500,
            r.levelling_speed_y == 2500,
            r.initial_fuel == spec_fuel_increased(fuel as int),
            r.full_fuel == (if spec_fuel_increased(fuel as int) > 750 { spec_fuel_increased(fuel as int) } else { 750int }),
            r.thrust_pow == spec_thrust_default(thrust as int),
            r.gravity == (Point { x: 0, y: spec_gravity_y(gravity as int) as i64 }),
            r.friction == spec_friction_default(fric as int),
            r.walls@.len() == 14,
            r.winds@.len() == 0,
    {
        let na: u32 = Self::ast_default(ast);
        let f: u32 = Self::fuel_increased(fuel);
        let fr: i64 = Self::friction_default(fric);
        let th: i64 = Self::thrust_default(thrust);
        let gy: i64 = Self::gravity_y(gravity);
        let ff: u32 = Self::fuel_bar(f, 750);
        GameData {
            area: Point::new(360000, 700000),
            viewport: None,
            viewport_pos0: None,
            pos0: Point::new(180000, 650000),
            speed0: Point::new(0, 0),
            target_y: 100000,
            target_x0: 150000,
            target_x1: 210000,
            num_asteroids: na,
            asteroid_pos0: Point::new(0, 0),
            asteroid_area: Point::new(360000, 580000),
            levelling_rot: 15,
            levelling_speed_x: 3500,
            levelling_speed_y: 2500,
            initial_fuel: f,
            full_fuel: ff,
            thrust_pow: th,
            gravity: Point::new(0, gy),
            friction: fr,
            winds: vec![],
            walls: vec![
            Wall::fixed(vec![Point::new(20000, 40000), Point::new(50000, 50000), Point::new(20000, 60000)]),
            Wall::fixed(vec![Point::new(340000, 40000), Point::new(310000, 50000), Point::new(340000, 60000)]),
            Wall::fixed(vec![Point::new(80000, 160000), Point::new(90000, 130000), Point::new(100000, 160000)]),
            Wall::fixed(vec![Point::new(260000, 160000), Point::new(270000, 130000), Point::new(280000, 160000)]),
            Wall::fixed(vec![Point::new(20000, 260000), Point::new(30000, 230000), Point::new(40000, 260000)]),
            Wall::fixed(vec![Point::new(170000, 260000), Point::new(180000, 230000), Point::new(190000, 260000)]),
            Wall::fixed(vec![Point::new(320000, 260000), Point::new(330000, 230000), Point::new(340000, 260000)]),
            Wall::fixed(vec![Point::new(80000, 360000), Point::new(90000, 330000), Point::new(100000, 360000)]),
            Wall::fixed(vec![Point::new(260000, 360000), Point::new(270000, 330000), Point::new(280000, 360000)]),
            Wall::fixed(vec![Point::new(20000, 460000), Point::new(30000, 430000), Point::new(40000, 460000)]),
            Wall::fixed(vec![Point::new(170000, 460000), Point::new(180000, 430000), Point::new(190000, 460000)]),
            Wall::fixed(vec![Point::new(320000, 460000), Point::new(330000, 430000), Point::new(340000, 460000)]),
            Wall::fixed(vec![Point::new(80000, 560000), Point::new(90000, 530000), Point::new(100000, 560000)]),
            Wall::fixed(vec![Point::new(260000, 560000), Point::new(270000, 530000), Point::new(280000, 560000)]),
        ],
        }
    }

    /// The large scrolling map: pillar rows, some swaying, over a long descent.
    pub fn huge(ast: u32, thrust: u32, fuel: u32, gravity: u32, fric: u32) -> (r: GameData)
        ensures
            r.wf(),
            r.area == (Point { x: 640000, y: 1280000 }),
            r.pos0 == (Point { x: 50000, y: 50000 }),
            r.speed0 == (Point { x: 0, y: 0 }),
            r.target_y == 1240000,
            r.target_x0 == 500000,
            r.target_x1 == 600000,
            r.num_asteroids == spec_ast_huge(ast as int),
            r.levelling_rot == 15,
            r.levelling_speed_x == 3500,
            r.levelling_speed_y == 2500,
            r.initial_fuel == spec_fuel_increased(fuel as int),
            r.full_fuel == (if spec_fuel_increased(fuel as int) > 750 { spec_fuel_increased(fuel as int) } else { 750int }),
            r.thrust_pow == spec_thrust_default(thrust as int),
            r.gravity == (Point { x: 0, y: spec_gravity_y(gravity as int) as i64 }),
            r.friction == spec_friction_default(fric as int),
            r.walls@.len() == 19,
            r.winds@.len() == 0,
    {
        let na: u32 = Self::ast_huge(ast);
        let f: u32 = Self::fuel_increased(fuel);
        let fr: i64 = Self::friction_default(fric);
        let th: i64 = Self::thrust_default(thrust);
        let gy: i64 = Self::gravity_y(gravity);
        let ff: u32 = Self::fuel_bar(f, 750);
        GameData {
            area: Point::new(640000, 1280000),
            viewport: Some(Point::new(320_000, 640_000)),
            viewport_pos0: Some(Point::new(-100_000, -100_000)),
            pos0: Point::new(50000, 50000),
            speed0: Point::new(0, 0),
            target_y: 1240000,
            target_x0: 500000,
            target_x1: 600000,
            num_asteroids: na,
            asteroid_pos0: Point::new(0, 120000),
            asteroid_area: Point::new(640000, 1160000),
            levelling_rot: 15,
            levelling_speed_x: 3500,
            levelling_speed_y: 2500,
            initial_fuel: f,
            full_fuel: ff,
            thrust_pow: th,
            gravity: Point::new(0, gy),
            friction: fr,
            winds: vec![],
            walls: vec![
            Self::pillar(70_000, 400_000, 25_000),
            Self::pillar(170_000, 400_000, 25_000),
            Self::pillar(270_000, 400_000, 25_000),
            Self::pillar(370_000, 400_000, 25_000),
            Self::pillar(470_000, 400_000, 25_000),
            Self::pillar(570_000, 400_000, 25_000),
            Self::moving_pillar(20_000, 600_000, 20_000),
            Self::moving_pillar(120_000, 600_000, 20_000),
            Self::moving_pillar(220_000, 600_000, 20_000),
            Self::moving_pillar(320_000, 600_000, 20_000),
            Self::moving_pillar(420_000, 600_000, 20_000),
            Self::moving_pillar(520_000, 600_000, 20_000),
            Self::moving_pillar(620_000, 600_000, 20_000),
            Self::pillar(70_000, 800_000, 25_000),
            Self::pillar(170_000, 800_000, 25_000),
            Self::pillar(270_000, 800_000, 25_000),
            Self::pillar(370_000, 800_000, 25_000),
            Self::pillar(470_000, 800_000, 25_000),
            Self::pillar(570_000, 800_000, 25_000),
        ],
        }
    }

    /// Rotating bars sweeping the two flanks of the descent.
    pub fn gears(ast: u32, thrust: u32, fuel: u32, gravity: u32, fric: u32) -> (r: GameData)
        ensures
            r.wf(),
            r.area == (Point { x: 360000, y: 700000 }),
            r.pos0 == (Point { x: 180000, y: 40000 }),
            r.speed0 == (Point { x: 0, y: 0 }),
            r.target_y == 650000,
            r.target_x0 == 150000,
            r.target_x1 == 210000,
            r.num_asteroids == spec_ast_default(ast as int),
            r.levelling_rot == 15,
            r.levelling_speed_x == 3500,
            r.levelling_speed_y == 2500,
            r.initial_fuel == spec_fuel_increased(fuel as int),
            r.full_fuel == (if spec_fuel_increased(fuel as int) > 750 { spec_fuel_increased(fuel as int) } else { 750int }),
            r.thrust_pow == spec_thrust_default(thrust as int),
            r.gravity == (Point { x: 0, y: spec_gravity_y(gravity as int) as i64 }),
            r.friction == spec_friction_default(fric as int),
            r.walls@.len() == 8,
            r.winds@.len() == 0,
    {
        let na: u32 = Self::ast_default(ast);
        let f: u32 = Self::fuel_increased(fuel);
        let fr: i64 = Self::friction_default(fric);
        let th: i64 = Self::thrust_default(thrust);
        let gy: i64 = Self::gravity_y(gravity);
        let ff: u32 = Self::fuel_bar(f, 750);
        GameData {
            area: Point::new(360000, 700000),
            viewport: None,
            viewport_pos0: None,
            pos0: Point::new(180000, 40000),
            speed0: Point::new(0, 0),
            target_y: 650000,
            target_x0: 150000,
            target_x1: 210000,
            num_asteroids: na,
            asteroid_pos0: Point::new(0, 120000),
            asteroid_area: Point::new(360000, 700000),
            levelling_rot: 15,
            levelling_speed_x: 3500,
            levelling_speed_y: 2500,
            initial_fuel: f,
            full_fuel: ff,
            thrust_pow: th,
            gravity: Point::new(0, gy),
            friction: fr,
            winds: vec![],
            walls: vec![
            Self::gear(Point::new(90_000, 250_000), false, 0),
            Self::gear(Point::new(90_000, 250_000), false, 90),
            Self::gear(Point::new(270_000, 250_000), true, 45),
            Self::gear(Point::new(270_000, 250_000), true, 135),
            Self::gear(Point::new(90_000, 500_000), true, 15),
            Self::gear(Point::new(90_000, 500_000), true, 105),
            Self::gear(Point::new(270_000, 500_000), false, 60),
            Self::gear(Point::new(270_000, 500_000), false, 150),
        ],
        }
    }

    /// Two descents to one wide pad: a calm lane and a wind-swept one.
    pub fn choice(ast: u32, thrust: u32, fuel: u32, gravity: u32, fric: u32) -> (r: GameData)
        ensures
            r.wf(),
            r.area == (Point { x: 300_000, y: 700_000 }),
            r.pos0 == (Point { x: 150_000, y: 30_000 }),
            r.speed0 == (Point { x: 0, y: 0 }),
            r.target_y == 660_000,
            r.target_x0 == 30_000,
            r.target_x1 == 270_000,
            r.num_asteroids == spec_ast_default(ast as int),
            r.levelling_rot == 15,
            r.levelling_speed_x == 3500,
            r.levelling_speed_y == 2500,
            r.initial_fuel == spec_fuel_default(fuel as int),
            r.full_fuel == (if spec_fuel_default(fuel as int) > 500 { spec_fuel_default(fuel as int) } else { 500int }),
            r.thrust_pow == spec_thrust_default(thrust as int),
            r.gravity == (Point { x: 0, y: spec_gravity_y(gravity as int) as i64 }),
            r.friction == spec_friction_default(fric as int),
            r.walls@.len() == 2,
            r.winds@.len() == 4,
    {
        let na: u32 = Self::ast_default(ast);
        let f: u32 = Self::fuel_default(fuel);
        let fr: i64 = Self::friction_default(fric);
        let th: i64 = Self::thrust_default(thrust);
        let gy: i64 = Self::gravity_y(gravity);
        let ff: u32 = Self::fuel_bar(f, 500);
        let tr: Trig = Trig::new();
        GameData {
            area: Point::new(300_000, 700_000),
            viewport: None,
            viewport_pos0: None,
            pos0: Point::new(150_000, 30_000),
            speed0: Point::new(0, 0),
            target_y: 660_000,
            target_x0: 30_000,
            target_x1: 270_000,
            num_asteroids: na,
            asteroid_pos0: Point::new(0, 150_000),
            asteroid_area: Point::new(300_000, 550_000),
            levelling_rot: 15,
            levelling_speed_x: 3500,
            levelling_speed_y: 2500,
            initial_fuel: f,
            full_fuel: ff,
            thrust_pow: th,
            gravity: Point::new(0, gy),
            friction: fr,
            winds: vec![
                Wind::new(vec![Point::new(200_000, 250_000), Point::new(250_000, 250_000), Point::new(250_000, 570_000), Point::new(200_000, 570_000)], 40, 180, &tr),
                Wind::new(vec![Point::new(250_000, 250_000), Point::new(300_000, 250_000), Point::new(300_000, 570_000), Point::new(250_000, 570_000)], 40, 0, &tr),
                Wind::new(vec![Point::new(60_000, 400_000), Point::new(190_000, 400_000), Point::new(190_000, 500_000), Point::new(60_000, 500_000)], 140 + gy, 270, &tr),
                Wind::new(vec![Point::new(60_000, 500_000), Point::new(190_000, 500_000), Point::new(190_000, 570_000), Point::new(60_000, 570_000)], 80, 90, &tr),
            ],
            walls: vec![
                Wall::fixed(vec![Point::new(50_000, 200_000), Point::new(60_000, 200_000), Point::new(60_000, 580_000), Point::new(50_000, 580_000)]),
                Wall::fixed(vec![Point::new(190_000, 200_000), Point::new(200_000, 200_000), Point::new(200_000, 580_000), Point::new(190_000, 580_000)]),
            ],
        }
    }

    /// A small diamond obstacle centered on `(x, y)`.
    fn pillar(x: i64, y: i64, sz: i64) -> (r: Wall)
        requires
            0 <= x <= 10_000_000,
            0 <= y <= 10_000_000,
            0 < sz <= 1_000_000,
        ensures
            wall_wf(r),
            r.motion == Motion::Static,
    {
        let xl: i64 = x - sz;
        let yl: i64 = y - sz;
        let xr: i64 = x + sz;
        let yr: i64 = y + sz;
        Wall::fixed(
            vec![
                Point::new(xl, y),
                Point::new(x, yl),
                Point::new(xr, y),
                Point::new(x, yr),
            ],
        )
    }

    /// A diamond obstacle swaying horizontally.
    fn moving_pillar(x: i64, y: i64, sz: i64) -> (r: Wall)
        requires
            0 <= x <= 10_000_000,
            0 <= y <= 10_000_000,
            0 < sz <= 1_000_000,
        ensures
            wall_wf(r),
            r.motion == Motion::XCos,
    {
        let xl: i64 = x - sz;
        let yl: i64 = y - sz;
        let xr: i64 = x + sz;
        let yr: i64 = y + sz;
        Wall::xcos(
            vec![
                Point::new(xl, y),
                Point::new(x, yl),
                Point::new(xr, y),
                Point::new(x, yr),
            ],
            20_000,
            4,
        )
    }

    /// A long thin bar rotating about `pos`.
    fn gear(pos: Point, ccw: bool, init: u32) -> (r: Wall)
        requires
            in_cfg(pos),
            init < 360,
        ensures
            wall_wf(r),
            r.motion == Motion::Rot,
    {
        proof {
            lemma_small_divs();
        }
        Wall::rotating(
            pos,
            vec![
                Point::new(-5_000, 80_000),
                Point::new(5_000, 80_000),
                Point::new(5_000, -80_000),
                Point::new(-5_000, -80_000),
            ],
            init,
            ccw,
            1,
        )
    }
}

} // verus!
