use lander::engine::{Asteroid, GameEngine, Particle, ParticleColor, Wind};
use lander::geom::{Point, Trig};
use lander::levels::{GameData, Wall};

fn pt(x: i64, y: i64) -> Point {
    Point::new(x, y)
}

/// An open 320x640-unit field with no gravity and no entities, the pad
/// near the floor, and the ship resting high above it.
fn calm_field() -> GameData {
    GameData {
        area: pt(320_000, 640_000),
        viewport: None,
        viewport_pos0: None,
        pos0: pt(160_000, 50_000),
        speed0: pt(0, 0),
        target_y: 600_000,
        target_x0: 100_000,
        target_x1: 220_000,
        num_asteroids: 0,
        asteroid_pos0: pt(0, 120_000),
        asteroid_area: pt(320_000, 520_000),
        levelling_rot: 15,
        levelling_speed_x: 3_500,
        levelling_speed_y: 2_500,
        initial_fuel: 100,
        full_fuel: 500,
        thrust_pow: 120,
        gravity: pt(0, 0),
        friction: 1_000,
        walls: vec![],
        winds: vec![],
    }
}

#[test]
fn asteroid_bounces_at_left_margin() {
    let area = pt(320_000, 640_000);
    let mut a = Asteroid {
        vert: vec![pt(30_000, 0), pt(0, 30_000), pt(-30_000, 0)],
        pos: pt(-30_000, 100_000),
        rot: 0,
        dpos: pt(-2_000, 0),
        drot: 2,
    };
    a.move_step(&area);
    // carried past -30 units while still heading out: the axis flips
    assert_eq!(a.pos, pt(-32_000, 100_000));
    assert_eq!(a.dpos, pt(2_000, 0));
    assert_eq!(a.rot, 2);
    a.move_step(&area);
    // still beyond the margin but heading back in: left alone
    assert_eq!(a.pos, pt(-30_000, 100_000));
    assert_eq!(a.dpos, pt(2_000, 0));
    assert!(!a.finished());
}

#[test]
fn asteroid_bounces_at_far_edge() {
    let area = pt(320_000, 640_000);
    let mut a = Asteroid {
        vert: vec![pt(30_000, 0)],
        pos: pt(100_000, 669_000),
        rot: 359,
        dpos: pt(0, 1_500),
        drot: 3,
    };
    a.move_step(&area);
    assert_eq!(a.pos.y(), 670_500);
    assert_eq!(a.dpos, pt(0, -1_500));
    assert_eq!(a.rot, 2);
}

#[test]
fn asteroid_world_hull() {
    let tr = Trig::new();
    let a = Asteroid {
        vert: vec![pt(10_000, 0), pt(0, 10_000)],
        pos: pt(50_000, 60_000),
        rot: 90,
        dpos: pt(0, 0),
        drot: 0,
    };
    let shape = a.remap(&tr);
    assert_eq!(shape, vec![pt(50_000, 70_000), pt(40_000, 60_000)]);
    let hull = a.remap4coll(&tr);
    assert_eq!(
        hull,
        vec![pt(50_000, 60_000), pt(50_000, 70_000), pt(40_000, 60_000), pt(50_000, 70_000)]
    );
}

#[test]
fn particle_fade_profile() {
    let mut p = Particle::new(ParticleColor::Exhaust, pt(0, 0), pt(1_000, 0));
    assert_eq!(p.color(), ParticleColor::Exhaust);
    for k in 0..=20u32 {
        if k <= 10 {
            assert_eq!(p.alpha(), 1_000, "full opacity through tick {}", k);
        } else {
            assert_eq!(p.alpha(), (20 - k) * 100, "linear fade at tick {}", k);
        }
        assert_eq!(p.position().x(), 1_000 * (k.min(20) as i64));
        if k < 20 {
            assert!(!p.finished());
            p.move_step();
        }
    }
    assert!(p.finished());
    assert_eq!(p.alpha(), 0);
    // a finished particle no longer moves
    let frozen = p.position().x();
    p.move_step();
    assert_eq!(p.position().x(), frozen);
}

#[test]
fn thrust_consumes_one_fuel_per_tick() {
    let mut cfg = calm_field();
    cfg.initial_fuel = 3;
    let mut e = GameEngine::new(cfg);
    e.set_thrust(true);
    e.move_step();
    assert_eq!(e.fuel, 2);
    e.move_step();
    assert_eq!(e.fuel, 1);
    // one exhaust particle per powered tick
    assert_eq!(e.iter_part().len(), 2);
    e.move_step();
    assert_eq!(e.fuel, 0);
    // with the tank empty, thrust has no effect and consumes nothing
    let v = e.speed;
    e.move_step();
    assert_eq!(e.fuel, 0);
    assert_eq!(e.speed, v);
}

#[test]
fn thrust_exact_velocity_and_exhaustion() {
    let mut cfg = calm_field();
    cfg.initial_fuel = 1;
    let mut e = GameEngine::new(cfg);
    e.set_thrust(true);
    e.move_step();
    // rotation 0: thrust pushes straight up by the configured power
    assert_eq!(e.fuel, 0);
    assert_eq!(e.speed, pt(0, -120));
    e.move_step();
    // still held, but the tank is empty: velocity unchanged
    assert_eq!(e.fuel, 0);
    assert_eq!(e.speed, pt(0, -120));
}

#[test]
fn landing_freezes_the_ship() {
    let mut cfg = calm_field();
    cfg.pos0 = pt(160_000, 595_000);
    let mut e = GameEngine::new(cfg);
    assert!(e.is_level());
    e.move_step();
    // the nose sample point (10 units below the origin) falls in the band
    assert!(e.has_landed());
    assert!(!e.has_collided());
    assert!(e.is_level());
    assert_eq!(e.speed, pt(0, 0));
    assert_eq!(e.rot, 0);
    assert!(e.finished());
    // rotation input is ignored once landed
    e.rotate(50);
    assert_eq!(e.rot, 0);
    e.move_step();
    assert!(e.has_landed());
    assert_eq!(e.speed, pt(0, 0));
}

#[test]
fn landing_on_corner_sample() {
    // the nose sample misses the band horizontally (5 units left of it),
    // but the right rear corner sample falls on the pad: the ship lands
    let mut cfg = calm_field();
    cfg.pos0 = pt(95_000, 595_000);
    let mut e = GameEngine::new(cfg);
    e.move_step();
    assert!(e.has_landed());
    assert!(!e.has_collided());
    assert_eq!(e.speed, pt(0, 0));
}

#[test]
fn no_landing_on_vertical_miss() {
    // the nose sample is inside the horizontal band but short of the pad
    // vertically: no corner sample is consulted and the ship keeps flying
    let mut cfg = calm_field();
    cfg.pos0 = pt(160_000, 580_000);
    let mut e = GameEngine::new(cfg);
    e.move_step();
    assert!(!e.has_landed());
    assert!(!e.has_collided());
}

#[test]
fn flying_out_of_bounds_explodes() {
    let mut cfg = calm_field();
    cfg.pos0 = pt(-50_000, 50_000);
    let mut e = GameEngine::new(cfg);
    e.set_thrust(true);
    let fuel0 = e.fuel;
    e.move_step();
    assert!(e.has_collided());
    assert!(!e.has_landed());
    // blown up: no hull is reported, and exactly 200 debris particles exist
    assert_eq!(e.ship_shape().len(), 0);
    assert_eq!(e.iter_part().len(), 200);
    // no thrust once blown up, so no fuel was drawn and none will be
    assert_eq!(e.fuel, fuel0);
    e.move_step();
    assert_eq!(e.fuel, fuel0);
    assert!(!e.finished());
    // the debris decays over its 20-tick life, then the session is over
    for _ in 0..25 {
        e.move_step();
    }
    assert_eq!(e.iter_part().len(), 0);
    assert!(e.finished());
}

#[test]
fn wall_collision_explodes() {
    let mut cfg = calm_field();
    cfg.walls = vec![Wall::fixed(vec![
        pt(100_000, 40_000),
        pt(220_000, 40_000),
        pt(220_000, 70_000),
        pt(100_000, 70_000),
    ])];
    let mut e = GameEngine::new(cfg);
    e.move_step();
    assert!(e.has_collided());
    assert_eq!(e.iter_part().len(), 200);
}

#[test]
fn landing_pad_collides_when_not_level() {
    let mut cfg = calm_field();
    // resting right over the pad but tipped well out of the level band
    cfg.pos0 = pt(160_000, 595_000);
    let mut e = GameEngine::new(cfg);
    e.rotate(90);
    assert!(!e.is_level());
    e.move_step();
    assert!(!e.has_landed());
    assert!(e.has_collided());
}

#[test]
fn wind_pushes_the_ship() {
    let tr = Trig::new();
    let mut cfg = calm_field();
    cfg.winds = vec![Wind::new(
        vec![pt(100_000, 0), pt(220_000, 0), pt(220_000, 200_000), pt(100_000, 200_000)],
        50,
        0,
        &tr,
    )];
    let mut e = GameEngine::new(cfg);
    e.move_step();
    assert_eq!(e.speed, pt(50, 0));
    e.move_step();
    assert_eq!(e.speed, pt(100, 0));
}

#[test]
fn wind_acceleration_is_fixed_at_construction() {
    let tr = Trig::new();
    let shape = vec![pt(0, 0), pt(10_000, 0), pt(10_000, 10_000), pt(0, 10_000)];
    let w = Wind::new(shape.clone(), 60, 0, &tr);
    assert_eq!(*w.accel(), pt(60, 0));
    assert_eq!(w.direction(), 0);
    assert_eq!(w.shape().len(), 4);
    let down = Wind::new(shape.clone(), 60, 90, &tr);
    assert_eq!(*down.accel(), pt(0, 60));
    let diag = Wind::new(shape, 100, 45, &tr);
    assert_eq!(*diag.accel(), pt(70, 70));
}

#[test]
fn gravity_and_friction_shape_velocity() {
    let mut cfg = calm_field();
    cfg.gravity = pt(0, 60);
    cfg.friction = 500;
    let mut e = GameEngine::new(cfg);
    e.move_step();
    // gravity then friction: 60 scaled by one half
    assert_eq!(e.speed, pt(0, 30));
    e.move_step();
    assert_eq!(e.speed, pt(0, 45));
}

#[test]
fn rotation_input_steps_six_degrees() {
    let mut e = GameEngine::new(calm_field());
    e.set_rotation(Some(true), None);
    e.move_step();
    assert_eq!(e.rot, 354);
    e.set_rotation(Some(false), Some(true));
    e.move_step();
    assert_eq!(e.rot, 0);
    // both keys held cancel out
    e.set_rotation(Some(true), Some(true));
    e.move_step();
    assert_eq!(e.rot, 0);
    e.rotate(-90);
    assert_eq!(e.rot, 270);
    e.rotate(100);
    assert_eq!(e.rot, 10);
}

#[test]
fn step_counter_drives_wind_phase() {
    let mut e = GameEngine::new(calm_field());
    assert_eq!(e.get_step(), 0);
    for _ in 0..15 {
        e.move_step();
    }
    assert_eq!(e.get_step(), 1);
    for _ in 0..15 {
        e.move_step();
    }
    assert_eq!(e.get_step(), 0);
}

#[test]
fn fuel_gauge_and_warning() {
    let e = GameEngine::new(calm_field());
    assert_eq!(e.fuel_sz(50_000), 10_000);
    assert!(e.fuel_warn());
    let mut cfg = calm_field();
    cfg.initial_fuel = 400;
    let rich = GameEngine::new(cfg);
    assert!(!rich.fuel_warn());
}

#[test]
fn stuck_without_fuel_motion_or_gravity() {
    let mut cfg = calm_field();
    cfg.initial_fuel = 0;
    let e = GameEngine::new(cfg);
    assert!(e.finished());
    let live = GameEngine::new(calm_field());
    assert!(!live.finished());
}

#[test]
fn viewport_follows_and_clamps() {
    let mut cfg = calm_field();
    cfg.area = pt(640_000, 1_280_000);
    cfg.viewport = Some(pt(320_000, 640_000));
    cfg.viewport_pos0 = Some(pt(-100_000, -100_000));
    cfg.pos0 = pt(50_000, 50_000);
    cfg.target_y = 1_240_000;
    let mut e = GameEngine::new(cfg);
    assert!(e.scrollable());
    assert_eq!(e.viewport_width(), 320_000);
    assert_eq!(e.viewport_height(), 640_000);
    e.move_step();
    // clamped to show at most 30 units beyond the playfield
    assert_eq!(e.viewport_pos(), pt(-30_000, -30_000));
    let plain = GameEngine::new(calm_field());
    assert!(!plain.scrollable());
    assert_eq!(plain.viewport_width(), 320_000);
    assert_eq!(plain.viewport_pos(), pt(0, 0));
}

#[test]
fn wall_motion_shapes() {
    let tr = Trig::new();
    let fixed = Wall::fixed(vec![pt(1_000, 2_000), pt(3_000, 4_000), pt(5_000, 0)]);
    assert_eq!(fixed.shape(7, &tr), vec![pt(1_000, 2_000), pt(3_000, 4_000), pt(5_000, 0)]);

    let sway = Wall::xcos(vec![pt(0, 0), pt(10_000, 0), pt(5_000, 5_000)], 20_000, 4);
    // phase 0: shifted right by the full amplitude
    assert_eq!(sway.shape(0, &tr), vec![pt(20_000, 0), pt(30_000, 0), pt(25_000, 5_000)]);
    // phase 45 of the 90-step cycle: 180 degrees, shifted fully left
    assert_eq!(sway.shape(45, &tr), vec![pt(-20_000, 0), pt(-10_000, 0), pt(-15_000, 5_000)]);

    let spin = Wall::rotating(pt(100_000, 100_000), vec![pt(10_000, 0)], 0, false, 1);
    assert_eq!(spin.shape(0, &tr), vec![pt(110_000, 100_000)]);
    assert_eq!(spin.shape(90, &tr), vec![pt(100_000, 110_000)]);
}

#[test]
fn preset_fields() {
    let d = GameData::simple(2, 1, 2, 2, 1);
    assert_eq!(d.num_asteroids, 3);
    assert_eq!(d.initial_fuel, 500);
    assert_eq!(d.full_fuel, 500);
    assert_eq!(d.thrust_pow, 120);
    assert_eq!(d.gravity, pt(0, 60));
    assert_eq!(d.friction, 996);
    assert_eq!(d.area, pt(320_000, 640_000));
    assert_eq!(d.walls.len(), 0);
    assert_eq!(d.winds.len(), 0);

    let s = GameData::shifted(0, 0, 0, 0, 0);
    assert_eq!(s.winds.len(), 5);
    assert_eq!(s.winds[0].power, 60);
    assert_eq!(s.winds[4].direction(), 90);

    let t = GameData::tunnel(1, 0, 0, 1, 0);
    assert_eq!(t.walls.len(), 9);
    assert_eq!(t.initial_fuel, 300);
    assert_eq!(t.full_fuel, 750);
    assert_eq!(t.gravity, pt(0, 18));

    let c = GameData::choice(0, 0, 2, 2, 0);
    assert_eq!(c.winds.len(), 4);
    // the downdraft lane scales with the gravity notch
    assert_eq!(c.winds[2].power, 200);

    assert_eq!(GameData::windy_pillars(0, 0, 0, 0, 0).walls.len(), 3);
    assert_eq!(GameData::cave(0, 0, 0, 0, 0).walls.len(), 9);
    assert_eq!(GameData::up(0, 0, 0, 0, 0).walls.len(), 14);
    assert_eq!(GameData::gears(0, 0, 0, 0, 0).walls.len(), 8);
    let h = GameData::huge(4, 0, 0, 0, 0);
    assert_eq!(h.num_asteroids, 12);
    assert_eq!(h.walls.len(), 19);
    assert!(h.viewport.is_some());
}

#[test]
fn preset_walls_at_step() {
    let tr = Trig::new();
    let g = GameData::gears(0, 0, 0, 0, 0);
    let walls = g.get_walls(0, &tr);
    assert_eq!(walls.len(), 8);
    for w in &walls {
        assert_eq!(w.len(), 4);
    }
}

#[test]
fn engine_spawns_configured_asteroids() {
    let mut cfg = calm_field();
    cfg.num_asteroids = 3;
    let e = GameEngine::new(cfg);
    assert_eq!(e.aster_shape().len(), 3);
    for a in &e.asteroids {
        // the drawn outline: 5 to 12 vertices, each within the 61-unit box
        assert!(a.vert.len() >= 5 && a.vert.len() <= 12);
        for v in &a.vert {
            assert!(v.x().abs() <= 61_000 && v.y().abs() <= 61_000);
        }
        assert!(a.dpos.x() >= 200 && a.dpos.x() <= 1_200);
        assert!(a.dpos.y() >= 200 && a.dpos.y() <= 1_200);
        assert!(a.drot >= -4 && a.drot <= 3);
    }
}

#[test]
fn engine_accessors() {
    let mut e = GameEngine::new(calm_field());
    assert_eq!(e.area_width(), 320_000);
    assert_eq!(e.area_height(), 640_000);
    assert_eq!(e.ship_pos(), pt(160_000, 50_000));
    assert_eq!(e.ship_shape(), vec![pt(160_000, 30_000), pt(150_000, 60_000), pt(170_000, 60_000)]);
    assert_eq!(
        e.land_shape(),
        vec![pt(100_000, 600_000), pt(220_000, 600_000), pt(220_000, 605_000), pt(100_000, 605_000)]
    );
    assert_eq!(e.obs_shape().len(), 0);
    assert_eq!(e.remap_ship(&pt(0, 10_000)), pt(160_000, 60_000));
    assert_eq!(e.iter_winds().len(), 0);
    assert!(!e.block_alert());
    e.set_block_alert(true);
    assert!(e.block_alert());
}
