use lander::geom::{collide, inside_rect, Point, Trig};

fn pt(x: i64, y: i64) -> Point {
    Point::new(x, y)
}

#[test]
fn trig_table_values() {
    let tr = Trig::new();
    assert_eq!(tr.sin(0), 0);
    assert_eq!(tr.cos(0), 10_000);
    assert_eq!(tr.sin(30), 5_000);
    assert_eq!(tr.sin(45), 7_071);
    assert_eq!(tr.sin(90), 10_000);
    assert_eq!(tr.cos(90), 0);
    assert_eq!(tr.cos(60), 5_000);
    assert_eq!(tr.sin(180), 0);
    assert_eq!(tr.sin(270), -10_000);
    assert_eq!(tr.cos(180), -10_000);
    assert_eq!(tr.rad(0), 0);
    assert_eq!(tr.rad(180), 3_141);
    assert_eq!(tr.rad(90), 1_570);
}

#[test]
fn angle_normalization() {
    // the table serves every degree count through its remainder modulo 360
    let tr = Trig::new();
    for d in [-720i32, -450, -360, -90, -30, 0, 30, 359, 360, 450, 719, 1080] {
        let m = d.rem_euclid(360);
        assert_eq!(tr.sin(d), tr.sin(m));
        assert_eq!(tr.cos(d), tr.cos(m));
        assert_eq!(tr.rad(d), tr.rad(m));
        assert_eq!(tr.sin(d), tr.sin(d + 360));
        assert_eq!(tr.sin(d), tr.sin(d - 720));
        assert_eq!(tr.cos(d), tr.cos(d + 3600));
    }
    assert_eq!(tr.sin(-90), -10_000);
    assert_eq!(tr.sin(-30), -5_000);
    assert_eq!(tr.cos(-60), 5_000);
}

#[test]
fn rotation_round_trip_quarter_exact() {
    let tr = Trig::new();
    let p = pt(123_456, -654_321);
    let q = tr.rot(&p, 90);
    assert_eq!(q, pt(654_321, 123_456));
    let b = tr.rot(&q, -90);
    assert_eq!(b, p);
}

#[test]
fn rotation_round_trip_within_tolerance() {
    let tr = Trig::new();
    let points = [pt(10_000, 0), pt(3_000, 4_000), pt(123_456, -54_321), pt(-999_000, 500_000)];
    for p in points {
        for d in [0, 17, 30, 45, 60, 135, 179, 270, 313, -33] {
            let q = tr.rot(&p, d);
            let b = tr.rot(&q, -d);
            assert!((b.x() - p.x()).abs() <= 1_000, "x drift for {} deg", d);
            assert!((b.y() - p.y()).abs() <= 1_000, "y drift for {} deg", d);
        }
    }
}

#[test]
fn point_operations() {
    let mut p = pt(1_000, 2_000);
    p.add(&pt(30, -70));
    assert_eq!(p, pt(1_030, 1_930));
    p.flipx();
    assert_eq!(p, pt(-1_030, 1_930));
    p.flipy();
    assert_eq!(p, pt(-1_030, -1_930));
    p.mul(500);
    assert_eq!(p, pt(-515, -965));
    assert!(!p.is_zero());
    assert!(pt(0, 0).is_zero());
    assert_eq!(pt(3_000, 4_000).length2(), 25_000_000);
    assert_eq!(pt(3_000, 4_000).length(), 5_000);
    assert_eq!(pt(0, 0).length(), 0);
    assert_eq!(pt(1_000, 1_000).length(), 1_414);
}

#[test]
fn point_saturation() {
    // coordinate arithmetic saturates at the working range
    let mut p = pt(1_000_000_000, 0);
    p.add(&pt(1_000_000, 5));
    assert_eq!(p, pt(1_000_000_000, 5));
    let mut q = pt(-1_000_000_000, 0);
    q.add(&pt(-1, 0));
    assert_eq!(q.x(), -1_000_000_000);
}

#[test]
fn collision_disjoint_triangles() {
    let t1 = vec![pt(0, 0), pt(10_000, 0), pt(5_000, 8_000)];
    let t2 = vec![pt(100_000, 0), pt(110_000, 0), pt(105_000, 8_000)];
    assert!(!collide(&t1, &t2));
    assert!(!collide(&t2, &t1));
}

#[test]
fn collision_overlapping_triangles() {
    let t1 = vec![pt(0, 0), pt(10_000, 0), pt(5_000, 8_000)];
    let inner = vec![pt(2_000, 1_000), pt(8_000, 1_000), pt(5_000, 6_000)];
    let crossing = vec![pt(5_000, -2_000), pt(12_000, 5_000), pt(5_000, 5_000)];
    assert!(collide(&t1, &inner));
    assert!(collide(&inner, &t1));
    assert!(collide(&t1, &crossing));
    assert!(collide(&crossing, &t1));
}

#[test]
fn collision_is_symmetric() {
    let shapes = [
        vec![pt(0, 0), pt(10_000, 0), pt(5_000, 8_000)],
        vec![pt(2_000, 1_000), pt(8_000, 1_000), pt(5_000, 6_000)],
        vec![pt(9_000, 0), pt(20_000, 0), pt(20_000, 9_000), pt(9_000, 9_000)],
        vec![pt(-5_000, -5_000), pt(-1, -5_000), pt(-1, -1), pt(-5_000, -1)],
    ];
    for a in &shapes {
        for b in &shapes {
            assert_eq!(collide(a, b), collide(b, a));
        }
    }
}

#[test]
fn collision_shared_edge_only() {
    // triangles meeting only along an edge: the side test has no zero
    // branch, collinear points count as the negative side, so the shared
    // edge itself separates the triangles and they do not collide
    let upper = vec![pt(0, 0), pt(10_000, 0), pt(5_000, 8_000)];
    let lower = vec![pt(0, 0), pt(10_000, 0), pt(5_000, -8_000)];
    assert!(!collide(&upper, &lower));
    assert!(!collide(&lower, &upper));
}

#[test]
fn collision_quads() {
    let a = vec![pt(0, 0), pt(10_000, 0), pt(10_000, 10_000), pt(0, 10_000)];
    let b = vec![pt(5_000, 5_000), pt(15_000, 5_000), pt(15_000, 15_000), pt(5_000, 15_000)];
    let c = vec![pt(20_000, 20_000), pt(30_000, 20_000), pt(30_000, 30_000), pt(20_000, 30_000)];
    assert!(collide(&a, &b));
    assert!(!collide(&a, &c));
    assert!(!collide(&b, &c));
}

#[test]
fn collision_degenerate_polygons() {
    // fewer than three vertices yield no triangle of the fan, hence no hit
    let seg = vec![pt(0, 0), pt(10_000, 0)];
    let dot = vec![pt(0, 0)];
    let tri = vec![pt(0, 0), pt(10_000, 0), pt(5_000, 8_000)];
    assert!(!collide(&seg, &tri));
    assert!(!collide(&tri, &dot));
}

#[test]
fn rect_membership() {
    assert!(inside_rect(&pt(5, 5), 0, 0, 10, 10));
    assert!(inside_rect(&pt(0, 10), 0, 0, 10, 10));
    assert!(!inside_rect(&pt(-1, 5), 0, 0, 10, 10));
    assert!(!inside_rect(&pt(5, 11), 0, 0, 10, 10));
    assert!(!inside_rect(&pt(11, 5), 0, 0, 10, 10));
    assert!(!inside_rect(&pt(5, -1), 0, 0, 10, 10));
}
