//! Fixed-point 2D geometry: the point/vector primitive, the quantized
//! trigonometry table, and the fan-triangulated polygon collision test.

use vstd::arithmetic::div_mod::{
    lemma_div_multiples_vanish, lemma_mod_bound, lemma_mod_multiples_vanish, lemma_small_mod,
};
use vstd::prelude::*;

verus! {

/// Largest magnitude a coordinate may take, in milli-units.  Every geometric
/// operation saturates at this bound, so all stored geometry stays inside it
/// and products such as cross terms fit in an `i64`.
pub const CMAX: i64 = 1_000_000_000;

/// Scale of the trigonometric table: `sin` and `cos` entries are the real
/// values multiplied by `TRIG_ONE` and rounded.
pub const TRIG_ONE: i64 = 10_000;

/// `a` saturated into the coordinate range `[-CMAX, CMAX]`.
pub open spec fn clamped(a: int) -> int {
    if a > CMAX {
        CMAX as int
    } else if a < -(CMAX as int) {
        -(CMAX as int)
    } else {
        a
    }
}

/// Truncating (round-toward-zero) division, as Rust's `/` computes it.
/// Meaningful for `b > 0`.
pub open spec fn dtr(a: int, b: int) -> int {
    if a >= 0 {
        a / b
    } else {
        -((-a) / b)
    }
}

pub fn clamp64(a: i64) -> (r: i64)
    ensures
        r == clamped(a as int),
{
    if a > CMAX {
        CMAX
    } else if a < -CMAX {
        -CMAX
    } else {
        a
    }
}

pub fn div_trunc(a: i64, b: i64) -> (r: i64)
    requires
        b > 0,
        a != i64::MIN,
    ensures
        r == dtr(a as int, b as int),
{
    if a >= 0 {
        proof {
            vstd::arithmetic::div_mod::lemma_div_nonincreasing(a as int, b as int);
            vstd::arithmetic::div_mod::lemma_div_pos_is_pos(a as int, b as int);
        }
        ((a as u64) / (b as u64)) as i64
    } else {
        proof {
            vstd::arithmetic::div_mod::lemma_div_nonincreasing(-(a as int), b as int);
            vstd::arithmetic::div_mod::lemma_div_pos_is_pos(-(a as int), b as int);
        }
        -((((-a) as u64) / (b as u64)) as i64)
    }
}

/// A 2D point or vector with milli-unit coordinates.
#[derive(Clone, Copy, PartialEq, Eq, Structural, Debug)]
pub struct Point {
    pub x: i64,
    pub y: i64,
}

/// Both coordinates lie in the saturation range.
pub open spec fn in_range(p: Point) -> bool {
    &&& -CMAX <= p.x <= CMAX
    &&& -CMAX <= p.y <= CMAX
}

/// Componentwise sum, saturated.
pub open spec fn pt_add(a: Point, b: Point) -> Point {
    Point { x: clamped(a.x + b.x) as i64, y: clamped(a.y + b.y) as i64 }
}

/// Componentwise scaling by `amt` thousandths, truncated, saturated.
pub open spec fn pt_scale(a: Point, amt: int) -> Point {
    Point {
        x: clamped(dtr(a.x * amt, 1000)) as i64,
        y: clamped(dtr(a.y * amt, 1000)) as i64,
    }
}

impl Point {
    pub fn new(x: i64, y: i64) -> (r: Point)
        ensures
            r == (Point { x, y }),
    {
        Point { x, y }
    }

    pub fn x(&self) -> (r: i64)
        ensures
            r == self.x,
    {
        self.x
    }

    pub fn y(&self) -> (r: i64)
        ensures
            r == self.y,
    {
        self.y
    }

    /// Squared length, in squared milli-units.
    pub fn length2(&self) -> (r: i64)
        requires
            in_range(*self),
        ensures
            r == self.x * self.x + self.y * self.y,
    {
        proof {
            lemma_abs_mul_bound(self.x as int, self.x as int, CMAX as int, CMAX as int);
            lemma_abs_mul_bound(self.y as int, self.y as int, CMAX as int, CMAX as int);
        }
        self.x * self.x + self.y * self.y
    }

    /// Length, in milli-units, rounded down.
    pub fn length(&self) -> (r: i64)
        requires
            in_range(*self),
        ensures
            0 <= r,
            r * r <= self.x * self.x + self.y * self.y,
            self.x * self.x + self.y * self.y < (r + 1) * (r + 1),
    {
        let sq: i64 = self.length2();
        proof {
            assert(0 <= self.x * self.x) by (nonlinear_arith);
            assert(0 <= self.y * self.y) by (nonlinear_arith);
        }
        let rt: u64 = isqrt64(sq as u64);
        proof {
            assert(rt <= 3_100_000_000) by (nonlinear_arith)
                requires
                    rt * rt <= i64::MAX,
            ;
        }
        rt as i64
    }

    /// In-place saturated addition.
    pub fn add(&mut self, p: &Point)
        requires
            in_range(*old(self)),
            in_range(*p),
        ensures
            *final(self) == pt_add(*old(self), *p),
    {
        self.x = clamp64(self.x + p.x);
        self.y = clamp64(self.y + p.y);
    }

    /// In-place scaling by `amt` thousandths (1000 leaves the point as it is).
    pub fn mul(&mut self, amt: i64)
        requires
            in_range(*old(self)),
            -1_000_000 <= amt <= 1_000_000,
        ensures
            *final(self) == pt_scale(*old(self), amt as int),
    {
        proof {
            lemma_abs_mul_bound(self.x as int, amt as int, CMAX as int, 1_000_000);
            lemma_abs_mul_bound(self.y as int, amt as int, CMAX as int, 1_000_000);
        }
        self.x = clamp64(div_trunc(self.x * amt, 1000));
        self.y = clamp64(div_trunc(self.y * amt, 1000));
    }

    pub fn flipx(&mut self)
        requires
            in_range(*old(self)),
        ensures
            final(self).x == -old(self).x,
            final(self).y == old(self).y,
    {
        self.x = -self.x;
    }

    pub fn flipy(&mut self)
        requires
            in_range(*old(self)),
        ensures
            final(self).x == old(self).x,
            final(self).y == -old(self).y,
    {
        self.y = -self.y;
    }

    pub fn is_zero(&self) -> (r: bool)
        ensures
            r == (self.x == 0 && self.y == 0),
    {
        self.x == 0 && self.y == 0
    }
}

/// `|a| <= m` and `|b| <= n` bound the product: `|a * b| <= m * n`.
pub proof fn lemma_abs_mul_bound(a: int, b: int, m: int, n: int)
    requires
        -m <= a <= m,
        -n <= b <= n,
        0 <= m,
        0 <= n,
    ensures
        -(m * n) <= a * b <= m * n,
{
    assert(-(m * n) <= a * b <= m * n) by (nonlinear_arith)
        requires
            -m <= a <= m,
            -n <= b <= n,
            0 <= m,
            0 <= n,
    ;
}

/// A bound on the dividend bounds the truncated quotient.
pub proof fn lemma_dtr_bound(a: int, b: int, m: int)
    requires
        0 < b,
        0 <= m,
        -m <= a <= m,
    ensures
        -(m / b) <= dtr(a, b) <= m / b,
{
    if a >= 0 {
        vstd::arithmetic::div_mod::lemma_div_pos_is_pos(a, b);
        vstd::arithmetic::div_mod::lemma_div_is_ordered(a, m, b);
    } else {
        vstd::arithmetic::div_mod::lemma_div_pos_is_pos(-a, b);
        vstd::arithmetic::div_mod::lemma_div_is_ordered(-a, m, b);
    }
}

/// Largest `r` with `r * r <= v`.
fn isqrt64(v: u64) -> (r: u64)
    ensures
        r * r <= v,
        v < (r + 1) * (r + 1),
{
    if v == 0 {
        return 0;
    }
    let mut lo: u64 = 0;
    let mut hi: u64 = 4_294_967_296;
    proof {
        assert(4_294_967_296int * 4_294_967_296 > u64::MAX) by (nonlinear_arith);
    }
    // binary search for the largest root: lo always fits, hi never does
    while lo + 1 < hi
        invariant
            lo < hi,
            hi <= 4_294_967_296,
            lo * lo <= v,
            v < hi * hi,
        decreases hi - lo,
    {
        let mid: u64 = lo + (hi - lo) / 2;
        proof {
            lemma_abs_mul_bound(mid as int, mid as int, 4_294_967_295, 4_294_967_295);
        }
        if mid * mid <= v {
            lo = mid;
        } else {
            hi = mid;
        }
    }
    lo
}

/// Scaled sine for a degree in the first quadrant: `round(sin(i deg) * 10_000)`
/// for `0 <= i <= 90`, and 0 outside that range.
#[verifier::opaque]
pub open spec fn sin_q(i: int) -> int {
    if i == 0 {
        0
    } else if i == 1 {
        175
    } else if i == 2 {
        349
    } else if i == 3 {
        523
    } else if i == 4 {
        698
    } else if i == 5 {
        872
    } else if i == 6 {
        1045
    } else if i == 7 {
        1219
    } else if i == 8 {
        1392
    } else if i == 9 {
        1564
    } else if i == 10 {
        1736
    } else if i == 11 {
        1908
    } else if i == 12 {
        2079
    } else if i == 13 {
        2250
    } else if i == 14 {
        2419
    } else if i == 15 {
        2588
    } else if i == 16 {
        2756
    } else if i == 17 {
        2924
    } else if i == 18 {
        3090
    } else if i == 19 {
        3256
    } else if i == 20 {
        3420
    } else if i == 21 {
        3584
    } else if i == 22 {
        3746
    } else if i == 23 {
        3907
    } else if i == 24 {
        4067
    } else if i == 25 {
        4226
    } else if i == 26 {
        4384
    } else if i == 27 {
        4540
    } else if i == 28 {
        4695
    } else if i == 29 {
        4848
    } else if i == 30 {
        5000
    } else if i == 31 {
        5150
    } else if i == 32 {
        5299
    } else if i == 33 {
        5446
    } else if i == 34 {
        5592
    } else if i == 35 {
        5736
    } else if i == 36 {
        5878
    } else if i == 37 {
        6018
    } else if i == 38 {
        6157
    } else if i == 39 {
        6293
    } else if i == 40 {
        6428
    } else if i == 41 {
        6561
    } else if i == 42 {
        6691
    } else if i == 43 {
        6820
    } else if i == 44 {
        6947
    } else if i == 45 {
        7071
    } else if i == 46 {
        7193
    } else if i == 47 {
        7314
    } else if i == 48 {
        7431
    } else if i == 49 {
        7547
    } else if i == 50 {
        7660
    } else if i == 51 {
        7771
    } else if i == 52 {
        7880
    } else if i == 53 {
        7986
    } else if i == 54 {
        8090
    } else if i == 55 {
        8192
    } else if i == 56 {
        8290
    } else if i == 57 {
        8387
    } else if i == 58 {
        8480
    } else if i == 59 {
        8572
    } else if i == 60 {
        8660
    } else if i == 61 {
        8746
    } else if i == 62 {
        8829
    } else if i == 63 {
        8910
    } else if i == 64 {
        8988
    } else if i == 65 {
        9063
    } else if i == 66 {
        9135
    } else if i == 67 {
        9205
    } else if i == 68 {
        9272
    } else if i == 69 {
        9336
    } else if i == 70 {
        9397
    } else if i == 71 {
        9455
    } else if i == 72 {
        9511
    } else if i == 73 {
        9563
    } else if i == 74 {
        9613
    } else if i == 75 {
        9659
    } else if i == 76 {
        9703
    } else if i == 77 {
        9744
    } else if i == 78 {
        9781
    } else if i == 79 {
        9816
    } else if i == 80 {
        9848
    } else if i == 81 {
        9877
    } else if i == 82 {
        9903
    } else if i == 83 {
        9925
    } else if i == 84 {
        9945
    } else if i == 85 {
        9962
    } else if i == 86 {
        9976
    } else if i == 87 {
        9986
    } else if i == 88 {
        9994
    } else if i == 89 {
        9998
    } else if i == 90 {
        10000
    } else {
        0
    }
}

fn sin_q_x(i: u32) -> (r: i64)
    requires
        i <= 90,
    ensures
        r == sin_q(i as int),
        -TRIG_ONE <= r <= TRIG_ONE,
{
    proof {
        reveal(sin_q);
    }
    match i {
        0 => 0,
        1 => 175,
        2 => 349,
        3 => 523,
        4 => 698,
        5 => 872,
        6 => 1045,
        7 => 1219,
        8 => 1392,
        9 => 1564,
        10 => 1736,
        11 => 1908,
        12 => 2079,
        13 => 2250,
        14 => 2419,
        15 => 2588,
        16 => 2756,
        17 => 2924,
        18 => 3090,
        19 => 3256,
        20 => 3420,
        21 => 3584,
        22 => 3746,
        23 => 3907,
        24 => 4067,
        25 => 4226,
        26 => 4384,
        27 => 4540,
        28 => 4695,
        29 => 4848,
        30 => 5000,
        31 => 5150,
        32 => 5299,
        33 => 5446,
        34 => 5592,
        35 => 5736,
        36 => 5878,
        37 => 6018,
        38 => 6157,
        39 => 6293,
        40 => 6428,
        41 => 6561,
        42 => 6691,
        43 => 6820,
        44 => 6947,
        45 => 7071,
        46 => 7193,
        47 => 7314,
        48 => 7431,
        49 => 7547,
        50 => 7660,
        51 => 7771,
        52 => 7880,
        53 => 7986,
        54 => 8090,
        55 => 8192,
        56 => 8290,
        57 => 8387,
        58 => 8480,
        59 => 8572,
        60 => 8660,
        61 => 8746,
        62 => 8829,
        63 => 8910,
        64 => 8988,
        65 => 9063,
        66 => 9135,
        67 => 9205,
        68 => 9272,
        69 => 9336,
        70 => 9397,
        71 => 9455,
        72 => 9511,
        73 => 9563,
        74 => 9613,
        75 => 9659,
        76 => 9703,
        77 => 9744,
        78 => 9781,
        79 => 9816,
        80 => 9848,
        81 => 9877,
        82 => 9903,
        83 => 9925,
        84 => 9945,
        85 => 9962,
        86 => 9976,
        87 => 9986,
        88 => 9994,
        89 => 9998,
        90 => 10000,
        _ => 0,
    }
}

/// Scaled sine for any table index `0 <= i < 360`, unfolded from the first
/// quadrant by the usual symmetries.
pub open spec fn sin_full(i: int) -> int {
    if i <= 90 {
        sin_q(i)
    } else if i <= 180 {
        sin_q(180 - i)
    } else if i <= 270 {
        -sin_q(i - 180)
    } else {
        -sin_q(360 - i)
    }
}

/// Scaled cosine for a table index, a quarter turn ahead of the sine.
pub open spec fn cos_full(i: int) -> int {
    sin_full((i + 90) % 360)
}

/// Milli-radians for a table index: `i * pi / 180 * 1000`, truncated.
pub open spec fn rad_of(i: int) -> int {
    i * 314159 / 18000
}

/// A degree count reduced to the table range `[0, 360)` (Euclidean remainder).
pub open spec fn norm360(d: int) -> int {
    d % 360
}

/// Scaled sine of an arbitrary signed degree count.
pub open spec fn sindeg(d: int) -> int {
    sin_full(norm360(d))
}

/// Scaled cosine of an arbitrary signed degree count.
pub open spec fn cosdeg(d: int) -> int {
    cos_full(norm360(d))
}

/// Milli-radians of an arbitrary signed degree count.
pub open spec fn raddeg(d: int) -> int {
    rad_of(norm360(d))
}

pub proof fn lemma_sin_q_bounds(i: int)
    ensures
        -TRIG_ONE <= sin_q(i) <= TRIG_ONE,
{
    reveal(sin_q);
}

pub proof fn lemma_sin_full_bounds(i: int)
    ensures
        -TRIG_ONE <= sin_full(i) <= TRIG_ONE,
        -TRIG_ONE <= cos_full(i) <= TRIG_ONE,
{
    lemma_sin_q_bounds(i);
    lemma_sin_q_bounds(180 - i);
    lemma_sin_q_bounds(i - 180);
    lemma_sin_q_bounds(360 - i);
    let j = (i + 90) % 360;
    lemma_sin_q_bounds(j);
    lemma_sin_q_bounds(180 - j);
    lemma_sin_q_bounds(j - 180);
    lemma_sin_q_bounds(360 - j);
}

fn sin_full_x(i: u32) -> (r: i64)
    requires
        i < 360,
    ensures
        r == sin_full(i as int),
{
    if i <= 90 {
        sin_q_x(i)
    } else if i <= 180 {
        sin_q_x(180 - i)
    } else if i <= 270 {
        -sin_q_x(i - 180)
    } else {
        -sin_q_x(360 - i)
    }
}

/// Reduce a signed degree count to the table range `[0, 360)`.
pub fn norm_deg(d: i32) -> (r: u32)
    ensures
        r == norm360(d as int),
        r < 360,
{
    proof {
        lemma_mod_bound(d as int, 360);
    }
    match d.checked_rem_euclid(360) {
        Some(v) => v as u32,
        None => 0,
    }
}

/// Reduce a signed 64-bit degree count to the table range `[0, 360)`.
pub fn norm_deg64(d: i64) -> (r: u32)
    ensures
        r == norm360(d as int),
        r < 360,
{
    proof {
        lemma_mod_bound(d as int, 360);
    }
    match d.checked_rem_euclid(360) {
        Some(v) => v as u32,
        None => 0,
    }
}

/// The quantized trigonometry table: one entry for each of the 360 integer
/// degrees, holding milli-radians and sine/cosine scaled by `TRIG_ONE`.
pub struct Trig {
    pub sin_t: Vec<i64>,
    pub cos_t: Vec<i64>,
    pub rad_t: Vec<i64>,
}

impl Trig {
    /// The three tables are fully populated with the quantized values.
    pub open spec fn wf(self) -> bool {
        &&& self.sin_t@.len() == 360
        &&& self.cos_t@.len() == 360
        &&& self.rad_t@.len() == 360
        &&& forall|i: int| 0 <= i < 360 ==> #[trigger] self.sin_t@[i] == sin_full(i)
        &&& forall|i: int| 0 <= i < 360 ==> #[trigger] self.cos_t@[i] == cos_full(i)
        &&& forall|i: int| 0 <= i < 360 ==> #[trigger] self.rad_t@[i] == rad_of(i)
    }

    pub fn new() -> (t: Trig)
        ensures
            t.wf(),
    {
        let mut sin_t: Vec<i64> = Vec::new();
        let mut cos_t: Vec<i64> = Vec::new();
        let mut rad_t: Vec<i64> = Vec::new();
        for i in 0..360u32
            invariant
                sin_t@.len() == i,
                cos_t@.len() == i,
                rad_t@.len() == i,
                forall|j: int| 0 <= j < i ==> #[trigger] sin_t@[j] == sin_full(j),
                forall|j: int| 0 <= j < i ==> #[trigger] cos_t@[j] == cos_full(j),
                forall|j: int| 0 <= j < i ==> #[trigger] rad_t@[j] == rad_of(j),
        {
            sin_t.push(sin_full_x(i));
            cos_t.push(sin_full_x((i + 90) % 360));
            rad_t.push((((i as u64) * 314159) / 18000) as i64);
        }
        Trig { sin_t, cos_t, rad_t }
    }

    /// Milli-radians of `deg`.
    pub fn rad(&self, deg: i32) -> (r: i64)
        requires
            self.wf(),
        ensures
            r == raddeg(deg as int),
    {
        let idx: u32 = norm_deg(deg);
        self.rad_t[idx as usize]
    }

    /// Scaled sine of `deg`.
    pub fn sin(&self, deg: i32) -> (r: i64)
        requires
            self.wf(),
        ensures
            r == sindeg(deg as int),
    {
        let idx: u32 = norm_deg(deg);
        self.sin_t[idx as usize]
    }

    /// Scaled cosine of `deg`.
    pub fn cos(&self, deg: i32) -> (r: i64)
        requires
            self.wf(),
        ensures
            r == cosdeg(deg as int),
    {
        let idx: u32 = norm_deg(deg);
        self.cos_t[idx as usize]
    }

    /// `p` rotated by `deg` degrees about the origin.
    pub fn rot(&self, p: &Point, deg: i32) -> (r: Point)
        requires
            self.wf(),
            in_range(*p),
        ensures
            r == spec_rot(*p, deg as int),
            in_range(r),
    {
        let s: i64 = self.sin(deg);
        let c: i64 = self.cos(deg);
        proof {
            lemma_sin_full_bounds(norm360(deg as int));
            lemma_abs_mul_bound(c as int, p.x as int, TRIG_ONE as int, CMAX as int);
            lemma_abs_mul_bound(s as int, p.y as int, TRIG_ONE as int, CMAX as int);
            lemma_abs_mul_bound(s as int, p.x as int, TRIG_ONE as int, CMAX as int);
            lemma_abs_mul_bound(c as int, p.y as int, TRIG_ONE as int, CMAX as int);
        }
        Point {
            x: clamp64(div_trunc(c * p.x - s * p.y, TRIG_ONE)),
            y: clamp64(div_trunc(s * p.x + c * p.y, TRIG_ONE)),
        }
    }
}

/// `p` rotated by `d` degrees about the origin, in table arithmetic:
/// products with the scaled sine/cosine, truncated back down by `TRIG_ONE`,
/// saturated into the coordinate range.
pub open spec fn spec_rot(p: Point, d: int) -> Point {
    Point {
        x: clamped(dtr(cosdeg(d) * p.x - sindeg(d) * p.y, TRIG_ONE as int)) as i64,
        y: clamped(dtr(sindeg(d) * p.x + cosdeg(d) * p.y, TRIG_ONE as int)) as i64,
    }
}


/// The doubled signed area term deciding which side of the directed edge
/// `a1 -> a2` the point `b` lies on.
pub open spec fn cross(a1: Point, a2: Point, b: Point) -> int {
    (a1.y - a2.y) * (b.x - a1.x) + (a2.x - a1.x) * (b.y - a1.y)
}

/// Side of the directed edge `a1 -> a2` that `b` lies on: `1` for a strictly
/// positive cross term, `-1` otherwise.  Collinear points count as `-1`;
/// there is deliberately no zero branch.
pub open spec fn side_spec(a1: Point, a2: Point, b: Point) -> int {
    if cross(a1, a2, b) > 0 {
        1int
    } else {
        -1int
    }
}

fn side(a1: &Point, a2: &Point, b: &Point) -> (r: i32)
    requires
        in_range(*a1),
        in_range(*a2),
        in_range(*b),
    ensures
        r as int == side_spec(*a1, *a2, *b),
{
    proof {
        assert({
            let t1 = (a1.y - a2.y) * (b.x - a1.x);
            let t2 = (a2.x - a1.x) * (b.y - a1.y);
            -4_000_000_000_000_000_000 <= t1 <= 4_000_000_000_000_000_000
                && -4_000_000_000_000_000_000 <= t2 <= 4_000_000_000_000_000_000
        }) by (nonlinear_arith)
            requires
                in_range(*a1),
                in_range(*a2),
                in_range(*b),
        ;
    }
    let v: i64 = (a1.y - a2.y) * (b.x - a1.x) + (a2.x - a1.x) * (b.y - a1.y);
    if v > 0 {
        1
    } else {
        -1
    }
}

/// The directed edge `s1 -> s2` (with `r` the remaining vertex of its own
/// triangle) separates the triangle `(a, b, c)`: all three of its vertices
/// lie on the side opposite to `r`.
pub open spec fn edge_separates(s1: Point, s2: Point, r: Point, a: Point, b: Point, c: Point) -> bool {
    &&& side_spec(s1, s2, a) != side_spec(s1, s2, r)
    &&& side_spec(s1, s2, b) != side_spec(s1, s2, r)
    &&& side_spec(s1, s2, c) != side_spec(s1, s2, r)
}

/// The triangles `(p, q, r)` and `(u, v, w)` overlap: none of the six
/// directed edges across the two triangles separates the other triangle.
pub open spec fn tri_collide(p: Point, q: Point, r: Point, u: Point, v: Point, w: Point) -> bool {
    &&& !edge_separates(p, q, r, u, v, w)
    &&& !edge_separates(q, r, p, u, v, w)
    &&& !edge_separates(r, p, q, u, v, w)
    &&& !edge_separates(u, v, w, p, q, r)
    &&& !edge_separates(v, w, u, p, q, r)
    &&& !edge_separates(w, u, v, p, q, r)
}

fn edge_sep(s1: &Point, s2: &Point, r: &Point, a: &Point, b: &Point, c: &Point) -> (sep: bool)
    requires
        in_range(*s1),
        in_range(*s2),
        in_range(*r),
        in_range(*a),
        in_range(*b),
        in_range(*c),
    ensures
        sep == edge_separates(*s1, *s2, *r, *a, *b, *c),
{
    let sr: i32 = side(s1, s2, r);
    if sr * side(s1, s2, a) > 0 {
        return false;
    }
    if sr * side(s1, s2, b) > 0 {
        return false;
    }
    if sr * side(s1, s2, c) > 0 {
        return false;
    }
    true
}

fn collide_tri(
    t1a: &Point,
    t1b: &Point,
    t1c: &Point,
    t2a: &Point,
    t2b: &Point,
    t2c: &Point,
) -> (r: bool)
    requires
        in_range(*t1a),
        in_range(*t1b),
        in_range(*t1c),
        in_range(*t2a),
        in_range(*t2b),
        in_range(*t2c),
    ensures
        r == tri_collide(*t1a, *t1b, *t1c, *t2a, *t2b, *t2c),
{
    if edge_sep(t1a, t1b, t1c, t2a, t2b, t2c) {
        return false;
    }
    if edge_sep(t1b, t1c, t1a, t2a, t2b, t2c) {
        return false;
    }
    if edge_sep(t1c, t1a, t1b, t2a, t2b, t2c) {
        return false;
    }
    if edge_sep(t2a, t2b, t2c, t1a, t1b, t1c) {
        return false;
    }
    if edge_sep(t2b, t2c, t2a, t1a, t1b, t1c) {
        return false;
    }
    if edge_sep(t2c, t2a, t2b, t1a, t1b, t1c) {
        return false;
    }
    true
}

/// Every point of the sequence lies in the coordinate range.
pub open spec fn all_in_range(s: Seq<Point>) -> bool {
    forall|i: int| 0 <= i < s.len() ==> in_range(#[trigger] s[i])
}

/// The two polygons, fan-triangulated around their first vertices, have a
/// pair of overlapping triangles.
pub open spec fn polys_collide(s1: Seq<Point>, s2: Seq<Point>) -> bool {
    exists|i1: int, i2: int|
        1 <= i1 < s1.len() - 1 && 1 <= i2 < s2.len() - 1 && #[trigger] tri_collide(
            s1[0],
            s1[i1],
            s1[i1 + 1],
            s2[0],
            s2[i2],
            s2[i2 + 1],
        )
}

/// Whether the two polygons overlap.  Each is read as a fan of triangles
/// around its first vertex; the caller must supply a vertex order for which
/// that fan covers the intended shape.
pub fn collide(s1: &Vec<Point>, s2: &Vec<Point>) -> (r: bool)
    requires
        s1@.len() >= 1,
        s2@.len() >= 1,
        all_in_range(s1@),
        all_in_range(s2@),
    ensures
        r == polys_collide(s1@, s2@),
{
    let n1: usize = s1.len();
    let n2: usize = s2.len();
    let mut i1: usize = 1;
    while i1 < n1 - 1
        invariant
            1 <= i1,
            n1 == s1@.len(),
            n2 == s2@.len(),
            1 <= n1,
            1 <= n2,
            all_in_range(s1@),
            all_in_range(s2@),
            forall|j1: int, j2: int|
                1 <= j1 < i1 && 1 <= j2 < s2@.len() - 1 ==> !#[trigger] tri_collide(
                    s1@[0],
                    s1@[j1],
                    s1@[j1 + 1],
                    s2@[0],
                    s2@[j2],
                    s2@[j2 + 1],
                ),
        decreases n1 - i1,
    {
        let mut i2: usize = 1;
        while i2 < n2 - 1
            invariant
                1 <= i1 < n1 - 1,
                1 <= i2,
                n1 == s1@.len(),
                n2 == s2@.len(),
                1 <= n2,
                all_in_range(s1@),
                all_in_range(s2@),
                forall|j1: int, j2: int|
                    1 <= j1 < i1 && 1 <= j2 < s2@.len() - 1 ==> !#[trigger] tri_collide(
                        s1@[0],
                        s1@[j1],
                        s1@[j1 + 1],
                        s2@[0],
                        s2@[j2],
                        s2@[j2 + 1],
                    ),
                forall|j2: int|
                    1 <= j2 < i2 ==> !#[trigger] tri_collide(
                        s1@[0],
                        s1@[i1 as int],
                        s1@[i1 + 1],
                        s2@[0],
                        s2@[j2],
                        s2@[j2 + 1],
                    ),
            decreases n2 - i2,
        {
            if collide_tri(&s1[0], &s1[i1], &s1[i1 + 1], &s2[0], &s2[i2], &s2[i2 + 1]) {
                return true;
            }
            i2 = i2 + 1;
        }
        i1 = i1 + 1;
    }
    false
}

/// Whether `p` lies in the closed axis-aligned rectangle `[x0, x1] x [y0, y1]`.
pub open spec fn in_rect(p: Point, x0: int, y0: int, x1: int, y1: int) -> bool {
    &&& x0 <= p.x <= x1
    &&& y0 <= p.y <= y1
}

pub fn inside_rect(p: &Point, x0: i64, y0: i64, x1: i64, y1: i64) -> (r: bool)
    ensures
        r == in_rect(*p, x0 as int, y0 as int, x1 as int, y1 as int),
{
    if p.x < x0 {
        return false;
    }
    if p.x > x1 {
        return false;
    }
    if p.y < y0 {
        return false;
    }
    if p.y > y1 {
        return false;
    }
    true
}

/// The same table entry serves a degree count and its remainder: looking an
/// angle up after reducing it modulo 360 changes nothing.
pub proof fn lemma_angle_mod(d: int)
    ensures
        sindeg(d % 360) == sindeg(d),
        cosdeg(d % 360) == cosdeg(d),
        raddeg(d % 360) == raddeg(d),
{
    lemma_mod_bound(d, 360);
    lemma_small_mod((d % 360) as nat, 360nat);
}

/// The angle table is periodic: shifting a degree count by any whole number
/// of turns leads to the same entry.
pub proof fn lemma_angle_periodic(d: int, k: int)
    ensures
        sindeg(d + 360 * k) == sindeg(d),
        cosdeg(d + 360 * k) == cosdeg(d),
        raddeg(d + 360 * k) == raddeg(d),
{
    lemma_mod_multiples_vanish(k, d, 360);
    assert(360 * k + d == d + 360 * k);
}

/// Polygon collision is symmetric in its two arguments.
pub proof fn lemma_collide_symmetric(s1: Seq<Point>, s2: Seq<Point>)
    ensures
        polys_collide(s1, s2) == polys_collide(s2, s1),
{
    if polys_collide(s1, s2) {
        let (i1, i2) = choose|i1: int, i2: int|
            1 <= i1 < s1.len() - 1 && 1 <= i2 < s2.len() - 1 && #[trigger] tri_collide(
                s1[0],
                s1[i1],
                s1[i1 + 1],
                s2[0],
                s2[i2],
                s2[i2 + 1],
            );
        assert(tri_collide(s2[0], s2[i2], s2[i2 + 1], s1[0], s1[i1], s1[i1 + 1]));
        assert(polys_collide(s2, s1));
    }
    if polys_collide(s2, s1) {
        let (i2, i1) = choose|i2: int, i1: int|
            1 <= i2 < s2.len() - 1 && 1 <= i1 < s1.len() - 1 && #[trigger] tri_collide(
                s2[0],
                s2[i2],
                s2[i2 + 1],
                s1[0],
                s1[i1],
                s1[i1 + 1],
            );
        assert(tri_collide(s1[0], s1[i1], s1[i1 + 1], s2[0], s2[i2], s2[i2 + 1]));
        assert(polys_collide(s1, s2));
    }
}


/// Negating an angle mirrors the table: the sine flips sign and the cosine
/// is unchanged, exactly, at every integer degree.
pub proof fn lemma_angle_negate(d: int)
    ensures
        sindeg(-d) == -sindeg(d),
        cosdeg(-d) == cosdeg(d),
{
    reveal(sin_q);
    lemma_mod_bound(d, 360);
    let r = d % 360;
    vstd::arithmetic::div_mod::lemma_fundamental_div_mod(d, 360);
    assert(-d == 360 * (-(d / 360) - 1) + (360 - r)) by {
        assert(d == 360 * (d / 360) + r);
    }
    lemma_mod_multiples_vanish(-(d / 360) - 1, 360 - r, 360);
    assert((-d) % 360 == (360 - r) % 360);
    if r == 0 {
        assert(360 - r == 360 * 1 + 0);
        lemma_mod_multiples_vanish(1, 0, 360);
        lemma_small_mod(0nat, 360nat);
        assert(norm360(-d) == 0);
        assert(sin_full(0) == 0);
        lemma_small_mod(90nat, 360nat);
    } else {
        lemma_small_mod((360 - r) as nat, 360nat);
        assert(norm360(-d) == 360 - r);
        // the sine rows at r and 360 - r hold opposite values
        assert(sin_full(360 - r) == -sin_full(r));
        // the cosine looks the sine up a quarter turn ahead: pin both
        // shifted indices and compare the rows
        if r <= 269 {
            lemma_small_mod((r + 90) as nat, 360nat);
            assert((r + 90) % 360 == r + 90);
        } else {
            assert(r + 90 == 360 * 1 + (r - 270));
            lemma_mod_multiples_vanish(1, r - 270, 360);
            lemma_small_mod((r - 270) as nat, 360nat);
            assert((r + 90) % 360 == r - 270);
        }
        if r >= 91 {
            lemma_small_mod((450 - r) as nat, 360nat);
            assert((360 - r + 90) % 360 == 450 - r);
        } else {
            assert(360 - r + 90 == 360 * 1 + (90 - r));
            lemma_mod_multiples_vanish(1, 90 - r, 360);
            lemma_small_mod((90 - r) as nat, 360nat);
            assert((360 - r + 90) % 360 == 90 - r);
        }
        assert(cos_full(360 - r) == cos_full(r));
    }
}


/// Each quarter-table pair of sine and cosine entries squares to the scale
/// squared, within the rounding of the table.
proof fn lemma_sin_q_pythagoras(j: int)
    requires
        0 <= j <= 90,
    ensures
        100_000_000 - 11_286 <= sin_q(j) * sin_q(j) + sin_q(90 - j) * sin_q(90 - j)
            <= 100_000_000 + 11_286,
{
    reveal(sin_q);
}


proof fn lemma_neg_square(a: int)
    ensures
        (-a) * (-a) == a * a,
{
    assert((-a) * (-a) == a * a) by (nonlinear_arith);
}

/// The table's sine and cosine at any degree square to the scale squared,
/// within the rounding of the table.
pub proof fn lemma_trig_pythagoras(d: int)
    ensures
        100_000_000 - 11_286 <= sindeg(d) * sindeg(d) + cosdeg(d) * cosdeg(d) <= 100_000_000
            + 11_286,
{
    lemma_mod_bound(d, 360);
    let n: int = norm360(d);
    if n <= 269 {
        lemma_small_mod((n + 90) as nat, 360nat);
        assert((n + 90) % 360 == n + 90);
    } else {
        assert(n + 90 == 360 * 1 + (n - 270));
        lemma_mod_multiples_vanish(1, n - 270, 360);
        lemma_small_mod((n - 270) as nat, 360nat);
        assert((n + 90) % 360 == n - 270);
    }
    let j: int = if n <= 90 {
        n
    } else if n <= 180 {
        180 - n
    } else if n <= 270 {
        n - 180
    } else {
        360 - n
    };
    lemma_sin_q_pythagoras(j);
    lemma_neg_square(sin_q(j));
    lemma_neg_square(sin_q(90 - j));
    assert(sindeg(d) * sindeg(d) + cosdeg(d) * cosdeg(d) == sin_q(j) * sin_q(j) + sin_q(90 - j)
        * sin_q(90 - j));
}

/// Scaling the truncated quotient back up lands within one divisor of the
/// dividend.
proof fn lemma_dtr_remainder(a: int, b: int)
    requires
        0 < b,
    ensures
        a - (b - 1) <= b * dtr(a, b) <= a + (b - 1),
{
    if a >= 0 {
        vstd::arithmetic::div_mod::lemma_fundamental_div_mod(a, b);
        lemma_mod_bound(a, b);
    } else {
        vstd::arithmetic::div_mod::lemma_fundamental_div_mod(-a, b);
        lemma_mod_bound(-a, b);
        assert(b * dtr(a, b) == -(b * ((-a) / b))) by (nonlinear_arith)
            requires
                a < 0,
                dtr(a, b) == -((-a) / b),
        ;
    }
}


/// The rotation round trip: carrying a configuration-scale point through
/// any angle and back returns it to within the rounding of the table, at
/// most 11_289 milli-units of drift on each axis.
pub proof fn lemma_rot_round_trip(p: Point, d: int)
    requires
        -100_000_000 <= p.x <= 100_000_000,
        -100_000_000 <= p.y <= 100_000_000,
    ensures
        -11_289 <= spec_rot(spec_rot(p, d), -d).x - p.x <= 11_289,
        -11_289 <= spec_rot(spec_rot(p, d), -d).y - p.y <= 11_289,
{
    lemma_angle_negate(d);
    lemma_sin_full_bounds(norm360(d));
    lemma_trig_pythagoras(d);
    let s: int = sindeg(d);
    let c: int = cosdeg(d);
    let ax: int = c * p.x - s * p.y;
    let ay: int = s * p.x + c * p.y;
    lemma_abs_mul_bound(c, p.x as int, 10_000, 100_000_000);
    lemma_abs_mul_bound(s, p.y as int, 10_000, 100_000_000);
    lemma_abs_mul_bound(s, p.x as int, 10_000, 100_000_000);
    lemma_abs_mul_bound(c, p.y as int, 10_000, 100_000_000);
    lemma_dtr_bound(ax, 10_000, 2_000_000_000_000);
    lemma_dtr_bound(ay, 10_000, 2_000_000_000_000);
    let q: Point = spec_rot(p, d);
    assert(q.x == dtr(ax, 10_000));
    assert(q.y == dtr(ay, 10_000));
    lemma_dtr_remainder(ax, 10_000);
    lemma_dtr_remainder(ay, 10_000);
    let ex: int = 10_000 * q.x - ax;
    let ey: int = 10_000 * q.y - ay;
    assert(-9_999 <= ex <= 9_999);
    assert(-9_999 <= ey <= 9_999);
    // the way back uses the mirrored table rows
    let bx: int = c * q.x + s * q.y;
    let by: int = (-s) * q.x + c * q.y;
    assert(cosdeg(-d) * q.x - sindeg(-d) * q.y == bx) by (nonlinear_arith)
        requires
            sindeg(-d) == -s,
            cosdeg(-d) == c,
            bx == c * q.x + s * q.y,
    ;
    assert(sindeg(-d) * q.x + cosdeg(-d) * q.y == by) by (nonlinear_arith)
        requires
            sindeg(-d) == -s,
            cosdeg(-d) == c,
            by == (-s) * q.x + c * q.y,
    ;
    lemma_abs_mul_bound(c, q.x as int, 10_000, 200_000_001);
    lemma_abs_mul_bound(s, q.y as int, 10_000, 200_000_001);
    lemma_abs_mul_bound(-s, q.x as int, 10_000, 200_000_001);
    lemma_abs_mul_bound(c, q.y as int, 10_000, 200_000_001);
    lemma_dtr_bound(bx, 10_000, 4_000_000_020_000);
    lemma_dtr_bound(by, 10_000, 4_000_000_020_000);
    let r: Point = spec_rot(q, -d);
    assert(r.x == dtr(bx, 10_000));
    assert(r.y == dtr(by, 10_000));
    lemma_dtr_remainder(bx, 10_000);
    lemma_dtr_remainder(by, 10_000);
    let fx: int = 10_000 * r.x - bx;
    let fy: int = 10_000 * r.y - by;
    assert(-9_999 <= fx <= 9_999);
    assert(-9_999 <= fy <= 9_999);
    // unfold the two truncations into one polynomial identity, one product
    // at a time
    assert(10_000 * bx == c * (10_000 * q.x) + s * (10_000 * q.y)) by (nonlinear_arith)
        requires
            bx == c * q.x + s * q.y,
    ;
    assert(10_000 * by == (-s) * (10_000 * q.x) + c * (10_000 * q.y)) by (nonlinear_arith)
        requires
            by == (-s) * q.x + c * q.y,
    ;
    assert(c * (10_000 * q.x) == c * ax + c * ex) by (nonlinear_arith)
        requires
            10_000 * q.x == ax + ex,
    ;
    assert(s * (10_000 * q.y) == s * ay + s * ey) by (nonlinear_arith)
        requires
            10_000 * q.y == ay + ey,
    ;
    assert((-s) * (10_000 * q.x) == (-s) * ax + (-s) * ex) by (nonlinear_arith)
        requires
            10_000 * q.x == ax + ex,
    ;
    assert(c * (10_000 * q.y) == c * ay + c * ey) by (nonlinear_arith)
        requires
            10_000 * q.y == ay + ey,
    ;
    assert(c * ax + s * ay == (c * c + s * s - 100_000_000) * p.x + 100_000_000 * p.x)
        by (nonlinear_arith)
        requires
            ax == c * p.x - s * p.y,
            ay == s * p.x + c * p.y,
    ;
    assert((-s) * ax + c * ay == (c * c + s * s - 100_000_000) * p.y + 100_000_000 * p.y)
        by (nonlinear_arith)
        requires
            ax == c * p.x - s * p.y,
            ay == s * p.x + c * p.y,
    ;
    // bound every term of the identity
    lemma_abs_mul_bound(c * c + s * s - 100_000_000, p.x as int, 11_286, 100_000_000);
    lemma_abs_mul_bound(c * c + s * s - 100_000_000, p.y as int, 11_286, 100_000_000);
    lemma_abs_mul_bound(c, ex, 10_000, 9_999);
    lemma_abs_mul_bound(s, ey, 10_000, 9_999);
    lemma_abs_mul_bound(-s, ex, 10_000, 9_999);
    lemma_abs_mul_bound(c, ey, 10_000, 9_999);
    assert(100_000_000 * r.x == 10_000 * bx + 10_000 * fx);
    assert(100_000_000 * r.y == 10_000 * by + 10_000 * fy);
    assert(-1_128_899_970_000 <= 100_000_000 * r.x - 100_000_000 * p.x <= 1_128_899_970_000);
    assert(-1_128_899_970_000 <= 100_000_000 * r.y - 100_000_000 * p.y <= 1_128_899_970_000);
    assert(-11_289 <= r.x - p.x <= 11_289);
    assert(-11_289 <= r.y - p.y <= 11_289);
}

proof fn lemma_dtr_scale(a: int)
    ensures
        dtr(TRIG_ONE * a, TRIG_ONE as int) == a,
{
    if a >= 0 {
        lemma_div_multiples_vanish(a, TRIG_ONE as int);
    } else {
        lemma_div_multiples_vanish(-a, TRIG_ONE as int);
    }
}

/// Rotating by a quarter turn and back returns a point exactly: the table
/// entries at 90 and -90 degrees are exact, so no truncation is lost.
pub proof fn lemma_rot_quarter_inverse(p: Point)
    requires
        in_range(p),
    ensures
        spec_rot(spec_rot(p, 90), -90) == p,
{
    reveal(sin_q);
    lemma_small_mod(90nat, 360nat);
    lemma_mod_multiples_vanish(1, -90, 360);
    lemma_small_mod(270nat, 360nat);
    assert(sindeg(90) == 10000);
    assert(cosdeg(90) == 0);
    assert(sindeg(-90) == -10000);
    assert(cosdeg(-90) == 0);
    lemma_dtr_scale(-p.y);
    lemma_dtr_scale(p.x as int);
    let q = spec_rot(p, 90);
    assert(q.x == -p.y);
    assert(q.y == p.x);
    lemma_dtr_scale(q.y as int);
    lemma_dtr_scale(-q.x);
    assert(spec_rot(q, -90).x == p.x);
    assert(spec_rot(q, -90).y == p.y);
}

} // verus!
