//! Integer 2D geometry: points, squared distances, an integer square
//! root, and the clamped fixed-point movement step that every agent uses.

use vstd::prelude::*;

use crate::settings::{DIR_SCALE, MAX_TICK_MS, POS_LIMIT, SPEED_LIMIT};

verus! {

/// A 2D point or vector on the integer grid.
#[derive(Clone, Copy, PartialEq, Eq, Structural, Debug)]
pub struct Vec2i {
    pub x: i64,
    pub y: i64,
}

impl Vec2i {
    /// Both coordinates lie within the world box.
    pub open spec fn in_world(self) -> bool {
        &&& -(POS_LIMIT as int) <= self.x <= POS_LIMIT as int
        &&& -(POS_LIMIT as int) <= self.y <= POS_LIMIT as int
    }

    /// A fixed-point direction: both components within `DIR_SCALE`.
    pub open spec fn is_dir(self) -> bool {
        &&& -(DIR_SCALE as int) <= self.x <= DIR_SCALE as int
        &&& -(DIR_SCALE as int) <= self.y <= DIR_SCALE as int
    }

    pub open spec fn is_zero(self) -> bool {
        self.x == 0 && self.y == 0
    }

    pub open spec fn negated(self) -> Vec2i {
        Vec2i { x: -self.x as i64, y: -self.y as i64 }
    }

    /// The vector with both components negated.
    pub fn neg(self) -> (r: Vec2i)
        requires
            self.x > i64::MIN,
            self.y > i64::MIN,
        ensures
            r == self.negated(),
    {
        Vec2i { x: -self.x, y: -self.y }
    }

    pub fn origin() -> (r: Vec2i)
        ensures
            r == (Vec2i { x: 0, y: 0 }),
    {
        Vec2i { x: 0, y: 0 }
    }
}

pub open spec fn sq(d: int) -> int {
    d * d
}

/// Squaring ignores the sign.
pub proof fn lemma_sq_neg(d: int)
    ensures
        sq(d) == sq(-d),
{
    assert(d * d == (-d) * (-d)) by (nonlinear_arith);
}

/// The square of a non-zero integer is at least one.
pub proof fn lemma_sq_pos(d: int)
    requires
        d != 0,
    ensures
        sq(d) >= 1,
{
    assert(d * d >= 1) by (nonlinear_arith)
        requires
            d != 0,
    ;
}

/// The squared Euclidean distance between two points.
pub open spec fn dist_sq_spec(a: Vec2i, b: Vec2i) -> int {
    sq(a.x - b.x) + sq(a.y - b.y)
}

/// `0 <= d * d <= m * m` whenever `-m <= d <= m`.
pub proof fn lemma_sq_bound(d: int, m: int)
    requires
        -m <= d <= m,
    ensures
        0 <= d * d <= m * m,
{
    assert(0 <= d * d <= m * m) by (nonlinear_arith)
        requires
            -m <= d <= m,
    ;
}

/// The squared distance of two in-world points, exactly.
pub fn dist_sq(a: Vec2i, b: Vec2i) -> (r: u64)
    requires
        a.in_world(),
        b.in_world(),
    ensures
        r == dist_sq_spec(a, b),
{
    let dx: i64 = a.x - b.x;
    let dy: i64 = a.y - b.y;
    proof {
        lemma_sq_bound(dx as int, 2 * POS_LIMIT as int);
        lemma_sq_bound(dy as int, 2 * POS_LIMIT as int);
    }
    let sx: i64 = dx * dx;
    let sy: i64 = dy * dy;
    (sx + sy) as u64
}

/// If `d * d` is at most `s` and `s < (r + 1) * (r + 1)`, then `d <= r`.
pub proof fn lemma_component_le_root(d: int, s: int, r: int)
    requires
        0 <= d,
        d * d <= s,
        0 <= r,
        s < (r + 1) * (r + 1),
    ensures
        d <= r,
{
    if d > r {
        assert((r + 1) * (r + 1) <= d * d) by (nonlinear_arith)
            requires
                1 <= r + 1 <= d,
        ;
    }
}

/// The floor of the square root, as a mathematical function.
pub open spec fn sqrt_floor(s: int) -> int
    decreases s,
{
    if s <= 0 {
        0
    } else {
        let r = sqrt_floor(s - 1);
        if (r + 1) * (r + 1) <= s {
            r + 1
        } else {
            r
        }
    }
}

/// `sqrt_floor(s)` is the unique `r >= 0` with `r * r <= s < (r + 1) * (r + 1)`.
pub proof fn lemma_sqrt_floor_props(s: int)
    requires
        s >= 0,
    ensures
        0 <= sqrt_floor(s),
        sqrt_floor(s) * sqrt_floor(s) <= s < (sqrt_floor(s) + 1) * (sqrt_floor(s) + 1),
    decreases s,
{
    if s > 0 {
        lemma_sqrt_floor_props(s - 1);
        let r0 = sqrt_floor(s - 1);
        if (r0 + 1) * (r0 + 1) <= s {
            assert((r0 + 1 + 1) * (r0 + 1 + 1) > s) by (nonlinear_arith)
                requires
                    0 <= r0,
                    s - 1 < (r0 + 1) * (r0 + 1),
            ;
        }
    }
}

/// Any `r >= 0` with `r * r <= s < (r + 1) * (r + 1)` equals `sqrt_floor(s)`.
pub proof fn lemma_sqrt_floor_unique(s: int, r: int)
    requires
        0 <= r,
        r * r <= s < (r + 1) * (r + 1),
    ensures
        r == sqrt_floor(s),
{
    lemma_sqrt_floor_props(s);
    let q = sqrt_floor(s);
    if r < q {
        assert((r + 1) * (r + 1) <= q * q) by (nonlinear_arith)
            requires
                0 <= r + 1 <= q,
        ;
    }
    if r > q {
        assert((q + 1) * (q + 1) <= r * r) by (nonlinear_arith)
            requires
                0 <= q + 1 <= r,
        ;
    }
}

/// The integer square root: the largest `r` with `r * r <= n`.
pub fn isqrt(n: u64) -> (r: u64)
    ensures
        r * r <= n < (r + 1) * (r + 1),
        r == sqrt_floor(n as int),
{
    if n == 0 {
        proof {
            lemma_sqrt_floor_unique(0, 0);
        }
        return 0;
    }
    let mut lo: u64 = 0;
    let mut hi: u64 = 4_300_000_000;
    if n < hi {
        hi = n + 1;
        assert((n + 1) * (n + 1) > n) by (nonlinear_arith)
            requires
                n >= 1,
        ;
    } else {
        assert(4_300_000_000int * 4_300_000_000int > u64::MAX as int);
    }
    while lo + 1 < hi
        invariant
            lo < hi <= 4_300_000_000,
            lo * lo <= n,
            hi * hi > n,
        decreases hi - lo,
    {
        let mid: u64 = lo + (hi - lo) / 2;
        proof {
            lemma_sq_bound(mid as int, 4_300_000_000int);
        }
        let m2: u128 = (mid as u128) * (mid as u128);
        if m2 <= n as u128 {
            lo = mid;
        } else {
            hi = mid;
        }
    }
    proof {
        lemma_sqrt_floor_unique(n as int, lo as int);
    }
    lo
}

/// Division truncating toward zero, for a positive divisor.
pub open spec fn div_trunc_spec(n: int, d: int) -> int
    recommends
        d > 0,
{
    if n >= 0 {
        n / d
    } else {
        -((-n) / d)
    }
}

/// Quotient of `n` by `d`, truncated toward zero as Rust's `/` does.
pub fn div_trunc(n: i64, d: i64) -> (r: i64)
    requires
        d > 0,
        n > i64::MIN,
    ensures
        r == div_trunc_spec(n as int, d as int),
{
    if n >= 0 {
        let q: u64 = (n as u64) / (d as u64);
        assert(q <= n as u64) by (nonlinear_arith)
            requires
                q == (n as u64) / (d as u64),
                (d as u64) >= 1,
        ;
        q as i64
    } else {
        let m: u64 = (-n) as u64;
        let q: u64 = m / (d as u64);
        assert(q <= m) by (nonlinear_arith)
            requires
                q == m / (d as u64),
                (d as u64) >= 1,
        ;
        -(q as i64)
    }
}

/// A coordinate clamped into the world box.
pub open spec fn clamp_spec(v: int) -> int {
    if v < -(POS_LIMIT as int) {
        -(POS_LIMIT as int)
    } else if v > POS_LIMIT as int {
        POS_LIMIT as int
    } else {
        v
    }
}

/// Distance covered along one axis: `dir` is fixed-point (`DIR_SCALE`
/// scaled), `speed` is units per second, `dt` milliseconds.
pub open spec fn move_delta_spec(dir: int, speed: int, dt: int) -> int {
    div_trunc_spec(dir * speed * dt, 1_000_000)
}

/// One coordinate after a movement step, clamped into the world box.
pub open spec fn stepped_coord_spec(c: int, dir: int, speed: int, dt: int) -> int {
    clamp_spec(c + move_delta_spec(dir, speed, dt))
}

/// One movement step along a single axis.
pub fn step_coord(c: i64, dir: i64, speed: i64, dt: u32) -> (r: i64)
    requires
        -POS_LIMIT <= c <= POS_LIMIT,
        -DIR_SCALE <= dir <= DIR_SCALE,
        0 <= speed <= SPEED_LIMIT,
        dt <= MAX_TICK_MS,
    ensures
        r == stepped_coord_spec(c as int, dir as int, speed as int, dt as int),
        -POS_LIMIT <= r <= POS_LIMIT,
{
    let mag: u64 = if dir >= 0 {
        dir as u64
    } else {
        (-dir) as u64
    };
    assert((mag as int) * (speed as int) <= 1_000_000_000_000_000int) by (nonlinear_arith)
        requires
            0 <= mag as int <= 1_000int,
            0 <= speed as int <= 1_000_000_000_000int,
    ;
    let p1: u128 = (mag as u128) * (speed as u128);
    assert((p1 as int) * (dt as int) <= 10_000_000_000_000_000_000int) by (nonlinear_arith)
        requires
            0 <= p1 as int <= 1_000_000_000_000_000int,
            0 <= dt as int <= 10_000int,
    ;
    let prod: u128 = p1 * (dt as u128);
    let q: u128 = prod / 1_000_000;
    let delta: i64 = if dir >= 0 {
        q as i64
    } else {
        -(q as i64)
    };
    proof {
        if dir >= 0 {
            assert(dir as int * speed as int * dt as int == prod as int) by (nonlinear_arith)
                requires
                    prod as int == (mag as int) * (speed as int) * (dt as int),
                    mag as int == dir as int,
            ;
        } else {
            assert(-(dir as int * speed as int * dt as int) == prod as int) by (nonlinear_arith)
                requires
                    prod as int == (mag as int) * (speed as int) * (dt as int),
                    mag as int == -(dir as int),
            ;
        }
    }
    let sum: i64 = c + delta;
    if sum < -POS_LIMIT {
        -POS_LIMIT
    } else if sum > POS_LIMIT {
        POS_LIMIT
    } else {
        sum
    }
}

/// A position after a movement step in direction `dir`.
pub open spec fn stepped_pos_spec(p: Vec2i, dir: Vec2i, speed: int, dt: int) -> Vec2i {
    Vec2i {
        x: stepped_coord_spec(p.x as int, dir.x as int, speed, dt) as i64,
        y: stepped_coord_spec(p.y as int, dir.y as int, speed, dt) as i64,
    }
}

/// One movement step of a whole position.
pub fn step_pos(p: Vec2i, dir: Vec2i, speed: i64, dt: u32) -> (r: Vec2i)
    requires
        p.in_world(),
        dir.is_dir(),
        0 <= speed <= SPEED_LIMIT,
        dt <= MAX_TICK_MS,
    ensures
        r == stepped_pos_spec(p, dir, speed as int, dt as int),
        r.in_world(),
{
    Vec2i { x: step_coord(p.x, dir.x, speed, dt), y: step_coord(p.y, dir.y, speed, dt) }
}


/// The absolute value.
pub open spec fn abs_val(x: int) -> int {
    if x >= 0 {
        x
    } else {
        -x
    }
}

/// The squared length of a fixed-point vector.
pub open spec fn dir_norm_sq(v: Vec2i) -> int {
    sq(v.x as int) + sq(v.y as int)
}

/// A fixed-point direction of unit length, up to the rounding the
/// integer grid forces: its squared length lies within 0.4 percent of
/// `DIR_SCALE` squared.
pub open spec fn is_unit_dir(v: Vec2i) -> bool {
    &&& v.is_dir()
    &&& DIR_SCALE * DIR_SCALE - 4000 <= dir_norm_sq(v) <= DIR_SCALE * DIR_SCALE + 2000
}

/// Negation keeps a direction near-unit.
pub proof fn lemma_unit_dir_negated(v: Vec2i)
    requires
        is_unit_dir(v),
    ensures
        is_unit_dir(v.negated()),
{
    lemma_sq_neg(v.x as int);
    lemma_sq_neg(v.y as int);
}

/// Squared bounds on a truncated quotient: `(e / d)^2 * d^2` sits
/// between `e^2 - 2 |e| d` and `e^2`.
pub proof fn lemma_trunc_quotient_sq_bounds(e: int, d: int)
    requires
        d >= 1,
    ensures
        sq(div_trunc_spec(e, d)) * (d * d) <= sq(e),
        sq(div_trunc_spec(e, d)) * (d * d) >= sq(e) - 2 * abs_val(e) * d,
{
    let a = abs_val(e);
    let qa = a / d;
    assert(a >= 0);
    vstd::arithmetic::div_mod::lemma_fundamental_div_mod(a, d);
    assert(0 <= a % d < d) by {
        vstd::arithmetic::div_mod::lemma_mod_bound(a, d);
    }
    assert(qa * d == a - a % d);
    assert(qa >= 0) by {
        vstd::arithmetic::div_mod::lemma_div_pos_is_pos(a, d);
    }
    assert(sq(div_trunc_spec(e, d)) == sq(qa)) by {
        if e >= 0 {
            assert(div_trunc_spec(e, d) == qa);
        } else {
            assert(div_trunc_spec(e, d) == -qa);
            lemma_sq_neg(qa);
        }
    }
    assert(sq(qa) * (d * d) == sq(qa * d)) by (nonlinear_arith);
    assert(sq(qa * d) <= sq(a)) by (nonlinear_arith)
        requires
            0 <= qa * d <= a,
    ;
    assert(sq(e) == sq(a)) by {
        lemma_sq_neg(e);
    }
    assert(sq(qa * d) >= sq(a) - 2 * a * d) by (nonlinear_arith)
        requires
            qa * d == a - a % d,
            0 <= a % d < d,
            a >= 0,
    ;
}

} // verus!
