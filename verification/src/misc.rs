//! Direction helpers shared by every agent: a random direction draw and
//! fixed-point normalization of the vector between two points.

use vstd::prelude::*;

use crate::rng::random_i64_between;
use crate::settings::{DIR_SCALE, POS_LIMIT};
use crate::vec2::{
    abs_val, dir_norm_sq, dist_sq, dist_sq_spec, div_trunc, div_trunc_spec, is_unit_dir, isqrt,
    lemma_component_le_root, lemma_sq_bound, lemma_sq_neg, lemma_sq_pos,
    lemma_sqrt_floor_props, lemma_trunc_quotient_sq_bounds, sq,
    sqrt_floor, Vec2i,
};
use crate::settings::POS_LIMIT as WORLD_LIMIT;
use vstd::arithmetic::div_mod::{
    lemma_div_by_multiple, lemma_div_by_self, lemma_div_is_ordered, lemma_div_pos_is_pos,
};

verus! {

/// A random direction of near-unit length.  A random non-zero vector is
/// drawn (if both draws come up zero the horizontal component is redrawn
/// from the positive range) and then normalized, so the result points in
/// a random direction but always has unit length, up to the rounding of
/// the fixed-point grid.
pub fn get_random_dir() -> (r: Vec2i)
    ensures
        is_unit_dir(r),
        !r.is_zero(),
{
    let mut x: i64 = random_i64_between(-DIR_SCALE, DIR_SCALE + 1);
    let y: i64 = random_i64_between(-DIR_SCALE, DIR_SCALE + 1);
    if x == 0 && y == 0 {
        x = random_i64_between(1, DIR_SCALE + 1);
    }
    let target = Vec2i { x: x * DIR_SCALE, y: y * DIR_SCALE };
    proof {
        assert(sq(0 - target.x) == 1_000_000 * sq(x as int)) by (nonlinear_arith)
            requires
                target.x == x as int * DIR_SCALE,
                DIR_SCALE == 1000,
        ;
        assert(sq(0 - target.y) == 1_000_000 * sq(y as int)) by (nonlinear_arith)
            requires
                target.y == y as int * DIR_SCALE,
                DIR_SCALE == 1000,
        ;
        if x != 0 {
            lemma_sq_pos(x as int);
        } else {
            lemma_sq_pos(y as int);
        }
        lemma_sq_bound(x as int, DIR_SCALE as int);
        lemma_sq_bound(y as int, DIR_SCALE as int);
    }
    let origin = Vec2i { x: 0, y: 0 };
    let r = get_normilized_dir(origin, target);
    r
}

/// The fixed-point unit vector pointing from `a` to `b`: each component
/// of `b - a`, scaled by `DIR_SCALE` and divided by the floor of the
/// distance, truncating toward zero.
pub open spec fn normalized_dir_spec(a: Vec2i, b: Vec2i) -> Vec2i {
    let d = sqrt_floor(dist_sq_spec(a, b));
    Vec2i {
        x: div_trunc_spec((b.x - a.x) * DIR_SCALE, d) as i64,
        y: div_trunc_spec((b.y - a.y) * DIR_SCALE, d) as i64,
    }
}

/// One component of the normalization: `delta * DIR_SCALE / d`,
/// truncating toward zero.
fn normalized_component(delta: i64, d: u64) -> (r: i64)
    requires
        -2 * POS_LIMIT <= delta <= 2 * POS_LIMIT,
        1 <= d <= 3_000_000_000,
        sq(delta as int) <= d * d + 2 * d,
    ensures
        r == div_trunc_spec(delta as int * DIR_SCALE, d as int),
        -DIR_SCALE <= r <= DIR_SCALE,
{
    proof {
        lemma_sq_neg(delta as int);
        assert((d as int + 1) * (d as int + 1) == d * d + 2 * d + 1) by (nonlinear_arith);
        let a: int = if delta >= 0 {
            delta as int
        } else {
            -(delta as int)
        };
        assert(a * a == sq(delta as int));
        lemma_component_le_root(a, d * d + 2 * d, d as int);
    }
    let scaled: i64 = delta * DIR_SCALE;
    let r: i64 = div_trunc(scaled, d as i64);
    proof {
        if delta >= 0 {
            lemma_div_is_ordered(scaled as int, d as int * DIR_SCALE, d as int);
            lemma_div_by_multiple(DIR_SCALE as int, d as int);
            lemma_div_is_ordered(0, scaled as int, d as int);
        } else {
            lemma_div_is_ordered(-(scaled as int), d as int * DIR_SCALE, d as int);
            lemma_div_by_multiple(DIR_SCALE as int, d as int);
            lemma_div_is_ordered(0, -(scaled as int), d as int);
        }
    }
    r
}

/// The fixed-point direction from `a` toward `b`.
///
/// The two points must differ: normalizing a zero-length delta is
/// undefined, and every caller guards against it.
pub fn get_normilized_dir(a: Vec2i, b: Vec2i) -> (r: Vec2i)
    requires
        a.in_world(),
        b.in_world(),
        a != b,
    ensures
        r == normalized_dir_spec(a, b),
        r.is_dir(),
        !r.is_zero(),
        dist_sq_spec(a, b) >= DIR_SCALE * DIR_SCALE ==> is_unit_dir(r),
{
    let s: u64 = dist_sq(a, b);
    let d: u64 = isqrt(s);
    let dx: i64 = b.x - a.x;
    let dy: i64 = b.y - a.y;
    proof {
        lemma_sq_bound(a.x - b.x, 2 * POS_LIMIT as int);
        lemma_sq_bound(a.y - b.y, 2 * POS_LIMIT as int);
        lemma_sq_neg(a.x - b.x);
        lemma_sq_neg(a.y - b.y);
        assert(dx as int == -(a.x - b.x));
        assert(sq(dx as int) == sq(a.x - b.x));
        assert(sq(dy as int) == sq(a.y - b.y));
        if s == 0 {
            if dx != 0 {
                lemma_sq_pos(dx as int);
            } else {
                assert(dy != 0);
                lemma_sq_pos(dy as int);
            }
            assert(false);
        }
        if d == 0 {
            assert(s < (0 + 1) * (0 + 1)) by (nonlinear_arith)
                requires
                    s < (d + 1) * (d + 1),
                    d == 0,
            ;
            assert(false);
        }
        if d > 3_000_000_000 {
            assert(d * d > 3_000_000_000int * 3_000_000_000int) by (nonlinear_arith)
                requires
                    d > 3_000_000_000,
            ;
            assert(false);
        }
        assert(s <= d * d + 2 * d) by (nonlinear_arith)
            requires
                s < (d + 1) * (d + 1),
        ;
    }
    let rx: i64 = normalized_component(dx, d);
    let ry: i64 = normalized_component(dy, d);
    proof {
        lemma_normalized_dir_nonzero(a, b);
        if dist_sq_spec(a, b) >= DIR_SCALE * DIR_SCALE {
            lemma_normalized_dir_near_unit(a, b);
        }
    }
    Vec2i { x: rx, y: ry }
}


/// Connects a spec direction component to the magnitudes it is built
/// from: `|component| == (DIR_SCALE * |delta|) / d`, and it is bounded
/// by `DIR_SCALE` whenever `|delta| <= d`.
proof fn lemma_component_magnitude(delta: int, d: int)
    requires
        d >= 1,
    ensures
        abs_val(div_trunc_spec(delta * DIR_SCALE, d)) == (DIR_SCALE * abs_val(delta)) / d,
        abs_val(delta) <= d ==> abs_val(div_trunc_spec(delta * DIR_SCALE, d)) <= DIR_SCALE,
{
    let e = delta * DIR_SCALE;
    assert(abs_val(e) == DIR_SCALE * abs_val(delta)) by (nonlinear_arith)
        requires
            e == delta * DIR_SCALE,
            DIR_SCALE >= 1,
    ;
    lemma_div_pos_is_pos(abs_val(e), d);
    if delta >= 0 {
        assert(div_trunc_spec(e, d) == abs_val(e) / d);
    } else {
        assert(-e == abs_val(e));
        assert(div_trunc_spec(e, d) == -(abs_val(e) / d));
    }
    if abs_val(delta) <= d {
        lemma_div_is_ordered(DIR_SCALE * abs_val(delta), DIR_SCALE * d, d);
        lemma_div_by_multiple(DIR_SCALE as int, d);
    }
}

/// Normalizing a non-zero delta never yields the zero vector: the
/// dominant component of the result is at least one.
pub proof fn lemma_normalized_dir_nonzero(a: Vec2i, b: Vec2i)
    requires
        a.in_world(),
        b.in_world(),
        a != b,
    ensures
        !normalized_dir_spec(a, b).is_zero(),
{
    let dx = b.x - a.x;
    let dy = b.y - a.y;
    let s = dist_sq_spec(a, b);
    lemma_sq_neg(a.x - b.x);
    lemma_sq_neg(a.y - b.y);
    assert(s == sq(dx) + sq(dy));
    let d = sqrt_floor(s);
    let m = if abs_val(dx) >= abs_val(dy) {
        abs_val(dx)
    } else {
        abs_val(dy)
    };
    assert(m >= 1) by {
        if dx != 0 {
            lemma_sq_pos(dx);
            assert(abs_val(dx) >= 1) by (nonlinear_arith)
                requires
                    dx != 0,
                    abs_val(dx) == if dx >= 0 { dx } else { -dx },
            ;
        } else {
            assert(dy != 0);
            lemma_sq_pos(dy);
            assert(abs_val(dy) >= 1) by (nonlinear_arith)
                requires
                    dy != 0,
                    abs_val(dy) == if dy >= 0 { dy } else { -dy },
            ;
        }
    }
    assert(s >= 1) by {
        lemma_sq_neg(dx);
        lemma_sq_neg(dy);
        lemma_sq_bound(dx, abs_val(dx));
        lemma_sq_bound(dy, abs_val(dy));
        lemma_sq_pos(m);
    }
    lemma_sqrt_floor_props(s);
    assert(d >= 1) by {
        if d < 1 {
            assert(d == 0);
            assert((d + 1) * (d + 1) == 1) by (nonlinear_arith)
                requires
                    d == 0,
            ;
            assert(s < 1);
            assert(false);
        }
    }
    assert(d <= DIR_SCALE * m) by {
        assert(s <= 2 * (m * m)) by (nonlinear_arith)
            requires
                s == sq(dx) + sq(dy),
                -m <= dx <= m,
                -m <= dy <= m,
        ;
        if d > DIR_SCALE * m {
            assert(d * d > (DIR_SCALE * m) * (DIR_SCALE * m)) by (nonlinear_arith)
                requires
                    d > DIR_SCALE * m,
                    DIR_SCALE * m >= 0,
            ;
            assert((DIR_SCALE * m) * (DIR_SCALE * m) >= 2 * (m * m)) by (nonlinear_arith)
                requires
                    m >= 1,
                    DIR_SCALE == 1000,
            ;
        }
    }
    assert(-m <= dx <= m && -m <= dy <= m) by {
        assert(abs_val(dx) <= m && abs_val(dy) <= m);
    }
    lemma_component_magnitude(dx, d);
    lemma_component_magnitude(dy, d);
    if abs_val(dx) >= abs_val(dy) {
        assert((DIR_SCALE * abs_val(dx)) / d >= 1) by {
            lemma_div_is_ordered(d, DIR_SCALE * abs_val(dx), d);
            lemma_div_by_self(d);
        }
        assert(normalized_dir_spec(a, b).x != 0);
    } else {
        assert((DIR_SCALE * abs_val(dy)) / d >= 1) by {
            lemma_div_is_ordered(d, DIR_SCALE * abs_val(dy), d);
            lemma_div_by_self(d);
        }
        assert(normalized_dir_spec(a, b).y != 0);
    }
}

/// Normalizing a delta of length at least `DIR_SCALE` yields a vector of
/// unit length up to the rounding of the fixed-point grid.  (Closer to
/// the target the grid is too coarse for that; movement there is within
/// one arrival threshold anyway.)
pub proof fn lemma_normalized_dir_near_unit(a: Vec2i, b: Vec2i)
    requires
        a.in_world(),
        b.in_world(),
        dist_sq_spec(a, b) >= DIR_SCALE * DIR_SCALE,
    ensures
        is_unit_dir(normalized_dir_spec(a, b)),
{
    let dx = b.x - a.x;
    let dy = b.y - a.y;
    let s = dist_sq_spec(a, b);
    lemma_sq_neg(a.x - b.x);
    lemma_sq_neg(a.y - b.y);
    assert(s == sq(dx) + sq(dy));
    let d = sqrt_floor(s);
    lemma_sqrt_floor_props(s);
    assert(d >= DIR_SCALE) by {
        if d < DIR_SCALE {
            assert((d + 1) * (d + 1) <= DIR_SCALE * DIR_SCALE) by (nonlinear_arith)
                requires
                    0 <= d + 1 <= DIR_SCALE,
            ;
        }
    }
    let adx = abs_val(dx);
    let ady = abs_val(dy);
    assert(sq(adx) == sq(dx) && sq(ady) == sq(dy)) by {
        lemma_sq_neg(dx);
        lemma_sq_neg(dy);
    }
    assert(0 <= sq(dx) && 0 <= sq(dy)) by {
        lemma_sq_bound(dx, 2 * WORLD_LIMIT as int);
        lemma_sq_bound(dy, 2 * WORLD_LIMIT as int);
    }
    lemma_component_le_root(adx, s, d);
    lemma_component_le_root(ady, s, d);
    let ex = dx * DIR_SCALE;
    let ey = dy * DIR_SCALE;
    let cx = div_trunc_spec(ex, d);
    let cy = div_trunc_spec(ey, d);
    lemma_component_magnitude(dx, d);
    lemma_component_magnitude(dy, d);
    assert(abs_val(cx) <= DIR_SCALE && abs_val(cy) <= DIR_SCALE);
    let r = normalized_dir_spec(a, b);
    assert(r.x as int == cx && r.y as int == cy);
    assert(r.is_dir());
    let m2 = sq(cx) + sq(cy);
    assert(dir_norm_sq(r) == m2);
    lemma_trunc_quotient_sq_bounds(ex, d);
    lemma_trunc_quotient_sq_bounds(ey, d);
    assert(sq(ex) == 1_000_000 * sq(dx) && sq(ey) == 1_000_000 * sq(dy)) by (nonlinear_arith)
        requires
            ex == dx * DIR_SCALE,
            ey == dy * DIR_SCALE,
            DIR_SCALE == 1000,
    ;
    assert(abs_val(ex) == DIR_SCALE * adx && abs_val(ey) == DIR_SCALE * ady) by (nonlinear_arith)
        requires
            ex == dx * DIR_SCALE,
            ey == dy * DIR_SCALE,
            adx == abs_val(dx),
            ady == abs_val(dy),
            DIR_SCALE >= 1,
    ;
    // Upper bound: the squared length cannot exceed the square of the
    // scale by more than the rounding of one grid step.
    assert(m2 * (d * d) <= 1_000_000 * s) by (nonlinear_arith)
        requires
            sq(cx) * (d * d) <= sq(ex),
            sq(cy) * (d * d) <= sq(ey),
            sq(ex) == 1_000_000 * sq(dx),
            sq(ey) == 1_000_000 * sq(dy),
            s == sq(dx) + sq(dy),
            m2 == sq(cx) + sq(cy),
    ;
    assert(s <= d * d + 2 * d) by (nonlinear_arith)
        requires
            s < (d + 1) * (d + 1),
    ;
    assert(m2 <= 1_002_000) by (nonlinear_arith)
        requires
            m2 * (d * d) <= 1_000_000 * s,
            s <= d * d + 2 * d,
            d >= 1000,
    ;
    // Lower bound: each component loses less than one grid step to
    // truncation.
    assert(m2 * (d * d) >= 1_000_000 * s - 2 * (abs_val(ex) + abs_val(ey)) * d) by (
    nonlinear_arith)
        requires
            sq(cx) * (d * d) >= sq(ex) - 2 * abs_val(ex) * d,
            sq(cy) * (d * d) >= sq(ey) - 2 * abs_val(ey) * d,
            sq(ex) == 1_000_000 * sq(dx),
            sq(ey) == 1_000_000 * sq(dy),
            s == sq(dx) + sq(dy),
            m2 == sq(cx) + sq(cy),
    ;
    assert(m2 >= 996_000) by (nonlinear_arith)
        requires
            m2 * (d * d) >= 1_000_000 * s - 2 * (abs_val(ex) + abs_val(ey)) * d,
            abs_val(ex) <= 1000 * d,
            abs_val(ey) <= 1000 * d,
            s >= d * d,
            d >= 1000,
            abs_val(ex) >= 0,
            abs_val(ey) >= 0,
    ;
}

} // verus!
