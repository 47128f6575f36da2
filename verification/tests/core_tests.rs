use chicken_sim::misc::{get_normilized_dir, get_random_dir};
use chicken_sim::timer::Timer;
use chicken_sim::vec2::{dist_sq, div_trunc, isqrt, step_pos, Vec2i};

#[test]
fn timer_accumulates_and_fires() {
    let mut t = Timer::from_millis(1000);
    assert!(!t.tick(400));
    assert_eq!(t.elapsed_ms, 400);
    assert!(!t.tick(500));
    assert_eq!(t.elapsed_ms, 900);
    assert!(t.tick(300));
    assert_eq!(t.elapsed_ms, 200);
    assert_eq!(t.period_ms, 1000);
}

#[test]
fn timer_fires_with_wraparound() {
    let mut t = Timer::from_millis(100);
    assert!(t.tick(250));
    assert_eq!(t.elapsed_ms, 50);
}

#[test]
fn timer_reset_clears_elapsed() {
    let mut t = Timer::from_millis(1000);
    t.tick(700);
    t.reset();
    assert_eq!(t.elapsed_ms, 0);
    assert_eq!(t.period_ms, 1000);
}

#[test]
fn isqrt_exact_values() {
    assert_eq!(isqrt(0), 0);
    assert_eq!(isqrt(1), 1);
    assert_eq!(isqrt(15), 3);
    assert_eq!(isqrt(16), 4);
    assert_eq!(isqrt(10_000), 100);
    assert_eq!(isqrt(u64::MAX), 4_294_967_295);
}

#[test]
fn div_trunc_rounds_toward_zero() {
    assert_eq!(div_trunc(7, 2), 3);
    assert_eq!(div_trunc(-7, 2), -3);
    assert_eq!(div_trunc(0, 5), 0);
    assert_eq!(div_trunc(-1, 1000), 0);
}

#[test]
fn dist_sq_is_squared_euclidean() {
    let a = Vec2i { x: 0, y: 0 };
    let b = Vec2i { x: 3, y: 4 };
    assert_eq!(dist_sq(a, b), 25);
    assert_eq!(dist_sq(b, a), 25);
    assert_eq!(dist_sq(b, b), 0);
}

#[test]
fn normalized_dir_exact_components() {
    // 3-4-5 triangle: the result is exactly the scaled unit vector.
    let a = Vec2i { x: 0, y: 0 };
    let b = Vec2i { x: 3, y: 4 };
    let d = get_normilized_dir(a, b);
    assert_eq!(d, Vec2i { x: 600, y: 800 });

    let up = get_normilized_dir(a, Vec2i { x: 0, y: 5 });
    assert_eq!(up, Vec2i { x: 0, y: 1000 });

    let left = get_normilized_dir(a, Vec2i { x: -7, y: 0 });
    assert_eq!(left, Vec2i { x: -1000, y: 0 });
}

#[test]
fn random_dir_is_near_unit_length() {
    for _ in 0..200 {
        let d = get_random_dir();
        assert!(-1000 <= d.x && d.x <= 1000);
        assert!(-1000 <= d.y && d.y <= 1000);
        assert!(!(d.x == 0 && d.y == 0));
        // Unit length up to the rounding of the fixed-point grid.
        let norm_sq = d.x * d.x + d.y * d.y;
        assert!(996_000 <= norm_sq && norm_sq <= 1_002_000);
    }
}

#[test]
fn step_pos_moves_by_scaled_speed() {
    let p = Vec2i { x: 0, y: 0 };
    let dir = Vec2i { x: 1000, y: 0 };
    // 1 fixed-point unit at 100 units/s for one second covers 100 units.
    let q = step_pos(p, dir, 100, 1000);
    assert_eq!(q, Vec2i { x: 100, y: 0 });
    // A negative half-scale direction covers half as much, leftward.
    let r = step_pos(p, Vec2i { x: -500, y: 0 }, 100, 1000);
    assert_eq!(r, Vec2i { x: -50, y: 0 });
}

#[test]
fn step_pos_clamps_at_world_edge() {
    let p = Vec2i { x: 1_000_000_000, y: 0 };
    let q = step_pos(p, Vec2i { x: 1000, y: 0 }, 100, 1000);
    assert_eq!(q.x, 1_000_000_000);
}
