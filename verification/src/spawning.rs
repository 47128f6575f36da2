//! World population: the wall perimeter of each corral, and the timed
//! spawning of chickens inside corrals.
//!
//! A corral's anchor is its center.  Its wall grid starts at the top
//! left corner, `CORRAL_WALL_SIZE * length / 2` to the left and the same
//! distance up, and runs clockwise: `length` segments right, `heigth`
//! segments down, `length` segments left, `heigth` segments up.  The
//! first segment of each side is a corner piece.

use vstd::prelude::*;

use crate::chicken::Chicken;
use crate::chicken_corral::{corrals_wf, ChickenCorral, ChickenCorralWall, WallType};
use crate::rng::{random_i64_between, random_u32_below};
use crate::settings::{CHICKEN_BEHAVIOUR_CHANGE_DELTA_MS, CORRAL_WALL_SIZE, DIR_SCALE};
use crate::timer::{timer_after, timer_fires, Timer};
use crate::vec2::Vec2i;
use vstd::arithmetic::div_mod::{lemma_div_by_multiple, lemma_div_is_ordered};

verus! {

/// Walls around one corral: two sides of `length` segments and two of
/// `heigth`.
pub open spec fn corral_wall_count(c: ChickenCorral) -> int {
    2 * (c.length + c.heigth)
}

/// The top-left corner of a corral's wall grid.
pub open spec fn wall_start_spec(c: ChickenCorral) -> Vec2i {
    Vec2i {
        x: (c.pos.x - CORRAL_WALL_SIZE * c.length / 2) as i64,
        y: (c.pos.y + CORRAL_WALL_SIZE * c.length / 2) as i64,
    }
}

/// Offset of wall `k` from the top-left corner, in wall units: right
/// along the top, down the right side, left along the bottom, up the
/// left side.
pub open spec fn wall_offset_spec(length: int, heigth: int, k: int) -> (int, int) {
    if k < length {
        (k, 0)
    } else if k < length + heigth {
        (length, -(k - length))
    } else if k < 2 * length + heigth {
        (length - (k - length - heigth), -heigth)
    } else {
        (0, -heigth + (k - 2 * length - heigth))
    }
}

/// The first wall of each side is a corner piece.
pub open spec fn wall_type_spec(length: int, heigth: int, k: int) -> WallType {
    if k == 0 || k == length || k == length + heigth || k == 2 * length + heigth {
        WallType::Corner
    } else {
        WallType::Edge
    }
}

/// Wall `k` of a corral.
pub open spec fn corral_wall_spec(c: ChickenCorral, k: int) -> ChickenCorralWall {
    let start = wall_start_spec(c);
    let off = wall_offset_spec(c.length as int, c.heigth as int, k);
    ChickenCorralWall {
        wall_type: wall_type_spec(c.length as int, c.heigth as int, k),
        pos: Vec2i {
            x: (start.x + CORRAL_WALL_SIZE * off.0) as i64,
            y: (start.y + CORRAL_WALL_SIZE * off.1) as i64,
        },
    }
}

/// The whole wall perimeter of one corral.
pub open spec fn corral_walls_spec(c: ChickenCorral) -> Seq<ChickenCorralWall> {
    Seq::new(corral_wall_count(c) as nat, |k: int| corral_wall_spec(c, k))
}

/// The walls of a run of corrals, in corral order.
pub open spec fn all_walls_spec(cs: Seq<ChickenCorral>) -> Seq<ChickenCorralWall>
    decreases cs.len(),
{
    if cs.len() == 0 {
        Seq::empty()
    } else {
        all_walls_spec(cs.drop_last()) + corral_walls_spec(cs.last())
    }
}

/// Build wall `k` of a corral.
fn make_wall(c: &ChickenCorral, k: usize) -> (w: ChickenCorralWall)
    requires
        c.wf(),
        0 <= k < corral_wall_count(*c),
    ensures
        w == corral_wall_spec(*c, k as int),
        w.wf(),
{
    let length: usize = c.length;
    let heigth: usize = c.heigth;
    let half: i64 = ((CORRAL_WALL_SIZE as u64) * (length as u64) / 2) as i64;
    let start_x: i64 = c.pos.x - half;
    let start_y: i64 = c.pos.y + half;
    let (ox, oy): (i64, i64) = if k < length {
        (k as i64, 0)
    } else if k < length + heigth {
        (length as i64, -((k - length) as i64))
    } else if k < 2 * length + heigth {
        ((length as i64) - ((k - length - heigth) as i64), -(heigth as i64))
    } else {
        (0, -(heigth as i64) + ((k - 2 * length - heigth) as i64))
    };
    let wall_type = if k == 0 || k == length || k == length + heigth || k == 2 * length + heigth {
        WallType::Corner
    } else {
        WallType::Edge
    };
    ChickenCorralWall {
        wall_type,
        pos: Vec2i { x: start_x + CORRAL_WALL_SIZE * ox, y: start_y + CORRAL_WALL_SIZE * oy },
    }
}

/// Build the complete wall perimeter of every corral, in corral order.
pub fn spawn_corral_walls(corrals: &Vec<ChickenCorral>) -> (walls: Vec<ChickenCorralWall>)
    requires
        corrals_wf(corrals@),
    ensures
        walls@ == all_walls_spec(corrals@),
        forall|i: int| 0 <= i < walls@.len() ==> (#[trigger] walls@[i]).wf(),
{
    let mut walls: Vec<ChickenCorralWall> = Vec::new();
    let n: usize = corrals.len();
    let mut i: usize = 0;
    while i < n
        invariant
            i <= n,
            n == corrals@.len(),
            corrals_wf(corrals@),
            walls@ == all_walls_spec(corrals@.take(i as int)),
            forall|j: int| 0 <= j < walls@.len() ==> (#[trigger] walls@[j]).wf(),
        decreases n - i,
    {
        let c: ChickenCorral = corrals[i];
        let cnt: usize = 2 * (c.length + c.heigth);
        let mut k: usize = 0;
        while k < cnt
            invariant
                k <= cnt,
                c == corrals@[i as int],
                i < n == corrals@.len(),
                corrals_wf(corrals@),
                cnt == corral_wall_count(c),
                walls@ == all_walls_spec(corrals@.take(i as int)) + corral_walls_spec(c).take(
                    k as int,
                ),
                forall|j: int| 0 <= j < walls@.len() ==> (#[trigger] walls@[j]).wf(),
            decreases cnt - k,
        {
            let w = make_wall(&c, k);
            walls.push(w);
            proof {
                assert(corral_walls_spec(c).take(k + 1) =~= corral_walls_spec(c).take(k as int)
                    + seq![corral_wall_spec(c, k as int)]);
                assert(walls@ =~= all_walls_spec(corrals@.take(i as int)) + corral_walls_spec(
                    c,
                ).take(k + 1));
            }
            k = k + 1;
        }
        proof {
            assert(corral_walls_spec(c).take(cnt as int) =~= corral_walls_spec(c));
            assert(corrals@.take(i + 1).drop_last() =~= corrals@.take(i as int));
            assert(corrals@.take(i + 1).last() == c);
        }
        i = i + 1;
    }
    proof {
        assert(corrals@.take(n as int) =~= corrals@);
    }
    walls
}

/// Where a chicken may spawn inside a corral: within the square spanned
/// from one wall inside the top-left corner, whose side is the shorter
/// corral side less one wall; the far edges are excluded.
pub open spec fn in_spawn_box(p: Vec2i, c: ChickenCorral) -> bool {
    let start = wall_start_spec(c);
    let inner_x = start.x + CORRAL_WALL_SIZE;
    let inner_y = start.y - CORRAL_WALL_SIZE;
    let side = if c.length <= c.heigth {
        c.length as int
    } else {
        c.heigth as int
    };
    let span = side * CORRAL_WALL_SIZE - CORRAL_WALL_SIZE;
    &&& inner_x <= p.x < inner_x + span
    &&& inner_y - span < p.y <= inner_y
}

/// A fresh chicken at a random point inside the corral: a random
/// distance along a random direction into the spawn box, Idle and
/// unmarked.
pub fn spawn_chicken_in_corral(corral: &ChickenCorral) -> (c: Chicken)
    requires
        corral.wf(),
        corral.length >= 2,
        corral.heigth >= 2,
    ensures
        c.wf(),
        c.behaviour is Idle,
        c.move_dir is None,
        !c.catchable,
        c.behaviour_change_timer == (Timer {
            period_ms: CHICKEN_BEHAVIOUR_CHANGE_DELTA_MS,
            elapsed_ms: 0,
        }),
        in_spawn_box(c.pos, *corral),
{
    let length: usize = corral.length;
    proof {
        lemma_div_is_ordered(
            CORRAL_WALL_SIZE as int * (length as int),
            50_000int,
            2int,
        );
    }
    let half: i64 = ((CORRAL_WALL_SIZE as u64) * (length as u64) / 2) as i64;
    let inner_x: i64 = corral.pos.x - half + CORRAL_WALL_SIZE;
    let inner_y: i64 = corral.pos.y + half - CORRAL_WALL_SIZE;
    let side: i64 = if corral.length <= corral.heigth {
        corral.length as i64
    } else {
        corral.heigth as i64
    };
    let span: i64 = side * CORRAL_WALL_SIZE - CORRAL_WALL_SIZE;
    let delta: i64 = random_i64_between(0, span);
    let dx: i64 = random_i64_between(0, DIR_SCALE + 1);
    let dy: i64 = random_i64_between(-DIR_SCALE, 1);
    proof {
        assert(dx as int * delta as int <= DIR_SCALE as int * delta as int) by (nonlinear_arith)
            requires
                0 <= dx as int <= DIR_SCALE as int,
                0 <= delta as int,
        ;
        assert((-dy) as int * delta as int <= DIR_SCALE as int * delta as int) by (nonlinear_arith)
            requires
                0 <= (-dy) as int <= DIR_SCALE as int,
                0 <= delta as int,
        ;
        assert(0 <= dx as int * delta as int) by (nonlinear_arith)
            requires
                0 <= dx as int,
                0 <= delta as int,
        ;
        assert(0 <= (-dy) as int * delta as int) by (nonlinear_arith)
            requires
                0 <= (-dy) as int,
                0 <= delta as int,
        ;
        assert(DIR_SCALE as int * delta as int <= 1000 * 50_000) by (nonlinear_arith)
            requires
                0 <= delta as int <= 50_000,
        ;
    }
    let off_x: u64 = ((dx as u64) * (delta as u64)) / (DIR_SCALE as u64);
    let off_y: u64 = (((-dy) as u64) * (delta as u64)) / (DIR_SCALE as u64);
    proof {
        lemma_div_is_ordered(
            dx as int * delta as int,
            DIR_SCALE as int * delta as int,
            DIR_SCALE as int,
        );
        lemma_div_by_multiple(delta as int, DIR_SCALE as int);
        lemma_div_is_ordered(0, dx as int * delta as int, DIR_SCALE as int);
        lemma_div_is_ordered(
            (-dy) as int * delta as int,
            DIR_SCALE as int * delta as int,
            DIR_SCALE as int,
        );
        lemma_div_is_ordered(0, (-dy) as int * delta as int, DIR_SCALE as int);
    }
    let pos = Vec2i { x: inner_x + off_x as i64, y: inner_y - off_y as i64 };
    Chicken {
        pos,
        behaviour: crate::chicken::ChickenBehaviour::Idle,
        move_dir: None,
        behaviour_change_timer: Timer::from_millis(CHICKEN_BEHAVIOUR_CHANGE_DELTA_MS),
        catchable: false,
    }
}

/// One spawn wave: the timer advances by `dt`, and exactly when it
/// fires, one fresh chicken is appended per corral, in corral order,
/// each inside its own corral's spawn box.
pub open spec fn spawn_wave_rel(
    t0: Timer,
    t1: Timer,
    corrals: Seq<ChickenCorral>,
    cs0: Seq<Option<Chicken>>,
    cs1: Seq<Option<Chicken>>,
    dt: int,
) -> bool {
    &&& t1 == timer_after(t0, dt)
    &&& (!timer_fires(t0, dt) ==> cs1 == cs0)
    &&& (timer_fires(t0, dt) ==> ({
        &&& cs1.len() == cs0.len() + corrals.len()
        &&& (forall|i: int| 0 <= i < cs0.len() ==> #[trigger] cs1[i] == cs0[i])
        &&& (forall|j: int|
            0 <= j < corrals.len() ==> ((#[trigger] cs1[cs0.len() + j]) matches Some(c) && c.wf()
                && c.behaviour is Idle && c.move_dir is None && !c.catchable && in_spawn_box(
                c.pos,
                corrals[j],
            )))
    }))
}

/// The timed spawn wave: when the spawn timer fires, one chicken
/// appears in every corral.
pub fn spawn_chicken_in_corrals(
    spawn_timer: &mut Timer,
    corrals: &Vec<ChickenCorral>,
    chickens: &mut Vec<Option<Chicken>>,
    dt: u32,
)
    requires
        old(spawn_timer).wf(),
        corrals_wf(corrals@),
        forall|c: int|
            0 <= c < corrals@.len() ==> (#[trigger] corrals@[c]).length >= 2 && corrals@[c].heigth
                >= 2,
        old(chickens)@.len() + corrals@.len() <= usize::MAX,
    ensures
        final(spawn_timer).wf(),
        spawn_wave_rel(
            *old(spawn_timer),
            *final(spawn_timer),
            corrals@,
            old(chickens)@,
            final(chickens)@,
            dt as int,
        ),
{
    let fired = spawn_timer.tick(dt);
    if !fired {
        return ;
    }
    let ghost cs0: Seq<Option<Chicken>> = chickens@;
    let n: usize = corrals.len();
    let mut i: usize = 0;
    while i < n
        invariant
            i <= n,
            n == corrals@.len(),
            corrals_wf(corrals@),
            forall|c: int|
                0 <= c < corrals@.len() ==> (#[trigger] corrals@[c]).length >= 2
                    && corrals@[c].heigth >= 2,
            chickens@.len() == cs0.len() + i,
            cs0.len() + n <= usize::MAX,
            forall|k: int| 0 <= k < cs0.len() ==> #[trigger] chickens@[k] == cs0[k],
            forall|j: int|
                0 <= j < i ==> ((#[trigger] chickens@[cs0.len() + j]) matches Some(c) && c.wf()
                    && c.behaviour is Idle && c.move_dir is None && !c.catchable && in_spawn_box(
                    c.pos,
                    corrals@[j],
                )),
        decreases n - i,
    {
        let c = spawn_chicken_in_corral(&corrals[i]);
        chickens.push(Some(c));
        i = i + 1;
    }
}

} // verus!
