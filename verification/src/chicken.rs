//! The roaming resource agent and its three-state mood machine.
//!
//! A chicken is Idle, Calm or Mad.  It holds a direction exactly while it
//! is not Idle; a repeating timer paces the random rerolls of its mood;
//! corral walls deflect it by flipping its direction.
//!
//! Chickens live in slots of a `Vec<Option<Chicken>>`: a slot holds
//! `None` once its chicken has been caught, so handles (indices) of
//! destroyed chickens stay stable and are recognised as stale.

use vstd::prelude::*;

use crate::chicken_corral::ChickenCorralWall;
use crate::misc::get_random_dir;
use crate::rng::random_u32_below;
use crate::settings::{
    CHICKEN_BEHAVIOUR_CHANGE_DELTA_MS, CHICKEN_CALM_SPEED, CHICKEN_MAD_SPEED, CHICKEN_SIZE,
    CORRAL_WALL_SIZE, MAX_TICK_MS,
};
use crate::timer::{timer_after, timer_fires, Timer};
use crate::vec2::{
    dist_sq, dist_sq_spec, is_unit_dir, lemma_unit_dir_negated, sq, step_pos, stepped_pos_spec,
    Vec2i,
};

verus! {

/// The mood of a chicken.  Calm and Mad both wander, Mad faster; Idle
/// stands still.
#[derive(Clone, Copy, PartialEq, Eq, Structural, Debug)]
pub enum ChickenBehaviour {
    Calm,
    Mad,
    Idle,
}

/// The wandering speed of each mood, units per second.
pub open spec fn chicken_speed(b: ChickenBehaviour) -> int {
    match b {
        ChickenBehaviour::Calm => CHICKEN_CALM_SPEED as int,
        ChickenBehaviour::Mad => CHICKEN_MAD_SPEED as int,
        ChickenBehaviour::Idle => 0,
    }
}

/// A roaming resource agent.
#[derive(Clone, Copy, PartialEq, Eq, Debug)]
pub struct Chicken {
    pub pos: Vec2i,
    pub behaviour: ChickenBehaviour,
    pub move_dir: Option<Vec2i>,
    pub behaviour_change_timer: Timer,
    /// The player's targeting mark; mirrored by the player's
    /// `catchable_chicken` handle.
    pub catchable: bool,
}

impl Chicken {
    /// The standing invariant of every chicken: it holds a direction
    /// exactly while it is not Idle, and that direction is a unit
    /// vector, up to the rounding of the fixed-point grid.
    pub open spec fn wf(self) -> bool {
        &&& self.pos.in_world()
        &&& self.behaviour_change_timer.wf()
        &&& (self.move_dir is Some <==> !(self.behaviour is Idle))
        &&& (self.move_dir matches Some(d) ==> is_unit_dir(d))
    }

    /// Switch mood; entering Calm or Mad draws a fresh random direction,
    /// entering Idle clears it.
    pub fn change_behaviour_to(&mut self, next_beh: ChickenBehaviour)
        requires
            old(self).wf(),
        ensures
            final(self).wf(),
            final(self).behaviour == next_beh,
            next_beh is Idle ==> final(self).move_dir is None,
            !(next_beh is Idle) ==> (final(self).move_dir matches Some(d) && is_unit_dir(d)
                && !d.is_zero()),
            final(self).pos == old(self).pos,
            final(self).behaviour_change_timer == old(self).behaviour_change_timer,
            final(self).catchable == old(self).catchable,
    {
        match next_beh {
            ChickenBehaviour::Calm => {
                self.behaviour = ChickenBehaviour::Calm;
                self.move_dir = Some(get_random_dir());
            },
            ChickenBehaviour::Mad => {
                self.behaviour = ChickenBehaviour::Mad;
                self.move_dir = Some(get_random_dir());
            },
            ChickenBehaviour::Idle => {
                self.behaviour = ChickenBehaviour::Idle;
                self.move_dir = None;
            },
        }
    }
}

impl Default for Chicken {
    /// A fresh chicken: Idle, unmarked, at the origin, with a full
    /// behaviour timer ahead of it.
    fn default() -> (c: Chicken)
        ensures
            c.wf(),
            c.behaviour is Idle,
            c.move_dir is None,
            !c.catchable,
            c.pos == (Vec2i { x: 0, y: 0 }),
            c.behaviour_change_timer == (Timer {
                period_ms: CHICKEN_BEHAVIOUR_CHANGE_DELTA_MS,
                elapsed_ms: 0,
            }),
    {
        Chicken {
            pos: Vec2i { x: 0, y: 0 },
            behaviour: ChickenBehaviour::Idle,
            move_dir: None,
            behaviour_change_timer: Timer::from_millis(CHICKEN_BEHAVIOUR_CHANGE_DELTA_MS),
            catchable: false,
        }
    }
}

/// The mood the weighted reroll lands on: an even chance of Mad on the
/// first draw, then an even chance of Calm on the second, Idle as the
/// remainder (draws run from 0 to 9).
pub open spec fn reroll_choice_spec(r1: u32, r2: u32) -> ChickenBehaviour {
    if r1 < 5 {
        ChickenBehaviour::Mad
    } else if r2 < 5 {
        ChickenBehaviour::Calm
    } else {
        ChickenBehaviour::Idle
    }
}

/// The verified half of a reroll: which mood two given draws select.
pub fn chicken_reroll_choice(r1: u32, r2: u32) -> (b: ChickenBehaviour)
    ensures
        b == reroll_choice_spec(r1, r2),
{
    if r1 < 5 {
        ChickenBehaviour::Mad
    } else if r2 < 5 {
        ChickenBehaviour::Calm
    } else {
        ChickenBehaviour::Idle
    }
}

/// Where a chicken stands after one tick of movement: Calm and Mad
/// travel along their direction at their mood's speed, Idle stays.
pub open spec fn chicken_moved_pos(pos: Vec2i, b: ChickenBehaviour, dir: Option<Vec2i>, dt: int) -> Vec2i {
    if b is Idle {
        pos
    } else {
        match dir {
            Option::Some(d) => stepped_pos_spec(pos, d, chicken_speed(b), dt),
            Option::None => pos,
        }
    }
}

/// How one live chicken relates to its state one tick ago.
pub open spec fn chicken_stepped(c0: Chicken, c1: Chicken, dt: int) -> bool {
    &&& c1.wf()
    &&& c1.catchable == c0.catchable
    &&& c1.behaviour_change_timer == timer_after(c0.behaviour_change_timer, dt)
    &&& (!timer_fires(c0.behaviour_change_timer, dt) ==> c1.behaviour == c0.behaviour
        && c1.move_dir == c0.move_dir)
    &&& c1.pos == chicken_moved_pos(c0.pos, c1.behaviour, c1.move_dir, dt)
}

/// How one slot relates to its state one tick ago: no chicken appears or
/// disappears during a behaviour pass.
pub open spec fn chicken_slot_stepped(pre: Option<Chicken>, post: Option<Chicken>, dt: int) -> bool {
    match pre {
        Option::None => post is None,
        Option::Some(c0) => post matches Some(c1) && chicken_stepped(c0, c1, dt),
    }
}

/// One tick of one chicken: advance the behaviour timer, reroll the mood
/// if it fired, then move.
pub fn behave_chicken(c: &mut Chicken, dt: u32)
    requires
        old(c).wf(),
        dt <= MAX_TICK_MS,
    ensures
        chicken_stepped(*old(c), *final(c), dt as int),
{
    let fired = c.behaviour_change_timer.tick(dt);
    if fired {
        let r1 = random_u32_below(10);
        let r2 = random_u32_below(10);
        let next = chicken_reroll_choice(r1, r2);
        c.change_behaviour_to(next);
    }
    match c.behaviour {
        ChickenBehaviour::Calm => {
            let d = c.move_dir.unwrap();
            c.pos = step_pos(c.pos, d, CHICKEN_CALM_SPEED, dt);
        },
        ChickenBehaviour::Mad => {
            let d = c.move_dir.unwrap();
            c.pos = step_pos(c.pos, d, CHICKEN_MAD_SPEED, dt);
        },
        ChickenBehaviour::Idle => {},
    }
}

/// All slots hold well-formed chickens.
pub open spec fn chickens_wf(chickens: Seq<Option<Chicken>>) -> bool {
    forall|i: int|
        0 <= i < chickens.len() ==> ((#[trigger] chickens[i]) matches Some(c) ==> c.wf())
}

/// One full behaviour pass: every slot stepped once, none appearing or
/// disappearing.
pub open spec fn chickens_stepped_rel(
    cs0: Seq<Option<Chicken>>,
    cs1: Seq<Option<Chicken>>,
    dt: int,
) -> bool {
    &&& cs1.len() == cs0.len()
    &&& forall|i: int| 0 <= i < cs0.len() ==> chicken_slot_stepped(cs0[i], #[trigger] cs1[i], dt)
}

/// One tick of every chicken, one full pass in slot order.
pub fn behave_chickens(chickens: &mut Vec<Option<Chicken>>, dt: u32)
    requires
        chickens_wf(old(chickens)@),
        dt <= MAX_TICK_MS,
    ensures
        chickens_stepped_rel(old(chickens)@, final(chickens)@, dt as int),
{
    let ghost pre: Seq<Option<Chicken>> = chickens@;
    let n: usize = chickens.len();
    let mut i: usize = 0;
    while i < n
        invariant
            i <= n,
            n == pre.len(),
            chickens@.len() == n,
            chickens_wf(pre),
            dt <= MAX_TICK_MS,
            forall|j: int| i <= j < n ==> #[trigger] chickens@[j] == pre[j],
            forall|j: int|
                0 <= j < i ==> chicken_slot_stepped(pre[j], #[trigger] chickens@[j], dt as int),
        decreases n - i,
    {
        let slot: Option<Chicken> = chickens[i];
        match slot {
            Option::Some(mut c) => {
                behave_chicken(&mut c, dt);
                chickens.set(i, Some(c));
            },
            Option::None => {},
        }
        i = i + 1;
    }
}

/// Whether a wall segment is close enough to deflect a chicken at `p`.
pub open spec fn in_wall_range(w: ChickenCorralWall, p: Vec2i) -> bool {
    dist_sq_spec(p, w.pos) <= sq((CORRAL_WALL_SIZE + CHICKEN_SIZE) / 2)
}

/// How many of the walls are within deflection range of `p`.
pub open spec fn walls_in_range(walls: Seq<ChickenCorralWall>, p: Vec2i) -> int
    decreases walls.len(),
{
    if walls.len() == 0 {
        0
    } else {
        walls_in_range(walls.drop_last(), p) + if in_wall_range(walls.last(), p) {
            1int
        } else {
            0int
        }
    }
}

/// All wall positions lie in the world box.
pub open spec fn walls_wf(walls: Seq<ChickenCorralWall>) -> bool {
    forall|i: int| 0 <= i < walls.len() ==> (#[trigger] walls[i]).wf()
}

/// How a chicken relates to its state before a wall-deflection pass:
/// only the direction changes, and it flips once per wall in range.
pub open spec fn bounced_chicken(c0: Chicken, c1: Chicken, walls: Seq<ChickenCorralWall>) -> bool {
    &&& c1.pos == c0.pos
    &&& c1.behaviour == c0.behaviour
    &&& c1.behaviour_change_timer == c0.behaviour_change_timer
    &&& c1.catchable == c0.catchable
    &&& c1.move_dir == (match c0.move_dir {
        Option::None => Option::<Vec2i>::None,
        Option::Some(d0) => Option::Some(
            if walls_in_range(walls, c0.pos) % 2 == 0 {
                d0
            } else {
                d0.negated()
            },
        ),
    })
}

/// Deflect one chicken: its direction is negated once for every wall
/// segment within range.
fn bounce_chicken(c: &mut Chicken, walls: &Vec<ChickenCorralWall>)
    requires
        old(c).wf(),
        walls_wf(walls@),
    ensures
        final(c).wf(),
        bounced_chicken(*old(c), *final(c), walls@),
{
    if c.move_dir.is_none() {
        assert(walls@.take(walls@.len() as int) =~= walls@);
        return ;
    }
    let n: usize = walls.len();
    let mut j: usize = 0;
    let ghost d0: Vec2i = c.move_dir->Some_0;
    while j < n
        invariant
            j <= n,
            n == walls@.len(),
            walls_wf(walls@),
            old(c).wf(),
            old(c).move_dir == Some(d0),
            c.pos == old(c).pos,
            c.behaviour == old(c).behaviour,
            c.behaviour_change_timer == old(c).behaviour_change_timer,
            c.catchable == old(c).catchable,
            c.move_dir == Some(
                if walls_in_range(walls@.take(j as int), old(c).pos) % 2 == 0 {
                    d0
                } else {
                    d0.negated()
                },
            ),
        decreases n - j,
    {
        let w: ChickenCorralWall = walls[j];
        proof {
            assert(walls@.take(j + 1).drop_last() =~= walls@.take(j as int));
            assert(walls@.take(j + 1).last() == walls@[j as int]);
            assert(walls_in_range(walls@.take(j + 1), old(c).pos) == walls_in_range(
                walls@.take(j as int),
                old(c).pos,
            ) + if in_wall_range(walls@[j as int], old(c).pos) {
                1int
            } else {
                0int
            });
            assert(d0.negated().negated() == d0);
        }
        if dist_sq(c.pos, w.pos) <= 1600 {
            let d = c.move_dir.unwrap();
            c.move_dir = Some(d.neg());
            proof {
                assert((CORRAL_WALL_SIZE + CHICKEN_SIZE) / 2 == 40int);
                assert(sq(40int) == 1600int) by (nonlinear_arith);
            }
        } else {
            proof {
                assert((CORRAL_WALL_SIZE + CHICKEN_SIZE) / 2 == 40int);
                assert(sq(40int) == 1600int) by (nonlinear_arith);
            }
        }
        j = j + 1;
    }
    proof {
        assert(walls@.take(n as int) =~= walls@);
        lemma_unit_dir_negated(d0);
    }
}

/// One full wall-deflection pass: every slot bounced once, none
/// appearing or disappearing.
pub open spec fn bounce_pass_rel(
    cs0: Seq<Option<Chicken>>,
    cs1: Seq<Option<Chicken>>,
    walls: Seq<ChickenCorralWall>,
) -> bool {
    &&& cs1.len() == cs0.len()
    &&& forall|i: int|
        0 <= i < cs0.len() ==> (match cs0[i] {
            Option::None => (#[trigger] cs1[i]) is None,
            Option::Some(c0) => cs1[i] matches Some(c1) && c1.wf() && bounced_chicken(
                c0,
                c1,
                walls,
            ),
        })
}

/// The wall-deflection rule, one full pass over all chickens: every
/// chicken's direction is flipped once per wall segment within
/// `(CORRAL_WALL_SIZE + CHICKEN_SIZE) / 2` of it.
pub fn chicken_corral_collision(chickens: &mut Vec<Option<Chicken>>, walls: &Vec<ChickenCorralWall>)
    requires
        chickens_wf(old(chickens)@),
        walls_wf(walls@),
    ensures
        bounce_pass_rel(old(chickens)@, final(chickens)@, walls@),
{
    let ghost pre: Seq<Option<Chicken>> = chickens@;
    let n: usize = chickens.len();
    let mut i: usize = 0;
    while i < n
        invariant
            i <= n,
            n == pre.len(),
            chickens@.len() == n,
            chickens_wf(pre),
            walls_wf(walls@),
            forall|j: int| i <= j < n ==> #[trigger] chickens@[j] == pre[j],
            forall|j: int|
                0 <= j < i ==> (match pre[j] {
                    Option::None => chickens@[j] is None,
                    Option::Some(c0) => (#[trigger] chickens@[j]) matches Some(c1) && c1.wf()
                        && bounced_chicken(c0, c1, walls@),
                }),
        decreases n - i,
    {
        let slot: Option<Chicken> = chickens[i];
        match slot {
            Option::Some(mut c) => {
                bounce_chicken(&mut c, walls);
                chickens.set(i, Some(c));
            },
            Option::None => {},
        }
        i = i + 1;
    }
}

} // verus!
