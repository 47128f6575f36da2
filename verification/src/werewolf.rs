//! The rival agent and its five-state machine: Idle, RandomMove,
//! MoveToBase, GoToCorral and Catch.
//!
//! Each werewolf owns one base and is assigned one corral.  Every tick it
//! first asks whether it is ready to reconsider (a timer firing, an
//! arrival, or a full inventory), then — if ready — banks any carried
//! resources while in base mode and rolls a new behaviour, and finally
//! acts: the moving states translate it, Catch tries to take the first
//! chicken within reach at the cadence of its own catch timer.

use vstd::prelude::*;

use crate::base::{deposited_count, Base};
use crate::chicken::{chickens_wf, Chicken};
use crate::misc::{get_normilized_dir, get_random_dir, normalized_dir_spec};
use crate::player::{chicken_live, is_first_live_within, no_live_within};
use crate::rng::random_u32_below;
use crate::settings::{
    BASE_CATCHING_RADIUS, DIR_SCALE, MAX_TICK_MS, WEREWOLF_BEHAVIOUR_CHANGE_DELTA_MS,
    WEREWOLF_CATCHING_RADIUS, WEREWOLF_CATCHING_TRY_DELTA_MS, WEREWOLF_MAX_INVENTORY_SPACE,
    WEREWOLF_MIN_DISTANCE_TO_CORRAL, WEREWOLF_SPEED,
};
use crate::timer::{timer_after, timer_fires, Timer};
use crate::vec2::{dist_sq, dist_sq_spec, is_unit_dir, sq, step_pos, stepped_pos_spec, Vec2i};

verus! {

/// The five states of a rival agent.
#[derive(Clone, Copy, PartialEq, Eq, Structural, Debug)]
pub enum WerewolfBehaviour {
    Idle,
    RandomMove,
    MoveToBase,
    GoToCorral,
    Catch,
}

/// A rival agent.
#[derive(Clone, Copy, PartialEq, Eq, Debug)]
pub struct Werewolf {
    pub pos: Vec2i,
    /// Handle of the one base this agent owns, fixed at spawn.
    pub base: usize,
    pub base_pos: Vec2i,
    /// Handle of the assigned corral, set once after spawn.
    pub corral: Option<usize>,
    pub corral_pos: Option<Vec2i>,
    pub behaviour: WerewolfBehaviour,
    pub move_dir: Option<Vec2i>,
    pub behaviour_change_timer: Timer,
    pub must_change_beh: bool,
    pub chickens_in_inventory: u32,
    /// Location mode: heading for or waiting at the corral.
    pub in_corral: bool,
    /// Location mode: heading for or waiting at the base.
    pub in_base: bool,
    pub catching_try_timer: Timer,
}

impl Werewolf {
    /// The standing invariant: a direction exactly while not Idle, a
    /// bounded inventory, and location modes that never overlap.
    pub open spec fn wf(self) -> bool {
        &&& self.pos.in_world()
        &&& self.base_pos.in_world()
        &&& (self.corral_pos matches Some(p) ==> p.in_world())
        &&& self.behaviour_change_timer.wf()
        &&& self.catching_try_timer.wf()
        &&& (self.move_dir is Some <==> !(self.behaviour is Idle))
        &&& (self.move_dir matches Some(d) ==> d.is_dir() && !d.is_zero())
        &&& self.chickens_in_inventory <= WEREWOLF_MAX_INVENTORY_SPACE
        &&& !(self.in_corral && self.in_base)
        &&& (self.behaviour is GoToCorral ==> self.corral_pos is Some)
    }

    /// A fresh werewolf at `spawnpoint`, owning the base `base` which
    /// stands at the same point; Idle, empty-handed, unassigned.
    pub fn default_on_point_with_base(spawnpoint: Vec2i, base: usize) -> (w: Werewolf)
        requires
            spawnpoint.in_world(),
        ensures
            w == (Werewolf {
                pos: spawnpoint,
                base,
                base_pos: spawnpoint,
                corral: None,
                corral_pos: None,
                behaviour: WerewolfBehaviour::Idle,
                move_dir: None,
                behaviour_change_timer: Timer {
                    period_ms: WEREWOLF_BEHAVIOUR_CHANGE_DELTA_MS,
                    elapsed_ms: 0,
                },
                must_change_beh: false,
                chickens_in_inventory: 0,
                in_corral: false,
                in_base: false,
                catching_try_timer: Timer { period_ms: WEREWOLF_CATCHING_TRY_DELTA_MS, elapsed_ms: 0 },
            }),
            w.wf(),
    {
        Werewolf {
            pos: spawnpoint,
            base,
            base_pos: spawnpoint,
            corral: None,
            corral_pos: None,
            behaviour: WerewolfBehaviour::Idle,
            move_dir: None,
            behaviour_change_timer: Timer::from_millis(WEREWOLF_BEHAVIOUR_CHANGE_DELTA_MS),
            must_change_beh: false,
            chickens_in_inventory: 0,
            in_corral: false,
            in_base: false,
            catching_try_timer: Timer::from_millis(WEREWOLF_CATCHING_TRY_DELTA_MS),
        }
    }

    /// Enter `next_beh`: clear the pending-change flag, set the location
    /// modes of the new state, and give the agent its new direction —
    /// random for RandomMove and Catch, aimed at the base or corral for
    /// the goal states, none for Idle.
    ///
    /// The goal states demand a non-zero delta to their target: a
    /// direction is never normalized from a zero-length delta.
    pub fn change_behaviour_to(
        &mut self,
        next_beh: WerewolfBehaviour,
        werewolf_pos: Option<Vec2i>,
    )
        requires
            old(self).wf(),
            next_beh is MoveToBase ==> (werewolf_pos matches Some(p) && p.in_world() && p != old(self).base_pos),
            next_beh is GoToCorral ==> (werewolf_pos matches Some(p) && p.in_world() && old(self).corral_pos is Some && p != old(self).corral_pos->Some_0),
        ensures
            final(self).wf(),
            final(self).behaviour == next_beh,
            final(self).must_change_beh == false,
            final(self).pos == old(self).pos,
            final(self).base == old(self).base,
            final(self).base_pos == old(self).base_pos,
            final(self).corral == old(self).corral,
            final(self).corral_pos == old(self).corral_pos,
            final(self).chickens_in_inventory == old(self).chickens_in_inventory,
            final(self).behaviour_change_timer == old(self).behaviour_change_timer,
            final(self).catching_try_timer == old(self).catching_try_timer,
            (next_beh is Idle || next_beh is Catch) ==> final(self).in_base == old(self).in_base
                && final(self).in_corral == old(self).in_corral,
            next_beh is RandomMove ==> !final(self).in_base && !final(self).in_corral,
            next_beh is MoveToBase ==> final(self).in_base && !final(self).in_corral,
            next_beh is GoToCorral ==> final(self).in_corral && !final(self).in_base,
            next_beh is Idle ==> final(self).move_dir is None,
            (next_beh is RandomMove || next_beh is Catch) ==> (final(self).move_dir matches Some(d)
                && is_unit_dir(d) && !d.is_zero()),
            next_beh is MoveToBase ==> final(self).move_dir == Some(
                normalized_dir_spec(werewolf_pos->Some_0, old(self).base_pos),
            ),
            next_beh is GoToCorral ==> final(self).move_dir == Some(
                normalized_dir_spec(werewolf_pos->Some_0, old(self).corral_pos->Some_0),
            ),
            (next_beh is MoveToBase && dist_sq_spec(werewolf_pos->Some_0, old(self).base_pos)
                >= DIR_SCALE * DIR_SCALE) ==> is_unit_dir(final(self).move_dir->Some_0),
            (next_beh is GoToCorral && dist_sq_spec(
                werewolf_pos->Some_0,
                old(self).corral_pos->Some_0,
            ) >= DIR_SCALE * DIR_SCALE) ==> is_unit_dir(final(self).move_dir->Some_0),
    {
        self.must_change_beh = false;
        match next_beh {
            WerewolfBehaviour::Idle => {
                self.behaviour = WerewolfBehaviour::Idle;
                self.move_dir = None;
            },
            WerewolfBehaviour::RandomMove => {
                self.in_corral = false;
                self.in_base = false;
                self.behaviour = WerewolfBehaviour::RandomMove;
                self.move_dir = Some(get_random_dir());
            },
            WerewolfBehaviour::Catch => {
                self.behaviour = WerewolfBehaviour::Catch;
                self.move_dir = Some(get_random_dir());
            },
            WerewolfBehaviour::MoveToBase => {
                self.in_base = true;
                self.in_corral = false;
                self.behaviour = WerewolfBehaviour::MoveToBase;
                self.move_dir = Some(get_normilized_dir(werewolf_pos.unwrap(), self.base_pos));
            },
            WerewolfBehaviour::GoToCorral => {
                self.in_corral = true;
                self.in_base = false;
                self.behaviour = WerewolfBehaviour::GoToCorral;
                self.move_dir = Some(
                    get_normilized_dir(werewolf_pos.unwrap(), self.corral_pos.unwrap()),
                );
            },
        }
    }
}

/// A well-formed werewolf never holds more than
/// `WEREWOLF_MAX_INVENTORY_SPACE` chickens, and every function of this
/// crate keeps werewolves well-formed.
pub proof fn lemma_werewolf_inventory_bounded(w: Werewolf)
    requires
        w.wf(),
    ensures
        w.chickens_in_inventory <= WEREWOLF_MAX_INVENTORY_SPACE,
{
}

/// Whether the agent is ready to reconsider its behaviour this tick:
/// Idle and RandomMove wait for the behaviour timer, MoveToBase for
/// arrival within the base radius, GoToCorral for arrival at the corral,
/// Catch for a full inventory.
pub open spec fn w_ready_spec(w: Werewolf, dt: int) -> bool {
    match w.behaviour {
        WerewolfBehaviour::Idle => timer_fires(w.behaviour_change_timer, dt),
        WerewolfBehaviour::RandomMove => timer_fires(w.behaviour_change_timer, dt),
        WerewolfBehaviour::MoveToBase => dist_sq_spec(w.pos, w.base_pos) < sq(
            BASE_CATCHING_RADIUS as int,
        ),
        WerewolfBehaviour::GoToCorral => dist_sq_spec(w.pos, w.corral_pos->Some_0) <= sq(
            WEREWOLF_MIN_DISTANCE_TO_CORRAL as int,
        ),
        WerewolfBehaviour::Catch => w.chickens_in_inventory == WEREWOLF_MAX_INVENTORY_SPACE,
    }
}

/// The behaviour a decision roll lands on (draws run from 0 to 9): a
/// 1-in-10 chance of Idle, then a 3-in-10 chance of RandomMove, else the
/// goal logic: bank a full inventory, else seek the corral, else catch.
/// A goal whose target coincides with the agent's position falls back to
/// RandomMove instead of normalizing a zero-length delta.
pub open spec fn werewolf_choice_spec(w: Werewolf, r1: u32, r2: u32) -> WerewolfBehaviour {
    if r1 < 1 {
        WerewolfBehaviour::Idle
    } else if r2 < 3 {
        WerewolfBehaviour::RandomMove
    } else if w.chickens_in_inventory == WEREWOLF_MAX_INVENTORY_SPACE {
        if w.pos != w.base_pos {
            WerewolfBehaviour::MoveToBase
        } else {
            WerewolfBehaviour::RandomMove
        }
    } else if !w.in_corral {
        if w.pos != w.corral_pos->Some_0 {
            WerewolfBehaviour::GoToCorral
        } else {
            WerewolfBehaviour::RandomMove
        }
    } else {
        WerewolfBehaviour::Catch
    }
}

/// The verified half of a decision: which behaviour two given draws
/// select for this agent.
pub fn werewolf_choose(w: &Werewolf, r1: u32, r2: u32) -> (b: WerewolfBehaviour)
    requires
        w.corral_pos is Some,
    ensures
        b == werewolf_choice_spec(*w, r1, r2),
{
    if r1 < 1 {
        WerewolfBehaviour::Idle
    } else if r2 < 3 {
        WerewolfBehaviour::RandomMove
    } else if w.chickens_in_inventory == WEREWOLF_MAX_INVENTORY_SPACE {
        if w.pos != w.base_pos {
            WerewolfBehaviour::MoveToBase
        } else {
            WerewolfBehaviour::RandomMove
        }
    } else if !w.in_corral {
        let cp = w.corral_pos.unwrap();
        if w.pos != cp {
            WerewolfBehaviour::GoToCorral
        } else {
            WerewolfBehaviour::RandomMove
        }
    } else {
        WerewolfBehaviour::Catch
    }
}

/// Everything one step changes about a werewolf and its base, short of
/// the chicken it may catch.
pub open spec fn werewolf_stepped(w0: Werewolf, w1: Werewolf, b0: Base, b1: Base, dt: int) -> bool {
    let ready = w_ready_spec(w0, dt);
    let dep = ready && w0.in_base && w0.chickens_in_inventory > 0;
    &&& w1.wf()
    &&& w1.base == w0.base
    &&& w1.base_pos == w0.base_pos
    &&& w1.corral == w0.corral
    &&& w1.corral_pos == w0.corral_pos
    &&& w1.must_change_beh == false
    &&& b1.pos == b0.pos
    &&& b1.radius == b0.radius
    &&& (dep ==> b1.chickens_amount == deposited_count(
        b0.chickens_amount as int,
        w0.chickens_in_inventory as int,
    ) && w1.chickens_in_inventory == 0)
    &&& (!dep ==> b1 == b0)
    &&& (!ready ==> w1.behaviour == w0.behaviour && w1.in_base == w0.in_base && w1.in_corral
        == w0.in_corral && w1.move_dir == w0.move_dir)
    &&& w1.behaviour_change_timer == (if w0.behaviour is Idle || w0.behaviour is RandomMove {
        timer_after(w0.behaviour_change_timer, dt)
    } else {
        w0.behaviour_change_timer
    })
    &&& (!(w1.behaviour is Catch) ==> w1.chickens_in_inventory == (if dep {
        0int
    } else {
        w0.chickens_in_inventory as int
    }))
    &&& (w1.behaviour is Catch ==> w0.chickens_in_inventory <= w1.chickens_in_inventory
        <= w0.chickens_in_inventory + 1)
    &&& (ready ==> ({
        let inv_mid: int = if dep {
            0
        } else {
            w0.chickens_in_inventory as int
        };
        &&& (w1.behaviour is MoveToBase ==> inv_mid == WEREWOLF_MAX_INVENTORY_SPACE && w0.pos
            != w0.base_pos && w1.in_base && !w1.in_corral && w1.move_dir == Some(
            normalized_dir_spec(w0.pos, w0.base_pos),
        ))
        &&& (w1.behaviour is GoToCorral ==> !w0.in_corral && w0.pos != w0.corral_pos->Some_0
            && w1.in_corral && !w1.in_base && w1.move_dir == Some(
            normalized_dir_spec(w0.pos, w0.corral_pos->Some_0),
        ))
        &&& (w1.behaviour is Catch ==> w0.in_corral && inv_mid < WEREWOLF_MAX_INVENTORY_SPACE)
        &&& (w1.behaviour is RandomMove ==> !w1.in_base && !w1.in_corral)
    }))
    &&& w1.pos == (match w1.behaviour {
        WerewolfBehaviour::RandomMove => stepped_pos_spec(
            w0.pos,
            w1.move_dir->Some_0,
            WEREWOLF_SPEED as int,
            dt,
        ),
        WerewolfBehaviour::MoveToBase => stepped_pos_spec(
            w0.pos,
            w1.move_dir->Some_0,
            WEREWOLF_SPEED as int,
            dt,
        ),
        WerewolfBehaviour::GoToCorral => stepped_pos_spec(
            w0.pos,
            w1.move_dir->Some_0,
            WEREWOLF_SPEED as int,
            dt,
        ),
        WerewolfBehaviour::Idle => w0.pos,
        WerewolfBehaviour::Catch => w0.pos,
    })
}

/// One tick of one werewolf against its own base and the shared
/// chickens.  Returns the handle of the chicken it caught, if any.
pub fn werewolf_step(
    w: &mut Werewolf,
    base: &mut Base,
    chickens: &mut Vec<Option<Chicken>>,
    dt: u32,
) -> (caught: Option<usize>)
    requires
        old(w).wf(),
        old(w).corral_pos is Some,
        old(base).wf(),
        chickens_wf(old(chickens)@),
        dt <= MAX_TICK_MS,
        old(base).chickens_amount + old(w).chickens_in_inventory <= u64::MAX,
    ensures
        final(base).wf(),
        chickens_wf(final(chickens)@),
        werewolf_stepped(*old(w), *final(w), *old(base), *final(base), dt as int),
        final(chickens)@.len() == old(chickens)@.len(),
        (!(final(w).behaviour is Catch) ==> final(chickens)@ == old(chickens)@ && caught is None
            && final(w).catching_try_timer == old(w).catching_try_timer),
        (final(w).behaviour is Catch ==> ({
            let fired = timer_fires(old(w).catching_try_timer, dt as int);
            &&& (!fired ==> final(chickens)@ == old(chickens)@ && caught is None && final(w).catching_try_timer == timer_after(old(w).catching_try_timer, dt as int) && final(w).chickens_in_inventory == old(w).chickens_in_inventory)
            &&& (fired ==> match caught {
                Option::Some(v) => is_first_live_within(
                    old(chickens)@,
                    old(w).pos,
                    sq(WEREWOLF_CATCHING_RADIUS as int),
                    v as int,
                ) && final(chickens)@ == old(chickens)@.update(v as int, None) && final(w).chickens_in_inventory == old(w).chickens_in_inventory + 1 && final(w).catching_try_timer == (Timer {
                    period_ms: old(w).catching_try_timer.period_ms,
                    elapsed_ms: 0,
                }),
                Option::None => no_live_within(
                    old(chickens)@,
                    old(w).pos,
                    sq(WEREWOLF_CATCHING_RADIUS as int),
                ) && final(chickens)@ == old(chickens)@ && final(w).chickens_in_inventory == old(w).chickens_in_inventory && final(w).catching_try_timer == timer_after(
                    old(w).catching_try_timer,
                    dt as int,
                ),
            })
        })),
{
    let ghost pre: Seq<Option<Chicken>> = chickens@;
    let ready: bool;
    match w.behaviour {
        WerewolfBehaviour::Idle => {
            ready = w.behaviour_change_timer.tick(dt);
        },
        WerewolfBehaviour::RandomMove => {
            ready = w.behaviour_change_timer.tick(dt);
        },
        WerewolfBehaviour::MoveToBase => {
            proof {
                crate::vec2::lemma_sq_bound(BASE_CATCHING_RADIUS as int, 1_000_000int);
            }
            let br2: i64 = BASE_CATCHING_RADIUS * BASE_CATCHING_RADIUS;
            ready = dist_sq(w.pos, w.base_pos) < br2 as u64;
        },
        WerewolfBehaviour::GoToCorral => {
            proof {
                crate::vec2::lemma_sq_bound(WEREWOLF_MIN_DISTANCE_TO_CORRAL as int, 1_000_000int);
            }
            let ar2: i64 = WEREWOLF_MIN_DISTANCE_TO_CORRAL * WEREWOLF_MIN_DISTANCE_TO_CORRAL;
            let cp = w.corral_pos.unwrap();
            ready = dist_sq(w.pos, cp) <= ar2 as u64;
        },
        WerewolfBehaviour::Catch => {
            ready = w.chickens_in_inventory == WEREWOLF_MAX_INVENTORY_SPACE;
        },
    }
    w.must_change_beh = ready;
    if ready {
        if w.in_base && w.chickens_in_inventory != 0 {
            base.deposit(w.chickens_in_inventory);
            w.chickens_in_inventory = 0;
        }
        let r1 = random_u32_below(10);
        let r2 = random_u32_below(10);
        let choice = werewolf_choose(w, r1, r2);
        match choice {
            WerewolfBehaviour::Idle => {
                w.change_behaviour_to(WerewolfBehaviour::Idle, None);
            },
            WerewolfBehaviour::RandomMove => {
                w.change_behaviour_to(WerewolfBehaviour::RandomMove, None);
            },
            WerewolfBehaviour::Catch => {
                w.change_behaviour_to(WerewolfBehaviour::Catch, None);
            },
            WerewolfBehaviour::MoveToBase => {
                let here = w.pos;
                w.change_behaviour_to(WerewolfBehaviour::MoveToBase, Some(here));
            },
            WerewolfBehaviour::GoToCorral => {
                let here = w.pos;
                w.change_behaviour_to(WerewolfBehaviour::GoToCorral, Some(here));
            },
        }
    }
    match w.behaviour {
        WerewolfBehaviour::RandomMove => {
            let d = w.move_dir.unwrap();
            w.pos = step_pos(w.pos, d, WEREWOLF_SPEED, dt);
            None
        },
        WerewolfBehaviour::MoveToBase => {
            let d = w.move_dir.unwrap();
            w.pos = step_pos(w.pos, d, WEREWOLF_SPEED, dt);
            None
        },
        WerewolfBehaviour::GoToCorral => {
            let d = w.move_dir.unwrap();
            w.pos = step_pos(w.pos, d, WEREWOLF_SPEED, dt);
            None
        },
        WerewolfBehaviour::Idle => None,
        WerewolfBehaviour::Catch => {
            let fired = w.catching_try_timer.tick(dt);
            if fired {
                proof {
                    crate::vec2::lemma_sq_bound(WEREWOLF_CATCHING_RADIUS as int, 1_000_000int);
                }
                let wr2: i64 = WEREWOLF_CATCHING_RADIUS * WEREWOLF_CATCHING_RADIUS;
                let ghost wc: Werewolf = *w;
                let n: usize = chickens.len();
                let mut i: usize = 0;
                while i < n
                    invariant
                        i <= n,
                        n == pre.len(),
                        chickens@ == pre,
                        *w == wc,
                        forall|j: int|
                            0 <= j < i && #[trigger] chicken_live(pre, j) ==> dist_sq_spec(
                                wc.pos,
                                pre[j]->Some_0.pos,
                            ) >= wr2,
                    decreases n - i,
                {
                    let slot: Option<Chicken> = chickens[i];
                    match slot {
                        Option::Some(c) => {
                            if dist_sq(w.pos, c.pos) < wr2 as u64 {
                                w.catching_try_timer.reset();
                                w.chickens_in_inventory = w.chickens_in_inventory + 1;
                                chickens.set(i, None);
                                return Some(i);
                            }
                        },
                        Option::None => {},
                    }
                    i = i + 1;
                }
                None
            } else {
                None
            }
        },
    }
}

/// Every werewolf is well-formed, has its corral position, and points at
/// a valid base slot.
pub open spec fn werewolves_wf(ws: Seq<Werewolf>, n_bases: int) -> bool {
    forall|k: int|
        0 <= k < ws.len() ==> ((#[trigger] ws[k]).wf() && ws[k].corral_pos is Some && ws[k].base
            < n_bases)
}

/// No two werewolves share a base: every rival owns exactly one.
pub open spec fn distinct_bases(ws: Seq<Werewolf>) -> bool {
    forall|k1: int, k2: int|
        0 <= k1 < k2 < ws.len() ==> (#[trigger] ws[k1].base) != (#[trigger] ws[k2].base)
}

/// Every base is well-formed.
pub open spec fn bases_wf(bs: Seq<Base>) -> bool {
    forall|b: int| 0 <= b < bs.len() ==> (#[trigger] bs[b]).wf()
}

/// Every base has head room for what all werewolves together could
/// still bank.
pub open spec fn bases_headroom(bs: Seq<Base>, n_werewolves: int) -> bool {
    forall|b: int|
        0 <= b < bs.len() ==> (#[trigger] bs[b]).chickens_amount + WEREWOLF_MAX_INVENTORY_SPACE
            * n_werewolves <= u64::MAX
}

/// One full rival pass: every werewolf stepped once against its own
/// base, other bases untouched, chickens only ever disappearing.
pub open spec fn wolf_pass_rel(
    ws0: Seq<Werewolf>,
    bs0: Seq<Base>,
    cs0: Seq<Option<Chicken>>,
    ws1: Seq<Werewolf>,
    bs1: Seq<Base>,
    cs1: Seq<Option<Chicken>>,
    dt: int,
) -> bool {
    &&& ws1.len() == ws0.len()
    &&& bs1.len() == bs0.len()
    &&& cs1.len() == cs0.len()
    &&& werewolves_wf(ws1, bs1.len() as int)
    &&& bases_wf(bs1)
    &&& chickens_wf(cs1)
    &&& forall|k: int|
        0 <= k < ws0.len() ==> werewolf_stepped(
            ws0[k],
            #[trigger] ws1[k],
            bs0[ws0[k].base as int],
            bs1[ws0[k].base as int],
            dt,
        )
    &&& forall|b: int|
        0 <= b < bs0.len() ==> ((forall|k: int|
            0 <= k < ws0.len() ==> (#[trigger] ws0[k]).base != b) ==> #[trigger] bs1[b] == bs0[b])
    &&& forall|i: int| 0 <= i < cs0.len() ==> (#[trigger] cs1[i] == cs0[i] || cs1[i] is None)
}

/// One tick of every werewolf, one full pass in slot order.  Each agent
/// steps against its own base; chickens only ever disappear.
pub fn werewolf_behave(
    werewolves: &mut Vec<Werewolf>,
    bases: &mut Vec<Base>,
    chickens: &mut Vec<Option<Chicken>>,
    dt: u32,
)
    requires
        werewolves_wf(old(werewolves)@, old(bases)@.len() as int),
        distinct_bases(old(werewolves)@),
        bases_wf(old(bases)@),
        bases_headroom(old(bases)@, old(werewolves)@.len() as int),
        chickens_wf(old(chickens)@),
        dt <= MAX_TICK_MS,
    ensures
        wolf_pass_rel(
            old(werewolves)@,
            old(bases)@,
            old(chickens)@,
            final(werewolves)@,
            final(bases)@,
            final(chickens)@,
            dt as int,
        ),
{
    let ghost ws0: Seq<Werewolf> = werewolves@;
    let ghost bs0: Seq<Base> = bases@;
    let ghost cs0: Seq<Option<Chicken>> = chickens@;
    let n: usize = werewolves.len();
    let mut k: usize = 0;
    while k < n
        invariant
            k <= n,
            n == ws0.len(),
            werewolves@.len() == n,
            bases@.len() == bs0.len(),
            chickens@.len() == cs0.len(),
            bases_wf(bases@),
            chickens_wf(chickens@),
            forall|j: int| k <= j < n ==> #[trigger] werewolves@[j] == ws0[j],
            forall|j: int|
                0 <= j < k ==> werewolf_stepped(
                    ws0[j],
                    #[trigger] werewolves@[j],
                    bs0[ws0[j].base as int],
                    bases@[ws0[j].base as int],
                    dt as int,
                ),
            forall|b: int|
                0 <= b < bs0.len() ==> ((forall|j: int|
                    0 <= j < k ==> (#[trigger] ws0[j]).base != b) ==> #[trigger] bases@[b]
                    == bs0[b]),
            forall|i: int|
                0 <= i < cs0.len() ==> (#[trigger] chickens@[i] == cs0[i] || chickens@[i] is None),
        decreases n - k,
    {
        let mut w: Werewolf = werewolves[k];
        let bi: usize = w.base;
        let mut b: Base = bases[bi];
        proof {
            assert(forall|j: int| 0 <= j < k ==> (#[trigger] ws0[j]).base != bi as int);
            assert(b == bs0[bi as int]);
            assert(WEREWOLF_MAX_INVENTORY_SPACE * (n as int) >= WEREWOLF_MAX_INVENTORY_SPACE
                * 1) by (nonlinear_arith)
                requires
                    n >= 1,
            ;
        }
        werewolf_step(&mut w, &mut b, chickens, dt);
        werewolves.set(k, w);
        bases.set(bi, b);
        k = k + 1;
    }
}

} // verus!
