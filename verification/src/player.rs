//! The player: movement from directional input, nearest-target selection
//! with hysteresis, a bounded inventory, and the drop-off flow at the
//! home base.

use vstd::prelude::*;

use crate::base::{deposited_count, Base};
use crate::chicken::{chickens_wf, Chicken};
use crate::settings::{
    DIR_SCALE, MAX_TICK_MS, MULTIPLIER_LIMIT, PLAYER_CATCHING_RADIUS,
    PLAYER_DEFAULT_CATCHING_RADIUS_MULTIPLIER, PLAYER_DEFAULT_SPEED_MULTIPLIER,
    PLAYER_LVLUP_CATCHING_RADIUS, PLAYER_LVLUP_CATCHING_RADIUS_PRICE, PLAYER_LVLUP_SPEED,
    PLAYER_LVLUP_SPEED_PRICE, PLAYER_MAX_INVENTORY_SPACE, PLAYER_SPEED,
};
use crate::vec2::{dist_sq, dist_sq_spec, lemma_sq_bound, sq, step_pos, stepped_pos_spec, Vec2i};
use vstd::arithmetic::div_mod::lemma_div_nonincreasing;

verus! {

/// The two purchasable upgrades.
#[derive(Clone, Copy, PartialEq, Eq, Structural, Debug)]
pub enum LvlupType {
    Speed,
    CatchingRadius,
}

/// The player: position, upgrade multipliers (percentages), the bounded
/// inventory, the one-time corral claim, and the current target handle.
#[derive(Clone, Copy, PartialEq, Eq, Debug)]
pub struct Player {
    pub pos: Vec2i,
    pub corral: Option<usize>,
    /// Speed multiplier in percent; `100` is the base speed.
    pub speed_multiplier: u32,
    /// Catching-radius multiplier in percent; `100` is the base radius.
    pub catching_radius_multiplier: u32,
    pub inventory_chickens_amount: u32,
    /// Handle of the chicken currently marked Catchable, if any.
    pub catchable_chicken: Option<usize>,
}

impl Player {
    pub open spec fn wf(self) -> bool {
        &&& self.pos.in_world()
        &&& self.inventory_chickens_amount <= PLAYER_MAX_INVENTORY_SPACE
        &&& 1 <= self.speed_multiplier <= MULTIPLIER_LIMIT
        &&& 1 <= self.catching_radius_multiplier <= MULTIPLIER_LIMIT
    }

    /// The squared effective catching radius.
    pub open spec fn catch_radius_sq(self) -> int {
        sq(PLAYER_CATCHING_RADIUS * self.catching_radius_multiplier / 100)
    }

    /// The effective speed, units per second.
    pub open spec fn speed_eff(self) -> int {
        PLAYER_SPEED * self.speed_multiplier / 100
    }

    /// One speed upgrade.
    pub fn speed_up(&mut self)
        requires
            old(self).wf(),
            old(self).speed_multiplier + PLAYER_LVLUP_SPEED <= MULTIPLIER_LIMIT,
        ensures
            *final(self) == (Player {
                speed_multiplier: (old(self).speed_multiplier + PLAYER_LVLUP_SPEED) as u32,
                ..*old(self)
            }),
            final(self).wf(),
    {
        self.speed_multiplier = self.speed_multiplier + PLAYER_LVLUP_SPEED;
    }

    /// One catching-radius upgrade.
    pub fn catch_radius_up(&mut self)
        requires
            old(self).wf(),
            old(self).catching_radius_multiplier + PLAYER_LVLUP_CATCHING_RADIUS <= MULTIPLIER_LIMIT,
        ensures
            *final(self) == (Player {
                catching_radius_multiplier: (old(self).catching_radius_multiplier
                    + PLAYER_LVLUP_CATCHING_RADIUS) as u32,
                ..*old(self)
            }),
            final(self).wf(),
    {
        self.catching_radius_multiplier = self.catching_radius_multiplier
            + PLAYER_LVLUP_CATCHING_RADIUS;
    }
}

impl Default for Player {
    /// A fresh player at the origin: default multipliers, empty
    /// inventory, no corral, no target.
    fn default() -> (p: Player)
        ensures
            p == (Player {
                pos: Vec2i { x: 0, y: 0 },
                corral: None,
                speed_multiplier: PLAYER_DEFAULT_SPEED_MULTIPLIER,
                catching_radius_multiplier: PLAYER_DEFAULT_CATCHING_RADIUS_MULTIPLIER,
                inventory_chickens_amount: 0,
                catchable_chicken: None,
            }),
            p.wf(),
    {
        Player {
            pos: Vec2i { x: 0, y: 0 },
            corral: None,
            speed_multiplier: PLAYER_DEFAULT_SPEED_MULTIPLIER,
            catching_radius_multiplier: PLAYER_DEFAULT_CATCHING_RADIUS_MULTIPLIER,
            inventory_chickens_amount: 0,
            catchable_chicken: None,
        }
    }
}

/// A well-formed player never holds more than `PLAYER_MAX_INVENTORY_SPACE`
/// chickens, and every function of this crate keeps players well-formed.
pub proof fn lemma_player_inventory_bounded(p: Player)
    requires
        p.wf(),
    ensures
        p.inventory_chickens_amount <= PLAYER_MAX_INVENTORY_SPACE,
{
}

/// A valid, still-existing chicken handle.
pub open spec fn chicken_live(chickens: Seq<Option<Chicken>>, i: int) -> bool {
    0 <= i < chickens.len() && chickens[i] is Some
}

/// Squared distance from `p` to the chicken in slot `i`.
pub open spec fn chicken_d2(chickens: Seq<Option<Chicken>>, p: Vec2i, i: int) -> int {
    dist_sq_spec(p, chickens[i]->Some_0.pos)
}

/// The single-target invariant: a live chicken carries the Catchable
/// mark exactly when it is the player's current target, so at most one
/// chicken is ever marked.
pub open spec fn targeting_wf(target: Option<usize>, chickens: Seq<Option<Chicken>>) -> bool {
    forall|i: int|
        #[trigger] chicken_live(chickens, i) ==> (chickens[i]->Some_0.catchable <==> (
        target is Some && target->Some_0 == i))
}

/// Two live chickens both carrying the mark are the same chicken, and it
/// is the player's target.
pub proof fn lemma_single_catchable(
    target: Option<usize>,
    chickens: Seq<Option<Chicken>>,
    i: int,
    j: int,
)
    requires
        targeting_wf(target, chickens),
        chicken_live(chickens, i),
        chicken_live(chickens, j),
        chickens[i]->Some_0.catchable,
        chickens[j]->Some_0.catchable,
    ensures
        i == j,
        target is Some && target->Some_0 == i,
{
}

/// Slot `i` holds the first live chicken strictly within radius (the
/// acquisition rule takes the first, not the nearest).
pub open spec fn is_first_live_within(
    chickens: Seq<Option<Chicken>>,
    p: Vec2i,
    r2: int,
    i: int,
) -> bool {
    &&& chicken_live(chickens, i)
    &&& chicken_d2(chickens, p, i) < r2
    &&& forall|j: int|
        0 <= j < i && #[trigger] chicken_live(chickens, j) ==> chicken_d2(chickens, p, j) >= r2
}

/// No live chicken lies strictly within radius.
pub open spec fn no_live_within(chickens: Seq<Option<Chicken>>, p: Vec2i, r2: int) -> bool {
    forall|j: int|
        #[trigger] chicken_live(chickens, j) ==> chicken_d2(chickens, p, j) >= r2
}

/// The target the retention scan keeps, starting from current target
/// `t0`: the nearest live chicken, with `t0` preferred on a tie and the
/// lowest slot preferred among the rest.
pub open spec fn is_retained_best(
    chickens: Seq<Option<Chicken>>,
    p: Vec2i,
    t0: int,
    b: int,
) -> bool {
    &&& chicken_live(chickens, b)
    &&& forall|j: int|
        #[trigger] chicken_live(chickens, j) ==> chicken_d2(chickens, p, b) <= chicken_d2(
            chickens,
            p,
            j,
        )
    &&& (chicken_d2(chickens, p, b) == chicken_d2(chickens, p, t0) ==> b == t0)
    &&& (chicken_d2(chickens, p, b) != chicken_d2(chickens, p, t0) ==> forall|j: int|
        0 <= j < b && #[trigger] chicken_live(chickens, j) ==> chicken_d2(chickens, p, j)
            > chicken_d2(chickens, p, b))
}

/// Everything of a slot but the Catchable mark is unchanged.
pub open spec fn same_but_catchable(pre: Option<Chicken>, post: Option<Chicken>) -> bool {
    match pre {
        Option::None => post is None,
        Option::Some(c0) => post matches Some(c1) && c1.pos == c0.pos && c1.behaviour
            == c0.behaviour && c1.move_dir == c0.move_dir && c1.behaviour_change_timer
            == c0.behaviour_change_timer && c1.wf() == c0.wf(),
    }
}

/// The mark/unmark notifications one targeting pass emits for the
/// presentation layer.
#[derive(Clone, Copy, PartialEq, Eq, Structural, Debug)]
pub struct TargetingEvents {
    pub marked: Option<usize>,
    pub unmarked: Option<usize>,
}

/// The effective squared catching radius, as a run-time value.
fn catch_radius_sq_exec(player: &Player) -> (r2: u64)
    requires
        player.wf(),
    ensures
        r2 == player.catch_radius_sq(),
{
    let r_eff: u64 = (PLAYER_CATCHING_RADIUS as u64) * (player.catching_radius_multiplier as u64)
        / 100;
    proof {
        lemma_sq_bound(r_eff as int, 1_000_000int);
    }
    r_eff * r_eff
}

/// Everything one targeting pass does: the player and the chickens
/// before and after, and the notifications it emits.
pub open spec fn targeting_pass_rel(
    p0: Player,
    cs0: Seq<Option<Chicken>>,
    p1: Player,
    cs1: Seq<Option<Chicken>>,
    ev: TargetingEvents,
) -> bool {
    &&& p1.wf()
    &&& chickens_wf(cs1)
    &&& targeting_wf(p1.catchable_chicken, cs1)
    &&& cs1.len() == cs0.len()
    &&& (forall|i: int|
        0 <= i < cs0.len() ==> same_but_catchable(cs0[i], #[trigger] cs1[i]))
    &&& p1.pos == p0.pos
    &&& p1.corral == p0.corral
    &&& p1.speed_multiplier == p0.speed_multiplier
    &&& p1.catching_radius_multiplier == p0.catching_radius_multiplier
    &&& p1.inventory_chickens_amount == p0.inventory_chickens_amount
    &&& (p0.catchable_chicken is None ==> match p1.catchable_chicken {
        Option::Some(t) => is_first_live_within(cs0, p0.pos, p0.catch_radius_sq(), t as int) && ev
            == (TargetingEvents { marked: Some(t), unmarked: None }),
        Option::None => no_live_within(cs0, p0.pos, p0.catch_radius_sq()) && ev
            == (TargetingEvents { marked: None, unmarked: None }),
    })
    &&& (p0.catchable_chicken is Some && !chicken_live(cs0, p0.catchable_chicken->Some_0 as int)
        ==> p1.catchable_chicken is None && cs1 == cs0 && ev == (TargetingEvents {
        marked: None,
        unmarked: None,
    }))
    &&& (p0.catchable_chicken is Some && chicken_live(cs0, p0.catchable_chicken->Some_0 as int)
        ==> ({
        let t0 = p0.catchable_chicken->Some_0;
        match p1.catchable_chicken {
            Option::Some(t) => is_retained_best(cs0, p0.pos, t0 as int, t as int) && chicken_d2(
                cs0,
                p0.pos,
                t as int,
            ) < p0.catch_radius_sq() && ev == (TargetingEvents {
                marked: if t == t0 {
                    None
                } else {
                    Some(t)
                },
                unmarked: if t == t0 {
                    None
                } else {
                    Some(t0)
                },
            }),
            Option::None => no_live_within(cs0, p0.pos, p0.catch_radius_sq()) && ev
                == (TargetingEvents { marked: None, unmarked: Some(t0) }),
        }
    }))
}

/// One targeting pass.
///
/// With no target set, the first live chicken strictly within the
/// effective radius is marked and becomes the target.  With a target
/// set and alive, the pass switches to the nearest strictly-nearer
/// chicken, and clears the target if even the nearest lies at or beyond
/// the radius.  A stale target handle (the chicken was consumed) is
/// cleared without touching any mark.
pub fn player_chicken_collision(player: &mut Player, chickens: &mut Vec<Option<Chicken>>) -> (ev:
    TargetingEvents)
    requires
        old(player).wf(),
        chickens_wf(old(chickens)@),
        targeting_wf(old(player).catchable_chicken, old(chickens)@),
    ensures
        targeting_pass_rel(
            *old(player),
            old(chickens)@,
            *final(player),
            final(chickens)@,
            ev,
        ),
{
    let ghost pre: Seq<Option<Chicken>> = chickens@;
    let ghost player0: Player = *player;
    let p: Vec2i = player.pos;
    let r2: u64 = catch_radius_sq_exec(player);
    let n: usize = chickens.len();
    match player.catchable_chicken {
        Option::None => {
            let mut i: usize = 0;
            while i < n
                invariant
                    i <= n,
                    n == pre.len(),
                    chickens@ == pre,
                    chickens_wf(pre),
                    *player == player0,
                    player0.wf(),
                    player0.catchable_chicken is None,
                    targeting_wf(player0.catchable_chicken, pre),
                    p == player0.pos,
                    r2 == player0.catch_radius_sq(),
                    p.in_world(),
                    forall|j: int|
                        0 <= j < i && #[trigger] chicken_live(pre, j) ==> chicken_d2(pre, p, j)
                            >= r2,
                decreases n - i,
            {
                let slot: Option<Chicken> = chickens[i];
                match slot {
                    Option::Some(c) => {
                        if dist_sq(p, c.pos) < r2 {
                            let marked_c = Chicken { catchable: true, ..c };
                            chickens.set(i, Some(marked_c));
                            player.catchable_chicken = Some(i);
                            proof {
                                assert forall|k: int| #[trigger] chicken_live(chickens@, k) implies (
                                chickens@[k]->Some_0.catchable <==> k == i as int) by {
                                    if k != i as int {
                                        assert(chickens@[k] == pre[k]);
                                        assert(chicken_live(pre, k));
                                    }
                                }
                            }
                            return TargetingEvents { marked: Some(i), unmarked: None };
                        }
                    },
                    Option::None => {},
                }
                i = i + 1;
            }
            proof {
                assert forall|k: int| #[trigger] chicken_live(chickens@, k) implies !(
                chickens@[k]->Some_0.catchable) by {
                    assert(chicken_live(pre, k));
                }
            }
            TargetingEvents { marked: None, unmarked: None }
        },
        Option::Some(t) => {
            if t >= n {
                player.catchable_chicken = None;
                proof {
                    assert forall|k: int| #[trigger] chicken_live(chickens@, k) implies !(
                    chickens@[k]->Some_0.catchable) by {
                        assert(chicken_live(pre, k));
                        assert(k != t as int);
                    }
                }
                return TargetingEvents { marked: None, unmarked: None };
            }
            let slot_t: Option<Chicken> = chickens[t];
            match slot_t {
                Option::None => {
                    player.catchable_chicken = None;
                    proof {
                        assert forall|k: int| #[trigger] chicken_live(chickens@, k) implies !(
                        chickens@[k]->Some_0.catchable) by {
                            assert(chicken_live(pre, k));
                            assert(k != t as int);
                        }
                    }
                    TargetingEvents { marked: None, unmarked: None }
                },
                Option::Some(ct) => {
                    let mut best: usize = t;
                    let mut best_d2: u64 = dist_sq(p, ct.pos);
                    let mut i: usize = 0;
                    while i < n
                        invariant
                            i <= n,
                            n == pre.len(),
                            chickens@ == pre,
                            chickens_wf(pre),
                            p.in_world(),
                            t < n,
                            chicken_live(pre, t as int),
                            chicken_live(pre, best as int),
                            best_d2 == chicken_d2(pre, p, best as int),
                            best_d2 <= chicken_d2(pre, p, t as int),
                            forall|j: int|
                                0 <= j < i && #[trigger] chicken_live(pre, j) ==> best_d2
                                    <= chicken_d2(pre, p, j),
                            best == t || (best < i && best_d2 < chicken_d2(pre, p, t as int)
                                && forall|j: int|
                                0 <= j < best && #[trigger] chicken_live(pre, j) ==> chicken_d2(
                                    pre,
                                    p,
                                    j,
                                ) > best_d2),
                        decreases n - i,
                    {
                        let slot: Option<Chicken> = chickens[i];
                        match slot {
                            Option::Some(c) => {
                                let d: u64 = dist_sq(p, c.pos);
                                if d < best_d2 {
                                    best = i;
                                    best_d2 = d;
                                }
                            },
                            Option::None => {},
                        }
                        i = i + 1;
                    }
                    if best_d2 >= r2 {
                        let unmarked_c = Chicken { catchable: false, ..ct };
                        chickens.set(t, Some(unmarked_c));
                        player.catchable_chicken = None;
                        proof {
                            assert forall|k: int| #[trigger] chicken_live(chickens@, k) implies !(
                            chickens@[k]->Some_0.catchable) by {
                                if k != t as int {
                                    assert(chickens@[k] == pre[k]);
                                    assert(chicken_live(pre, k));
                                }
                            }
                        }
                        TargetingEvents { marked: None, unmarked: Some(t) }
                    } else if best != t {
                        let unmarked_c = Chicken { catchable: false, ..ct };
                        chickens.set(t, Some(unmarked_c));
                        let cb: Option<Chicken> = chickens[best];
                        let cb_inner = cb.unwrap();
                        let marked_c = Chicken { catchable: true, ..cb_inner };
                        chickens.set(best, Some(marked_c));
                        player.catchable_chicken = Some(best);
                        proof {
                            assert forall|k: int| #[trigger] chicken_live(chickens@, k) implies (
                            chickens@[k]->Some_0.catchable <==> k == best as int) by {
                                if k != t as int && k != best as int {
                                    assert(chickens@[k] == pre[k]);
                                    assert(chicken_live(pre, k));
                                }
                            }
                        }
                        TargetingEvents { marked: Some(best), unmarked: Some(t) }
                    } else {
                        proof {
                            assert forall|k: int| #[trigger] chicken_live(chickens@, k) implies (
                            chickens@[k]->Some_0.catchable <==> k == t as int) by {
                                assert(chicken_live(pre, k));
                            }
                        }
                        TargetingEvents { marked: None, unmarked: None }
                    }
                },
            }
        },
    }
}

/// Everything one catch attempt does: the player and the chickens
/// before and after, and whether the inventory-full notification was
/// raised.
pub open spec fn catch_rel(
    p0: Player,
    cs0: Seq<Option<Chicken>>,
    catch_pressed: bool,
    p1: Player,
    cs1: Seq<Option<Chicken>>,
    inventory_full: bool,
) -> bool {
    &&& p1.wf()
    &&& chickens_wf(cs1)
    &&& targeting_wf(p1.catchable_chicken, cs1)
    &&& cs1.len() == cs0.len()
    &&& p1.pos == p0.pos
    &&& p1.corral == p0.corral
    &&& p1.speed_multiplier == p0.speed_multiplier
    &&& p1.catching_radius_multiplier == p0.catching_radius_multiplier
    &&& ((!catch_pressed || p0.catchable_chicken is None) ==> p1 == p0 && cs1 == cs0
        && !inventory_full)
    &&& ((catch_pressed && p0.catchable_chicken is Some && p0.inventory_chickens_amount
        >= PLAYER_MAX_INVENTORY_SPACE) ==> inventory_full && p1 == p0 && cs1 == cs0)
    &&& ((catch_pressed && p0.catchable_chicken is Some && p0.inventory_chickens_amount
        < PLAYER_MAX_INVENTORY_SPACE && !chicken_live(cs0, p0.catchable_chicken->Some_0 as int))
        ==> !inventory_full && p1 == (Player { catchable_chicken: None, ..p0 }) && cs1 == cs0)
    &&& ((catch_pressed && p0.catchable_chicken is Some && p0.inventory_chickens_amount
        < PLAYER_MAX_INVENTORY_SPACE && chicken_live(cs0, p0.catchable_chicken->Some_0 as int))
        ==> !inventory_full && p1 == (Player {
        catchable_chicken: None,
        inventory_chickens_amount: (p0.inventory_chickens_amount + 1) as u32,
        ..p0
    }) && cs1 == cs0.update(p0.catchable_chicken->Some_0 as int, None))
}

/// The catch action, on an edge-triggered input.
///
/// With a target set: a full inventory rejects the catch and raises the
/// inventory-full notification; a stale target (already consumed by a
/// rival) is cleared as a no-op; otherwise the target chicken is
/// destroyed, the inventory grows by one and the target is cleared.
pub fn catch_chicken(player: &mut Player, chickens: &mut Vec<Option<Chicken>>, catch_pressed: bool)
    -> (inventory_full: bool)
    requires
        old(player).wf(),
        chickens_wf(old(chickens)@),
        targeting_wf(old(player).catchable_chicken, old(chickens)@),
    ensures
        catch_rel(
            *old(player),
            old(chickens)@,
            catch_pressed,
            *final(player),
            final(chickens)@,
            inventory_full,
        ),
{
    let ghost pre: Seq<Option<Chicken>> = chickens@;
    if !catch_pressed {
        return false;
    }
    match player.catchable_chicken {
        Option::None => false,
        Option::Some(t) => {
            if player.inventory_chickens_amount >= PLAYER_MAX_INVENTORY_SPACE {
                true
            } else if t < chickens.len() {
                let slot: Option<Chicken> = chickens[t];
                match slot {
                    Option::Some(_) => {
                        chickens.set(t, None);
                        player.inventory_chickens_amount = player.inventory_chickens_amount + 1;
                        player.catchable_chicken = None;
                        proof {
                            assert forall|k: int| #[trigger] chicken_live(chickens@, k) implies !(
                            chickens@[k]->Some_0.catchable) by {
                                assert(k != t as int);
                                assert(chickens@[k] == pre[k]);
                                assert(chicken_live(pre, k));
                            }
                        }
                        false
                    },
                    Option::None => {
                        player.catchable_chicken = None;
                        proof {
                            assert forall|k: int| #[trigger] chicken_live(chickens@, k) implies !(
                            chickens@[k]->Some_0.catchable) by {
                                assert(chicken_live(pre, k));
                                assert(k != t as int);
                            }
                        }
                        false
                    },
                }
            } else {
                player.catchable_chicken = None;
                proof {
                    assert forall|k: int| #[trigger] chicken_live(chickens@, k) implies !(
                    chickens@[k]->Some_0.catchable) by {
                        assert(chicken_live(pre, k));
                        assert(k != t as int);
                    }
                }
                false
            }
        },
    }
}

/// Everything one drop-off attempt does to the base and the player.
pub open spec fn give_rel(b0: Base, p0: Player, give_pressed: bool, b1: Base, p1: Player) -> bool {
    &&& b1.wf()
    &&& p1.wf()
    &&& ((give_pressed && dist_sq_spec(p0.pos, b0.pos) <= sq(b0.radius as int))
        ==> b1.chickens_amount == deposited_count(
        b0.chickens_amount as int,
        p0.inventory_chickens_amount as int,
    ) && p1 == (Player { inventory_chickens_amount: 0, ..p0 }) && b1.pos == b0.pos && b1.radius
        == b0.radius)
    &&& (!(give_pressed && dist_sq_spec(p0.pos, b0.pos) <= sq(b0.radius as int)) ==> b1 == b0 && p1
        == p0)
}

/// The drop-off flow: while the player stands within the base's radius
/// and holds the give input, the whole inventory is banked at once.
pub fn try_give_chickens_to_base(base: &mut Base, player: &mut Player, give_pressed: bool)
    requires
        old(base).wf(),
        old(player).wf(),
        old(base).chickens_amount + old(player).inventory_chickens_amount <= u64::MAX,
    ensures
        give_rel(*old(base), *old(player), give_pressed, *final(base), *final(player)),
{
    let d: u64 = dist_sq(player.pos, base.pos);
    proof {
        lemma_sq_bound(base.radius as int, 1_000_000int);
    }
    let r2: i64 = base.radius * base.radius;
    if give_pressed && d <= r2 as u64 {
        base.deposit(player.inventory_chickens_amount);
        player.inventory_chickens_amount = 0;
    }
}

/// Apply one purchased upgrade: if the player's base holds at least the
/// price, the multiplier grows by one step and the price is deducted
/// from the banked tally; otherwise nothing changes.
pub fn player_lvlup(player: &mut Player, base: &mut Base, lvlup: LvlupType)
    requires
        old(player).wf(),
        old(base).wf(),
        old(player).speed_multiplier + PLAYER_LVLUP_SPEED <= MULTIPLIER_LIMIT,
        old(player).catching_radius_multiplier + PLAYER_LVLUP_CATCHING_RADIUS <= MULTIPLIER_LIMIT,
    ensures
        final(player).wf(),
        final(base).wf(),
        final(base).pos == old(base).pos,
        final(base).radius == old(base).radius,
        lvlup is Speed ==> (if old(base).chickens_amount >= PLAYER_LVLUP_SPEED_PRICE {
            *final(player) == (Player {
                speed_multiplier: (old(player).speed_multiplier + PLAYER_LVLUP_SPEED) as u32,
                ..*old(player)
            }) && final(base).chickens_amount == old(base).chickens_amount
                - PLAYER_LVLUP_SPEED_PRICE
        } else {
            *final(player) == *old(player) && *final(base) == *old(base)
        }),
        lvlup is CatchingRadius ==> (if old(base).chickens_amount
            >= PLAYER_LVLUP_CATCHING_RADIUS_PRICE {
            *final(player) == (Player {
                catching_radius_multiplier: (old(player).catching_radius_multiplier
                    + PLAYER_LVLUP_CATCHING_RADIUS) as u32,
                ..*old(player)
            }) && final(base).chickens_amount == old(base).chickens_amount
                - PLAYER_LVLUP_CATCHING_RADIUS_PRICE
        } else {
            *final(player) == *old(player) && *final(base) == *old(base)
        }),
{
    match lvlup {
        LvlupType::Speed => {
            if base.chickens_amount >= PLAYER_LVLUP_SPEED_PRICE {
                player.speed_up();
                base.chickens_amount = base.chickens_amount - PLAYER_LVLUP_SPEED_PRICE;
            }
        },
        LvlupType::CatchingRadius => {
            if base.chickens_amount >= PLAYER_LVLUP_CATCHING_RADIUS_PRICE {
                player.catch_radius_up();
                base.chickens_amount = base.chickens_amount - PLAYER_LVLUP_CATCHING_RADIUS_PRICE;
            }
        },
    }
}

/// The movement direction the four directional inputs add up to; each
/// axis contributes a full fixed-point unit.
pub open spec fn input_dir_spec(up: bool, down: bool, left: bool, right: bool) -> Vec2i {
    Vec2i {
        x: ((if right {
            DIR_SCALE as int
        } else {
            0
        }) + (if left {
            -(DIR_SCALE as int)
        } else {
            0
        })) as i64,
        y: ((if up {
            DIR_SCALE as int
        } else {
            0
        }) + (if down {
            -(DIR_SCALE as int)
        } else {
            0
        })) as i64,
    }
}

/// One tick of player movement from the four directional inputs, at the
/// upgraded speed.
pub fn move_player(player: &mut Player, up: bool, down: bool, left: bool, right: bool, dt: u32)
    requires
        old(player).wf(),
        dt <= MAX_TICK_MS,
    ensures
        final(player).wf(),
        *final(player) == (Player {
            pos: stepped_pos_spec(
                old(player).pos,
                input_dir_spec(up, down, left, right),
                old(player).speed_eff(),
                dt as int,
            ),
            ..*old(player)
        }),
{
    let mut dx: i64 = 0;
    let mut dy: i64 = 0;
    if right {
        dx = dx + DIR_SCALE;
    }
    if left {
        dx = dx - DIR_SCALE;
    }
    if up {
        dy = dy + DIR_SCALE;
    }
    if down {
        dy = dy - DIR_SCALE;
    }
    let dir = Vec2i { x: dx, y: dy };
    let speed: u64 = (PLAYER_SPEED as u64) * (player.speed_multiplier as u64) / 100;
    proof {
        lemma_div_nonincreasing((PLAYER_SPEED * old(player).speed_multiplier) as int, 100int);
    }
    player.pos = step_pos(player.pos, dir, speed as i64, dt);
}

} // verus!
