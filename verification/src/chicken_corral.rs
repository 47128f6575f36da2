//! Corrals: rectangular pens of wall segments that chickens spawn inside
//! and roam, and the one-time assignment of pens to their owners.

use vstd::prelude::*;

use crate::settings::{CORRAL_ANCHOR_LIMIT, CORRAL_SIDE_LIMIT, DEFAULT_CORRAL_HEIGTH, DEFAULT_CORRAL_LENGTH};
use crate::vec2::{dist_sq, dist_sq_spec, Vec2i};
use crate::werewolf::Werewolf;

verus! {

/// Who a corral has been claimed by; the claim is permanent.
#[derive(Clone, Copy, PartialEq, Eq, Structural, Debug)]
pub enum CorralOwner {
    Player,
    Werewolf(usize),
}

/// A rectangular pen.  `pos` is its center; `length` and `heigth` count
/// the wall segments of its horizontal and vertical sides.
#[derive(Clone, Copy, PartialEq, Eq, Debug)]
pub struct ChickenCorral {
    pub pos: Vec2i,
    pub belongs_to: Option<CorralOwner>,
    pub length: usize,
    pub heigth: usize,
}

impl ChickenCorral {
    /// A corral's anchor keeps a margin to the world edge, so that its
    /// walls and every spawn point inside it stay within the world box.
    pub open spec fn wf(self) -> bool {
        &&& -(CORRAL_ANCHOR_LIMIT as int) <= self.pos.x <= CORRAL_ANCHOR_LIMIT as int
        &&& -(CORRAL_ANCHOR_LIMIT as int) <= self.pos.y <= CORRAL_ANCHOR_LIMIT as int
        &&& 1 <= self.length <= CORRAL_SIDE_LIMIT
        &&& 1 <= self.heigth <= CORRAL_SIDE_LIMIT
    }

    /// An unclaimed corral of the default dimensions at `pos`.
    pub fn unclaimed_at(pos: Vec2i) -> (c: ChickenCorral)
        requires
            -CORRAL_ANCHOR_LIMIT <= pos.x <= CORRAL_ANCHOR_LIMIT,
            -CORRAL_ANCHOR_LIMIT <= pos.y <= CORRAL_ANCHOR_LIMIT,
        ensures
            c.pos == pos,
            c.belongs_to is None,
            c.length == DEFAULT_CORRAL_LENGTH,
            c.heigth == DEFAULT_CORRAL_HEIGTH,
            c.wf(),
    {
        ChickenCorral {
            pos,
            belongs_to: None,
            length: DEFAULT_CORRAL_LENGTH,
            heigth: DEFAULT_CORRAL_HEIGTH,
        }
    }
}

/// Whether a wall segment is a corner or an edge piece; corners stand at
/// the start of each side.
#[derive(Clone, Copy, PartialEq, Eq, Structural, Debug)]
pub enum WallType {
    Corner,
    Edge,
}

impl WallType {
    /// The one-letter tag of the wall kind: "C" for a corner piece and
    /// "E" for an edge piece.
    pub fn label(&self) -> (s: String)
        ensures
            *self is Corner ==> s@ == "C"@,
            *self is Edge ==> s@ == "E"@,
    {
        proof {
            broadcast use vstd::string::to_string_from_display_ensures_for_str;
        }
        match self {
            WallType::Corner => "C".to_string(),
            WallType::Edge => "E".to_string(),
        }
    }
}

/// One static wall segment of a corral, a deflection obstacle for
/// roaming chickens.
#[derive(Clone, Copy, PartialEq, Eq, Debug)]
pub struct ChickenCorralWall {
    pub wall_type: WallType,
    pub pos: Vec2i,
}

impl ChickenCorralWall {
    pub open spec fn wf(self) -> bool {
        self.pos.in_world()
    }
}

/// Every corral is well-formed.
pub open spec fn corrals_wf(corrals: Seq<ChickenCorral>) -> bool {
    forall|c: int| 0 <= c < corrals.len() ==> (#[trigger] corrals[c]).wf()
}

/// Slot `i` holds the first corral that is still unclaimed.
pub open spec fn first_unclaimed(corrals: Seq<ChickenCorral>, i: int) -> bool {
    &&& 0 <= i < corrals.len()
    &&& corrals[i].belongs_to is None
    &&& forall|j: int| 0 <= j < i ==> (#[trigger] corrals[j]).belongs_to is Some
}

/// Claim the first unclaimed corral for the player, if one is left.
/// A corral whose owner is already set keeps it: claims are permanent.
pub fn assign_player_to_corral(player: &mut crate::player::Player, corrals: &mut Vec<ChickenCorral>)
    ensures
        final(corrals)@.len() == old(corrals)@.len(),
        forall|j: int|
            0 <= j < old(corrals)@.len() && (#[trigger] old(corrals)@[j]).belongs_to is Some
                ==> final(corrals)@[j] == old(corrals)@[j],
        final(player).pos == old(player).pos,
        final(player).speed_multiplier == old(player).speed_multiplier,
        final(player).catching_radius_multiplier == old(player).catching_radius_multiplier,
        final(player).inventory_chickens_amount == old(player).inventory_chickens_amount,
        final(player).catchable_chicken == old(player).catchable_chicken,
        (forall|j: int|
            0 <= j < old(corrals)@.len() ==> (#[trigger] old(corrals)@[j]).belongs_to is Some)
            ==> *final(player) == *old(player) && final(corrals)@ == old(corrals)@,
        (exists|i: int| first_unclaimed(old(corrals)@, i)) ==> ({
            let i = final(player).corral->Some_0;
            &&& final(player).corral is Some
            &&& first_unclaimed(old(corrals)@, i as int)
            &&& final(corrals)@ == old(corrals)@.update(
                i as int,
                ChickenCorral {
                    belongs_to: Some(CorralOwner::Player),
                    ..old(corrals)@[i as int]
                },
            )
        }),
{
    let n: usize = corrals.len();
    let mut i: usize = 0;
    while i < n
        invariant
            i <= n,
            n == corrals@.len(),
            corrals@ == old(corrals)@,
            *player == *old(player),
            forall|j: int| 0 <= j < i ==> (#[trigger] corrals@[j]).belongs_to is Some,
        decreases n - i,
    {
        let claimed = corrals[i].belongs_to.is_some();
        if !claimed {
            let updated = ChickenCorral { belongs_to: Some(CorralOwner::Player), ..corrals[i] };
            corrals.set(i, updated);
            player.corral = Some(i);
            return ;
        }
        i = i + 1;
    }
}

/// A corral that exists and is still unclaimed.
pub open spec fn corral_free(corrals: Seq<ChickenCorral>, c: int) -> bool {
    0 <= c < corrals.len() && corrals[c].belongs_to is None
}

/// How many corrals are still unclaimed.
pub open spec fn free_count(corrals: Seq<ChickenCorral>) -> int
    decreases corrals.len(),
{
    if corrals.len() == 0 {
        0
    } else {
        free_count(corrals.drop_last()) + if corrals.last().belongs_to is None {
            1int
        } else {
            0int
        }
    }
}

/// With at least one unclaimed corral counted, one exists.
pub proof fn lemma_free_count_pos(corrals: Seq<ChickenCorral>)
    requires
        free_count(corrals) > 0,
    ensures
        exists|c: int| corral_free(corrals, c),
    decreases corrals.len(),
{
    if corrals.len() > 0 {
        if corrals.last().belongs_to is None {
            assert(corral_free(corrals, corrals.len() - 1));
        } else {
            lemma_free_count_pos(corrals.drop_last());
            let c = choose|c: int| corral_free(corrals.drop_last(), c);
            assert(corral_free(corrals, c));
        }
    }
}

/// Claiming one unclaimed corral lowers the count by one.
pub proof fn lemma_free_count_claim(
    corrals: Seq<ChickenCorral>,
    c: int,
    updated: ChickenCorral,
)
    requires
        corral_free(corrals, c),
        updated.belongs_to is Some,
    ensures
        free_count(corrals.update(c, updated)) == free_count(corrals) - 1,
    decreases corrals.len(),
{
    let after = corrals.update(c, updated);
    if c == corrals.len() - 1 {
        assert(after.drop_last() =~= corrals.drop_last());
    } else {
        assert(after.drop_last() =~= corrals.drop_last().update(c, updated));
        lemma_free_count_claim(corrals.drop_last(), c, updated);
    }
}

/// Slot `c` holds the unclaimed corral nearest to `p`, the lowest such
/// slot on a tie.
pub open spec fn is_nearest_free(corrals: Seq<ChickenCorral>, p: Vec2i, c: int) -> bool {
    &&& corral_free(corrals, c)
    &&& forall|d: int|
        #[trigger] corral_free(corrals, d) ==> dist_sq_spec(p, corrals[c].pos) <= dist_sq_spec(
            p,
            corrals[d].pos,
        )
    &&& forall|d: int|
        0 <= d < c && #[trigger] corral_free(corrals, d) ==> dist_sq_spec(p, corrals[d].pos)
            > dist_sq_spec(p, corrals[c].pos)
}

/// Find the unclaimed corral nearest to `p` (lowest slot on a tie).
fn nearest_free_corral(corrals: &Vec<ChickenCorral>, p: Vec2i) -> (c: usize)
    requires
        corrals_wf(corrals@),
        p.in_world(),
        free_count(corrals@) > 0,
    ensures
        is_nearest_free(corrals@, p, c as int),
{
    let n: usize = corrals.len();
    let mut found = false;
    let mut best: usize = 0;
    let mut best_d: u64 = 0;
    let mut c: usize = 0;
    while c < n
        invariant
            c <= n,
            n == corrals@.len(),
            found == exists|j: int| 0 <= j < c && corral_free(corrals@, j),
            found ==> corral_free(corrals@, best as int) && best < c && best_d == dist_sq_spec(
                p,
                corrals@[best as int].pos,
            ),
            found ==> forall|j: int|
                0 <= j < c && #[trigger] corral_free(corrals@, j) ==> best_d <= dist_sq_spec(
                    p,
                    corrals@[j].pos,
                ),
            found ==> forall|j: int|
                0 <= j < best && #[trigger] corral_free(corrals@, j) ==> dist_sq_spec(
                    p,
                    corrals@[j].pos,
                ) > best_d,
        decreases n - c,
    {
        let claimed = corrals[c].belongs_to.is_some();
        if !claimed {
            let d: u64 = dist_sq(p, corrals[c].pos);
            if !found || d < best_d {
                found = true;
                best = c;
                best_d = d;
            }
            proof {
                assert(corral_free(corrals@, c as int));
            }
        }
        c = c + 1;
    }
    proof {
        lemma_free_count_pos(corrals@);
        let cc = choose|j: int| corral_free(corrals@, j);
        assert(0 <= cc < n && corral_free(corrals@, cc));
    }
    best
}

/// The corrals after claims `picks[0]`, `picks[1]`, ... have been made,
/// claim `j` for werewolf `j`.  An out-of-range pick changes nothing.
pub open spec fn apply_picks(cs: Seq<ChickenCorral>, picks: Seq<int>) -> Seq<ChickenCorral>
    decreases picks.len(),
{
    if picks.len() == 0 {
        cs
    } else {
        let prev = apply_picks(cs, picks.drop_last());
        let j = picks.len() - 1;
        let c = picks.last();
        if 0 <= c < prev.len() {
            prev.update(
                c,
                ChickenCorral {
                    belongs_to: Some(CorralOwner::Werewolf(j as usize)),
                    ..prev[c]
                },
            )
        } else {
            prev
        }
    }
}

/// Claims never move, resize or remove a corral.
pub proof fn lemma_apply_picks_len_pos(cs: Seq<ChickenCorral>, picks: Seq<int>)
    ensures
        apply_picks(cs, picks).len() == cs.len(),
        forall|c: int|
            0 <= c < cs.len() ==> (#[trigger] apply_picks(cs, picks)[c]).pos == cs[c].pos
                && apply_picks(cs, picks)[c].length == cs[c].length && apply_picks(cs, picks)[c].heigth
                == cs[c].heigth,
    decreases picks.len(),
{
    if picks.len() > 0 {
        lemma_apply_picks_len_pos(cs, picks.drop_last());
    }
}

/// The picks of werewolves `0` to `len - 1`, as corral slot numbers.
pub open spec fn corral_picks(ws: Seq<Werewolf>) -> Seq<int> {
    Seq::new(ws.len(), |j: int| ws[j].corral->Some_0 as int)
}

/// Every pick is the nearest corral still unclaimed when its werewolf's
/// turn comes (the lowest slot on a tie).
pub open spec fn picks_greedy(ws0: Seq<Werewolf>, cs0: Seq<ChickenCorral>, picks: Seq<int>) -> bool {
    forall|j: int|
        0 <= j < picks.len() ==> is_nearest_free(
            #[trigger] apply_picks(cs0, picks.take(j)),
            ws0[j].pos,
            picks[j],
        )
}

/// Assign every werewolf, in slot order, the unclaimed corral nearest to
/// it (lowest slot on a tie); each claim is permanent and no corral is
/// handed out twice.
#[verifier::rlimit(50)]
#[verifier::spinoff_prover]
pub fn assign_werewolf_to_corral(
    werewolves: &mut Vec<Werewolf>,
    corrals: &mut Vec<ChickenCorral>,
)
    requires
        forall|k: int| 0 <= k < old(werewolves)@.len() ==> (#[trigger] old(werewolves)@[k]).wf(),
        corrals_wf(old(corrals)@),
        old(werewolves)@.len() <= free_count(old(corrals)@),
    ensures
        final(werewolves)@.len() == old(werewolves)@.len(),
        final(corrals)@.len() == old(corrals)@.len(),
        corrals_wf(final(corrals)@),
        forall|k: int| 0 <= k < old(werewolves)@.len() ==> (#[trigger] final(werewolves)@[k]).wf(),
        picks_greedy(old(werewolves)@, old(corrals)@, corral_picks(final(werewolves)@)),
        forall|k: int|
            0 <= k < old(werewolves)@.len() ==> #[trigger] final(werewolves)@[k] == (Werewolf {
                corral: Some((corral_picks(final(werewolves)@)[k]) as usize),
                corral_pos: Some(old(corrals)@[corral_picks(final(werewolves)@)[k]].pos),
                ..old(werewolves)@[k]
            }),
        forall|k: int|
            0 <= k < old(werewolves)@.len() ==> final(corrals)@[corral_picks(
                final(werewolves)@,
            )[k]] == (ChickenCorral {
                belongs_to: Some(CorralOwner::Werewolf(k as usize)),
                ..old(corrals)@[corral_picks(#[trigger] final(werewolves)@)[k]]
            }),
        forall|k1: int, k2: int|
            0 <= k1 < k2 < old(werewolves)@.len() ==> (#[trigger] final(werewolves)@[k1]).corral
                != (#[trigger] final(werewolves)@[k2]).corral,
        forall|c: int|
            0 <= c < old(corrals)@.len() && (#[trigger] old(corrals)@[c]).belongs_to is Some
                ==> final(corrals)@[c] == old(corrals)@[c],
        forall|c: int|
            0 <= c < old(corrals)@.len() && !corral_picks(final(werewolves)@).contains(c)
                ==> #[trigger] final(corrals)@[c] == old(corrals)@[c],
{
    let ghost ws0: Seq<Werewolf> = werewolves@;
    let ghost cs0: Seq<ChickenCorral> = corrals@;
    let ghost mut picks: Seq<int> = Seq::empty();
    let n: usize = werewolves.len();
    let ncor: usize = corrals.len();
    let mut k: usize = 0;
    while k < n
        invariant
            k <= n,
            n == ws0.len(),
            werewolves@.len() == n,
            cs0.len() == ncor,
            corrals@.len() == ncor,
            corrals_wf(corrals@),
            picks.len() == k,
            corrals@ == apply_picks(cs0, picks),
            picks_greedy(ws0, cs0, picks),
            free_count(corrals@) == free_count(cs0) - k,
            forall|j: int| k <= j < n ==> #[trigger] werewolves@[j] == ws0[j],
            forall|j: int|
                0 <= j < k ==> #[trigger] werewolves@[j] == (Werewolf {
                    corral: Some((picks[j]) as usize),
                    corral_pos: Some(cs0[picks[j]].pos),
                    ..ws0[j]
                }),
            forall|j: int| 0 <= j < k ==> 0 <= #[trigger] picks[j] < ncor,
            forall|j: int|
                0 <= j < k ==> corrals@[#[trigger] picks[j]] == (ChickenCorral {
                    belongs_to: Some(CorralOwner::Werewolf(j as usize)),
                    ..cs0[picks[j]]
                }),
            forall|j: int| 0 <= j < k ==> (#[trigger] cs0[picks[j]]).belongs_to is None,
            forall|c: int|
                0 <= c < ncor && !picks.contains(c) ==> #[trigger] corrals@[c] == cs0[c],
            forall|j1: int, j2: int|
                0 <= j1 < j2 < k ==> #[trigger] picks[j1] != #[trigger] picks[j2],
        decreases n - k,
    {
        let mut w: Werewolf = werewolves[k];
        let c: usize = nearest_free_corral(corrals, w.pos);
        let ghost cpre: Seq<ChickenCorral> = corrals@;
        let picked: ChickenCorral = corrals[c];
        let updated = ChickenCorral {
            belongs_to: Some(CorralOwner::Werewolf(k)),
            ..picked
        };
        proof {
            lemma_free_count_claim(corrals@, c as int, updated);
            assert(!picks.contains(c as int)) by {
                if picks.contains(c as int) {
                    let j0 = choose|j0: int| 0 <= j0 < picks.len() && picks[j0] == c as int;
                    assert(cpre[picks[j0]].belongs_to == Some(
                        CorralOwner::Werewolf(j0 as usize),
                    ));
                }
            }
            assert(cpre[c as int] == cs0[c as int]);
        }
        corrals.set(c, updated);
        w.corral = Some(c);
        w.corral_pos = Some(picked.pos);
        werewolves.set(k, w);
        proof {
            let picks2 = picks.push(c as int);
            assert(picks2.drop_last() =~= picks);
            assert(picks2.take(k as int) =~= picks);
            assert(apply_picks(cs0, picks2) =~= corrals@);
            assert forall|j: int|
                0 <= j < picks2.len() implies is_nearest_free(
                #[trigger] apply_picks(cs0, picks2.take(j)),
                ws0[j].pos,
                picks2[j],
            ) by {
                assert(picks2.take(j) =~= picks.take(j));
                if j < k as int {
                    assert(is_nearest_free(apply_picks(cs0, picks.take(j)), ws0[j].pos, picks[j]));
                    assert(picks2[j] == picks[j]);
                } else {
                    assert(picks.take(j) =~= picks);
                    assert(is_nearest_free(cpre, ws0[j].pos, c as int));
                }
            }
            assert forall|cc: int|
                0 <= cc < ncor && !picks2.contains(cc) implies #[trigger] corrals@[cc]
                == cs0[cc] by {
                assert(!picks.contains(cc)) by {
                    if picks.contains(cc) {
                        let j0 = choose|j0: int| 0 <= j0 < picks.len() && picks[j0] == cc;
                        assert(picks2[j0] == cc);
                    }
                }
                assert(cc != c as int) by {
                    if cc == c as int {
                        assert(picks2[picks2.len() - 1] == cc);
                    }
                }
            }
            picks = picks2;
        }
        k = k + 1;
    }
    proof {
        assert forall|j: int| 0 <= j < n implies #[trigger] corral_picks(werewolves@)[j]
            == picks[j] by {
            assert(werewolves@[j].corral == Some((picks[j]) as usize));
        }
        assert(corral_picks(werewolves@) =~= picks);
        assert forall|c: int|
            0 <= c < ncor && (#[trigger] cs0[c]).belongs_to is Some implies corrals@[c]
            == cs0[c] by {
            assert(!picks.contains(c)) by {
                if picks.contains(c) {
                    let j0 = choose|j0: int| 0 <= j0 < picks.len() && picks[j0] == c;
                    assert(cs0[picks[j0]].belongs_to is None);
                }
            }
        }
        assert forall|k1: int, k2: int|
            0 <= k1 < k2 < n implies (#[trigger] werewolves@[k1]).corral != (
        #[trigger] werewolves@[k2]).corral by {
            assert(picks[k1] != picks[k2]);
        }
    }
}

} // verus!
