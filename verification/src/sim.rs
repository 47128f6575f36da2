//! The simulation context: one value holding the whole world, and one
//! frame step that runs every system pass in order — chickens behave and
//! bounce, the player moves, targets, catches and deposits, the popup
//! ages, and every rival steps.
//!
//! The frame step preserves the standing invariants: every agent stays
//! well-formed, at most one chicken carries the Catchable mark and it is
//! exactly the player's target, inventories stay within their bounds,
//! and banked scores never shrink during play.

use vstd::prelude::*;

use crate::base::Base;
use crate::chicken::{
    behave_chickens, bounce_pass_rel, chicken_corral_collision, chickens_stepped_rel, chickens_wf,
    walls_wf, Chicken,
};
use crate::chicken_corral::{corrals_wf, ChickenCorral, ChickenCorralWall};
use crate::player::{
    catch_chicken, catch_rel, give_rel, input_dir_spec, move_player, player_chicken_collision,
    player_lvlup, targeting_pass_rel, targeting_wf, try_give_chickens_to_base, LvlupType, Player,
    TargetingEvents,
};
use crate::settings::{
    MAX_TICK_MS, MULTIPLIER_LIMIT, PLAYER_LVLUP_CATCHING_RADIUS, PLAYER_LVLUP_SPEED,
    PLAYER_MAX_INVENTORY_SPACE, WEREWOLF_MAX_INVENTORY_SPACE,
};
use crate::spawning::{spawn_chicken_in_corrals, spawn_wave_rel};
use crate::timer::{timer_after, timer_fires, Timer};
use crate::ui::{cleanup_after, cleanup_popups, popup, popup_after, Popup};
use crate::vec2::stepped_pos_spec;
use crate::werewolf::{
    bases_wf, distinct_bases, werewolf_behave, werewolves_wf, wolf_pass_rel, Werewolf,
};

verus! {

/// One frame of player input: four directional levels, the catch edge
/// trigger, and the give level trigger.
#[derive(Clone, Copy, PartialEq, Eq, Structural, Debug)]
pub struct PlayerInput {
    pub up: bool,
    pub down: bool,
    pub left: bool,
    pub right: bool,
    pub catch_pressed: bool,
    pub give_pressed: bool,
}

/// What one frame reports to the presentation layer.
#[derive(Clone, Copy, PartialEq, Eq, Structural, Debug)]
pub struct FrameEvents {
    /// Catchable mark and unmark notifications.
    pub targeting: TargetingEvents,
    /// The inventory-full notification was raised this frame.
    pub inventory_full: bool,
}

/// The whole world.
pub struct Sim {
    pub player: Player,
    /// The base the player deposits into.
    pub player_base: usize,
    pub bases: Vec<Base>,
    pub corrals: Vec<ChickenCorral>,
    pub walls: Vec<ChickenCorralWall>,
    pub chickens: Vec<Option<Chicken>>,
    pub werewolves: Vec<Werewolf>,
    pub chicken_spawn_timer: Timer,
    pub popup: Option<Popup>,
}

impl Sim {
    /// The standing invariant of a whole world.
    pub open spec fn wf(self) -> bool {
        &&& self.player.wf()
        &&& self.player_base < self.bases@.len()
        &&& bases_wf(self.bases@)
        &&& corrals_wf(self.corrals@)
        &&& (forall|c: int|
            0 <= c < self.corrals@.len() ==> (#[trigger] self.corrals@[c]).length >= 2
                && self.corrals@[c].heigth >= 2)
        &&& walls_wf(self.walls@)
        &&& chickens_wf(self.chickens@)
        &&& targeting_wf(self.player.catchable_chicken, self.chickens@)
        &&& (self.player.catchable_chicken matches Some(t) ==> t < self.chickens@.len())
        &&& werewolves_wf(self.werewolves@, self.bases@.len() as int)
        &&& distinct_bases(self.werewolves@)
        &&& self.chicken_spawn_timer.wf()
        &&& (self.popup matches Some(p) ==> p.timer.wf())
    }

    /// Every base can still take one player load and one load from each
    /// rival without overflowing its tally.
    pub open spec fn frame_headroom(self) -> bool {
        forall|b: int|
            0 <= b < self.bases@.len() ==> (#[trigger] self.bases@[b]).chickens_amount
                + PLAYER_MAX_INVENTORY_SPACE + WEREWOLF_MAX_INVENTORY_SPACE
                * self.werewolves@.len() <= u64::MAX
    }

    /// One frame, pass by pass, through the intermediate states the
    /// systems hand each other: the spawn wave, the chicken behaviour
    /// and wall passes, the player's movement, targeting, catch and
    /// deposit, the popup ageing, and finally every rival's step
    /// against the chickens the player left.
    pub open spec fn frame_body(
        pre: Sim,
        post: Sim,
        input: PlayerInput,
        dt: int,
        ev: FrameEvents,
        cs_spawned: Seq<Option<Chicken>>,
        cs_behaved: Seq<Option<Chicken>>,
        cs_bounced: Seq<Option<Chicken>>,
        p_moved: Player,
        p_targeted: Player,
        cs_targeted: Seq<Option<Chicken>>,
        p_caught: Player,
        cs_caught: Seq<Option<Chicken>>,
        b_given: Base,
    ) -> bool {
        &&& spawn_wave_rel(
            pre.chicken_spawn_timer,
            post.chicken_spawn_timer,
            pre.corrals@,
            pre.chickens@,
            cs_spawned,
            dt,
        )
        &&& chickens_stepped_rel(cs_spawned, cs_behaved, dt)
        &&& bounce_pass_rel(cs_behaved, cs_bounced, pre.walls@)
        &&& p_moved == (Player {
            pos: stepped_pos_spec(
                pre.player.pos,
                input_dir_spec(input.up, input.down, input.left, input.right),
                pre.player.speed_eff(),
                dt,
            ),
            ..pre.player
        })
        &&& targeting_pass_rel(p_moved, cs_bounced, p_targeted, cs_targeted, ev.targeting)
        &&& catch_rel(
            p_targeted,
            cs_targeted,
            input.catch_pressed,
            p_caught,
            cs_caught,
            ev.inventory_full,
        )
        &&& give_rel(
            pre.bases@[pre.player_base as int],
            p_caught,
            input.give_pressed,
            b_given,
            post.player,
        )
        &&& post.popup == cleanup_after(popup_after(pre.popup, ev.inventory_full), dt)
        &&& wolf_pass_rel(
            pre.werewolves@,
            pre.bases@.update(pre.player_base as int, b_given),
            cs_caught,
            post.werewolves@,
            post.bases@,
            post.chickens@,
            dt,
        )
    }

    /// One frame is exactly the composition of the verified passes, for
    /// some run of intermediate states.
    pub open spec fn frame_rel(
        pre: Sim,
        post: Sim,
        input: PlayerInput,
        dt: int,
        ev: FrameEvents,
    ) -> bool {
        exists|
            cs_spawned: Seq<Option<Chicken>>,
            cs_behaved: Seq<Option<Chicken>>,
            cs_bounced: Seq<Option<Chicken>>,
            p_moved: Player,
            p_targeted: Player,
            cs_targeted: Seq<Option<Chicken>>,
            p_caught: Player,
            cs_caught: Seq<Option<Chicken>>,
            b_given: Base,
        |
            #[trigger] Sim::frame_body(
                pre,
                post,
                input,
                dt,
                ev,
                cs_spawned,
                cs_behaved,
                cs_bounced,
                p_moved,
                p_targeted,
                cs_targeted,
                p_caught,
                cs_caught,
                b_given,
            )
    }

    /// One frame: each system runs one complete pass, in the fixed order
    /// described above.
    pub fn tick(&mut self, input: PlayerInput, dt: u32) -> (ev: FrameEvents)
        requires
            old(self).wf(),
            old(self).frame_headroom(),
            dt <= MAX_TICK_MS,
            old(self).chickens@.len() + old(self).corrals@.len() <= usize::MAX,
        ensures
            final(self).wf(),
            Sim::frame_rel(*old(self), *final(self), input, dt as int, ev),
            final(self).corrals@ == old(self).corrals@,
            final(self).walls@ == old(self).walls@,
            final(self).player_base == old(self).player_base,
            final(self).bases@.len() == old(self).bases@.len(),
            final(self).werewolves@.len() == old(self).werewolves@.len(),
            final(self).chicken_spawn_timer == timer_after(
                old(self).chicken_spawn_timer,
                dt as int,
            ),
            final(self).chickens@.len() == old(self).chickens@.len() + (if timer_fires(
                old(self).chicken_spawn_timer,
                dt as int,
            ) {
                old(self).corrals@.len() as int
            } else {
                0int
            }),
            final(self).player.pos == stepped_pos_spec(
                old(self).player.pos,
                input_dir_spec(input.up, input.down, input.left, input.right),
                old(self).player.speed_eff(),
                dt as int,
            ),
            forall|b: int|
                0 <= b < old(self).bases@.len() ==> (#[trigger] final(self).bases@[b]).chickens_amount
                    >= old(self).bases@[b].chickens_amount,
            final(self).player.speed_multiplier == old(self).player.speed_multiplier,
            final(self).player.catching_radius_multiplier == old(
                self,
            ).player.catching_radius_multiplier,
    {
        let ghost n_chickens0 = self.chickens@.len();

        // Chicken systems: the spawn wave, the mood machine, the walls.
        spawn_chicken_in_corrals(&mut self.chicken_spawn_timer, &self.corrals, &mut self.chickens, dt);
        let ghost cs_spawned = self.chickens@;
        proof {
            assert forall|i: int|
                0 <= i < cs_spawned.len() implies ((#[trigger] cs_spawned[i]) matches Some(c)
                ==> c.wf()) by {
                if i >= n_chickens0 as int {
                    let j = i - n_chickens0 as int;
                    assert(cs_spawned[n_chickens0 as int + j] == cs_spawned[i]);
                }
            }
            assert forall|i: int| #[trigger] crate::player::chicken_live(cs_spawned, i) implies (
            cs_spawned[i]->Some_0.catchable <==> (self.player.catchable_chicken is Some
                && self.player.catchable_chicken->Some_0 == i)) by {
                if i < n_chickens0 as int {
                    assert(crate::player::chicken_live(old(self).chickens@, i));
                } else {
                    let j = i - n_chickens0 as int;
                    assert(cs_spawned[n_chickens0 as int + j] == cs_spawned[i]);
                }
            }
        }
        behave_chickens(&mut self.chickens, dt);
        let ghost cs_behaved = self.chickens@;
        proof {
            assert forall|i: int| #[trigger] crate::player::chicken_live(cs_behaved, i) implies (
            cs_behaved[i]->Some_0.catchable <==> (self.player.catchable_chicken is Some
                && self.player.catchable_chicken->Some_0 == i)) by {
                assert(crate::chicken::chicken_slot_stepped(cs_spawned[i], cs_behaved[i], dt as int));
                assert(crate::player::chicken_live(cs_spawned, i));
            }
        }
        chicken_corral_collision(&mut self.chickens, &self.walls);
        let ghost cs_bounced = self.chickens@;
        proof {
            assert forall|i: int| #[trigger] crate::player::chicken_live(cs_bounced, i) implies (
            cs_bounced[i]->Some_0.catchable <==> (self.player.catchable_chicken is Some
                && self.player.catchable_chicken->Some_0 == i)) by {
                assert(crate::player::chicken_live(cs_behaved, i));
            }
        }

        // Player systems: movement, targeting, the catch, the deposit.
        move_player(&mut self.player, input.up, input.down, input.left, input.right, dt);
        let ghost p_moved: Player = self.player;
        let targeting = player_chicken_collision(&mut self.player, &mut self.chickens);
        let ghost p_targeted: Player = self.player;
        let ghost cs_targeted = self.chickens@;
        let inventory_full = catch_chicken(&mut self.player, &mut self.chickens, input.catch_pressed);
        let ghost p_caught: Player = self.player;
        let ghost cs_caught = self.chickens@;
        let pb: usize = self.player_base;
        let mut b: Base = self.bases[pb];
        try_give_chickens_to_base(&mut b, &mut self.player, input.give_pressed);
        let ghost b_given: Base = b;
        self.bases.set(pb, b);

        // The notification stream.
        popup(&mut self.popup, inventory_full);
        cleanup_popups(&mut self.popup, dt);

        // Rival systems.
        let ghost cs_player = self.chickens@;
        let ghost bases_mid = self.bases@;
        let ghost ws_mid = self.werewolves@;
        proof {
            assert(bases_mid == old(self).bases@.update(pb as int, b_given));
            assert forall|bb: int| 0 <= bb < bases_mid.len() implies (#[trigger] bases_mid[bb]).chickens_amount
                >= old(self).bases@[bb].chickens_amount by {
                if bb != pb as int {
                    assert(bases_mid[bb] == old(self).bases@[bb]);
                }
            }
        }
        werewolf_behave(&mut self.werewolves, &mut self.bases, &mut self.chickens, dt);
        proof {
            assert forall|i: int| #[trigger] crate::player::chicken_live(self.chickens@, i) implies (
            self.chickens@[i]->Some_0.catchable <==> (self.player.catchable_chicken is Some
                && self.player.catchable_chicken->Some_0 == i)) by {
                assert(self.chickens@[i] == cs_player[i]);
                assert(crate::player::chicken_live(cs_player, i));
            }
            assert forall|k: int| 0 <= k < self.werewolves@.len() implies (#[trigger] self.werewolves@[k]).wf()
                && self.werewolves@[k].corral_pos is Some && self.werewolves@[k].base
                < self.bases@.len() by {
                assert(crate::werewolf::werewolf_stepped(
                    ws_mid[k],
                    self.werewolves@[k],
                    bases_mid[ws_mid[k].base as int],
                    self.bases@[ws_mid[k].base as int],
                    dt as int,
                ));
            }
            assert forall|k1: int, k2: int| 0 <= k1 < k2 < self.werewolves@.len() implies (
            #[trigger] self.werewolves@[k1].base) != (#[trigger] self.werewolves@[k2].base) by {
                assert(crate::werewolf::werewolf_stepped(
                    ws_mid[k1],
                    self.werewolves@[k1],
                    bases_mid[ws_mid[k1].base as int],
                    self.bases@[ws_mid[k1].base as int],
                    dt as int,
                ));
                assert(crate::werewolf::werewolf_stepped(
                    ws_mid[k2],
                    self.werewolves@[k2],
                    bases_mid[ws_mid[k2].base as int],
                    self.bases@[ws_mid[k2].base as int],
                    dt as int,
                ));
            }
            assert forall|bb: int| 0 <= bb < self.bases@.len() implies (#[trigger] self.bases@[bb]).chickens_amount
                >= bases_mid[bb].chickens_amount by {
                if exists|k: int| 0 <= k < ws_mid.len() && (#[trigger] ws_mid[k]).base == bb {
                    let k = choose|k: int| 0 <= k < ws_mid.len() && (#[trigger] ws_mid[k]).base == bb;
                    assert(crate::werewolf::werewolf_stepped(
                        ws_mid[k],
                        self.werewolves@[k],
                        bases_mid[bb],
                        self.bases@[bb],
                        dt as int,
                    ));
                }
            }
        }

        let ev = FrameEvents { targeting, inventory_full };
        proof {
            assert(Sim::frame_body(
                *old(self),
                *self,
                input,
                dt as int,
                ev,
                cs_spawned,
                cs_behaved,
                cs_bounced,
                p_moved,
                p_targeted,
                cs_targeted,
                p_caught,
                cs_caught,
                b_given,
            ));
        }
        ev
    }

    /// Apply one purchased upgrade against the player's own base.
    pub fn lvlup(&mut self, which: LvlupType)
        requires
            old(self).wf(),
            old(self).player.speed_multiplier + PLAYER_LVLUP_SPEED <= MULTIPLIER_LIMIT,
            old(self).player.catching_radius_multiplier + PLAYER_LVLUP_CATCHING_RADIUS
                <= MULTIPLIER_LIMIT,
        ensures
            final(self).wf(),
            final(self).chickens@ == old(self).chickens@,
            final(self).werewolves@ == old(self).werewolves@,
            final(self).corrals@ == old(self).corrals@,
            final(self).bases@.len() == old(self).bases@.len(),
            forall|b: int|
                0 <= b < old(self).bases@.len() && b != old(self).player_base as int
                    ==> #[trigger] final(self).bases@[b] == old(self).bases@[b],
            which is Speed ==> (if old(self).bases@[old(self).player_base as int].chickens_amount
                >= crate::settings::PLAYER_LVLUP_SPEED_PRICE {
                final(self).player == (Player {
                    speed_multiplier: (old(self).player.speed_multiplier + PLAYER_LVLUP_SPEED) as u32,
                    ..old(self).player
                }) && final(self).bases@[old(self).player_base as int].chickens_amount == old(
                    self,
                ).bases@[old(self).player_base as int].chickens_amount
                    - crate::settings::PLAYER_LVLUP_SPEED_PRICE
            } else {
                final(self).player == old(self).player && final(self).bases@ == old(self).bases@
            }),
            which is CatchingRadius ==> (if old(
                self,
            ).bases@[old(self).player_base as int].chickens_amount
                >= crate::settings::PLAYER_LVLUP_CATCHING_RADIUS_PRICE {
                final(self).player == (Player {
                    catching_radius_multiplier: (old(self).player.catching_radius_multiplier
                        + PLAYER_LVLUP_CATCHING_RADIUS) as u32,
                    ..old(self).player
                }) && final(self).bases@[old(self).player_base as int].chickens_amount == old(
                    self,
                ).bases@[old(self).player_base as int].chickens_amount
                    - crate::settings::PLAYER_LVLUP_CATCHING_RADIUS_PRICE
            } else {
                final(self).player == old(self).player && final(self).bases@ == old(self).bases@
            }),
    {
        let pb: usize = self.player_base;
        let mut b: Base = self.bases[pb];
        player_lvlup(&mut self.player, &mut b, which);
        self.bases.set(pb, b);
    }
}

} // verus!
