//! Scoring bases: deposit points with a per-base resource tally.

use vstd::prelude::*;

use crate::settings::BASE_CATCHING_RADIUS;
use crate::vec2::Vec2i;

verus! {

/// A deposit point.  `chickens_amount` is the banked score, raised only
/// by deposits.
#[derive(Clone, Copy, PartialEq, Eq, Debug)]
pub struct Base {
    pub pos: Vec2i,
    /// Radius within which an agent can deposit.
    pub radius: i64,
    pub chickens_amount: u64,
}

/// A base's tally after a deposit of `inv`.
pub open spec fn deposited_count(count: int, inv: int) -> int {
    count + inv
}

/// Depositing an empty inventory leaves the tally unchanged.
pub proof fn lemma_deposit_zero_keeps_count(count: int)
    ensures
        deposited_count(count, 0) == count,
{
}

impl Base {
    pub open spec fn wf(self) -> bool {
        &&& self.pos.in_world()
        &&& 0 <= self.radius <= 1_000_000
    }

    /// A fresh base at `spawnpoint` with the standard radius and an
    /// empty tally.
    pub fn default_on_point(spawnpoint: Vec2i) -> (b: Base)
        requires
            spawnpoint.in_world(),
        ensures
            b.pos == spawnpoint,
            b.radius == BASE_CATCHING_RADIUS,
            b.chickens_amount == 0,
            b.wf(),
    {
        Base { pos: spawnpoint, radius: BASE_CATCHING_RADIUS, chickens_amount: 0 }
    }

    /// Bank `inv` resources into this base.
    pub fn deposit(&mut self, inv: u32)
        requires
            old(self).chickens_amount + inv <= u64::MAX,
        ensures
            final(self).chickens_amount == deposited_count(old(self).chickens_amount as int, inv as int),
            final(self).pos == old(self).pos,
            final(self).radius == old(self).radius,
            old(self).wf() ==> final(self).wf(),
    {
        self.chickens_amount = self.chickens_amount + inv as u64;
    }
}

impl Default for Base {
    /// A fresh base at the origin.
    fn default() -> (b: Base)
        ensures
            b.pos == (Vec2i { x: 0, y: 0 }),
            b.radius == BASE_CATCHING_RADIUS,
            b.chickens_amount == 0,
            b.wf(),
    {
        Base { pos: Vec2i { x: 0, y: 0 }, radius: BASE_CATCHING_RADIUS, chickens_amount: 0 }
    }
}

} // verus!
