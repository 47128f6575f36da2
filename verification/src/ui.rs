//! The inventory-full notification: at most one popup is alive at a
//! time, and each expires on its own after a fixed duration.
//!
//! The presentation layer owns the drawing; this module owns the rule.

use vstd::prelude::*;

use crate::settings::POPUP_DURATION_MS;
use crate::timer::{timer_after, timer_fires, Timer};

verus! {

/// One live popup, counting down to its expiry.
#[derive(Clone, Copy, PartialEq, Eq, Debug)]
pub struct Popup {
    pub timer: Timer,
}

/// The popup state after a raise request: a fresh popup appears only if
/// a request comes while none is alive.
pub open spec fn popup_after(active: Option<Popup>, requested: bool) -> Option<Popup> {
    if requested && active is None {
        Some(Popup { timer: Timer { period_ms: POPUP_DURATION_MS, elapsed_ms: 0 } })
    } else {
        active
    }
}

/// The popup state after ageing by `dt`: gone the moment its duration
/// is up, otherwise older by `dt`.
pub open spec fn cleanup_after(active: Option<Popup>, dt: int) -> Option<Popup> {
    match active {
        Option::None => None,
        Option::Some(p) => if timer_fires(p.timer, dt) {
            None
        } else {
            Some(Popup { timer: timer_after(p.timer, dt) })
        },
    }
}

/// Raise a popup on request — unless one is already alive: at most one
/// popup exists at a time.
pub fn popup(active: &mut Option<Popup>, requested: bool)
    ensures
        *final(active) == popup_after(*old(active), requested),
{
    if requested && active.is_none() {
        *active = Some(Popup { timer: Timer::from_millis(POPUP_DURATION_MS) });
    }
}

/// Age the live popup; it disappears the moment its duration is up.
pub fn cleanup_popups(active: &mut Option<Popup>, dt: u32)
    requires
        (*old(active)) matches Some(p) ==> p.timer.wf(),
    ensures
        *final(active) == cleanup_after(*old(active), dt as int),
        ((*final(active)) matches Some(q) ==> q.timer.wf()),
{
    match active {
        Option::Some(p) => {
            let expired = p.timer.tick(dt);
            if expired {
                *active = None;
            }
        },
        Option::None => {},
    }
}

} // verus!
