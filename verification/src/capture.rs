//! The capture step: running the callback inside a failure-catching boundary.
//!
//! The runtime integration executes the callback under a boundary that turns
//! an otherwise-fatal failure into a local outcome, while the interception
//! hook publishes the failure's message into the call's relay. This module
//! models that step: the callback's behaviour arrives as data — either it
//! returns, or it fails with a message — and the capture reports whether it
//! failed, publishing the message through the relay exactly as the hook
//! would. The outcome itself never carries the message text; that travels
//! only through the relay.

use vstd::prelude::*;

use crate::relay::MessageRelay;

verus! {

/// What the failure-catching boundary reports: the callback either completed
/// normally or failed. The captured message is not part of the outcome.
pub enum CaptureOutcome {
    Completed,
    Failed,
}

/// A callback's behaviour, as data: it either returns normally or fails,
/// and a failing callback's message is the text the interception hook
/// captures from it.
pub enum CallbackBehavior {
    Returns,
    FailsWith(String),
}

/// Runs the callback (given as its behaviour) inside the failure-catching
/// boundary, with the interception hook bound to `relay`: a failing callback
/// has its message published before the boundary reports, so a `Failed`
/// outcome finds the relay ready; a completing callback leaves the relay
/// untouched.
pub fn capture(behavior: CallbackBehavior, relay: &mut MessageRelay) -> (outcome: CaptureOutcome)
    requires
        old(relay).wf(),
        !old(relay).is_ready(),
    ensures
        final(relay).wf(),
        behavior matches CallbackBehavior::Returns ==> {
            &&& outcome is Completed
            &&& !final(relay).is_ready()
        },
        behavior matches CallbackBehavior::FailsWith(m) ==> {
            &&& outcome is Failed
            &&& final(relay).is_ready()
            &&& final(relay).payload() == Some(m@)
        },
{
    match behavior {
        CallbackBehavior::Returns => CaptureOutcome::Completed,
        CallbackBehavior::FailsWith(m) => {
            relay.publish(m);
            CaptureOutcome::Failed
        },
    }
}

} // verus!
