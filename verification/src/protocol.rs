//! The assertion protocol: hook installation and the pass-or-fail decision.
//!
//! An assertion call acquires the process-wide guard, installs the
//! interception hook bound to a fresh relay, runs the callback inside the
//! failure-catching boundary, uninstalls the hook, decides the verdict, and
//! releases the guard — on every path. This module holds the decision logic
//! ([`evaluate`]) and a model of one whole serialized call
//! ([`ProcessState::run_assertion`]), whose contract pins the verdict as a
//! function of the call's own callback behaviour and expected text alone and
//! guarantees that guard and hook return to their pre-call state.

use vstd::prelude::*;

use crate::capture::{capture, CallbackBehavior, CaptureOutcome};
use crate::guard::GlobalInterceptionGuard;
use crate::relay::MessageRelay;
use crate::text::{
    contains_substring, mismatch_diagnostic, mismatch_text, no_failure_diagnostic,
    no_failure_text, text_contains,
};

verus! {

/// The verdict of one assertion call: a silent pass, or one of the two
/// failures, each carrying its diagnostic text.
pub enum Verdict {
    /// The callback failed and its message contains the expected text.
    Pass,
    /// The callback completed without failing when a failure was required.
    NoFailure(String),
    /// The callback failed, but its message does not contain the expected
    /// text.
    Mismatch(String),
}

/// Which failure-interception hook the process currently runs: the runtime's
/// default one, or the capturing hook an assertion call installs.
pub enum InterceptionHook {
    DefaultHook,
    CaptureHook,
}

/// The verdict owed for a callback of the given behaviour against the given
/// expected text: a completing callback yields the fixed no-failure
/// diagnostic; a failing one passes exactly when its message contains the
/// expected text, and otherwise yields the mismatch diagnostic built from
/// that message and that expected text.
pub open spec fn verdict_matches(v: Verdict, behavior: CallbackBehavior, expected: Seq<char>) -> bool {
    match behavior {
        CallbackBehavior::Returns => v matches Verdict::NoFailure(d) && d@ == no_failure_text(),
        CallbackBehavior::FailsWith(m) => if text_contains(m@, expected) {
            v is Pass
        } else {
            v matches Verdict::Mismatch(d) && d@ == mismatch_text(m@, expected)
        },
    }
}

/// Decides the verdict from the capture outcome. Consuming the relay is only
/// reachable on a `Failed` outcome, for which the protocol guarantees the
/// relay is ready — so the message is read exactly once and never before
/// publication.
pub fn evaluate(outcome: CaptureOutcome, relay: MessageRelay, expected: &str) -> (v: Verdict)
    requires
        relay.wf(),
        outcome is Failed ==> relay.is_ready(),
    ensures
        outcome is Completed ==> (v matches Verdict::NoFailure(d) && d@ == no_failure_text()),
        outcome is Failed ==> {
            &&& relay.payload() matches Some(m)
            &&& (text_contains(m, expected@) ==> v is Pass)
            &&& (!text_contains(m, expected@) ==> (v matches Verdict::Mismatch(d) && d@
                == mismatch_text(m, expected@)))
        },
{
    match outcome {
        CaptureOutcome::Completed => Verdict::NoFailure(no_failure_diagnostic()),
        CaptureOutcome::Failed => {
            let msg = relay.consume();
            if contains_substring(msg.as_str(), expected) {
                Verdict::Pass
            } else {
                Verdict::Mismatch(mismatch_diagnostic(msg.as_str(), expected))
            }
        },
    }
}

/// The process-wide interception state an assertion call works against: the
/// guard over the hook resource, and which hook is active.
pub struct ProcessState {
    guard: GlobalInterceptionGuard,
    hook: InterceptionHook,
}

impl ProcessState {
    /// True when some assertion call currently holds the guard.
    pub closed spec fn guard_held(self) -> bool {
        self.guard.is_held()
    }

    /// The hook the process currently runs.
    pub closed spec fn active_hook(self) -> InterceptionHook {
        self.hook
    }

    /// Process start: guard free, default hook active.
    pub fn new() -> (s: Self)
        ensures
            !s.guard_held(),
            s.active_hook() is DefaultHook,
    {
        ProcessState { guard: GlobalInterceptionGuard::new(), hook: InterceptionHook::DefaultHook }
    }

    /// Reads whether the guard is currently held.
    pub fn is_guard_held(&self) -> (b: bool)
        ensures
            b == self.guard_held(),
    {
        self.guard.held()
    }

    /// Reads which hook is currently active.
    pub fn hook_is_default(&self) -> (b: bool)
        ensures
            b == (self.active_hook() is DefaultHook),
    {
        match self.hook {
            InterceptionHook::DefaultHook => true,
            InterceptionHook::CaptureHook => false,
        }
    }

    /// Installs the capturing interception hook. Only the guard holder may
    /// install, and nesting is not supported: the default hook must be the
    /// active one, and it is what uninstallation later restores.
    pub fn install_hook(&mut self)
        requires
            old(self).guard_held(),
            old(self).active_hook() is DefaultHook,
        ensures
            final(self).active_hook() is CaptureHook,
            final(self).guard_held() == old(self).guard_held(),
    {
        self.hook = InterceptionHook::CaptureHook;
    }

    /// Restores the previously active hook — the default one, since nesting
    /// is not supported. Runs after the callback completes regardless of its
    /// outcome, so no interception state leaks to other threads' unrelated
    /// failures.
    pub fn uninstall_hook(&mut self)
        requires
            old(self).active_hook() is CaptureHook,
        ensures
            final(self).active_hook() is DefaultHook,
            final(self).guard_held() == old(self).guard_held(),
    {
        self.hook = InterceptionHook::DefaultHook;
    }

    /// One whole assertion call, serialized by the guard: acquire, install
    /// the hook bound to a fresh relay, run the callback inside the
    /// failure-catching boundary, uninstall the hook, decide the verdict,
    /// release the guard.
    ///
    /// The contract carries the call's guarantees: the verdict is pinned by
    /// the call's own callback behaviour and expected text alone
    /// ([`verdict_matches`]), and guard and hook are restored to their
    /// pre-call state on every path — a failure outside the call immediately
    /// afterwards meets the default hook again.
    pub fn run_assertion(&mut self, behavior: CallbackBehavior, expected: &str) -> (v: Verdict)
        requires
            !old(self).guard_held(),
            old(self).active_hook() is DefaultHook,
        ensures
            verdict_matches(v, behavior, expected@),
            !final(self).guard_held(),
            final(self).active_hook() is DefaultHook,
    {
        let acquired = self.guard.try_acquire();
        assert(acquired);
        self.install_hook();
        let mut relay = MessageRelay::new();
        let outcome = capture(behavior, &mut relay);
        self.uninstall_hook();
        let v = evaluate(outcome, relay, expected);
        self.guard.release();
        v
    }
}

/// Law: serialized assertion calls are independent. Each call's verdict is a
/// function of its own callback behaviour and expected text alone; in
/// particular, two failing callbacks whose messages each contain their own
/// expected text both pass, with no leakage of one call's captured message
/// into the other's verdict.
pub proof fn lemma_serialized_calls_independent(
    v1: Verdict,
    b1: CallbackBehavior,
    e1: Seq<char>,
    v2: Verdict,
    b2: CallbackBehavior,
    e2: Seq<char>,
)
    requires
        verdict_matches(v1, b1, e1),
        verdict_matches(v2, b2, e2),
        b1 matches CallbackBehavior::FailsWith(m1) && text_contains(m1@, e1),
        b2 matches CallbackBehavior::FailsWith(m2) && text_contains(m2@, e2),
    ensures
        v1 is Pass,
        v2 is Pass,
{
}

/// Law: a mismatch verdict's diagnostic carries both the captured message
/// and the expected text verbatim.
pub proof fn lemma_mismatch_verdict_contains_both(
    v: Verdict,
    b: CallbackBehavior,
    expected: Seq<char>,
)
    requires
        verdict_matches(v, b, expected),
        b matches CallbackBehavior::FailsWith(m) && !text_contains(m@, expected),
    ensures
        v matches Verdict::Mismatch(d) && text_contains(d@, b->FailsWith_0@) && text_contains(
            d@,
            expected,
        ),
{
    let m = b->FailsWith_0;
    crate::text::lemma_mismatch_diagnostic_contains_both(m@, expected);
}

} // verus!
