//! One-shot handoff of a captured failure message.
//!
//! A `MessageRelay` is created fresh for each assertion call and carries the
//! captured message text from the interception hook (which publishes it on
//! the failing thread) back to the waiting caller. The payload is written at
//! most once, signalled by a readiness flag that goes from `false` to `true`
//! exactly once, and read at most once: consumption takes the relay by value,
//! so a second read is impossible by construction.

use vstd::prelude::*;

verus! {

/// Single-assignment, single-read slot for a captured message.
pub struct MessageRelay {
    slot: Option<String>,
    flag: bool,
}

impl MessageRelay {
    /// True once a message has been published.
    pub closed spec fn is_ready(self) -> bool {
        self.flag
    }

    /// The published message, if any.
    pub closed spec fn payload(self) -> Option<Seq<char>> {
        match self.slot {
            Some(m) => Some(m@),
            None => None,
        }
    }

    /// The readiness flag is set exactly when a payload is stored, so
    /// observing readiness guarantees that the message is present.
    pub closed spec fn wf(self) -> bool {
        self.flag <==> self.slot is Some
    }

    /// A fresh relay: empty and not ready.
    pub fn new() -> (r: Self)
        ensures
            r.wf(),
            !r.is_ready(),
            r.payload() is None,
    {
        MessageRelay { slot: None, flag: false }
    }

    /// Stores the captured message, then marks the relay ready. Invoked by
    /// the interception hook while the failing callback's thread is still
    /// inside the failure-propagation machinery. The payload is written at
    /// most once: publishing requires a relay that is not yet ready.
    pub fn publish(&mut self, msg: String)
        requires
            old(self).wf(),
            !old(self).is_ready(),
        ensures
            final(self).wf(),
            final(self).is_ready(),
            final(self).payload() == Some(msg@),
    {
        self.slot = Some(msg);
        self.flag = true;
    }

    /// Reads the readiness flag once, as the caller's spin-wait would. The
    /// flag carries the publication: once it is observed true, the stored
    /// message is present and safe to consume.
    pub fn poll_ready(&self) -> (b: bool)
        ensures
            b == self.is_ready(),
    {
        self.flag
    }

    /// Takes the published message out of the relay. Consumption moves the
    /// relay, so the payload is read exactly once; consuming before the relay
    /// is ready is ruled out by the precondition, which the orchestrator
    /// discharges by only consuming after the callback is known to have
    /// failed.
    pub fn consume(self) -> (m: String)
        requires
            self.wf(),
            self.is_ready(),
        ensures
            self.payload() == Some(m@),
    {
        match self.slot {
            Some(m) => m,
            None => unreached(),
        }
    }
}

} // verus!
