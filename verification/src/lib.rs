//! Assert on the exact text of a failure message raised inside a callback.
//!
//! Test code often needs to check that a callback fails with a particular,
//! possibly long and multi-line, message. This library provides the verified
//! core of such an assertion facility: a model of the process-wide guard that
//! serializes access to the single failure-interception hook, a one-shot relay
//! that hands the captured message from the interception point back to the
//! waiting caller, and the decision logic that turns a capture outcome into a
//! pass-or-fail verdict with its diagnostic text.
//!
//! The runtime integration (installing the real hook, catching the failure)
//! is deliberately kept outside: callers hand the library plain values and
//! receive a [`protocol::Verdict`] back.

pub mod capture;
pub mod guard;
pub mod protocol;
pub mod relay;
pub mod text;
