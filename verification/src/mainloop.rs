//! The session state machine of the thread that owns the native loop.
//!
//! The runtime drives the blocking native loop and reports what happened;
//! this machine decides the next phase and the side effect the runtime
//! must perform on entering it.  Any native I/O failure is fatal to the
//! whole session — native client handles are not resumable — so the only
//! recovery is a full teardown followed by a fresh connection attempt,
//! paced by the caller-supplied retry policy.

use vstd::prelude::*;

verus! {

/// Where the session currently stands.
#[derive(Clone, Copy, Debug, PartialEq, Eq, Structural)]
pub enum SessionPhase {
    /// No native session; waiting for the retry policy.
    Disconnected,
    /// Opening the native session.
    Connecting,
    /// Listing existing native objects into the identity table.
    Enumerating,
    /// Watchers attached; the loop is iterating.
    Subscribed,
    /// The outbound consumer is gone; the thread exits.
    Terminated,
}

/// What the runtime observed since the last step.
#[derive(Clone, Copy, Debug, PartialEq, Eq, Structural)]
pub enum SessionEvent {
    /// The caller-supplied retry policy says to reconnect now.
    RetryDelayElapsed,
    ConnectSucceeded,
    ConnectFailed,
    /// Existing objects are listed; per-object failures were skipped.
    EnumerationComplete,
    /// An I/O-level failure of the native session, fatal by design.
    NativeFatalError,
    /// The outbound channel reports that no consumer remains.
    ConsumerClosed,
}

/// The side effect the runtime performs on entering the next phase.
#[derive(Clone, Copy, Debug, PartialEq, Eq, Structural)]
pub enum SessionEffect {
    /// Open the native session.
    OpenNativeSession,
    /// Enumerate existing objects into the identity table.
    PopulateTable,
    /// Attach watchers, then drain native callbacks and the command queue.
    SubscribeAndDrain,
    /// Discard every listener handle and the identity table before the
    /// retry, so no stale native object outlives its session.
    DiscardSessionState,
    /// Leave the loop and let the thread exit.
    ExitThread,
    /// No transition: the event does not concern the current phase.
    Hold,
}

/// The transition table: next phase and entry effect for one observation.
pub open spec fn spec_step(p: SessionPhase, e: SessionEvent) -> (SessionPhase, SessionEffect) {
    match (p, e) {
        (SessionPhase::Disconnected, SessionEvent::RetryDelayElapsed) => (
            SessionPhase::Connecting,
            SessionEffect::OpenNativeSession,
        ),
        (SessionPhase::Connecting, SessionEvent::ConnectSucceeded) => (
            SessionPhase::Enumerating,
            SessionEffect::PopulateTable,
        ),
        (SessionPhase::Connecting, SessionEvent::ConnectFailed) => (
            SessionPhase::Disconnected,
            SessionEffect::DiscardSessionState,
        ),
        (SessionPhase::Enumerating, SessionEvent::EnumerationComplete) => (
            SessionPhase::Subscribed,
            SessionEffect::SubscribeAndDrain,
        ),
        (SessionPhase::Subscribed, SessionEvent::NativeFatalError) => (
            SessionPhase::Disconnected,
            SessionEffect::DiscardSessionState,
        ),
        (SessionPhase::Subscribed, SessionEvent::ConsumerClosed) => (
            SessionPhase::Terminated,
            SessionEffect::ExitThread,
        ),
        _ => (p, SessionEffect::Hold),
    }
}

/// Advance the session by one observation.
pub fn step(p: SessionPhase, e: SessionEvent) -> (r: (SessionPhase, SessionEffect))
    ensures
        r == spec_step(p, e),
{
    match (p, e) {
        (SessionPhase::Disconnected, SessionEvent::RetryDelayElapsed) => (
            SessionPhase::Connecting,
            SessionEffect::OpenNativeSession,
        ),
        (SessionPhase::Connecting, SessionEvent::ConnectSucceeded) => (
            SessionPhase::Enumerating,
            SessionEffect::PopulateTable,
        ),
        (SessionPhase::Connecting, SessionEvent::ConnectFailed) => (
            SessionPhase::Disconnected,
            SessionEffect::DiscardSessionState,
        ),
        (SessionPhase::Enumerating, SessionEvent::EnumerationComplete) => (
            SessionPhase::Subscribed,
            SessionEffect::SubscribeAndDrain,
        ),
        (SessionPhase::Subscribed, SessionEvent::NativeFatalError) => (
            SessionPhase::Disconnected,
            SessionEffect::DiscardSessionState,
        ),
        (SessionPhase::Subscribed, SessionEvent::ConsumerClosed) => (
            SessionPhase::Terminated,
            SessionEffect::ExitThread,
        ),
        _ => (p, SessionEffect::Hold),
    }
}

/// Every transition back to `Disconnected` discards the session state on
/// entry, and `Terminated` is terminal: once the consumer is gone, no
/// observation revives the session.
pub proof fn lemma_teardown_before_retry(p: SessionPhase, e: SessionEvent)
    ensures
        spec_step(p, e).0 is Disconnected && !(p is Disconnected) ==> spec_step(p, e).1
            is DiscardSessionState,
        p is Terminated ==> spec_step(p, e).0 is Terminated && spec_step(p, e).1 is Hold,
{
}

} // verus!
