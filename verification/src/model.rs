//! Mathematical model of one capture session.
//!
//! A session moves through three phases. While `Snapshotting` the watchdog
//! context is inside the bounded snapshot call; the only possible event is
//! the call's outcome, which sends the result over the session's result
//! channel and opens the grace window. While `AwaitingAck` the only possible
//! event is the grace decision: either the caller's acknowledgement was
//! observed in time, or the window elapsed without one. A `Complete` session
//! admits no further events, so each channel of a session is exercised at
//! most once, and the session ends in exactly one of its two terminal
//! outcomes.

use vstd::prelude::*;
use crate::render::render_model;
use crate::trace::{timeout_message, ResultModel, TraceModel};

verus! {

/// Where a session stands in the protocol.
#[derive(Clone, Copy, PartialEq, Eq, Structural)]
pub enum SessionPhase {
    /// The bounded snapshot call is in flight; nothing has been sent.
    Snapshotting,
    /// The result has been sent; the grace window is open.
    AwaitingAck,
    /// The session has reached a terminal outcome.
    Complete,
}

/// How a session ended, if it has.
#[derive(Clone, Copy, PartialEq, Eq, Structural)]
pub enum SessionOutcome {
    /// The session has not reached a terminal state yet.
    Pending,
    /// The acknowledgement arrived in time; the watchdog context exits and
    /// the process continues.
    CleanExit,
    /// No acknowledgement arrived within the grace window; the diagnostic
    /// text is dumped and the process is terminated.
    Terminated,
}

/// The state of one capture session, in mathematical terms. All times are
/// in milliseconds on the session's own clock.
#[verifier::ext_equal]
pub struct SessionModel {
    /// Where the session stands.
    pub phase: SessionPhase,
    /// How the session ended, if it has.
    pub outcome: SessionOutcome,
    /// Instant by which the snapshot call must have answered.
    pub capture_deadline: u64,
    /// Width of the grace window that opens when the result is sent.
    pub grace_window: u64,
    /// Instant at which the result was sent, once it has been.
    pub result_sent_at: u64,
    /// Instant at which the grace window closes, once it has opened.
    pub grace_deadline: u64,
    /// The result sent on the session's result channel, once it has been;
    /// the channel carries at most this one message ever.
    pub sent: Option<ResultModel>,
    /// The diagnostic text held for the fatal path, rendered from the sent
    /// result; moved into the dump action if the session terminates.
    pub dump: Seq<u8>,
}

/// An event a session can react to.
#[verifier::ext_equal]
pub enum SessionEvent {
    /// The bounded snapshot call came back at instant `now`: with the
    /// traces in source order, or with nothing if it exceeded its bound.
    Snapshot { traces: Option<Seq<TraceModel>>, now: u64 },
    /// The grace decision at instant `now`: whether the caller's
    /// acknowledgement had been observed.
    Grace { acked: bool, now: u64 },
}

/// The result a snapshot outcome is delivered as: the traces verbatim on
/// success, the fixed timeout text otherwise.
pub open spec fn result_of_snapshot(traces: Option<Seq<TraceModel>>) -> ResultModel {
    match traces {
        Some(ts) => ResultModel::Success(ts),
        None => ResultModel::Failure(timeout_message()),
    }
}

/// A fresh session: no result sent, no outcome, capture deadline set.
pub open spec fn fresh_model(capture_timeout: u64, grace_window: u64, now: u64) -> SessionModel {
    SessionModel {
        phase: SessionPhase::Snapshotting,
        outcome: SessionOutcome::Pending,
        capture_deadline: (now + capture_timeout) as u64,
        grace_window: grace_window,
        result_sent_at: 0,
        grace_deadline: 0,
        sent: None,
        dump: Seq::empty(),
    }
}

/// Whether `e` can happen to `s`: a snapshot outcome only while
/// snapshotting and only on the right side of the capture deadline; a grace
/// decision only while the window is open, and a negative one only once the
/// window has closed.
pub open spec fn event_enabled(s: SessionModel, e: SessionEvent) -> bool {
    match e {
        SessionEvent::Snapshot { traces, now } => {
            &&& s.phase is Snapshotting
            &&& traces is Some ==> now <= s.capture_deadline
            &&& traces is None ==> now >= s.capture_deadline
            &&& now + s.grace_window <= u64::MAX
        },
        SessionEvent::Grace { acked, now } => {
            &&& s.phase is AwaitingAck
            &&& !acked ==> now >= s.grace_deadline
        },
    }
}

/// The session state after `e`. A snapshot outcome records the sent result
/// and the rendered diagnostic text and opens the grace window; a grace
/// decision closes the session on its clean or fatal path, the fatal one
/// surrendering the diagnostic text to the dump action.
pub open spec fn event_step(s: SessionModel, e: SessionEvent) -> SessionModel {
    match e {
        SessionEvent::Snapshot { traces, now } => SessionModel {
            phase: SessionPhase::AwaitingAck,
            result_sent_at: now,
            grace_deadline: (now + s.grace_window) as u64,
            sent: Some(result_of_snapshot(traces)),
            dump: render_model(result_of_snapshot(traces)),
            ..s
        },
        SessionEvent::Grace { acked, now } => SessionModel {
            phase: SessionPhase::Complete,
            outcome: if acked {
                SessionOutcome::CleanExit
            } else {
                SessionOutcome::Terminated
            },
            dump: if acked {
                s.dump
            } else {
                Seq::empty()
            },
            ..s
        },
    }
}

/// Internal consistency of a session state: the phase agrees with what has
/// been sent and decided, the held diagnostic text is exactly the rendering
/// of the sent result while the grace window is open, and the window closes
/// one grace width after the send.
pub open spec fn session_wf(s: SessionModel) -> bool {
    match s.phase {
        SessionPhase::Snapshotting => {
            &&& s.outcome is Pending
            &&& s.sent is None
        },
        SessionPhase::AwaitingAck => {
            &&& s.outcome is Pending
            &&& s.sent is Some
            &&& s.dump == render_model(s.sent->0)
            &&& s.grace_deadline == s.result_sent_at + s.grace_window
        },
        SessionPhase::Complete => {
            &&& !(s.outcome is Pending)
            &&& s.sent is Some
        },
    }
}

/// Every event preserves consistency.
pub proof fn lemma_step_preserves_wf(s: SessionModel, e: SessionEvent)
    requires
        session_wf(s),
        event_enabled(s, e),
    ensures
        session_wf(event_step(s, e)),
{
}

/// A fresh session is consistent.
pub proof fn lemma_fresh_wf(capture_timeout: u64, grace_window: u64, now: u64)
    ensures
        session_wf(fresh_model(capture_timeout, grace_window, now)),
{
}

} // verus!
