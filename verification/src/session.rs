//! The watchdog side of the capture protocol.
//!
//! A [`CaptureSession`] is created fresh for each capture call and driven by
//! the dedicated watchdog context: first with the outcome of the bounded
//! snapshot call, which yields the exact result to send on the session's
//! result channel, then with the grace decision, which yields the verdict —
//! proceed, or dump the diagnostic text and terminate the process with the
//! reserved exit status. The contracts pin every state change and every
//! emitted value, and the phase discipline makes a second send, a second
//! grace decision, or a recycled session impossible by construction.

use vstd::prelude::*;
use crate::model::{
    event_enabled, event_step, fresh_model, result_of_snapshot, session_wf, SessionEvent,
    SessionOutcome, SessionPhase,
};
use crate::render::{render_model, render_result};
use crate::trace::{timeout_failure, CaptureConfig, ResultModel, SnapshotResult, TaskTrace};

verus! {

/// Reserved exit status for watchdog-triggered termination: distinguishable
/// by an external supervisor from every ordinary exit code and from every
/// signal-derived code, which all lie below 256.
pub const WATCHDOG_EXIT_STATUS: i32 = 1337;

/// The reserved status is disjoint from ordinary and signal-derived exit
/// codes, which occupy 0 through 255.
pub proof fn lemma_status_reserved()
    ensures
        WATCHDOG_EXIT_STATUS > 255,
{
}

/// What the bounded snapshot call produced: the per-task traces in the
/// snapshot source's enumeration order, or nothing within the bound.
pub enum SnapshotOutcome {
    /// The source answered in time.
    Ready(Vec<TaskTrace>),
    /// The source exceeded the capture timeout.
    TimedOut,
}

impl View for SnapshotOutcome {
    type V = Option<Seq<crate::trace::TraceModel>>;

    open spec fn view(&self) -> Option<Seq<crate::trace::TraceModel>> {
        match self {
            SnapshotOutcome::Ready(traces) => Some(Seq::new(traces@.len(), |i: int| traces@[i]@)),
            SnapshotOutcome::TimedOut => None,
        }
    }
}

/// What the watchdog context must do after the grace decision.
pub enum GraceVerdict {
    /// The acknowledgement was observed: exit the watchdog context
    /// normally; the process continues.
    Proceed,
    /// No acknowledgement: write `dump` to the durable diagnostic sink and
    /// terminate the whole process with `status`.
    Terminate { dump: Vec<u8>, status: i32 },
}

/// One capture session, owned by its watchdog context and never shared or
/// recycled.
pub struct CaptureSession {
    /// The timing configuration this session was created with.
    pub config: CaptureConfig,
    /// Where the session stands.
    pub phase: SessionPhase,
    /// How the session ended, if it has.
    pub outcome: SessionOutcome,
    /// Instant by which the snapshot call must have answered.
    pub capture_deadline: u64,
    /// Instant at which the result was sent, once it has been.
    pub result_sent_at: u64,
    /// Instant at which the grace window closes, once it has opened.
    pub grace_deadline: u64,
    /// The diagnostic text held for the fatal path.
    pub dump: Vec<u8>,
    /// Model of the result sent on the result channel, once one has been.
    pub sent: Ghost<Option<ResultModel>>,
}

impl View for CaptureSession {
    type V = crate::model::SessionModel;

    open spec fn view(&self) -> crate::model::SessionModel {
        crate::model::SessionModel {
            phase: self.phase,
            outcome: self.outcome,
            capture_deadline: self.capture_deadline,
            grace_window: self.config.grace_window_ms,
            result_sent_at: self.result_sent_at,
            grace_deadline: self.grace_deadline,
            sent: self.sent@,
            dump: self.dump@,
        }
    }
}

impl CaptureSession {
    /// Start a capture session at instant `now`: the bounded snapshot call
    /// is considered in flight from here on, due by `now` plus the capture
    /// timeout.
    pub fn new(config: CaptureConfig, now: u64) -> (s: CaptureSession)
        requires
            now + config.capture_timeout_ms <= u64::MAX,
        ensures
            s@ == fresh_model(config.capture_timeout_ms, config.grace_window_ms, now),
            session_wf(s@),
            s.config == config,
            s.phase is Snapshotting,
            s.capture_deadline == now + config.capture_timeout_ms,
    {
        let s = CaptureSession {
            config,
            phase: SessionPhase::Snapshotting,
            outcome: SessionOutcome::Pending,
            capture_deadline: now + config.capture_timeout_ms,
            result_sent_at: 0,
            grace_deadline: 0,
            dump: Vec::new(),
            sent: Ghost(None),
        };
        proof {
            assert(s@ =~= fresh_model(config.capture_timeout_ms, config.grace_window_ms, now));
        }
        s
    }

    /// React to the outcome of the bounded snapshot call, observed at
    /// instant `now`. The returned value is the one message this session
    /// ever sends on its result channel: on success, exactly the traces the
    /// source enumerated, in its order; on timeout, the fixed failure text.
    /// Sending opens the grace window, `now` plus the grace width, and the
    /// same diagnostic text that would be dumped on the fatal path is
    /// rendered and held.
    pub fn on_snapshot(&mut self, outcome: SnapshotOutcome, now: u64) -> (r: SnapshotResult)
        requires
            session_wf(old(self)@),
            event_enabled(old(self)@, SessionEvent::Snapshot { traces: outcome@, now }),
        ensures
            final(self)@ == event_step(
                old(self)@,
                SessionEvent::Snapshot { traces: outcome@, now },
            ),
            session_wf(final(self)@),
            r@ == result_of_snapshot(outcome@),
            outcome matches SnapshotOutcome::Ready(traces) ==> r == SnapshotResult::Success(
                traces,
            ),
            outcome is TimedOut ==> r is Failure && r@ == ResultModel::Failure(
                crate::trace::timeout_message(),
            ),
            final(self).phase is AwaitingAck,
            final(self).result_sent_at == now,
            final(self).grace_deadline == now + old(self).config.grace_window_ms,
            final(self)@.sent == Some(r@),
            final(self).dump@ == render_model(r@),
    {
        let ghost pre = self@;
        let ghost ev = SessionEvent::Snapshot { traces: outcome@, now };
        let r = match outcome {
            SnapshotOutcome::Ready(traces) => SnapshotResult::Success(traces),
            SnapshotOutcome::TimedOut => timeout_failure(),
        };
        self.dump = render_result(&r);
        self.result_sent_at = now;
        self.grace_deadline = now + self.config.grace_window_ms;
        self.phase = SessionPhase::AwaitingAck;
        self.sent = Ghost(Some(r@));
        proof {
            assert(r@ == result_of_snapshot(outcome@));
            assert(self@ =~= event_step(pre, ev));
            crate::model::lemma_step_preserves_wf(pre, ev);
        }
        r
    }

    /// React to the grace decision: `acked` says whether the caller's
    /// acknowledgement had been observed, `now` is the instant of the
    /// decision, which for a negative one lies at or past the grace
    /// deadline. An acknowledged session proceeds and the process
    /// continues; an unacknowledged one terminates, handing the verdict the
    /// rendering of the very result that was sent, to be preserved in the
    /// durable sink, and the reserved exit status. The session is consumed:
    /// it can never be recycled into another decision.
    pub fn resolve_grace(self, acked: bool, now: u64) -> (r: (CaptureSession, GraceVerdict))
        requires
            session_wf(self@),
            event_enabled(self@, SessionEvent::Grace { acked, now }),
        ensures
            r.0@ == event_step(self@, SessionEvent::Grace { acked, now }),
            session_wf(r.0@),
            r.0.phase is Complete,
            acked ==> r.0.outcome is CleanExit && r.1 is Proceed,
            !acked ==> r.0.outcome is Terminated,
            !acked ==> (r.1 matches GraceVerdict::Terminate { dump, status } && dump@
                == render_model(self@.sent->0) && status == WATCHDOG_EXIT_STATUS),
    {
        let ghost pre = self@;
        let ghost ev = SessionEvent::Grace { acked, now };
        let CaptureSession {
            config,
            phase: _,
            outcome: _,
            capture_deadline,
            result_sent_at,
            grace_deadline,
            dump,
            sent,
        } = self;
        let result = if acked {
            (
                CaptureSession {
                    config,
                    phase: SessionPhase::Complete,
                    outcome: SessionOutcome::CleanExit,
                    capture_deadline,
                    result_sent_at,
                    grace_deadline,
                    dump,
                    sent,
                },
                GraceVerdict::Proceed,
            )
        } else {
            (
                CaptureSession {
                    config,
                    phase: SessionPhase::Complete,
                    outcome: SessionOutcome::Terminated,
                    capture_deadline,
                    result_sent_at,
                    grace_deadline,
                    dump: Vec::new(),
                    sent,
                },
                GraceVerdict::Terminate { dump, status: WATCHDOG_EXIT_STATUS },
            )
        };
        proof {
            assert(result.0@ =~= event_step(pre, ev));
            crate::model::lemma_step_preserves_wf(pre, ev);
        }
        result
    }
}

} // verus!
