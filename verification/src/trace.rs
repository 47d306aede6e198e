//! Data model for one scheduler snapshot: per-task trace records, the
//! result delivered to the caller, and the timing configuration of a
//! capture attempt.

use vstd::prelude::*;

verus! {

/// Timing configuration for one capture attempt, in milliseconds.
#[derive(Clone, Copy, PartialEq, Eq, Structural)]
pub struct CaptureConfig {
    /// Bound on the snapshot call itself; exceeding it yields a `Failure`
    /// result, not a hang.
    pub capture_timeout_ms: u64,
    /// Bound on the wait for the caller's acknowledgement after the result
    /// has been sent; exceeding it is fatal to the process.
    pub grace_window_ms: u64,
}

impl CaptureConfig {
    /// The default configuration: a ten second snapshot bound and a one
    /// second grace window.
    pub fn new() -> (c: CaptureConfig)
        ensures
            c.capture_timeout_ms == 10000,
            c.grace_window_ms == 1000,
    {
        CaptureConfig { capture_timeout_ms: 10000, grace_window_ms: 1000 }
    }

    /// A configuration with explicit bounds.
    pub fn with_bounds(capture_timeout_ms: u64, grace_window_ms: u64) -> (c: CaptureConfig)
        ensures
            c.capture_timeout_ms == capture_timeout_ms,
            c.grace_window_ms == grace_window_ms,
    {
        CaptureConfig { capture_timeout_ms, grace_window_ms }
    }
}

/// One task's trace within one snapshot: its position in the enumeration
/// order returned by the snapshot source, and its human-readable trace text.
pub struct TaskTrace {
    /// Position in the snapshot source's enumeration order; stable within
    /// one snapshot, not comparable across snapshots.
    pub sequence_index: u64,
    /// The task's trace text.
    pub trace_text: String,
}

/// Mathematical model of a [`TaskTrace`].
pub struct TraceModel {
    pub sequence_index: u64,
    pub trace_text: Seq<char>,
}

impl View for TaskTrace {
    type V = TraceModel;

    open spec fn view(&self) -> TraceModel {
        TraceModel { sequence_index: self.sequence_index, trace_text: self.trace_text@ }
    }
}

/// The outcome of one capture attempt, as delivered to the caller.
pub enum SnapshotResult {
    /// The snapshot source answered in time; the traces are in its
    /// enumeration order.
    Success(Vec<TaskTrace>),
    /// The snapshot source exceeded the capture timeout; the text says why.
    Failure(String),
}

/// Mathematical model of a [`SnapshotResult`].
pub enum ResultModel {
    Success(Seq<TraceModel>),
    Failure(Seq<char>),
}

impl View for SnapshotResult {
    type V = ResultModel;

    open spec fn view(&self) -> ResultModel {
        match self {
            SnapshotResult::Success(traces) => ResultModel::Success(
                Seq::new(traces@.len(), |i: int| traces@[i]@),
            ),
            SnapshotResult::Failure(text) => ResultModel::Failure(text@),
        }
    }
}

/// The failure text delivered when the snapshot source exceeds the capture
/// timeout.
pub open spec fn timeout_message() -> Seq<char> {
    "scheduler did not respond in time"@
}

/// The exact failure value for a capture timeout.
pub fn timeout_failure() -> (r: SnapshotResult)
    ensures
        r is Failure,
        r@ == ResultModel::Failure(timeout_message()),
{
    SnapshotResult::Failure("scheduler did not respond in time".to_owned())
}

/// Wrap raw trace texts, in the snapshot source's enumeration order, into
/// [`TaskTrace`] records numbered by their position. The resulting sequence
/// preserves the source's order, and the indices ascend from zero.
pub fn number_traces(texts: Vec<String>) -> (traces: Vec<TaskTrace>)
    ensures
        traces@.len() == texts@.len(),
        forall|i: int|
            0 <= i < traces@.len() ==> traces@[i]@ == (TraceModel {
                sequence_index: i as u64,
                trace_text: texts@[i]@,
            }),
{
    let mut traces: Vec<TaskTrace> = Vec::new();
    let mut i: usize = 0;
    while i < texts.len()
        invariant
            i <= texts@.len(),
            traces@.len() == i,
            forall|j: int|
                0 <= j < i ==> traces@[j]@ == (TraceModel {
                    sequence_index: j as u64,
                    trace_text: texts@[j]@,
                }),
        decreases texts@.len() - i,
    {
        let text = texts[i].clone();
        traces.push(TaskTrace { sequence_index: i as u64, trace_text: text });
        i = i + 1;
    }
    traces
}

} // verus!
