use delouse::caller::CallerSession;
use delouse::model::SessionOutcome;
use delouse::render::render_result;
use delouse::session::{CaptureSession, GraceVerdict, SnapshotOutcome, WATCHDOG_EXIT_STATUS};
use delouse::trace::{number_traces, CaptureConfig, SnapshotResult, TaskTrace};

fn three_traces() -> Vec<TaskTrace> {
    number_traces(vec![
        "trace0".to_string(),
        "trace1".to_string(),
        "trace2".to_string(),
    ])
}

#[test]
fn prompt_success_with_ack_continues() {
    let config = CaptureConfig::with_bounds(10_000, 1_000);
    let mut session = CaptureSession::new(config, 0);
    let result = session.on_snapshot(SnapshotOutcome::Ready(three_traces()), 2_000);

    let mut caller = CallerSession::new();
    caller.receive(result);
    let signal = caller.acknowledge();
    assert!(signal);
    match caller.take_result() {
        SnapshotResult::Success(list) => {
            assert_eq!(list.len(), 3);
            assert_eq!(list[0].sequence_index, 0);
            assert_eq!(list[0].trace_text, "trace0");
            assert_eq!(list[1].sequence_index, 1);
            assert_eq!(list[1].trace_text, "trace1");
            assert_eq!(list[2].sequence_index, 2);
            assert_eq!(list[2].trace_text, "trace2");
        }
        SnapshotResult::Failure(_) => panic!("expected a successful capture"),
    }

    let (done, verdict) = session.resolve_grace(true, 2_100);
    assert!(matches!(verdict, GraceVerdict::Proceed));
    assert!(matches!(done.outcome, SessionOutcome::CleanExit));
}

#[test]
fn unresponsive_source_yields_failure_at_deadline() {
    let config = CaptureConfig::with_bounds(10_000, 1_000);
    let mut session = CaptureSession::new(config, 0);
    assert_eq!(session.capture_deadline, 10_000);
    let result = session.on_snapshot(SnapshotOutcome::TimedOut, 10_000);

    match &result {
        SnapshotResult::Failure(reason) => {
            assert_eq!(reason, "scheduler did not respond in time");
        }
        SnapshotResult::Success(_) => panic!("expected a capture timeout"),
    }

    let mut caller = CallerSession::new();
    caller.receive(result);
    caller.acknowledge();
    let (done, verdict) = session.resolve_grace(true, 10_500);
    assert!(matches!(verdict, GraceVerdict::Proceed));
    assert!(matches!(done.outcome, SessionOutcome::CleanExit));
}

#[test]
fn missing_ack_terminates_with_reserved_status_and_dump() {
    let config = CaptureConfig::with_bounds(10_000, 1_000);
    let mut session = CaptureSession::new(config, 0);
    let result = session.on_snapshot(SnapshotOutcome::Ready(three_traces()), 2_000);
    assert_eq!(session.grace_deadline, 3_000);
    let expected_dump = render_result(&result);

    let (done, verdict) = session.resolve_grace(false, 3_000);
    assert!(matches!(done.outcome, SessionOutcome::Terminated));
    match verdict {
        GraceVerdict::Terminate { dump, status } => {
            assert_eq!(status, WATCHDOG_EXIT_STATUS);
            assert_eq!(status, 1337);
            assert_eq!(dump, expected_dump);
            assert_eq!(
                String::from_utf8(dump).unwrap(),
                "\nTokio Task ID 0:\ntrace0\n\n\n\
                 \nTokio Task ID 1:\ntrace1\n\n\n\
                 \nTokio Task ID 2:\ntrace2\n\n\n"
            );
        }
        GraceVerdict::Proceed => panic!("expected a termination verdict"),
    }
}

#[test]
fn reserved_status_is_distinguished() {
    assert!(WATCHDOG_EXIT_STATUS > 255);
    assert_ne!(WATCHDOG_EXIT_STATUS, 0);
}

#[test]
fn default_config_bounds() {
    let config = CaptureConfig::new();
    assert_eq!(config.capture_timeout_ms, 10_000);
    assert_eq!(config.grace_window_ms, 1_000);
}

#[test]
fn number_traces_preserves_order_and_ascends() {
    let traces = number_traces(vec![
        "first".to_string(),
        "second".to_string(),
        "third".to_string(),
    ]);
    assert_eq!(traces.len(), 3);
    for (i, trace) in traces.iter().enumerate() {
        assert_eq!(trace.sequence_index, i as u64);
    }
    assert_eq!(traces[0].trace_text, "first");
    assert_eq!(traces[1].trace_text, "second");
    assert_eq!(traces[2].trace_text, "third");
}

#[test]
fn number_traces_of_nothing_is_empty() {
    assert!(number_traces(Vec::new()).is_empty());
}

#[test]
fn capture_of_empty_snapshot_succeeds_with_no_traces() {
    let mut session = CaptureSession::new(CaptureConfig::new(), 0);
    let result = session.on_snapshot(SnapshotOutcome::Ready(Vec::new()), 500);
    match &result {
        SnapshotResult::Success(list) => assert!(list.is_empty()),
        SnapshotResult::Failure(_) => panic!("expected an empty success"),
    }
    assert_eq!(render_result(&result), Vec::<u8>::new());
    let (done, verdict) = session.resolve_grace(true, 900);
    assert!(matches!(verdict, GraceVerdict::Proceed));
    assert!(matches!(done.outcome, SessionOutcome::CleanExit));
}

#[test]
fn concurrent_sessions_are_independent() {
    let config = CaptureConfig::with_bounds(10_000, 1_000);
    let mut first = CaptureSession::new(config, 0);
    let mut second = CaptureSession::new(config, 0);

    // Interleave the two sessions' events: each still sees its own result
    // and its own outcome.
    let r1 = first.on_snapshot(
        SnapshotOutcome::Ready(number_traces(vec!["alpha".to_string()])),
        1_000,
    );
    let r2 = second.on_snapshot(SnapshotOutcome::TimedOut, 10_000);
    let (done2, v2) = second.resolve_grace(false, 11_000);
    let (done1, v1) = first.resolve_grace(true, 1_500);

    match r1 {
        SnapshotResult::Success(list) => {
            assert_eq!(list.len(), 1);
            assert_eq!(list[0].trace_text, "alpha");
        }
        SnapshotResult::Failure(_) => panic!("expected success for the first session"),
    }
    assert!(matches!(r2, SnapshotResult::Failure(_)));
    assert!(matches!(v1, GraceVerdict::Proceed));
    assert!(matches!(v2, GraceVerdict::Terminate { .. }));
    assert!(matches!(done1.outcome, SessionOutcome::CleanExit));
    assert!(matches!(done2.outcome, SessionOutcome::Terminated));
}
