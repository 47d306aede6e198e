use delouse::render::render_result;
use delouse::trace::{timeout_failure, SnapshotResult, TaskTrace};

#[test]
fn render_empty_success_is_empty() {
    let out = render_result(&SnapshotResult::Success(Vec::new()));
    assert_eq!(out, Vec::<u8>::new());
}

#[test]
fn render_single_trace_block() {
    let result = SnapshotResult::Success(vec![TaskTrace {
        sequence_index: 0,
        trace_text: "hi".to_string(),
    }]);
    let out = render_result(&result);
    assert_eq!(String::from_utf8(out).unwrap(), "\nTokio Task ID 0:\nhi\n\n\n");
}

#[test]
fn render_multi_digit_sequence_index() {
    let result = SnapshotResult::Success(vec![TaskTrace {
        sequence_index: 1234567890,
        trace_text: "deep".to_string(),
    }]);
    let out = render_result(&result);
    assert_eq!(
        String::from_utf8(out).unwrap(),
        "\nTokio Task ID 1234567890:\ndeep\n\n\n"
    );
}

#[test]
fn render_respects_given_indices() {
    let result = SnapshotResult::Success(vec![
        TaskTrace {
            sequence_index: 7,
            trace_text: "seven".to_string(),
        },
        TaskTrace {
            sequence_index: 42,
            trace_text: "answer".to_string(),
        },
    ]);
    let out = render_result(&result);
    assert_eq!(
        String::from_utf8(out).unwrap(),
        "\nTokio Task ID 7:\nseven\n\n\n\nTokio Task ID 42:\nanswer\n\n\n"
    );
}

#[test]
fn render_failure_is_reason_line() {
    let out = render_result(&timeout_failure());
    assert_eq!(
        String::from_utf8(out).unwrap(),
        "scheduler did not respond in time\n"
    );
}

#[test]
fn render_custom_failure_text() {
    let out = render_result(&SnapshotResult::Failure("boom".to_string()));
    assert_eq!(String::from_utf8(out).unwrap(), "boom\n");
}
