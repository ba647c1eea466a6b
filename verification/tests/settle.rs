//! Tests of settling whole calls: stream recording, the write-once result
//! slot, and the end-to-end envelope of a settled call.

use tally_vm::data::VmResultStatus;
use tally_vm::runtime::settle_call;
use tally_vm::slot::ResultSlot;
use tally_vm::streams::record_drain;
use tally_vm::supervisor::SignalWait;
use tally_vm::supervisor::EXECUTION_DEADLINE_NANOS;

#[test]
fn the_deadline_is_the_same_for_every_call() {
    assert_eq!(EXECUTION_DEADLINE_NANOS, 100_000_000_000);
}

#[test]
fn a_nonempty_drain_is_kept_as_one_chunk() {
    let mut chunks: Vec<String> = vec![];
    let outcome = record_drain(&mut chunks, Some("hello".to_string()));
    assert!(outcome.is_ok());
    assert_eq!(chunks, vec!["hello".to_string()]);
}

#[test]
fn an_empty_drain_leaves_no_empty_chunk() {
    let mut chunks: Vec<String> = vec![];
    let outcome = record_drain(&mut chunks, Some(String::new()));
    assert!(outcome.is_ok());
    assert!(chunks.is_empty());
}

#[test]
fn distinct_drains_stay_distinct_chunks() {
    let mut chunks: Vec<String> = vec![];
    assert!(record_drain(&mut chunks, Some("first flush".to_string())).is_ok());
    assert!(record_drain(&mut chunks, Some("second flush".to_string())).is_ok());
    assert_eq!(chunks, vec!["first flush".to_string(), "second flush".to_string()]);
}

#[test]
fn a_failed_drain_changes_nothing_and_reports_it() {
    let mut chunks: Vec<String> = vec!["kept".to_string()];
    let outcome = record_drain(&mut chunks, None);
    assert!(matches!(outcome, Err(VmResultStatus::StreamReadFailure)));
    assert_eq!(chunks, vec!["kept".to_string()]);
}

#[test]
fn a_slot_accepts_exactly_one_deposit() {
    let mut slot = ResultSlot::new();
    assert_eq!(slot.contents(), Vec::<u8>::new());
    assert!(slot.deposit(vec![1, 2, 3]));
    assert_eq!(slot.contents(), vec![1, 2, 3]);
    assert!(!slot.deposit(vec![4, 5]));
    assert_eq!(slot.contents(), vec![1, 2, 3]);
}

#[test]
fn slots_of_two_calls_are_independent() {
    let mut first_call = ResultSlot::new();
    let second_call = ResultSlot::new();
    assert!(first_call.deposit(b"mine".to_vec()));
    assert_eq!(first_call.contents(), b"mine".to_vec());
    assert_eq!(second_call.contents(), Vec::<u8>::new());
}

#[test]
fn a_guest_that_writes_hello_and_returns() {
    let envelope = settle_call(
        SignalWait::Received,
        Some(Ok((vec![], 0))),
        Some("hello".to_string()),
        Some(String::new()),
    );
    assert_eq!(envelope.stdout, vec!["hello".to_string()]);
    assert!(envelope.stderr.is_empty());
    assert_eq!(envelope.exit_info.exit_code, 0);
    assert_eq!(envelope.exit_info.exit_message.as_str(), "Ok");
}

#[test]
fn a_guest_that_never_returns_settles_as_a_timeout() {
    let envelope = settle_call(SignalWait::TimedOut, None, Some(String::new()), Some(String::new()));
    assert_eq!(envelope.result, None);
    assert_eq!(envelope.exit_info.exit_code, 6);
    assert_eq!(envelope.exit_info.exit_message.as_str(), "Execution timed out");
}

#[test]
fn a_failed_stdout_drain_settles_as_a_stream_failure() {
    let envelope = settle_call(
        SignalWait::Received,
        Some(Ok((b"bytes".to_vec(), 0))),
        None,
        Some("late".to_string()),
    );
    assert_eq!(envelope.result, None);
    assert_eq!(envelope.exit_info.exit_code, 8);
    assert!(envelope.stdout.is_empty());
    assert!(envelope.stderr.is_empty());
}

#[test]
fn a_failed_stderr_drain_still_reports_the_stdout_chunk() {
    let envelope = settle_call(
        SignalWait::Received,
        Some(Ok((vec![], 0))),
        Some("out".to_string()),
        None,
    );
    assert_eq!(envelope.result, None);
    assert_eq!(envelope.exit_info.exit_code, 8);
    assert_eq!(envelope.stdout, vec!["out".to_string()]);
    assert!(envelope.stderr.is_empty());
}

#[test]
fn settling_the_same_call_twice_gives_the_same_envelope() {
    let settle = || {
        settle_call(
            SignalWait::Received,
            Some(Ok((b"result".to_vec(), 4))),
            Some("stdout text".to_string()),
            Some("stderr text".to_string()),
        )
    };
    let first = settle();
    let second = settle();
    assert_eq!(first.stdout, second.stdout);
    assert_eq!(first.stderr, second.stderr);
    assert_eq!(first.exit_info.exit_code, second.exit_info.exit_code);
    assert_eq!(first.exit_info.exit_message, second.exit_info.exit_message);
    assert_eq!(first.result, second.result);
}
