use ipc_clock::receive::{RecvAction, RecvOutcome, TimedReceive};
use ipc_clock::report::drop_report;
use ipc_clock::transfer::{Progress, Step};

#[test]
fn progress_partial_then_complete() {
    let mut p = Progress::new(10);
    assert_eq!(p.remaining(), 10);
    assert_eq!(p.advance(4), Step::Continue);
    assert_eq!(p.done, 4);
    assert_eq!(p.remaining(), 6);
    assert!(!p.is_complete());
    assert_eq!(p.advance(6), Step::Complete);
    assert_eq!(p.remaining(), 0);
    assert!(p.is_complete());
}

#[test]
fn progress_stalls_on_zero() {
    let mut p = Progress::new(16);
    assert_eq!(p.advance(5), Step::Continue);
    assert_eq!(p.advance(0), Step::Stalled);
    assert_eq!(p, Progress { target: 16, done: 5 });
}

#[test]
fn progress_whole_message_at_once() {
    let mut p = Progress::new(16384);
    assert_eq!(p.advance(16384), Step::Complete);
}

#[test]
fn progress_counts_every_byte() {
    let counts = [1usize, 2, 3, 4];
    let mut p = Progress::new(10);
    let mut steps = Vec::new();
    for c in counts {
        steps.push(p.advance(c));
    }
    assert_eq!(p.done, 10);
    assert_eq!(steps, vec![Step::Continue, Step::Continue, Step::Continue, Step::Complete]);
}

#[test]
fn progress_past_target_when_resending_whole_buffer() {
    let mut p = Progress::new(8);
    assert_eq!(p.advance(5), Step::Continue);
    assert_eq!(p.advance(8), Step::Complete);
    assert_eq!(p.done, 13);
    assert_eq!(p.remaining(), 0);
}

#[test]
fn receive_until_target() {
    let mut r = TimedReceive::new(10);
    assert_eq!(r.observe(RecvOutcome::Received(4)), RecvAction::ReceiveMore);
    assert_eq!(r.observe(RecvOutcome::Received(6)), RecvAction::Finished);
    assert_eq!(r.received, 10);
    assert_eq!(r.status_code(), 0);
}

#[test]
fn receive_stops_on_timeout() {
    let mut r = TimedReceive::new(10);
    assert_eq!(r.observe(RecvOutcome::Received(4)), RecvAction::ReceiveMore);
    assert_eq!(r.observe(RecvOutcome::TimedOut), RecvAction::Finished);
    assert_eq!(r.received, 4);
    assert!(r.timed_out);
    assert_eq!(r.status_code(), -1);
    assert_eq!(r.observe(RecvOutcome::Received(6)), RecvAction::Finished);
    assert_eq!(r.received, 4);
}

#[test]
fn receive_first_call_times_out() {
    let mut r = TimedReceive::new(1);
    assert_eq!(r.observe(RecvOutcome::TimedOut), RecvAction::Finished);
    assert_eq!(r.received, 0);
    assert_eq!(r.status_code(), -1);
}

#[test]
fn receive_other_failure_repeats_last_count() {
    let mut r = TimedReceive::new(10);
    assert_eq!(r.observe(RecvOutcome::Received(4)), RecvAction::ReceiveMore);
    assert_eq!(r.observe(RecvOutcome::Failed), RecvAction::ReceiveMore);
    assert_eq!(r.received, 8);
}

#[test]
fn receive_failure_before_any_data_finishes() {
    let mut r = TimedReceive::new(10);
    assert_eq!(r.observe(RecvOutcome::Failed), RecvAction::Finished);
    assert_eq!(r.received, 0);
    assert_eq!(r.status_code(), 0);
}

#[test]
fn receive_empty_datagram_finishes() {
    let mut r = TimedReceive::new(10);
    assert_eq!(r.observe(RecvOutcome::Received(0)), RecvAction::Finished);
    assert_eq!(r.received, 0);
}

#[test]
fn drop_report_counts_losses() {
    let r = drop_report(4, 1_000_000, 3_000_000);
    assert_eq!(r.sent, 4_000_000);
    assert_eq!(r.received, 3_000_000);
    assert_eq!(r.dropped, 1_000_000);
}

#[test]
fn drop_report_nothing_lost() {
    let r = drop_report(16384, 1_000_000, 16_384_000_000);
    assert_eq!(r.dropped, 0);
}
