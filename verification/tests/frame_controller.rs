use std::collections::HashSet;
use video_service::clock::{elapsed, millis, secs};
use video_service::frame_controller::{AckEvent, VideoFrameController, WaitStep, ACK_TIMEOUT_MILLIS};

const MS: u64 = 1000;

fn ids(v: &[i32]) -> HashSet<i32> {
    v.iter().copied().collect()
}

fn ack(id: i32) -> AckEvent {
    AckEvent::Received { id, sent_at: None }
}

#[test]
fn clock_spans() {
    assert_eq!(elapsed(10, 4), 6);
    assert_eq!(elapsed(4, 10), 0);
    assert_eq!(millis(2_999), 2);
    assert_eq!(secs(29_999_999), 29);
    assert_eq!(secs(30_000_000), 30);
}

#[test]
fn wait_with_nobody_armed_returns_at_once() {
    for timeout in [0, 1, ACK_TIMEOUT_MILLIS, u64::MAX] {
        let mut c = VideoFrameController::new(0);
        assert_eq!(c.begin_wait(5 * MS, timeout), WaitStep::Finished);
        c.set_send(7, HashSet::new());
        assert_eq!(c.cur, 0);
        assert_eq!(c.begin_wait(9 * MS, timeout), WaitStep::Finished);
    }
}

#[test]
fn set_send_arms_the_recipients() {
    let mut c = VideoFrameController::new(1);
    c.set_send(50, ids(&[1, 2]));
    assert_eq!(c.cur, 50);
    assert_eq!(c.send_conn_ids, ids(&[1, 2]));
    c.set_send(60, HashSet::new());
    assert_eq!(c.cur, 50);
    assert_eq!(c.send_conn_ids, ids(&[1, 2]));
    c.reset();
    assert!(c.send_conn_ids.is_empty());
    assert_eq!(c.cur, 50);
}

#[test]
fn wait_lasts_the_full_timeout_when_one_of_two_stays_silent() {
    let mut c = VideoFrameController::new(0);
    c.set_send(0, ids(&[1, 2]));
    let begin = 100 * MS;
    assert_eq!(c.begin_wait(begin, 3000), WaitStep::Receive { timeout_millis: 3000 });
    assert_eq!(
        c.blocking_wait_next(ack(1), begin + 500 * MS),
        WaitStep::Receive { timeout_millis: 2500 }
    );
    // the same connection again changes nothing
    assert_eq!(
        c.blocking_wait_next(ack(1), begin + 2999 * MS + 999),
        WaitStep::Receive { timeout_millis: 1 }
    );
    assert_eq!(c.blocking_wait_next(AckEvent::Closed, begin + 3000 * MS), WaitStep::Finished);
    assert_eq!(c.send_conn_ids, ids(&[1, 2]));
    assert_eq!(c.fetched_conn_ids, ids(&[1]));
}

#[test]
fn receive_that_times_out_ends_the_wait() {
    let mut c = VideoFrameController::new(0);
    c.set_send(0, ids(&[1, 2]));
    assert_eq!(c.begin_wait(0, 3000), WaitStep::Receive { timeout_millis: 3000 });
    assert_eq!(c.blocking_wait_next(ack(1), 10 * MS), WaitStep::Receive { timeout_millis: 2990 });
    assert_eq!(c.blocking_wait_next(AckEvent::TimedOut, 3000 * MS), WaitStep::Finished);
    assert_eq!(c.send_conn_ids, ids(&[1, 2]));
    assert_eq!(c.fetched_conn_ids, ids(&[1]));
}

#[test]
fn wait_ends_as_soon_as_all_have_acknowledged() {
    let mut c = VideoFrameController::new(0);
    c.set_send(0, ids(&[1, 2]));
    assert_eq!(c.begin_wait(0, 3000), WaitStep::Receive { timeout_millis: 3000 });
    assert_eq!(c.blocking_wait_next(ack(2), 10 * MS), WaitStep::Receive { timeout_millis: 2990 });
    assert_eq!(c.blocking_wait_next(ack(1), 20 * MS), WaitStep::Finished);
    assert_eq!(c.send_conn_ids, ids(&[1, 2]));
    assert_eq!(c.fetched_conn_ids, ids(&[1, 2]));
}

#[test]
fn stray_acknowledgement_is_ignored_and_does_not_reset_the_timer() {
    let mut c = VideoFrameController::new(0);
    c.set_send(0, ids(&[1]));
    assert_eq!(c.begin_wait(0, 3000), WaitStep::Receive { timeout_millis: 3000 });
    assert_eq!(c.blocking_wait_next(ack(9), 1000 * MS), WaitStep::Receive { timeout_millis: 2000 });
    assert_eq!(c.send_conn_ids, ids(&[1]));
    assert!(c.fetched_conn_ids.is_empty());
    assert_eq!(
        c.blocking_wait_next(AckEvent::Closed, 1500 * MS),
        WaitStep::Receive { timeout_millis: 1500 }
    );
    assert_eq!(c.blocking_wait_next(ack(9), 3001 * MS), WaitStep::Finished);
}

#[test]
fn wait_of_no_time_is_over_at_once() {
    let mut c = VideoFrameController::new(0);
    c.set_send(0, ids(&[1]));
    assert_eq!(c.begin_wait(0, 0), WaitStep::Finished);
    assert_eq!(c.poll(0), WaitStep::Finished);
}

#[test]
fn waiting_does_not_disarm_the_controller() {
    let mut c = VideoFrameController::new(0);
    c.set_send(40, ids(&[1, 2]));
    assert_eq!(c.begin_wait(100, 3000), WaitStep::Receive { timeout_millis: 3000 });
    assert_eq!(c.blocking_wait_next(ack(1), 200), WaitStep::Receive { timeout_millis: 3000 });
    assert_eq!(c.blocking_wait_next(ack(2), 300), WaitStep::Finished);
    assert_eq!(c.send_conn_ids, ids(&[1, 2]));
    assert_eq!(c.cur, 40);
    assert!(c.all_acknowledged());
    // a second wait on the same frame waits for both connections again
    assert_eq!(c.begin_wait(10 * MS, 3000), WaitStep::Receive { timeout_millis: 3000 });
    assert!(c.fetched_conn_ids.is_empty());
    assert!(!c.all_acknowledged());
    assert_eq!(c.blocking_wait_next(ack(2), 11 * MS), WaitStep::Receive { timeout_millis: 2999 });
    assert_eq!(c.blocking_wait_next(ack(1), 12 * MS), WaitStep::Finished);
    assert_eq!(c.send_conn_ids, ids(&[1, 2]));
    assert_eq!(c.cur, 40);
}

#[test]
fn all_acknowledged_compares_armed_with_fetched() {
    let mut c = VideoFrameController::new(0);
    assert!(c.all_acknowledged());
    c.send_conn_ids = ids(&[1, 2, 3]);
    assert!(!c.all_acknowledged());
    c.fetched_conn_ids = ids(&[1, 3]);
    assert!(!c.all_acknowledged());
    c.fetched_conn_ids = ids(&[1, 2, 3, 4]);
    assert!(c.all_acknowledged());
}
