use launch_supervisor::error::SupervisorError;
use launch_supervisor::poll::{
    PollAction, ReadinessPoll, RETRY_BUDGET, RETRY_INTERVAL_MS, WAIT_CEILING_MS,
};

/// Runs a poll through `failures` failed probes and then, if asked, one that
/// succeeds; returns the poll and the pauses it asked for, in their order.
fn poll_after(failures: u32, then_ready: bool) -> (ReadinessPoll, Vec<u64>) {
    let mut poll = ReadinessPoll::new();
    let mut pauses = Vec::new();
    let probes = if then_ready { failures + 1 } else { failures };
    for probe in 0..probes {
        match poll.next_action() {
            PollAction::Probe { after_ms } => pauses.push(after_ms),
            PollAction::Finish(_) => panic!("the poll ended before probe {}", probe),
        }
        poll.record(then_ready && probe == failures);
    }
    (poll, pauses)
}

#[test]
fn budget_is_thirty_probes_half_a_second_apart() {
    assert_eq!(RETRY_BUDGET, 30);
    assert_eq!(RETRY_INTERVAL_MS, 500);
    assert_eq!(WAIT_CEILING_MS, 15000);
}

#[test]
fn fresh_poll_asks_for_a_probe_at_once() {
    let poll = ReadinessPoll::new();
    assert_eq!(poll.attempts(), 0);
    assert_eq!(poll.waited_ms(), 0);
    assert_eq!(poll.next_action(), PollAction::Probe { after_ms: 0 });
}

#[test]
fn later_probes_come_half_a_second_apart() {
    let (poll, pauses) = poll_after(4, false);
    assert_eq!(pauses, vec![0, 500, 500, 500]);
    assert_eq!(poll.next_action(), PollAction::Probe { after_ms: 500 });
    assert_eq!(poll.waited_ms(), 1500);
}

#[test]
fn first_probe_ready_ends_the_poll_without_a_pause() {
    let (poll, pauses) = poll_after(0, true);
    assert_eq!(poll.next_action(), PollAction::Finish(Ok(())));
    assert_eq!(pauses, vec![0]);
    assert_eq!(poll.attempts(), 1);
    assert_eq!(poll.waited_ms(), 0);
}

#[test]
fn one_failure_costs_one_pause() {
    let (poll, pauses) = poll_after(1, true);
    assert_eq!(poll.next_action(), PollAction::Finish(Ok(())));
    assert_eq!(pauses, vec![0, 500]);
    assert_eq!(poll.waited_ms(), 500);
}

#[test]
fn ready_after_any_number_of_failures_within_the_budget() {
    for failures in 0..30u32 {
        let (poll, pauses) = poll_after(failures, true);
        assert_eq!(poll.next_action(), PollAction::Finish(Ok(())));
        assert_eq!(poll.attempts(), failures + 1);
        assert_eq!(poll.waited_ms(), u64::from(failures) * 500);
        assert_eq!(pauses.iter().sum::<u64>(), u64::from(failures) * 500);
    }
}

#[test]
fn ready_on_the_last_probe_of_the_budget() {
    let (poll, _) = poll_after(29, true);
    assert_eq!(poll.next_action(), PollAction::Finish(Ok(())));
    assert_eq!(poll.attempts(), 30);
    assert_eq!(poll.waited_ms(), 14500);
}

#[test]
fn thirty_failures_time_out() {
    let (poll, pauses) = poll_after(30, false);
    assert_eq!(
        poll.next_action(),
        PollAction::Finish(Err(SupervisorError::StartupTimeout))
    );
    assert_eq!(poll.attempts(), 30);
    assert_eq!(pauses.len(), 30);
    assert_eq!(poll.waited_ms(), 14500);
    assert_eq!(pauses.iter().sum::<u64>(), 14500);
    assert!(poll.waited_ms() < WAIT_CEILING_MS);
}

#[test]
fn twenty_nine_failures_do_not_time_out() {
    let (poll, _) = poll_after(29, false);
    assert_eq!(poll.next_action(), PollAction::Probe { after_ms: 500 });
    assert_eq!(poll.waited_ms(), 14000);
}

#[test]
fn answer_after_timeout_changes_nothing() {
    let (mut poll, _) = poll_after(30, false);
    poll.record(true);
    assert_eq!(poll.attempts(), 30);
    assert_eq!(poll.waited_ms(), 14500);
    assert_eq!(
        poll.next_action(),
        PollAction::Finish(Err(SupervisorError::StartupTimeout))
    );
}

#[test]
fn answer_after_success_changes_nothing() {
    let (mut poll, _) = poll_after(3, true);
    poll.record(false);
    assert_eq!(poll.attempts(), 4);
    assert_eq!(poll.waited_ms(), 1500);
    assert_eq!(poll.next_action(), PollAction::Finish(Ok(())));
}
