//! Waiting for the backend to answer: a bounded number of probes at a fixed
//! spacing, ended by the first probe that finds the backend ready. The first
//! probe is made at once; a pause stands between each probe and the next.

use vstd::prelude::*;
use crate::error::SupervisorError;

verus! {

/// The number of probes after which the wait is given up.
pub const RETRY_BUDGET: u32 = 30;

/// The pause between one probe and the next, in milliseconds.
pub const RETRY_INTERVAL_MS: u64 = 500;

/// The time within which a poll ends, in milliseconds.
pub const WAIT_CEILING_MS: u64 = 15000;

/// What the caller does next for a poll.
#[derive(Debug, PartialEq, Eq)]
pub enum PollAction {
    /// Pause for `after_ms` milliseconds, probe once, and record the answer.
    Probe { after_ms: u64 },
    /// Stop: the start has this result.
    Finish(Result<(), SupervisorError>),
}

/// A poll as a mathematical value.
pub struct PollState {
    /// The probes recorded so far.
    pub attempts: nat,
    /// Whether the last of them found the backend ready.
    pub ready: bool,
}

impl PollState {
    /// The poll before any probe.
    pub open spec fn fresh() -> PollState {
        PollState { attempts: 0, ready: false }
    }

    /// Whether the budget ran out without a ready answer.
    pub open spec fn timed_out(self) -> bool {
        !self.ready && self.attempts >= RETRY_BUDGET
    }

    /// Whether no further probe is due.
    pub open spec fn settled(self) -> bool {
        self.ready || self.timed_out()
    }

    /// The poll after one more answer. A settled poll takes no answer.
    pub open spec fn record(self, ready: bool) -> PollState {
        if self.settled() {
            self
        } else {
            PollState { attempts: self.attempts + 1, ready }
        }
    }

    /// The poll once it has settled, where the probe made after `n` recorded
    /// ones is answered `answers(n)`.
    pub open spec fn conclude(self, answers: spec_fn(nat) -> bool) -> PollState
        decreases RETRY_BUDGET - self.attempts,
    {
        if self.settled() {
            self
        } else {
            self.record(answers(self.attempts)).conclude(answers)
        }
    }

    /// The result of the start, once the poll has settled.
    pub open spec fn result(self) -> Option<Result<(), SupervisorError>> {
        if self.ready {
            Some(Ok(()))
        } else if self.timed_out() {
            Some(Err(SupervisorError::StartupTimeout))
        } else {
            None
        }
    }

    /// The pause before the next probe, in milliseconds: none before the
    /// first, the fixed interval before every other.
    pub open spec fn pause_ms(self) -> u64 {
        if self.attempts == 0 {
            0
        } else {
            RETRY_INTERVAL_MS
        }
    }

    /// What is due next: the result where there is one, else a probe.
    pub open spec fn next(self) -> PollAction {
        match self.result() {
            Some(result) => PollAction::Finish(result),
            None => PollAction::Probe { after_ms: self.pause_ms() },
        }
    }

    /// The time spent pausing so far, in milliseconds: one interval for each
    /// recorded probe but the first.
    pub open spec fn waited_ms(self) -> nat {
        if self.attempts == 0 {
            0
        } else {
            (self.attempts - 1) as nat * (RETRY_INTERVAL_MS as nat)
        }
    }
}

/// The readiness poll of one start.
#[derive(Debug, Clone, Copy, PartialEq, Eq)]
pub struct ReadinessPoll {
    attempts: u32,
    ready: bool,
}

impl View for ReadinessPoll {
    type V = PollState;

    closed spec fn view(&self) -> PollState {
        PollState { attempts: self.attempts as nat, ready: self.ready }
    }
}

impl ReadinessPoll {
    /// A poll before any probe.
    pub fn new() -> (poll: ReadinessPoll)
        ensures
            poll@ == PollState::fresh(),
    {
        ReadinessPoll { attempts: 0, ready: false }
    }

    /// What the caller does next.
    pub fn next_action(&self) -> (action: PollAction)
        ensures
            action == self@.next(),
    {
        if self.ready {
            PollAction::Finish(Ok(()))
        } else if self.attempts >= RETRY_BUDGET {
            PollAction::Finish(Err(SupervisorError::StartupTimeout))
        } else if self.attempts == 0 {
            PollAction::Probe { after_ms: 0 }
        } else {
            PollAction::Probe { after_ms: RETRY_INTERVAL_MS }
        }
    }

    /// Records the answer of the probe that `next_action` asked for. An
    /// answer that comes after the poll has settled changes nothing.
    pub fn record(&mut self, ready: bool)
        ensures
            final(self)@ == old(self)@.record(ready),
    {
        if !self.ready && self.attempts < RETRY_BUDGET {
            self.attempts = self.attempts + 1;
            self.ready = ready;
        }
    }

    /// The number of probes recorded.
    pub fn attempts(&self) -> (count: u32)
        ensures
            count == self@.attempts,
    {
        self.attempts
    }

    /// The time spent pausing so far, in milliseconds.
    pub fn waited_ms(&self) -> (elapsed: u64)
        ensures
            elapsed == self@.waited_ms(),
    {
        if self.attempts == 0 {
            0
        } else {
            let pauses: u64 = (self.attempts - 1) as u64;
            proof {
                assert(pauses * RETRY_INTERVAL_MS <= 0xffff_ffff * 500) by (nonlinear_arith)
                    requires
                        pauses <= 0xffff_ffff,
                        RETRY_INTERVAL_MS == 500,
                ;
            }
            pauses * RETRY_INTERVAL_MS
        }
    }
}

/// Whether the first `count` probes are all answered "not ready".
pub open spec fn all_fail(answers: spec_fn(nat) -> bool, count: nat) -> bool {
    forall|n: nat| n < count ==> !#[trigger] answers(n)
}

/// A poll that has not settled, and whose probes fail up to one that
/// succeeds within the budget, settles ready at that probe.
proof fn concludes_ready(poll: PollState, answers: spec_fn(nat) -> bool, failures: nat)
    requires
        !poll.ready,
        poll.attempts <= failures < RETRY_BUDGET,
        forall|n: nat| poll.attempts <= n < failures ==> !#[trigger] answers(n),
        answers(failures),
    ensures
        poll.conclude(answers) == (PollState { attempts: failures + 1, ready: true }),
    decreases failures - poll.attempts,
{
    if poll.attempts < failures {
        concludes_ready(poll.record(answers(poll.attempts)), answers, failures);
    } else {
        let last = poll.record(answers(poll.attempts));
        assert(last.conclude(answers) == last);
    }
}

/// A poll that has not settled, and whose probes fail until the budget is
/// spent, settles timed out.
proof fn concludes_timed_out(poll: PollState, answers: spec_fn(nat) -> bool)
    requires
        !poll.ready,
        poll.attempts <= RETRY_BUDGET,
        forall|n: nat| poll.attempts <= n < RETRY_BUDGET ==> !#[trigger] answers(n),
    ensures
        poll.conclude(answers) == (PollState { attempts: RETRY_BUDGET as nat, ready: false }),
    decreases RETRY_BUDGET - poll.attempts,
{
    if poll.attempts < RETRY_BUDGET {
        concludes_timed_out(poll.record(answers(poll.attempts)), answers);
    }
}

/// The first probe of a poll is due at once, and every later one after the
/// fixed interval.
pub proof fn first_probe_is_due_at_once()
    ensures
        PollState::fresh().next() == (PollAction::Probe { after_ms: 0 }),
        forall|poll: PollState|
            poll.attempts > 0 && poll.result().is_none() ==> #[trigger] poll.next() == (
                PollAction::Probe { after_ms: RETRY_INTERVAL_MS }
            ),
{
}

/// After `failures` failed probes, at most 29, and one that succeeds, the
/// poll ends with success. It has made `failures + 1` probes and paused 500
/// milliseconds after each that failed: `failures` times 500 in all, and not
/// at all where the first probe succeeds.
pub proof fn ready_after_failures(answers: spec_fn(nat) -> bool, failures: nat)
    requires
        failures < RETRY_BUDGET,
        all_fail(answers, failures),
        answers(failures),
    ensures
        PollState::fresh().conclude(answers).next() == PollAction::Finish(Ok(())),
        PollState::fresh().conclude(answers).attempts == failures + 1,
        PollState::fresh().conclude(answers).waited_ms() == failures * 500,
{
    concludes_ready(PollState::fresh(), answers, failures);
}

/// After 30 failed probes the poll ends with `StartupTimeout`, however later
/// probes would have been answered. It has paused 29 times, 14.5 seconds in
/// all.
pub proof fn timeout_after_budget(answers: spec_fn(nat) -> bool)
    requires
        all_fail(answers, RETRY_BUDGET as nat),
    ensures
        PollState::fresh().conclude(answers).next() == PollAction::Finish(
            Err(SupervisorError::StartupTimeout),
        ),
        PollState::fresh().conclude(answers).attempts == RETRY_BUDGET,
        PollState::fresh().conclude(answers).waited_ms() == 14500,
{
    concludes_timed_out(PollState::fresh(), answers);
}

/// However the probes are answered, a poll settles within the budget: it
/// ends with a result, after at least one probe and at most 30, and its
/// pauses stay under the ceiling of 15 seconds.
pub proof fn poll_settles(answers: spec_fn(nat) -> bool)
    ensures
        PollState::fresh().conclude(answers).settled(),
        PollState::fresh().conclude(answers).result().is_some(),
        1 <= PollState::fresh().conclude(answers).attempts <= RETRY_BUDGET,
        PollState::fresh().conclude(answers).waited_ms() < WAIT_CEILING_MS,
{
    settles_from(PollState::fresh(), answers);
    assert(PollState::fresh().conclude(answers) == PollState::fresh().record(answers(0)).conclude(
        answers,
    ));
    settles_from(PollState::fresh().record(answers(0)), answers);
}

/// A poll within the budget settles within the budget, and at no fewer
/// probes than it has.
proof fn settles_from(poll: PollState, answers: spec_fn(nat) -> bool)
    requires
        poll.attempts <= RETRY_BUDGET,
    ensures
        poll.conclude(answers).settled(),
        poll.attempts <= poll.conclude(answers).attempts <= RETRY_BUDGET,
    decreases RETRY_BUDGET - poll.attempts,
{
    if !poll.settled() {
        settles_from(poll.record(answers(poll.attempts)), answers);
    }
}

} // verus!
