//! The supervisor of the backend process. It owns the slot for the process
//! handle and decides each step of a start and of a stop; the caller resolves
//! paths, creates the process, probes it and signals it.
//!
//! A supervisor with an empty slot is idle. A start takes it through
//! starting to ready, or to failed; a stop takes it back to idle.
//!
//! A start runs in two parts. The first, from `begin_start` to
//! `complete_launch`, is to be made under the lock that guards the supervisor.
//! The second is the readiness poll that `complete_launch` hands out: it does
//! not touch the supervisor, so that a stop never waits behind it. A start
//! that times out leaves the process stored: it may yet come up, and a later
//! start finds it and succeeds at once.

use vstd::prelude::*;
use crate::error::SupervisorError;
use crate::layout::{LaunchPlan, LaunchPlanView, Layout};
use crate::poll::{
    all_fail, ready_after_failures, timeout_after_budget, PollState, ReadinessPoll, RETRY_BUDGET,
    WAIT_CEILING_MS,
};
use crate::slot::HandleSlot;

verus! {

/// What `begin_start` decided.
#[derive(Debug, PartialEq, Eq)]
pub enum LaunchDecision {
    /// A process is stored: the start has succeeded, and nothing is launched.
    AlreadyRunning,
    /// Nothing is stored: launch the backend by this plan.
    Launch(LaunchPlan),
}

/// A launch decision over plain sequences.
pub enum LaunchDecisionView {
    AlreadyRunning,
    Launch(LaunchPlanView),
}

impl View for LaunchDecision {
    type V = LaunchDecisionView;

    open spec fn view(&self) -> LaunchDecisionView {
        match self {
            LaunchDecision::AlreadyRunning => LaunchDecisionView::AlreadyRunning,
            LaunchDecision::Launch(plan) => LaunchDecisionView::Launch(plan@),
        }
    }
}

/// How the launch that a plan asked for went.
#[derive(Debug, PartialEq, Eq)]
pub enum LaunchOutcome<H> {
    /// The resource directory is not known; the payload is the cause.
    NoResourceDir(String),
    /// The route asks for a parent directory where there is none.
    NoParent,
    /// The target had to exist and does not; the payload is its path.
    Missing(String),
    /// The operating system refused the process; the payload is the cause.
    Refused(String),
    /// The process runs, and this is its handle.
    Spawned(H),
}

/// What `begin_stop` decided.
#[derive(Debug, PartialEq, Eq)]
pub enum StopDecision<H> {
    /// Nothing was stored: there is nothing to do.
    Idle,
    /// This handle was stored: send its process the terminate signal.
    Terminate(H),
}

/// The decision of a start on a slot that holds `held`.
pub open spec fn launch_decision<H>(held: Option<H>, layout: Layout) -> LaunchDecisionView {
    if held.is_some() {
        LaunchDecisionView::AlreadyRunning
    } else {
        LaunchDecisionView::Launch(layout.launch_plan())
    }
}

/// The error of a launch that went as `outcome`, if it is one.
pub open spec fn launch_failure<H>(outcome: LaunchOutcome<H>) -> Option<SupervisorError> {
    match outcome {
        LaunchOutcome::NoResourceDir(cause) => Some(
            SupervisorError::ResourceDirUnavailable(cause),
        ),
        LaunchOutcome::NoParent => Some(SupervisorError::NoParentDirectory),
        LaunchOutcome::Missing(path) => Some(SupervisorError::ExecutableNotFound(path)),
        LaunchOutcome::Refused(cause) => Some(SupervisorError::SpawnFailed(cause)),
        LaunchOutcome::Spawned(_) => None,
    }
}

/// The handle that a launch which went as `outcome` leaves to be stored.
pub open spec fn launched_handle<H>(outcome: LaunchOutcome<H>) -> Option<H> {
    match outcome {
        LaunchOutcome::Spawned(handle) => Some(handle),
        _ => None,
    }
}

/// The decision of a stop on a slot that holds `held`.
pub open spec fn stop_decision<H>(held: Option<H>) -> StopDecision<H> {
    match held {
        Some(handle) => StopDecision::Terminate(handle),
        None => StopDecision::Idle,
    }
}

/// The result of a stop whose signal went as `signalled`.
pub open spec fn stop_result(signalled: Result<(), String>) -> Result<(), SupervisorError> {
    match signalled {
        Ok(()) => Ok(()),
        Err(cause) => Err(SupervisorError::KillFailed(cause)),
    }
}

/// Owner of at most one backend process, known by a handle of type `H`.
pub struct ProcessSupervisor<H> {
    slot: HandleSlot<H>,
}

impl<H> ProcessSupervisor<H> {
    /// The handle of the process that the supervisor holds, if any.
    pub closed spec fn handle(&self) -> Option<H> {
        self.slot.holding()
    }

    /// A supervisor that holds no process.
    pub fn new() -> (supervisor: Self)
        ensures
            supervisor.handle().is_none(),
    {
        ProcessSupervisor { slot: HandleSlot::new() }
    }

    /// Tells whether a process is stored.
    pub fn is_running(&self) -> (running: bool)
        ensures
            running == self.handle().is_some(),
    {
        self.slot.is_occupied()
    }

    /// First step of a start: with a process stored the start is over and has
    /// succeeded; with none, the backend is to be launched as `layout` has it.
    pub fn begin_start(&self, layout: Layout) -> (decision: LaunchDecision)
        ensures
            decision@ == launch_decision(self.handle(), layout),
    {
        if self.slot.is_occupied() {
            LaunchDecision::AlreadyRunning
        } else {
            LaunchDecision::Launch(layout.backend())
        }
    }

    /// Second step of a start, on the outcome of the launch: a handle is
    /// stored and the readiness poll begins, or the start fails with the
    /// error of the outcome and the slot stays empty.
    pub fn complete_launch(&mut self, outcome: LaunchOutcome<H>) -> (started: Result<
        ReadinessPoll,
        SupervisorError,
    >)
        requires
            old(self).handle().is_none(),
        ensures
            final(self).handle() == launched_handle(outcome),
            match launch_failure(outcome) {
                Some(error) => started == Err::<ReadinessPoll, SupervisorError>(error),
                None => started matches Ok(poll) && poll@ == PollState::fresh(),
            },
    {
        match outcome {
            LaunchOutcome::NoResourceDir(cause) => Err(
                SupervisorError::ResourceDirUnavailable(cause),
            ),
            LaunchOutcome::NoParent => Err(SupervisorError::NoParentDirectory),
            LaunchOutcome::Missing(path) => Err(SupervisorError::ExecutableNotFound(path)),
            LaunchOutcome::Refused(cause) => Err(SupervisorError::SpawnFailed(cause)),
            LaunchOutcome::Spawned(handle) => {
                self.slot.store(handle);
                Ok(ReadinessPoll::new())
            },
        }
    }

    /// First step of a stop: the slot is emptied, and the handle that it
    /// held, if any, is handed out to be signalled.
    pub fn begin_stop(&mut self) -> (decision: StopDecision<H>)
        ensures
            decision == stop_decision(old(self).handle()),
            final(self).handle().is_none(),
    {
        match self.slot.take() {
            Some(handle) => StopDecision::Terminate(handle),
            None => StopDecision::Idle,
        }
    }

    /// Second step of a stop, on the outcome of the signal. The slot stays
    /// empty either way.
    pub fn complete_stop(&self, signalled: Result<(), String>) -> (stopped: Result<
        (),
        SupervisorError,
    >)
        ensures
            stopped == stop_result(signalled),
    {
        match signalled {
            Ok(()) => Ok(()),
            Err(cause) => Err(SupervisorError::KillFailed(cause)),
        }
    }
}

/// A whole start, from `begin_start` to the end of the poll.
pub struct StartRun<H> {
    /// What `begin_start` decided.
    pub decision: LaunchDecisionView,
    /// What the slot holds after the start.
    pub held: Option<H>,
    /// The poll as it ended; a start that did not come to poll leaves it
    /// fresh.
    pub poll: PollState,
    /// The result of the start.
    pub result: Result<(), SupervisorError>,
}

/// The start of a supervisor whose slot holds `held`, where a launch, if one
/// is asked for, goes as `outcome`, and the probe made after `n` others is
/// answered `answers(n)`.
pub open spec fn start_run<H>(
    held: Option<H>,
    layout: Layout,
    outcome: LaunchOutcome<H>,
    answers: spec_fn(nat) -> bool,
) -> StartRun<H> {
    let decision = launch_decision(held, layout);
    match decision {
        LaunchDecisionView::AlreadyRunning => StartRun {
            decision,
            held,
            poll: PollState::fresh(),
            result: Ok(()),
        },
        LaunchDecisionView::Launch(_) => match launch_failure(outcome) {
            Some(error) => StartRun {
                decision,
                held: launched_handle(outcome),
                poll: PollState::fresh(),
                result: Err(error),
            },
            None => {
                let poll = PollState::fresh().conclude(answers);
                StartRun {
                    decision,
                    held: launched_handle(outcome),
                    poll,
                    result: if poll.ready {
                        Ok(())
                    } else {
                        Err(SupervisorError::StartupTimeout)
                    },
                }
            },
        },
    }
}

/// A whole stop, from `begin_stop` to `complete_stop`.
pub struct StopRun<H> {
    /// What `begin_stop` decided.
    pub decision: StopDecision<H>,
    /// What the slot holds after the stop.
    pub held: Option<H>,
    /// The result of the stop.
    pub result: Result<(), SupervisorError>,
}

/// The stop of a supervisor whose slot holds `held`, where the signal, if one
/// is asked for, goes as `signalled`.
pub open spec fn stop_run<H>(held: Option<H>, signalled: Result<(), String>) -> StopRun<H> {
    let decision = stop_decision(held);
    StopRun {
        decision,
        held: None,
        result: match decision {
            StopDecision::Idle => Ok(()),
            StopDecision::Terminate(_) => stop_result(signalled),
        },
    }
}

/// A start that succeeds leaves a handle stored. A start that follows it,
/// whatever its surroundings, asks for no launch, leaves that same handle
/// stored, and succeeds without waiting.
pub proof fn start_is_idempotent<H>(
    held: Option<H>,
    layout: Layout,
    outcome: LaunchOutcome<H>,
    answers: spec_fn(nat) -> bool,
    next_layout: Layout,
    next_outcome: LaunchOutcome<H>,
    next_answers: spec_fn(nat) -> bool,
)
    requires
        start_run(held, layout, outcome, answers).result.is_ok(),
    ensures
        ({
            let first = start_run(held, layout, outcome, answers);
            let second = start_run(first.held, next_layout, next_outcome, next_answers);
            &&& first.held.is_some()
            &&& second.decision == LaunchDecisionView::AlreadyRunning
            &&& second.held == first.held
            &&& second.result == Ok::<(), SupervisorError>(())
            &&& second.poll.waited_ms() == 0
        }),
{
}

/// Where nothing is stored, the launch succeeds, and `failures` probes fail,
/// at most 29, before one succeeds, the start succeeds with the new handle
/// stored, after `failures` pauses of 500 milliseconds: one after each probe
/// that failed.
pub proof fn start_succeeds_after_failures<H>(
    layout: Layout,
    handle: H,
    answers: spec_fn(nat) -> bool,
    failures: nat,
)
    requires
        failures < RETRY_BUDGET,
        all_fail(answers, failures),
        answers(failures),
    ensures
        ({
            let run = start_run(None, layout, LaunchOutcome::Spawned(handle), answers);
            &&& run.decision == LaunchDecisionView::Launch(layout.launch_plan())
            &&& run.result == Ok::<(), SupervisorError>(())
            &&& run.held == Some(handle)
            &&& run.poll.attempts == failures + 1
            &&& run.poll.waited_ms() == failures * 500
        }),
{
    ready_after_failures(answers, failures);
}

/// Where nothing is stored, the launch succeeds, and 30 probes fail one
/// after the other, the start fails with `StartupTimeout`, within the ceiling
/// of 15 seconds, and the new handle stays stored.
pub proof fn start_times_out_and_keeps_handle<H>(
    layout: Layout,
    handle: H,
    answers: spec_fn(nat) -> bool,
)
    requires
        all_fail(answers, RETRY_BUDGET as nat),
    ensures
        ({
            let run = start_run(None, layout, LaunchOutcome::Spawned(handle), answers);
            &&& run.result == Err::<(), SupervisorError>(SupervisorError::StartupTimeout)
            &&& run.held == Some(handle)
            &&& run.poll.attempts == RETRY_BUDGET
            &&& run.poll.waited_ms() == 14500
            &&& run.poll.waited_ms() < WAIT_CEILING_MS
        }),
{
    timeout_after_budget(answers);
}

/// A start whose launch fails stores nothing, fails with the error of the
/// launch, and makes no probe.
pub proof fn failed_launch_stores_nothing<H>(
    layout: Layout,
    outcome: LaunchOutcome<H>,
    answers: spec_fn(nat) -> bool,
)
    requires
        launch_failure(outcome).is_some(),
    ensures
        ({
            let run = start_run(None, layout, outcome, answers);
            &&& run.held.is_none()
            &&& run.result == Err::<(), SupervisorError>(launch_failure(outcome).unwrap())
            &&& run.poll.attempts == 0
        }),
{
}

/// A stop with nothing stored asks for no signal, succeeds whatever a signal
/// would have come to, and leaves the slot empty.
pub proof fn stop_of_nothing_is_no_op<H>(signalled: Result<(), String>)
    ensures
        stop_run(None::<H>, signalled).decision == StopDecision::<H>::Idle,
        stop_run(None::<H>, signalled).result == Ok::<(), SupervisorError>(()),
        stop_run(None::<H>, signalled).held.is_none(),
{
}

/// A stop leaves the slot empty, whether the signal is delivered or not, and
/// a stop that follows it is a no-op.
pub proof fn stop_empties_slot<H>(
    held: Option<H>,
    signalled: Result<(), String>,
    next_signalled: Result<(), String>,
)
    ensures
        stop_run(held, signalled).held.is_none(),
        stop_run(stop_run(held, signalled).held, next_signalled).decision == StopDecision::<
            H,
        >::Idle,
        stop_run(stop_run(held, signalled).held, next_signalled).result == Ok::<
            (),
            SupervisorError,
        >(()),
{
}

} // verus!
