//! The supervisor of the embedded static-file server. It owns the slot for
//! the server handle and decides each step of a start and of a stop; the
//! caller resolves the content directory, binds the listener, serves, and
//! shuts the server down.

use vstd::prelude::*;
use crate::error::SupervisorError;
use crate::layout::{Layout, ServePlan, ServePlanView};
use crate::slot::HandleSlot;

verus! {

/// What `begin_start` decided.
#[derive(Debug, PartialEq, Eq)]
pub enum ServeDecision {
    /// A server is stored: the start has succeeded, and nothing is bound.
    AlreadyRunning,
    /// Nothing is stored: bind and serve by this plan.
    Serve(ServePlan),
}

/// A serve decision over plain sequences.
pub enum ServeDecisionView {
    AlreadyRunning,
    Serve(ServePlanView),
}

impl View for ServeDecision {
    type V = ServeDecisionView;

    open spec fn view(&self) -> ServeDecisionView {
        match self {
            ServeDecision::AlreadyRunning => ServeDecisionView::AlreadyRunning,
            ServeDecision::Serve(plan) => ServeDecisionView::Serve(plan@),
        }
    }
}

/// How the bind that a plan asked for went.
#[derive(Debug, PartialEq, Eq)]
pub enum BindOutcome<H> {
    /// The resource directory is not known; the payload is the cause.
    NoResourceDir(String),
    /// The route asks for a parent directory where there is none.
    NoParent,
    /// The content directory does not exist; the payload is its path.
    Missing(String),
    /// The address could not be bound; the payload is the cause.
    Refused(String),
    /// The server is bound, and this handle stops it. It is to be served from
    /// a task of its own.
    Bound(H),
}

/// What `begin_stop` decided.
#[derive(Debug, PartialEq, Eq)]
pub enum HaltDecision<H> {
    /// Nothing was stored: there is nothing to do.
    Idle,
    /// This handle was stored: shut its server down gracefully, and wait
    /// until it has stopped.
    Shutdown(H),
}

/// The decision of a start on a slot that holds `held`.
pub open spec fn serve_decision<H>(held: Option<H>, layout: Layout) -> ServeDecisionView {
    if held.is_some() {
        ServeDecisionView::AlreadyRunning
    } else {
        ServeDecisionView::Serve(layout.serve_plan())
    }
}

/// The result of a start whose bind went as `outcome`.
pub open spec fn bind_result<H>(outcome: BindOutcome<H>) -> Result<(), SupervisorError> {
    match outcome {
        BindOutcome::NoResourceDir(cause) => Err(SupervisorError::ResourceDirUnavailable(cause)),
        BindOutcome::NoParent => Err(SupervisorError::NoParentDirectory),
        BindOutcome::Missing(path) => Err(SupervisorError::ContentRootNotFound(path)),
        BindOutcome::Refused(cause) => Err(SupervisorError::BindFailed(cause)),
        BindOutcome::Bound(_) => Ok(()),
    }
}

/// The handle that a bind which went as `outcome` leaves to be stored.
pub open spec fn bound_handle<H>(outcome: BindOutcome<H>) -> Option<H> {
    match outcome {
        BindOutcome::Bound(handle) => Some(handle),
        _ => None,
    }
}

/// The decision of a stop on a slot that holds `held`.
pub open spec fn halt_decision<H>(held: Option<H>) -> HaltDecision<H> {
    match held {
        Some(handle) => HaltDecision::Shutdown(handle),
        None => HaltDecision::Idle,
    }
}

/// Owner of at most one running server, known by a handle of type `H`.
pub struct ServiceSupervisor<H> {
    slot: HandleSlot<H>,
}

impl<H> ServiceSupervisor<H> {
    /// The handle of the server that the supervisor holds, if any.
    pub closed spec fn handle(&self) -> Option<H> {
        self.slot.holding()
    }

    /// A supervisor that holds no server.
    pub fn new() -> (supervisor: Self)
        ensures
            supervisor.handle().is_none(),
    {
        ServiceSupervisor { slot: HandleSlot::new() }
    }

    /// Tells whether a server is stored.
    pub fn is_running(&self) -> (running: bool)
        ensures
            running == self.handle().is_some(),
    {
        self.slot.is_occupied()
    }

    /// First step of a start: with a server stored the start is over and has
    /// succeeded; with none, the content is to be served as `layout` has it.
    pub fn begin_start(&self, layout: Layout) -> (decision: ServeDecision)
        ensures
            decision@ == serve_decision(self.handle(), layout),
    {
        if self.slot.is_occupied() {
            ServeDecision::AlreadyRunning
        } else {
            ServeDecision::Serve(layout.content())
        }
    }

    /// Second step of a start, on the outcome of the bind: the handle is
    /// stored and the start has succeeded, or the start fails with the error
    /// of the outcome and the slot stays empty.
    pub fn complete_start(&mut self, outcome: BindOutcome<H>) -> (started: Result<
        (),
        SupervisorError,
    >)
        requires
            old(self).handle().is_none(),
        ensures
            final(self).handle() == bound_handle(outcome),
            started == bind_result(outcome),
    {
        match outcome {
            BindOutcome::NoResourceDir(cause) => Err(
                SupervisorError::ResourceDirUnavailable(cause),
            ),
            BindOutcome::NoParent => Err(SupervisorError::NoParentDirectory),
            BindOutcome::Missing(path) => Err(SupervisorError::ContentRootNotFound(path)),
            BindOutcome::Refused(cause) => Err(SupervisorError::BindFailed(cause)),
            BindOutcome::Bound(handle) => {
                self.slot.store(handle);
                Ok(())
            },
        }
    }

    /// The one step of a stop: the slot is emptied, and the handle that it
    /// held, if any, is handed out for the shutdown. A shutdown cannot fail,
    /// so a stop has succeeded once it has been carried out.
    pub fn begin_stop(&mut self) -> (decision: HaltDecision<H>)
        ensures
            decision == halt_decision(old(self).handle()),
            final(self).handle().is_none(),
    {
        match self.slot.take() {
            Some(handle) => HaltDecision::Shutdown(handle),
            None => HaltDecision::Idle,
        }
    }
}

/// A whole start, from `begin_start` to `complete_start`.
pub struct ServeRun<H> {
    /// What `begin_start` decided.
    pub decision: ServeDecisionView,
    /// What the slot holds after the start.
    pub held: Option<H>,
    /// The result of the start.
    pub result: Result<(), SupervisorError>,
}

/// The start of a supervisor whose slot holds `held`, where a bind, if one is
/// asked for, goes as `outcome`.
pub open spec fn serve_run<H>(held: Option<H>, layout: Layout, outcome: BindOutcome<H>) -> ServeRun<
    H,
> {
    let decision = serve_decision(held, layout);
    match decision {
        ServeDecisionView::AlreadyRunning => ServeRun { decision, held, result: Ok(()) },
        ServeDecisionView::Serve(_) => ServeRun {
            decision,
            held: bound_handle(outcome),
            result: bind_result(outcome),
        },
    }
}

/// A whole stop.
pub struct HaltRun<H> {
    /// What `begin_stop` decided.
    pub decision: HaltDecision<H>,
    /// What the slot holds after the stop.
    pub held: Option<H>,
    /// The result of the stop.
    pub result: Result<(), SupervisorError>,
}

/// The stop of a supervisor whose slot holds `held`.
pub open spec fn halt_run<H>(held: Option<H>) -> HaltRun<H> {
    HaltRun { decision: halt_decision(held), held: None, result: Ok(()) }
}

/// A start that succeeds leaves a handle stored. A start that follows it,
/// whatever its surroundings, asks for no bind, leaves that same handle
/// stored, and succeeds.
pub proof fn start_is_idempotent<H>(
    held: Option<H>,
    layout: Layout,
    outcome: BindOutcome<H>,
    next_layout: Layout,
    next_outcome: BindOutcome<H>,
)
    requires
        serve_run(held, layout, outcome).result.is_ok(),
    ensures
        ({
            let first = serve_run(held, layout, outcome);
            let second = serve_run(first.held, next_layout, next_outcome);
            &&& first.held.is_some()
            &&& second.decision == ServeDecisionView::AlreadyRunning
            &&& second.held == first.held
            &&& second.result == Ok::<(), SupervisorError>(())
        }),
{
}

/// A start that fails stores nothing, so that the start that follows it
/// binds anew, and succeeds where that bind does.
pub proof fn failed_start_can_be_retried<H>(
    layout: Layout,
    outcome: BindOutcome<H>,
    next_layout: Layout,
    handle: H,
)
    requires
        bind_result(outcome).is_err(),
    ensures
        ({
            let first = serve_run(None, layout, outcome);
            let second = serve_run(first.held, next_layout, BindOutcome::Bound(handle));
            &&& first.result == bind_result(outcome)
            &&& first.held.is_none()
            &&& second.decision == ServeDecisionView::Serve(next_layout.serve_plan())
            &&& second.held == Some(handle)
            &&& second.result == Ok::<(), SupervisorError>(())
        }),
{
}

/// A stop with nothing stored asks for no shutdown, succeeds, and leaves the
/// slot empty.
pub proof fn stop_of_nothing_is_no_op<H>()
    ensures
        halt_run(None::<H>).decision == HaltDecision::<H>::Idle,
        halt_run(None::<H>).result == Ok::<(), SupervisorError>(()),
        halt_run(None::<H>).held.is_none(),
{
}

} // verus!
