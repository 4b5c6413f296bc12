//! The order of startup and shutdown. At launch the backend process is
//! started, then the web server, and the shell is sent to the served site; at
//! exit the web server is stopped, then the process.
//!
//! Each sequence is a state machine: `step` takes the state and an event and
//! gives the next state and what the caller does next.

use vstd::prelude::*;
use crate::endpoint::{site_root_url, EndpointDescriptor};
use crate::error::SupervisorError;
use crate::layout::Layout;
use crate::process::{start_run, stop_run, LaunchOutcome, StartRun, StopDecision, StopRun};
use crate::service::{halt_run, serve_run, BindOutcome, HaltDecision, HaltRun, ServeRun};

verus! {

/// The pause before the shell is sent to the site, in milliseconds. It
/// tolerates a server that is slow to serve after it is bound.
pub const NAVIGATION_DELAY_MS: u64 = 3000;

/// What a sequence is told.
#[derive(Debug, PartialEq, Eq)]
pub enum SequenceEvent {
    /// The sequence is to begin.
    Begin,
    /// The action that the last step asked for has been carried out, with
    /// this result.
    Done(Result<(), SupervisorError>),
}

/// Where a startup stands.
#[derive(Debug, Clone, Copy, PartialEq, Eq, Structural)]
pub enum Startup {
    /// Not begun.
    Idle,
    /// The process supervisor has been asked to start.
    StartingProcess,
    /// The process is ready; the service supervisor has been asked to start.
    StartingService,
    /// Both run; the shell has been asked to show the site.
    Navigating,
    /// Over: both run.
    Complete,
    /// Over: a start failed, and what came after it was not tried.
    Abandoned,
}

/// What the caller does next in a startup.
#[derive(Debug, PartialEq, Eq)]
pub enum StartupAction {
    /// Nothing: the event did not fit the state.
    Nothing,
    /// Start the backend process, and report the result.
    StartProcess,
    /// Start the web server, and report the result.
    StartService,
    /// Pause for `after_ms` milliseconds, send the shell to `url`, and report.
    Navigate { url: String, after_ms: u64 },
    /// The startup is over, with this result.
    Finish(Result<(), SupervisorError>),
}

/// A startup action over plain sequences.
pub enum StartupActionView {
    Nothing,
    StartProcess,
    StartService,
    Navigate { url: Seq<char>, after_ms: u64 },
    Finish(Result<(), SupervisorError>),
}

impl View for StartupAction {
    type V = StartupActionView;

    open spec fn view(&self) -> StartupActionView {
        match self {
            StartupAction::Nothing => StartupActionView::Nothing,
            StartupAction::StartProcess => StartupActionView::StartProcess,
            StartupAction::StartService => StartupActionView::StartService,
            StartupAction::Navigate { url, after_ms } => StartupActionView::Navigate {
                url: url@,
                after_ms: *after_ms,
            },
            StartupAction::Finish(result) => StartupActionView::Finish(*result),
        }
    }
}

impl Startup {
    /// The state after `event`, and the action that it calls for. A failed
    /// start ends the startup, and what came after it is not tried; whatever
    /// comes of the navigation, the startup has succeeded; an event that does
    /// not fit the state changes nothing.
    pub open spec fn next(self, event: SequenceEvent) -> (Startup, StartupActionView) {
        match (self, event) {
            (Startup::Idle, SequenceEvent::Begin) => (
                Startup::StartingProcess,
                StartupActionView::StartProcess,
            ),
            (Startup::StartingProcess, SequenceEvent::Done(Ok(()))) => (
                Startup::StartingService,
                StartupActionView::StartService,
            ),
            (Startup::StartingService, SequenceEvent::Done(Ok(()))) => (
                Startup::Navigating,
                StartupActionView::Navigate {
                    url: "http://localhost:8871"@,
                    after_ms: NAVIGATION_DELAY_MS,
                },
            ),
            (Startup::StartingProcess, SequenceEvent::Done(Err(error))) => (
                Startup::Abandoned,
                StartupActionView::Finish(Err(error)),
            ),
            (Startup::StartingService, SequenceEvent::Done(Err(error))) => (
                Startup::Abandoned,
                StartupActionView::Finish(Err(error)),
            ),
            (Startup::Navigating, SequenceEvent::Done(_)) => (
                Startup::Complete,
                StartupActionView::Finish(Ok(())),
            ),
            _ => (self, StartupActionView::Nothing),
        }
    }

    /// A startup that has not begun.
    pub fn new() -> (startup: Startup)
        ensures
            startup == Startup::Idle,
    {
        Startup::Idle
    }

    /// Takes `event` and gives the next state and the action due.
    pub fn step(self, event: SequenceEvent) -> (next: (Startup, StartupAction))
        ensures
            (next.0, next.1@) == self.next(event),
    {
        match self {
            Startup::Idle => match event {
                SequenceEvent::Begin => (Startup::StartingProcess, StartupAction::StartProcess),
                _ => (self, StartupAction::Nothing),
            },
            Startup::StartingProcess => match event {
                SequenceEvent::Done(Ok(())) => (
                    Startup::StartingService,
                    StartupAction::StartService,
                ),
                SequenceEvent::Done(Err(error)) => (
                    Startup::Abandoned,
                    StartupAction::Finish(Err(error)),
                ),
                _ => (self, StartupAction::Nothing),
            },
            Startup::StartingService => match event {
                SequenceEvent::Done(Ok(())) => {
                    let site = EndpointDescriptor::site_root();
                    proof {
                        site_root_url(site);
                    }
                    (
                        Startup::Navigating,
                        StartupAction::Navigate { url: site.url(), after_ms: NAVIGATION_DELAY_MS },
                    )
                },
                SequenceEvent::Done(Err(error)) => (
                    Startup::Abandoned,
                    StartupAction::Finish(Err(error)),
                ),
                _ => (self, StartupAction::Nothing),
            },
            Startup::Navigating => match event {
                SequenceEvent::Done(_) => (Startup::Complete, StartupAction::Finish(Ok(()))),
                _ => (self, StartupAction::Nothing),
            },
            _ => (self, StartupAction::Nothing),
        }
    }
}

/// Where a shutdown stands.
#[derive(Debug, PartialEq, Eq)]
pub enum Shutdown {
    /// Not begun.
    Idle,
    /// The service supervisor has been asked to stop.
    StoppingService,
    /// The service's stop ended as `service`; the process supervisor has been
    /// asked to stop.
    StoppingProcess { service: Result<(), SupervisorError> },
    /// Over: both stops have been tried.
    Complete,
}

/// What the caller does next in a shutdown.
#[derive(Debug, PartialEq, Eq)]
pub enum ShutdownAction {
    /// Nothing: the event did not fit the state.
    Nothing,
    /// Stop the web server, and report the result.
    StopService,
    /// Stop the backend process, and report the result.
    StopProcess,
    /// The shutdown is over: each stop was tried, with these results.
    Finish { service: Result<(), SupervisorError>, process: Result<(), SupervisorError> },
}

impl Shutdown {
    /// The state after `event`, and the action that it calls for. The
    /// process is stopped whatever came of stopping the service; an event
    /// that does not fit the state changes nothing.
    pub open spec fn next(self, event: SequenceEvent) -> (Shutdown, ShutdownAction) {
        match (self, event) {
            (Shutdown::Idle, SequenceEvent::Begin) => (
                Shutdown::StoppingService,
                ShutdownAction::StopService,
            ),
            (Shutdown::StoppingService, SequenceEvent::Done(service)) => (
                Shutdown::StoppingProcess { service },
                ShutdownAction::StopProcess,
            ),
            (Shutdown::StoppingProcess { service }, SequenceEvent::Done(process)) => (
                Shutdown::Complete,
                ShutdownAction::Finish { service, process },
            ),
            _ => (self, ShutdownAction::Nothing),
        }
    }

    /// A shutdown that has not begun.
    pub fn new() -> (shutdown: Shutdown)
        ensures
            shutdown == Shutdown::Idle,
    {
        Shutdown::Idle
    }

    /// Takes `event` and gives the next state and the action due.
    pub fn step(self, event: SequenceEvent) -> (next: (Shutdown, ShutdownAction))
        ensures
            next == self.next(event),
    {
        match self {
            Shutdown::Idle => match event {
                SequenceEvent::Begin => (Shutdown::StoppingService, ShutdownAction::StopService),
                _ => (Shutdown::Idle, ShutdownAction::Nothing),
            },
            Shutdown::StoppingService => match event {
                SequenceEvent::Done(service) => (
                    Shutdown::StoppingProcess { service },
                    ShutdownAction::StopProcess,
                ),
                _ => (Shutdown::StoppingService, ShutdownAction::Nothing),
            },
            Shutdown::StoppingProcess { service } => match event {
                SequenceEvent::Done(process) => (
                    Shutdown::Complete,
                    ShutdownAction::Finish { service, process },
                ),
                _ => (Shutdown::StoppingProcess { service }, ShutdownAction::Nothing),
            },
            Shutdown::Complete => (Shutdown::Complete, ShutdownAction::Nothing),
        }
    }
}

/// The two handle slots by what they hold.
pub struct Slots<P, S> {
    pub process: Option<P>,
    pub service: Option<S>,
}

/// What a startup meets: how a launch and a bind go, if they are asked for,
/// and how the probe made after `n` others is answered.
pub struct StartupScene<P, S> {
    pub layout: Layout,
    pub launch: LaunchOutcome<P>,
    pub answers: spec_fn(nat) -> bool,
    pub bind: BindOutcome<S>,
}

/// A startup as it went.
pub struct StartupRun<P, S> {
    /// What the slots hold after it.
    pub slots: Slots<P, S>,
    /// The state in which it ended.
    pub state: Startup,
    /// The actions that were carried out, in their order.
    pub asked: Seq<StartupActionView>,
    /// The start of the process, where it was asked for.
    pub process: Option<StartRun<P>>,
    /// The start of the service, where it was asked for.
    pub service: Option<ServeRun<S>>,
    /// The result, where the startup came to its end.
    pub result: Option<Result<(), SupervisorError>>,
}

/// Carries out `action` and those that follow from it, `budget` at most, on a
/// startup that has gone as `run` so far.
pub open spec fn startup_walk<P, S>(
    run: StartupRun<P, S>,
    action: StartupActionView,
    scene: StartupScene<P, S>,
    budget: nat,
) -> StartupRun<P, S>
    decreases budget,
{
    if budget == 0 {
        run
    } else {
        match action {
            StartupActionView::Nothing => run,
            StartupActionView::Finish(result) => StartupRun { result: Some(result), ..run },
            StartupActionView::StartProcess => {
                let start = start_run(run.slots.process, scene.layout, scene.launch, scene.answers);
                let (state, due) = run.state.next(SequenceEvent::Done(start.result));
                startup_walk(
                    StartupRun {
                        slots: Slots { process: start.held, service: run.slots.service },
                        state,
                        asked: run.asked.push(action),
                        process: Some(start),
                        ..run
                    },
                    due,
                    scene,
                    (budget - 1) as nat,
                )
            },
            StartupActionView::StartService => {
                let start = serve_run(run.slots.service, scene.layout, scene.bind);
                let (state, due) = run.state.next(SequenceEvent::Done(start.result));
                startup_walk(
                    StartupRun {
                        slots: Slots { process: run.slots.process, service: start.held },
                        state,
                        asked: run.asked.push(action),
                        service: Some(start),
                        ..run
                    },
                    due,
                    scene,
                    (budget - 1) as nat,
                )
            },
            StartupActionView::Navigate { .. } => {
                let (state, due) = run.state.next(SequenceEvent::Done(Ok(())));
                startup_walk(
                    StartupRun { state, asked: run.asked.push(action), ..run },
                    due,
                    scene,
                    (budget - 1) as nat,
                )
            },
        }
    }
}

/// The startup on `slots` in `scene`, from its beginning to its end.
pub open spec fn start_all<P, S>(slots: Slots<P, S>, scene: StartupScene<P, S>) -> StartupRun<
    P,
    S,
> {
    let (state, due) = Startup::Idle.next(SequenceEvent::Begin);
    startup_walk(
        StartupRun { slots, state, asked: seq![], process: None, service: None, result: None },
        due,
        scene,
        4,
    )
}

/// A shutdown as it went.
pub struct ShutdownRun<P, S> {
    /// What the slots hold after it.
    pub slots: Slots<P, S>,
    /// The state in which it ended.
    pub state: Shutdown,
    /// The actions that were carried out, in their order.
    pub asked: Seq<ShutdownAction>,
    /// The stop of the service, where it was asked for.
    pub service: Option<HaltRun<S>>,
    /// The stop of the process, where it was asked for.
    pub process: Option<StopRun<P>>,
    /// The results of the two stops, the service's first, where the shutdown
    /// came to its end.
    pub results: Option<(Result<(), SupervisorError>, Result<(), SupervisorError>)>,
}

/// Carries out `action` and those that follow from it, `budget` at most, on a
/// shutdown that has gone as `run` so far, where a signal goes as
/// `signalled`.
pub open spec fn shutdown_walk<P, S>(
    run: ShutdownRun<P, S>,
    action: ShutdownAction,
    signalled: Result<(), String>,
    budget: nat,
) -> ShutdownRun<P, S>
    decreases budget,
{
    if budget == 0 {
        run
    } else {
        match action {
            ShutdownAction::Nothing => run,
            ShutdownAction::Finish { service, process } => ShutdownRun {
                results: Some((service, process)),
                ..run
            },
            ShutdownAction::StopService => {
                let stop = halt_run(run.slots.service);
                let (state, due) = run.state.next(SequenceEvent::Done(stop.result));
                shutdown_walk(
                    ShutdownRun {
                        slots: Slots { process: run.slots.process, service: stop.held },
                        state,
                        asked: run.asked.push(action),
                        service: Some(stop),
                        ..run
                    },
                    due,
                    signalled,
                    (budget - 1) as nat,
                )
            },
            ShutdownAction::StopProcess => {
                let stop = stop_run(run.slots.process, signalled);
                let (state, due) = run.state.next(SequenceEvent::Done(stop.result));
                shutdown_walk(
                    ShutdownRun {
                        slots: Slots { process: stop.held, service: run.slots.service },
                        state,
                        asked: run.asked.push(action),
                        process: Some(stop),
                        ..run
                    },
                    due,
                    signalled,
                    (budget - 1) as nat,
                )
            },
        }
    }
}

/// The shutdown on `slots`, from its beginning to its end, where a signal
/// goes as `signalled`.
pub open spec fn stop_all<P, S>(slots: Slots<P, S>, signalled: Result<(), String>) -> ShutdownRun<
    P,
    S,
> {
    let (state, due) = Shutdown::Idle.next(SequenceEvent::Begin);
    shutdown_walk(
        ShutdownRun { slots, state, asked: seq![], service: None, process: None, results: None },
        due,
        signalled,
        3,
    )
}

/// The action that sends the shell to the served site.
pub open spec fn show_site() -> StartupActionView {
    StartupActionView::Navigate { url: "http://localhost:8871"@, after_ms: NAVIGATION_DELAY_MS }
}

/// A startup comes to its end. It starts the process; where that fails, it
/// fails with the same error, and the service is neither started nor touched.
/// Else it starts the service; where that fails, it fails with the same
/// error, and the process stays as it is. Else it sends the shell to
/// `http://localhost:8871` and succeeds, with both slots occupied.
pub proof fn startup_in_order<P, S>(slots: Slots<P, S>, scene: StartupScene<P, S>)
    ensures
        ({
            let run = start_all(slots, scene);
            let process = start_run(slots.process, scene.layout, scene.launch, scene.answers);
            let service = serve_run(slots.service, scene.layout, scene.bind);
            &&& run.process == Some(process)
            &&& run.slots.process == process.held
            &&& match process.result {
                Err(error) => {
                    &&& run.state == Startup::Abandoned
                    &&& run.result == Some(Err::<(), SupervisorError>(error))
                    &&& run.asked == seq![StartupActionView::StartProcess]
                    &&& run.service.is_none()
                    &&& run.slots.service == slots.service
                },
                Ok(()) => {
                    &&& run.service == Some(service)
                    &&& run.slots.service == service.held
                    &&& match service.result {
                        Err(error) => {
                            &&& run.state == Startup::Abandoned
                            &&& run.result == Some(Err::<(), SupervisorError>(error))
                            &&& run.asked == seq![
                                StartupActionView::StartProcess,
                                StartupActionView::StartService,
                            ]
                        },
                        Ok(()) => {
                            &&& run.state == Startup::Complete
                            &&& run.result == Some(Ok::<(), SupervisorError>(()))
                            &&& run.asked == seq![
                                StartupActionView::StartProcess,
                                StartupActionView::StartService,
                                show_site(),
                            ]
                            &&& run.slots.process.is_some()
                            &&& run.slots.service.is_some()
                        },
                    }
                },
            }
        }),
{
    let process = start_run(slots.process, scene.layout, scene.launch, scene.answers);
    let service = serve_run(slots.service, scene.layout, scene.bind);
    let begun = StartupRun {
        slots,
        state: Startup::StartingProcess,
        asked: seq![],
        process: None,
        service: None,
        result: None,
    };
    assert(start_all(slots, scene) == startup_walk(
        begun,
        StartupActionView::StartProcess,
        scene,
        4,
    ));
    let (state, due) = Startup::StartingProcess.next(SequenceEvent::Done(process.result));
    let launched = StartupRun {
        slots: Slots { process: process.held, service: slots.service },
        state,
        asked: begun.asked.push(StartupActionView::StartProcess),
        process: Some(process),
        ..begun
    };
    assert(launched.asked =~= seq![StartupActionView::StartProcess]);
    assert(startup_walk(begun, StartupActionView::StartProcess, scene, 4) == startup_walk(
        launched,
        due,
        scene,
        3,
    ));
    match process.result {
        Err(error) => {
            assert(due == StartupActionView::Finish(Err(error)));
            assert(startup_walk(launched, due, scene, 3) == StartupRun {
                result: Some(Err(error)),
                ..launched
            });
        },
        Ok(()) => {
            assert(due == StartupActionView::StartService);
            let (state, due) = Startup::StartingService.next(SequenceEvent::Done(service.result));
            let served = StartupRun {
                slots: Slots { process: process.held, service: service.held },
                state,
                asked: launched.asked.push(StartupActionView::StartService),
                service: Some(service),
                ..launched
            };
            assert(served.asked =~= seq![
                StartupActionView::StartProcess,
                StartupActionView::StartService,
            ]);
            assert(startup_walk(launched, StartupActionView::StartService, scene, 3)
                == startup_walk(served, due, scene, 2));
            match service.result {
                Err(error) => {
                    assert(due == StartupActionView::Finish(Err(error)));
                    assert(startup_walk(served, due, scene, 2) == StartupRun {
                        result: Some(Err(error)),
                        ..served
                    });
                },
                Ok(()) => {
                    assert(due == show_site());
                    let shown = StartupRun {
                        state: Startup::Complete,
                        asked: served.asked.push(show_site()),
                        ..served
                    };
                    assert(shown.asked =~= seq![
                        StartupActionView::StartProcess,
                        StartupActionView::StartService,
                        show_site(),
                    ]);
                    assert(startup_walk(served, due, scene, 2) == startup_walk(
                        shown,
                        StartupActionView::Finish(Ok(())),
                        scene,
                        1,
                    ));
                    assert(startup_walk(shown, StartupActionView::Finish(Ok(())), scene, 1)
                        == StartupRun { result: Some(Ok(())), ..shown });
                },
            }
        },
    }
}

/// A shutdown comes to its end. It stops the service, then the process,
/// whatever came of the first, and leaves both slots empty.
pub proof fn shutdown_in_reverse_order<P, S>(slots: Slots<P, S>, signalled: Result<(), String>)
    ensures
        ({
            let run = stop_all(slots, signalled);
            &&& run.state == Shutdown::Complete
            &&& run.asked == seq![ShutdownAction::StopService, ShutdownAction::StopProcess]
            &&& run.service == Some(halt_run(slots.service))
            &&& run.process == Some(stop_run(slots.process, signalled))
            &&& run.results == Some(
                (halt_run(slots.service).result, stop_run(slots.process, signalled).result),
            )
            &&& run.slots.process.is_none()
            &&& run.slots.service.is_none()
        }),
{
    let begun = ShutdownRun {
        slots,
        state: Shutdown::StoppingService,
        asked: seq![],
        service: None,
        process: None,
        results: None,
    };
    let service = halt_run(slots.service);
    let halted = ShutdownRun {
        slots: Slots { process: slots.process, service: None },
        state: Shutdown::StoppingProcess { service: service.result },
        asked: begun.asked.push(ShutdownAction::StopService),
        service: Some(service),
        ..begun
    };
    assert(stop_all(slots, signalled) == shutdown_walk(
        halted,
        ShutdownAction::StopProcess,
        signalled,
        2,
    ));
    let process = stop_run(slots.process, signalled);
    let stopped = ShutdownRun {
        slots: Slots { process: None, service: None },
        state: Shutdown::Complete,
        asked: halted.asked.push(ShutdownAction::StopProcess),
        process: Some(process),
        ..halted
    };
    assert(stopped.asked =~= seq![ShutdownAction::StopService, ShutdownAction::StopProcess]);
    let finish = ShutdownAction::Finish { service: service.result, process: process.result };
    assert(shutdown_walk(halted, ShutdownAction::StopProcess, signalled, 2) == shutdown_walk(
        stopped,
        finish,
        signalled,
        1,
    ));
    assert(shutdown_walk(stopped, finish, signalled, 1) == ShutdownRun {
        results: Some((service.result, process.result)),
        ..stopped
    });
}

/// The process is stopped whatever came of stopping the service.
pub proof fn service_failure_does_not_end_shutdown(service: Result<(), SupervisorError>)
    ensures
        Shutdown::StoppingService.next(SequenceEvent::Done(service)) == (
            Shutdown::StoppingProcess { service },
            ShutdownAction::StopProcess,
        ),
{
}

/// After a startup that succeeds, a shutdown leaves both slots empty, and a
/// second shutdown is a no-op: its two stops find nothing stored, ask for no
/// shutdown and no signal, and succeed.
pub proof fn stop_all_after_start_all<P, S>(
    slots: Slots<P, S>,
    scene: StartupScene<P, S>,
    signalled: Result<(), String>,
    next_signalled: Result<(), String>,
)
    requires
        start_all(slots, scene).result == Some(Ok::<(), SupervisorError>(())),
    ensures
        ({
            let started = start_all(slots, scene);
            let stopped = stop_all(started.slots, signalled);
            let again = stop_all(stopped.slots, next_signalled);
            &&& started.slots.process.is_some()
            &&& started.slots.service.is_some()
            &&& stopped.slots.process.is_none()
            &&& stopped.slots.service.is_none()
            &&& again.service == Some(halt_run(None::<S>))
            &&& again.process == Some(stop_run(None::<P>, next_signalled))
            &&& halt_run(None::<S>).decision == HaltDecision::<S>::Idle
            &&& stop_run(None::<P>, next_signalled).decision == StopDecision::<P>::Idle
            &&& again.results == Some(
                (Ok::<(), SupervisorError>(()), Ok::<(), SupervisorError>(())),
            )
            &&& again.slots == stopped.slots
        }),
{
    startup_in_order(slots, scene);
    let started = start_all(slots, scene);
    shutdown_in_reverse_order(started.slots, signalled);
    shutdown_in_reverse_order(stop_all(started.slots, signalled).slots, next_signalled);
}

} // verus!
