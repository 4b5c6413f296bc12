use launch_supervisor::error::SupervisorError;
use launch_supervisor::layout::Layout;
use launch_supervisor::orchestrator::{
    SequenceEvent, Shutdown, ShutdownAction, Startup, StartupAction, NAVIGATION_DELAY_MS,
};
use launch_supervisor::process::{LaunchOutcome, ProcessSupervisor, StopDecision};
use launch_supervisor::service::{BindOutcome, HaltDecision, ServeDecision, ServiceSupervisor};

fn done() -> SequenceEvent {
    SequenceEvent::Done(Ok(()))
}

fn failed(error: SupervisorError) -> SequenceEvent {
    SequenceEvent::Done(Err(error))
}

#[test]
fn startup_starts_process_then_service_then_navigates() {
    let startup = Startup::new();
    assert_eq!(startup, Startup::Idle);
    let (startup, action) = startup.step(SequenceEvent::Begin);
    assert_eq!((startup, action), (Startup::StartingProcess, StartupAction::StartProcess));
    let (startup, action) = startup.step(done());
    assert_eq!((startup, action), (Startup::StartingService, StartupAction::StartService));
    let (startup, action) = startup.step(done());
    assert_eq!(startup, Startup::Navigating);
    assert_eq!(
        action,
        StartupAction::Navigate {
            url: "http://localhost:8871".to_string(),
            after_ms: 3000
        }
    );
    let (startup, action) = startup.step(done());
    assert_eq!((startup, action), (Startup::Complete, StartupAction::Finish(Ok(()))));
}

#[test]
fn navigation_delay_is_three_seconds() {
    assert_eq!(NAVIGATION_DELAY_MS, 3000);
}

#[test]
fn failed_process_start_skips_the_service() {
    let (startup, _) = Startup::new().step(SequenceEvent::Begin);
    let (startup, action) = startup.step(failed(SupervisorError::StartupTimeout));
    assert_eq!(startup, Startup::Abandoned);
    assert_eq!(
        action,
        StartupAction::Finish(Err(SupervisorError::StartupTimeout))
    );
    let (startup, action) = startup.step(done());
    assert_eq!((startup, action), (Startup::Abandoned, StartupAction::Nothing));
}

#[test]
fn failed_service_start_ends_the_startup_without_navigation() {
    let (startup, _) = Startup::new().step(SequenceEvent::Begin);
    let (startup, _) = startup.step(done());
    let error = SupervisorError::BindFailed("Address already in use".to_string());
    let (startup, action) = startup.step(failed(error.clone()));
    assert_eq!(startup, Startup::Abandoned);
    assert_eq!(action, StartupAction::Finish(Err(error)));
}

#[test]
fn failed_navigation_still_completes_the_startup() {
    let (startup, _) = Startup::new().step(SequenceEvent::Begin);
    let (startup, _) = startup.step(done());
    let (startup, _) = startup.step(done());
    let (startup, action) =
        startup.step(failed(SupervisorError::NoParentDirectory));
    assert_eq!((startup, action), (Startup::Complete, StartupAction::Finish(Ok(()))));
}

#[test]
fn startup_ignores_events_that_do_not_fit() {
    assert_eq!(
        Startup::Idle.step(done()),
        (Startup::Idle, StartupAction::Nothing)
    );
    assert_eq!(
        Startup::StartingProcess.step(SequenceEvent::Begin),
        (Startup::StartingProcess, StartupAction::Nothing)
    );
    assert_eq!(
        Startup::StartingService.step(SequenceEvent::Begin),
        (Startup::StartingService, StartupAction::Nothing)
    );
    assert_eq!(
        Startup::Navigating.step(SequenceEvent::Begin),
        (Startup::Navigating, StartupAction::Nothing)
    );
    assert_eq!(
        Startup::Complete.step(SequenceEvent::Begin),
        (Startup::Complete, StartupAction::Nothing)
    );
    assert_eq!(
        Startup::Complete.step(done()),
        (Startup::Complete, StartupAction::Nothing)
    );
}

#[test]
fn shutdown_stops_service_then_process() {
    let shutdown = Shutdown::new();
    assert_eq!(shutdown, Shutdown::Idle);
    let (shutdown, action) = shutdown.step(SequenceEvent::Begin);
    assert_eq!((&shutdown, &action), (&Shutdown::StoppingService, &ShutdownAction::StopService));
    let (shutdown, action) = shutdown.step(done());
    assert_eq!(shutdown, Shutdown::StoppingProcess { service: Ok(()) });
    assert_eq!(action, ShutdownAction::StopProcess);
    let (shutdown, action) = shutdown.step(done());
    assert_eq!(shutdown, Shutdown::Complete);
    assert_eq!(
        action,
        ShutdownAction::Finish {
            service: Ok(()),
            process: Ok(())
        }
    );
}

#[test]
fn shutdown_stops_the_process_after_a_failed_service_stop() {
    let (shutdown, _) = Shutdown::new().step(SequenceEvent::Begin);
    let error = SupervisorError::BindFailed("listener lost".to_string());
    let (shutdown, action) = shutdown.step(failed(error.clone()));
    assert_eq!(action, ShutdownAction::StopProcess);
    let kill = SupervisorError::KillFailed("no such process".to_string());
    let (shutdown, action) = shutdown.step(failed(kill.clone()));
    assert_eq!(shutdown, Shutdown::Complete);
    assert_eq!(
        action,
        ShutdownAction::Finish {
            service: Err(error),
            process: Err(kill)
        }
    );
}

#[test]
fn shutdown_ignores_events_that_do_not_fit() {
    assert_eq!(
        Shutdown::Idle.step(done()),
        (Shutdown::Idle, ShutdownAction::Nothing)
    );
    assert_eq!(
        Shutdown::StoppingService.step(SequenceEvent::Begin),
        (Shutdown::StoppingService, ShutdownAction::Nothing)
    );
    assert_eq!(
        Shutdown::StoppingProcess { service: Ok(()) }.step(SequenceEvent::Begin),
        (
            Shutdown::StoppingProcess { service: Ok(()) },
            ShutdownAction::Nothing
        )
    );
    assert_eq!(
        Shutdown::Complete.step(done()),
        (Shutdown::Complete, ShutdownAction::Nothing)
    );
}

fn start_all(
    backend: &mut ProcessSupervisor<u32>,
    web: &mut ServiceSupervisor<u32>,
) -> Result<(), SupervisorError> {
    let (mut startup, mut action) = Startup::new().step(SequenceEvent::Begin);
    loop {
        let result = match action {
            StartupAction::StartProcess => {
                match backend.begin_start(Layout::Packaged) {
                    launch_supervisor::process::LaunchDecision::AlreadyRunning => Ok(()),
                    launch_supervisor::process::LaunchDecision::Launch(_) => {
                        match backend.complete_launch(LaunchOutcome::Spawned(100)) {
                            Ok(mut poll) => {
                                poll.record(true);
                                Ok(())
                            }
                            Err(error) => Err(error),
                        }
                    }
                }
            }
            StartupAction::StartService => match web.begin_start(Layout::Packaged) {
                ServeDecision::AlreadyRunning => Ok(()),
                ServeDecision::Serve(_) => web.complete_start(BindOutcome::Bound(200)),
            },
            StartupAction::Navigate { .. } => Ok(()),
            StartupAction::Finish(result) => return result,
            StartupAction::Nothing => panic!("the startup stalled"),
        };
        let next = startup.step(SequenceEvent::Done(result));
        startup = next.0;
        action = next.1;
    }
}

fn stop_all(
    backend: &mut ProcessSupervisor<u32>,
    web: &mut ServiceSupervisor<u32>,
) -> (Vec<u32>, Result<(), SupervisorError>, Result<(), SupervisorError>) {
    let mut stopped = Vec::new();
    let (mut shutdown, mut action) = Shutdown::new().step(SequenceEvent::Begin);
    loop {
        let result = match action {
            ShutdownAction::StopService => {
                if let HaltDecision::Shutdown(handle) = web.begin_stop() {
                    stopped.push(handle);
                }
                Ok(())
            }
            ShutdownAction::StopProcess => match backend.begin_stop() {
                StopDecision::Idle => Ok(()),
                StopDecision::Terminate(handle) => {
                    stopped.push(handle);
                    backend.complete_stop(Ok(()))
                }
            },
            ShutdownAction::Finish { service, process } => return (stopped, service, process),
            ShutdownAction::Nothing => panic!("the shutdown stalled"),
        };
        let next = shutdown.step(SequenceEvent::Done(result));
        shutdown = next.0;
        action = next.1;
    }
}

#[test]
fn stop_all_after_start_all_empties_both_slots() {
    let mut backend: ProcessSupervisor<u32> = ProcessSupervisor::new();
    let mut web: ServiceSupervisor<u32> = ServiceSupervisor::new();
    assert_eq!(start_all(&mut backend, &mut web), Ok(()));
    assert!(backend.is_running());
    assert!(web.is_running());
    assert_eq!(
        stop_all(&mut backend, &mut web),
        (vec![200, 100], Ok(()), Ok(()))
    );
    assert!(!backend.is_running());
    assert!(!web.is_running());
}

#[test]
fn second_stop_all_is_a_no_op() {
    let mut backend: ProcessSupervisor<u32> = ProcessSupervisor::new();
    let mut web: ServiceSupervisor<u32> = ServiceSupervisor::new();
    assert_eq!(start_all(&mut backend, &mut web), Ok(()));
    let _ = stop_all(&mut backend, &mut web);
    assert_eq!(stop_all(&mut backend, &mut web), (vec![], Ok(()), Ok(())));
    assert!(!backend.is_running());
    assert!(!web.is_running());
}

#[test]
fn second_start_all_launches_and_binds_nothing() {
    let mut backend: ProcessSupervisor<u32> = ProcessSupervisor::new();
    let mut web: ServiceSupervisor<u32> = ServiceSupervisor::new();
    assert_eq!(start_all(&mut backend, &mut web), Ok(()));
    assert_eq!(start_all(&mut backend, &mut web), Ok(()));
    assert_eq!(
        stop_all(&mut backend, &mut web),
        (vec![200, 100], Ok(()), Ok(()))
    );
}
