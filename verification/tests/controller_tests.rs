use sidecar_supervisor::controller::{
    begin_termination, check_directories, check_signal, lifecycle_step, register_spawn,
    restart_actions, shutdown_actions, stop_actions, ControlAction, LifecycleEvent, Phase,
    SignalKind, RESTART_SETTLE_MS, SHUTDOWN_GRACE_MS,
};
use sidecar_supervisor::events::{AppEvent, ReadinessOutcome, SupervisorError};
use sidecar_supervisor::launcher::LaunchMode;
use sidecar_supervisor::state::SupervisorState;

#[test]
fn stop_without_child_issues_no_signal() {
    let mut state = SupervisorState::new();
    let found = begin_termination(&mut state);
    assert_eq!(found, None);
    assert!(stop_actions(found).is_empty());
    assert_eq!(state.current_pid(), None);
    assert_eq!(state.current_port(), None);
}

#[test]
fn stop_with_child_clears_state_and_reports_pid() {
    let mut state = SupervisorState::new();
    state.record_child(77);
    state.record_port(8080);
    let found = begin_termination(&mut state);
    assert_eq!(found, Some(77));
    assert_eq!(state.current_pid(), None);
    assert_eq!(state.current_port(), None);
    assert_eq!(
        stop_actions(found),
        vec![ControlAction::Signal { pid: 77, kind: SignalKind::Forceful }]
    );
}

#[test]
fn restart_sends_exactly_one_signal_then_settles_then_launches() {
    let mut state = SupervisorState::new();
    state.record_child(77);
    state.record_port(8080);
    let found = begin_termination(&mut state);
    let actions = restart_actions(found);
    assert_eq!(
        actions,
        vec![
            ControlAction::Signal { pid: 77, kind: SignalKind::Forceful },
            ControlAction::Wait { millis: RESTART_SETTLE_MS },
            ControlAction::Launch,
        ]
    );
    let signals = actions
        .iter()
        .filter(|a| matches!(a, ControlAction::Signal { .. }))
        .count();
    assert_eq!(signals, 1);
    assert!(RESTART_SETTLE_MS >= 500);

    // The new child replaces the old one entirely in the shared state.
    let summary = register_spawn(&mut state, Some(91), LaunchMode::Standalone).unwrap();
    assert_eq!(summary.pid, 91);
    assert_eq!(state.current_pid(), Some(91));
    assert_eq!(state.current_port(), None);
}

#[test]
fn restart_without_child_skips_the_signal() {
    let actions = restart_actions(None);
    assert_eq!(
        actions,
        vec![
            ControlAction::Wait { millis: RESTART_SETTLE_MS },
            ControlAction::Launch,
        ]
    );
}

#[test]
fn shutdown_hook_is_graceful_then_forceful_and_clears_state() {
    let mut state = SupervisorState::new();
    state.record_child(55);
    state.record_port(9000);
    let found = begin_termination(&mut state);
    assert_eq!(
        shutdown_actions(found),
        vec![
            ControlAction::Signal { pid: 55, kind: SignalKind::Graceful },
            ControlAction::Wait { millis: SHUTDOWN_GRACE_MS },
            ControlAction::Signal { pid: 55, kind: SignalKind::Forceful },
        ]
    );
    assert_eq!(state.current_pid(), None);
    assert_eq!(state.current_port(), None);
}

#[test]
fn shutdown_hook_without_child_does_nothing() {
    assert!(shutdown_actions(None).is_empty());
}

#[test]
fn spawn_success_records_pid_before_any_output() {
    let mut state = SupervisorState::new();
    let summary = register_spawn(&mut state, Some(4242), LaunchMode::Interpreted).unwrap();
    assert_eq!(summary.pid, 4242);
    assert_eq!(summary.mode, LaunchMode::Interpreted);
    assert_eq!(state.current_pid(), Some(4242));
}

#[test]
fn spawn_failure_reports_typed_error_and_leaves_state() {
    let mut state = SupervisorState::new();
    let r = register_spawn(&mut state, None, LaunchMode::Standalone);
    assert_eq!(r.unwrap_err(), SupervisorError::SpawnFailed);
    assert_eq!(state.current_pid(), None);
}

#[test]
fn directory_failure_reports_typed_error() {
    assert!(check_directories(true).is_ok());
    assert_eq!(
        check_directories(false).unwrap_err(),
        SupervisorError::DirectoryCreateFailed
    );
}

#[test]
fn signal_failure_reports_typed_error() {
    assert!(check_signal(true).is_ok());
    assert_eq!(check_signal(false).unwrap_err(), SupervisorError::SignalFailed);
}

#[test]
fn lifecycle_reaches_ready_through_probing() {
    let (phase, notice) = lifecycle_step(Phase::Stopped, LifecycleEvent::StartRequested);
    assert_eq!(phase, Phase::Starting);
    assert_eq!(notice, None);
    let (phase, notice) = lifecycle_step(phase, LifecycleEvent::LaunchSucceeded);
    assert_eq!(phase, Phase::Probing);
    assert_eq!(notice, None);
    let (phase, notice) = lifecycle_step(
        phase,
        LifecycleEvent::ProbeConcluded(ReadinessOutcome::Ready(54213)),
    );
    assert_eq!(phase, Phase::Ready);
    assert_eq!(notice, Some(AppEvent::Ready(54213)));
}

#[test]
fn probe_timeout_reports_failure_but_is_not_fatal() {
    let (phase, notice) = lifecycle_step(
        Phase::Probing,
        LifecycleEvent::ProbeConcluded(ReadinessOutcome::TimedOut),
    );
    assert_eq!(phase, Phase::Stopped);
    assert_eq!(
        notice,
        Some(AppEvent::StartFailed(SupervisorError::HealthCheckTimedOut))
    );
    let (phase, notice) = lifecycle_step(
        Phase::Probing,
        LifecycleEvent::ProbeConcluded(ReadinessOutcome::PortNeverAnnounced),
    );
    assert_eq!(phase, Phase::Stopped);
    assert_eq!(
        notice,
        Some(AppEvent::StartFailed(SupervisorError::PortNeverAnnounced))
    );
}

#[test]
fn launch_failure_returns_to_stopped_with_report() {
    let (phase, notice) = lifecycle_step(
        Phase::Starting,
        LifecycleEvent::LaunchFailed(SupervisorError::SpawnFailed),
    );
    assert_eq!(phase, Phase::Stopped);
    assert_eq!(notice, Some(AppEvent::StartFailed(SupervisorError::SpawnFailed)));
    let (phase, notice) = lifecycle_step(
        Phase::Starting,
        LifecycleEvent::LaunchFailed(SupervisorError::DirectoryCreateFailed),
    );
    assert_eq!(phase, Phase::Stopped);
    assert_eq!(
        notice,
        Some(AppEvent::StartFailed(SupervisorError::DirectoryCreateFailed))
    );
}

#[test]
fn stop_and_child_exit_lead_back_to_stopped() {
    let (phase, notice) = lifecycle_step(Phase::Ready, LifecycleEvent::StopRequested);
    assert_eq!(phase, Phase::Stopped);
    assert_eq!(notice, None);
    let (phase, notice) = lifecycle_step(Phase::Ready, LifecycleEvent::ChildExited);
    assert_eq!(phase, Phase::Stopped);
    assert_eq!(notice, None);
}
