use sidecar_supervisor::events::{AppEvent, ChildEvent, StreamKind};
use sidecar_supervisor::relay::{relay_step, relay_stream};
use sidecar_supervisor::state::SupervisorState;

#[test]
fn announcement_sets_port_and_is_forwarded_once() {
    let mut state = SupervisorState::new();
    let out = relay_step(
        &mut state,
        ChildEvent::Output { bytes: b"PORT=54213".to_vec(), stream: StreamKind::Stdout },
    );
    assert_eq!(out, AppEvent::OutputLine(b"PORT=54213".to_vec()));
    assert_eq!(state.current_port(), Some(54213));
}

#[test]
fn ordinary_stdout_line_changes_nothing() {
    let mut state = SupervisorState::new();
    let out = relay_step(
        &mut state,
        ChildEvent::Output { bytes: b"server starting".to_vec(), stream: StreamKind::Stdout },
    );
    assert_eq!(out, AppEvent::OutputLine(b"server starting".to_vec()));
    assert_eq!(state.current_port(), None);
}

#[test]
fn stderr_line_is_forwarded_and_never_scanned() {
    let mut state = SupervisorState::new();
    let out = relay_step(
        &mut state,
        ChildEvent::Output { bytes: b"PORT=54213".to_vec(), stream: StreamKind::Stderr },
    );
    assert_eq!(out, AppEvent::ErrorLine(b"PORT=54213".to_vec()));
    assert_eq!(state.current_port(), None);
}

#[test]
fn later_announcement_overwrites_port() {
    let mut state = SupervisorState::new();
    relay_step(
        &mut state,
        ChildEvent::Output { bytes: b"PORT=1000".to_vec(), stream: StreamKind::Stdout },
    );
    relay_step(
        &mut state,
        ChildEvent::Output { bytes: b"PORT=2000".to_vec(), stream: StreamKind::Stdout },
    );
    assert_eq!(state.current_port(), Some(2000));
}

#[test]
fn termination_clears_state_and_forwards_exit_code() {
    let mut state = SupervisorState::new();
    state.record_child(41);
    state.record_port(8080);
    let out = relay_step(&mut state, ChildEvent::Terminated { exit_code: Some(0) });
    assert_eq!(out, AppEvent::ChildTerminated(Some(0)));
    assert_eq!(state.current_pid(), None);
    assert_eq!(state.current_port(), None);
}

#[test]
fn whole_stream_is_forwarded_in_order_and_clears_on_exit() {
    let mut state = SupervisorState::new();
    state.record_child(10);
    let events = vec![
        ChildEvent::Output { bytes: b"booting".to_vec(), stream: StreamKind::Stdout },
        ChildEvent::Output { bytes: b"PORT=4444".to_vec(), stream: StreamKind::Stdout },
        ChildEvent::Output { bytes: b"low memory".to_vec(), stream: StreamKind::Stderr },
        ChildEvent::Terminated { exit_code: Some(1) },
    ];
    let out = relay_stream(&mut state, events);
    assert_eq!(
        out,
        vec![
            AppEvent::OutputLine(b"booting".to_vec()),
            AppEvent::OutputLine(b"PORT=4444".to_vec()),
            AppEvent::ErrorLine(b"low memory".to_vec()),
            AppEvent::ChildTerminated(Some(1)),
        ]
    );
    assert_eq!(state.current_pid(), None);
    assert_eq!(state.current_port(), None);
}

#[test]
fn termination_with_unknown_exit_code() {
    let mut state = SupervisorState::new();
    state.record_child(41);
    let out = relay_step(&mut state, ChildEvent::Terminated { exit_code: None });
    assert_eq!(out, AppEvent::ChildTerminated(None));
    assert_eq!(state.current_pid(), None);
}
