//! Lifecycle decisions: start, stop, restart and the application-exit hook.
//!
//! Every decision is a pure function from plain values to plain values; the
//! surrounding application performs the returned actions (signals, waits,
//! the spawn itself) and feeds each outcome back in. No failure here is
//! fatal to the supervising process: everything is reported as a typed
//! result or a published event.

use vstd::prelude::*;

use crate::events::{AppEvent, ReadinessOutcome, SupervisorError};
use crate::launcher::LaunchMode;
use crate::state::SupervisorState;

verus! {

/// Pause between stopping the old child and spawning the new one on a
/// restart, in milliseconds, so the old child can release its port.
pub const RESTART_SETTLE_MS: u64 = 500;

/// Grace period between the graceful and the forceful signal of the
/// application-exit hook, in milliseconds.
pub const SHUTDOWN_GRACE_MS: u64 = 100;

/// The two ways to ask a child to terminate.
#[derive(Clone, Copy, PartialEq, Eq, Structural, Debug)]
pub enum SignalKind {
    /// Give the child a chance to clean up.
    Graceful,
    /// Kill the child unconditionally.
    Forceful,
}

/// One step the surrounding application must perform, in order.
#[derive(Clone, Copy, PartialEq, Eq, Structural, Debug)]
pub enum ControlAction {
    /// Deliver a termination signal to this process id.
    Signal { pid: u32, kind: SignalKind },
    /// Sleep this many milliseconds.
    Wait { millis: u64 },
    /// Perform the prepared launch.
    Launch,
}

/// Where one child instance stands in its lifecycle.
#[derive(Clone, Copy, PartialEq, Eq, Structural, Debug)]
pub enum Phase {
    Stopped,
    Starting,
    Probing,
    Ready,
}

/// What the surrounding application reports back to the lifecycle.
#[derive(Clone, Copy, PartialEq, Eq, Structural, Debug)]
pub enum LifecycleEvent {
    /// A start was requested.
    StartRequested,
    /// Directory creation or the spawn failed with this error.
    LaunchFailed(SupervisorError),
    /// The child was spawned and its pid recorded.
    LaunchSucceeded,
    /// The readiness probe ended with this outcome.
    ProbeConcluded(ReadinessOutcome),
    /// An explicit stop was requested.
    StopRequested,
    /// The child exited on its own.
    ChildExited,
}

/// How many signal actions a plan contains.
pub open spec fn signal_count(s: Seq<ControlAction>) -> int
    decreases s.len(),
{
    if s.len() == 0 {
        0
    } else {
        signal_count(s.drop_last()) + if s.last() is Signal {
            1int
        } else {
            0int
        }
    }
}

/// The actions of an explicit stop: nothing when no child runs, one
/// unconditional forceful signal — no grace period on this path — when one
/// does.
pub open spec fn spec_stop_actions(pid: Option<u32>) -> Seq<ControlAction> {
    match pid {
        None => Seq::empty(),
        Some(p) => seq![ControlAction::Signal { pid: p, kind: SignalKind::Forceful }],
    }
}

/// The actions of the application-exit hook: a graceful signal, the short
/// grace period, then a forceful signal unconditionally — the graceful one
/// may have been ignored or insufficient, and the child may even have
/// exited already; the sequence is the same regardless.
pub open spec fn spec_shutdown_actions(pid: Option<u32>) -> Seq<ControlAction> {
    match pid {
        None => Seq::empty(),
        Some(p) => seq![
            ControlAction::Signal { pid: p, kind: SignalKind::Graceful },
            ControlAction::Wait { millis: SHUTDOWN_GRACE_MS },
            ControlAction::Signal { pid: p, kind: SignalKind::Forceful },
        ],
    }
}

/// The actions of a restart: the stop actions for the old child, then the
/// fixed settle pause, then the new launch.
pub open spec fn spec_restart_actions(pid: Option<u32>) -> Seq<ControlAction> {
    spec_stop_actions(pid) + seq![
        ControlAction::Wait { millis: RESTART_SETTLE_MS },
        ControlAction::Launch,
    ]
}

/// Read the pid out of the shared state and clear the whole record, in one
/// critical section. Both the explicit stop and the exit hook begin with
/// this; the caller then performs the matching action plan for the returned
/// pid.
pub fn begin_termination(state: &mut SupervisorState) -> (r: Option<u32>)
    ensures
        r == old(state).pid(),
        final(state).pid() is None,
        final(state).port() is None,
{
    let pid = state.current_pid();
    state.clear();
    pid
}

/// The action plan of an explicit stop for the pid that was found.
pub fn stop_actions(pid: Option<u32>) -> (r: Vec<ControlAction>)
    ensures
        r@ == spec_stop_actions(pid),
{
    let mut r: Vec<ControlAction> = Vec::new();
    match pid {
        None => {},
        Some(p) => {
            r.push(ControlAction::Signal { pid: p, kind: SignalKind::Forceful });
        },
    }
    proof {
        assert(r@ =~= spec_stop_actions(pid));
    }
    r
}

/// The action plan of the application-exit hook for the pid that was found.
pub fn shutdown_actions(pid: Option<u32>) -> (r: Vec<ControlAction>)
    ensures
        r@ == spec_shutdown_actions(pid),
{
    let mut r: Vec<ControlAction> = Vec::new();
    match pid {
        None => {},
        Some(p) => {
            r.push(ControlAction::Signal { pid: p, kind: SignalKind::Graceful });
            r.push(ControlAction::Wait { millis: SHUTDOWN_GRACE_MS });
            r.push(ControlAction::Signal { pid: p, kind: SignalKind::Forceful });
        },
    }
    proof {
        assert(r@ =~= spec_shutdown_actions(pid));
    }
    r
}

/// The action plan of a restart for the pid that was found.
pub fn restart_actions(pid: Option<u32>) -> (r: Vec<ControlAction>)
    ensures
        r@ == spec_restart_actions(pid),
{
    let mut r = stop_actions(pid);
    r.push(ControlAction::Wait { millis: RESTART_SETTLE_MS });
    r.push(ControlAction::Launch);
    proof {
        assert(r@ =~= spec_restart_actions(pid));
    }
    r
}

/// Map the directory-creation outcome to the typed start failure.
pub fn check_directories(created: bool) -> (r: Result<(), SupervisorError>)
    ensures
        created ==> r is Ok,
        !created ==> r == Err::<(), SupervisorError>(SupervisorError::DirectoryCreateFailed),
{
    if created {
        Ok(())
    } else {
        Err(SupervisorError::DirectoryCreateFailed)
    }
}

/// Map the delivery outcome of a termination signal to the typed failure.
/// A failed delivery is reported, never retried: retrying blindly risks
/// signalling a reused pid.
pub fn check_signal(delivered: bool) -> (r: Result<(), SupervisorError>)
    ensures
        delivered ==> r is Ok,
        !delivered ==> r == Err::<(), SupervisorError>(SupervisorError::SignalFailed),
{
    if delivered {
        Ok(())
    } else {
        Err(SupervisorError::SignalFailed)
    }
}

/// What a successful start reports: the child's pid and how it was invoked.
#[derive(Clone, Copy, PartialEq, Eq, Structural, Debug)]
pub struct LaunchSummary {
    pub pid: u32,
    pub mode: LaunchMode,
}

/// Record the spawn outcome.
///
/// On success the pid enters the shared state here, before any output is
/// relayed, so a stop issued a moment later already finds it. On failure
/// the state is left untouched and the typed spawn failure is returned.
pub fn register_spawn(state: &mut SupervisorState, spawned: Option<u32>, mode: LaunchMode) -> (r:
    Result<LaunchSummary, SupervisorError>)
    ensures
        match spawned {
            Some(pid) => {
                &&& r matches Ok(s) && s.pid == pid && s.mode == mode
                &&& final(state).pid() == Some(pid)
                &&& final(state).port() is None
            },
            None => {
                &&& r == Err::<LaunchSummary, SupervisorError>(SupervisorError::SpawnFailed)
                &&& *final(state) == *old(state)
            },
        },
{
    match spawned {
        Some(pid) => {
            state.record_child(pid);
            Ok(LaunchSummary { pid, mode })
        },
        None => Err(SupervisorError::SpawnFailed),
    }
}

/// The lifecycle table: the next phase and the event to publish, if any,
/// when `event` arrives in `phase`.
///
/// A start moves a stopped instance to `Starting`; a launch failure reports
/// the typed error and returns to `Stopped`; a successful launch moves on
/// to `Probing`; the probe's outcome either reaches `Ready` — published
/// with the port — or reports a start failure, and an exhausted probe does
/// not kill the child: the child keeps running while the failure is
/// reported. A stop request or the child's own exit leads back to
/// `Stopped` from anywhere; the termination event itself is published by
/// the relay, not here.
pub open spec fn spec_lifecycle_step(phase: Phase, event: LifecycleEvent) -> (Phase, Option<
    AppEvent,
>) {
    match event {
        LifecycleEvent::StartRequested => if phase is Stopped {
            (Phase::Starting, None)
        } else {
            (phase, None)
        },
        LifecycleEvent::LaunchFailed(e) => if phase is Starting {
            (Phase::Stopped, Some(AppEvent::StartFailed(e)))
        } else {
            (phase, None)
        },
        LifecycleEvent::LaunchSucceeded => if phase is Starting {
            (Phase::Probing, None)
        } else {
            (phase, None)
        },
        LifecycleEvent::ProbeConcluded(o) => if phase is Probing {
            match o {
                ReadinessOutcome::Ready(p) => (Phase::Ready, Some(AppEvent::Ready(p))),
                ReadinessOutcome::TimedOut => (
                    Phase::Stopped,
                    Some(AppEvent::StartFailed(SupervisorError::HealthCheckTimedOut)),
                ),
                ReadinessOutcome::PortNeverAnnounced => (
                    Phase::Stopped,
                    Some(AppEvent::StartFailed(SupervisorError::PortNeverAnnounced)),
                ),
            }
        } else {
            (phase, None)
        },
        LifecycleEvent::StopRequested => (Phase::Stopped, None),
        LifecycleEvent::ChildExited => (Phase::Stopped, None),
    }
}

/// One step of the lifecycle machine.
pub fn lifecycle_step(phase: Phase, event: LifecycleEvent) -> (r: (Phase, Option<AppEvent>))
    ensures
        r == spec_lifecycle_step(phase, event),
{
    match event {
        LifecycleEvent::StartRequested => {
            if phase == Phase::Stopped {
                (Phase::Starting, None)
            } else {
                (phase, None)
            }
        },
        LifecycleEvent::LaunchFailed(e) => {
            if phase == Phase::Starting {
                (Phase::Stopped, Some(AppEvent::StartFailed(e)))
            } else {
                (phase, None)
            }
        },
        LifecycleEvent::LaunchSucceeded => {
            if phase == Phase::Starting {
                (Phase::Probing, None)
            } else {
                (phase, None)
            }
        },
        LifecycleEvent::ProbeConcluded(o) => {
            if phase == Phase::Probing {
                match o {
                    ReadinessOutcome::Ready(p) => (Phase::Ready, Some(AppEvent::Ready(p))),
                    ReadinessOutcome::TimedOut => (
                        Phase::Stopped,
                        Some(AppEvent::StartFailed(SupervisorError::HealthCheckTimedOut)),
                    ),
                    ReadinessOutcome::PortNeverAnnounced => (
                        Phase::Stopped,
                        Some(AppEvent::StartFailed(SupervisorError::PortNeverAnnounced)),
                    ),
                }
            } else {
                (phase, None)
            }
        },
        LifecycleEvent::StopRequested => (Phase::Stopped, None),
        LifecycleEvent::ChildExited => (Phase::Stopped, None),
    }
}

/// Stop on a not-running supervisor is a successful no-op: no signal is
/// issued at all.
pub proof fn law_stop_idle_signals_nothing()
    ensures
        spec_stop_actions(None).len() == 0,
        signal_count(spec_stop_actions(None)) == 0,
{
}

/// A restart while a child runs sends exactly one termination signal — the
/// forceful one, to the old pid — and the settle pause stands strictly
/// between that signal and the new launch.
pub proof fn law_restart_signals_old_child_once(p: u32)
    ensures
        signal_count(spec_restart_actions(Some(p))) == 1,
        spec_restart_actions(Some(p)).len() == 3,
        spec_restart_actions(Some(p))[0] == (ControlAction::Signal {
            pid: p,
            kind: SignalKind::Forceful,
        }),
        spec_restart_actions(Some(p))[1] == (ControlAction::Wait {
            millis: RESTART_SETTLE_MS,
        }),
        spec_restart_actions(Some(p))[2] == ControlAction::Launch,
{
    let plan = spec_restart_actions(Some(p));
    let s2 = plan.drop_last();
    let s1 = s2.drop_last();
    assert(s1 =~= spec_stop_actions(Some(p)));
    assert(s1.drop_last() =~= Seq::<ControlAction>::empty());
    assert(signal_count(s1.drop_last()) == 0);
    assert(s1.last() == (ControlAction::Signal { pid: p, kind: SignalKind::Forceful }));
    assert(signal_count(s1) == 1);
    assert(s2.last() == (ControlAction::Wait { millis: RESTART_SETTLE_MS }));
    assert(signal_count(s2) == 1);
    assert(plan.last() == ControlAction::Launch);
    assert(signal_count(plan) == 1);
}

/// The `Ready` phase is entered only from `Probing`, only on a probe that
/// concluded `Ready`, and always together with the published readiness
/// event carrying that port.
pub proof fn law_ready_only_through_healthy_probe(phase: Phase, event: LifecycleEvent)
    requires
        !(phase is Ready),
        spec_lifecycle_step(phase, event).0 is Ready,
    ensures
        phase is Probing,
        exists|p: u16|
            event == LifecycleEvent::ProbeConcluded(ReadinessOutcome::Ready(p))
                && spec_lifecycle_step(phase, event).1 == Some(AppEvent::Ready(p)),
{
    match event {
        LifecycleEvent::ProbeConcluded(o) => {
            match o {
                ReadinessOutcome::Ready(p) => {
                    assert(event == LifecycleEvent::ProbeConcluded(ReadinessOutcome::Ready(p))
                        && spec_lifecycle_step(phase, event).1 == Some(AppEvent::Ready(p)));
                },
                _ => {},
            }
        },
        _ => {},
    }
}

/// The exit hook, invoked while a child is running, attempts a graceful
/// signal and then, unconditionally, a forceful one, in that order, with
/// the grace pause between them.
pub proof fn law_shutdown_graceful_then_forceful(p: u32)
    ensures
        spec_shutdown_actions(Some(p)).len() == 3,
        spec_shutdown_actions(Some(p))[0] == (ControlAction::Signal {
            pid: p,
            kind: SignalKind::Graceful,
        }),
        spec_shutdown_actions(Some(p))[1] == (ControlAction::Wait {
            millis: SHUTDOWN_GRACE_MS,
        }),
        spec_shutdown_actions(Some(p))[2] == (ControlAction::Signal {
            pid: p,
            kind: SignalKind::Forceful,
        }),
{
}

} // verus!
