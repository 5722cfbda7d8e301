//! Events and error kinds exchanged with the surrounding application.

use vstd::prelude::*;

verus! {

/// Which of the child's two output streams a line arrived on.
#[derive(Clone, Copy, PartialEq, Eq, Structural, Debug)]
pub enum StreamKind {
    Stdout,
    Stderr,
}

/// One event read from the running child: a line of output on one of its
/// streams, or its termination. The exit code of a signal-killed child is
/// unknown.
#[derive(PartialEq, Eq, Debug)]
pub enum ChildEvent {
    Output { bytes: Vec<u8>, stream: StreamKind },
    Terminated { exit_code: Option<i32> },
}

/// Terminal outcome of one readiness probe.
#[derive(Clone, Copy, PartialEq, Eq, Structural, Debug)]
pub enum ReadinessOutcome {
    /// The health endpoint answered with a success status on this port.
    Ready(u16),
    /// A port was seen, but the budget ran out before a healthy answer.
    TimedOut,
    /// The budget ran out and no attempt ever saw an announced port.
    PortNeverAnnounced,
}

/// Everything that can go wrong while supervising, by kind. None of these is
/// fatal to the supervising process itself.
#[derive(Clone, Copy, PartialEq, Eq, Structural, Debug)]
pub enum SupervisorError {
    /// The data directory or one of its subdirectories could not be created.
    DirectoryCreateFailed,
    /// The child process could not be spawned.
    SpawnFailed,
    /// A termination signal could not be delivered.
    SignalFailed,
    /// The health endpoint never answered successfully within the budget.
    HealthCheckTimedOut,
    /// The child never announced a port within the budget.
    PortNeverAnnounced,
}

/// An event published to the surrounding application.
#[derive(PartialEq, Eq, Debug)]
pub enum AppEvent {
    /// A line the child wrote on standard output, forwarded verbatim.
    OutputLine(Vec<u8>),
    /// A line the child wrote on standard error, forwarded verbatim.
    ErrorLine(Vec<u8>),
    /// The child exited, with its exit code when one is known.
    ChildTerminated(Option<i32>),
    /// The child's health endpoint answered successfully on this port.
    Ready(u16),
    /// A start attempt failed, or readiness was never reached.
    StartFailed(SupervisorError),
}

} // verus!
