//! Supervision of a sidecar child process.
//!
//! The library holds the verified core of a process supervisor: the shared
//! liveness record, the rules that parse the child's port announcement, the
//! relay that turns raw child output into published events, the launch
//! planning (directory resolution and launch-mode detection), the bounded
//! readiness prober, and the lifecycle decisions for start, stop, restart and
//! the application-exit hook. Everything that touches the outside world —
//! spawning, signalling, sleeping, file and network access — is left to the
//! surrounding application, which drives these functions with plain values.

pub mod controller;
pub mod events;
pub mod launcher;
pub mod port_line;
pub mod prober;
pub mod relay;
pub mod scan;
pub mod settings;
pub mod state;
