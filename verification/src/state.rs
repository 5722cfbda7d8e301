//! The shared record of the supervised child.

use vstd::prelude::*;

verus! {

/// Liveness record of the supervised child: its process id and the port it
/// announced on standard output.
///
/// Exactly one value of this type exists for the lifetime of the supervising
/// process. The surrounding application keeps it behind a mutual-exclusion
/// lock; every component reads or writes it only inside a short critical
/// section that never spans a suspension point. A reader must treat
/// `pid() is None` as authoritative "not running", whatever the port field
/// still holds: a stop can race an announcement that has not been delivered
/// yet, so the port field alone proves nothing.
pub struct SupervisorState {
    pid: Option<u32>,
    port: Option<u16>,
}

impl SupervisorState {
    /// The recorded process id of the running child, if any.
    pub closed spec fn pid(self) -> Option<u32> {
        self.pid
    }

    /// The port the child announced on its standard output, if any.
    pub closed spec fn port(self) -> Option<u16> {
        self.port
    }

    /// A child is considered running exactly when a process id is recorded.
    pub open spec fn is_running(self) -> bool {
        self.pid() is Some
    }

    /// The one initial value: no child, no port.
    pub fn new() -> (s: Self)
        ensures
            s.pid() is None,
            s.port() is None,
    {
        SupervisorState { pid: None, port: None }
    }

    /// Record a freshly spawned child. Any port left over from a previous
    /// child is discarded: the new child has not announced one yet.
    pub fn record_child(&mut self, pid: u32)
        ensures
            final(self).pid() == Some(pid),
            final(self).port() is None,
    {
        self.pid = Some(pid);
        self.port = None;
    }

    /// Record the port the child announced on its standard output.
    pub fn record_port(&mut self, port: u16)
        ensures
            final(self).pid() == old(self).pid(),
            final(self).port() == Some(port),
    {
        self.port = Some(port);
    }

    /// Forget the child entirely; process id and port are cleared together.
    pub fn clear(&mut self)
        ensures
            final(self).pid() is None,
            final(self).port() is None,
    {
        self.pid = None;
        self.port = None;
    }

    /// The recorded process id, for callers outside the library.
    pub fn current_pid(&self) -> (r: Option<u32>)
        ensures
            r == self.pid(),
    {
        self.pid
    }

    /// The announced port, for callers outside the library.
    pub fn current_port(&self) -> (r: Option<u16>)
        ensures
            r == self.port(),
    {
        self.port
    }
}

} // verus!
