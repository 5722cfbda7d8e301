//! The readiness prober: a bounded poll, decided here, performed outside.
//!
//! The prober cannot be handed the port directly — the port is discovered
//! asynchronously after the spawn — so each attempt re-reads the shared
//! state. The surrounding application runs the loop: before each attempt it
//! reads the current port under the lock, issues one health request when a
//! port is known, sleeps the fixed interval between attempts, and feeds what
//! it saw into [`ProbeSession::observe`], which makes every decision and is
//! verified for every possible answer.

use vstd::prelude::*;

use crate::events::ReadinessOutcome;
use crate::port_line::is_digit;
use crate::scan::{find_byte, find_byte_from, occurs_at};

verus! {

/// Fixed attempt budget of a readiness probe.
pub const MAX_PROBE_ATTEMPTS: u32 = 30;

/// Fixed pause between two probe attempts, in milliseconds.
pub const PROBE_INTERVAL_MS: u64 = 200;

/// `HTTP/`: how a health response's status line begins.
pub open spec fn http_prefix() -> Seq<u8> {
    seq![72u8, 84u8, 84u8, 80u8, 47u8]
}

/// The status code of a health response, read off its status line: the
/// three digits after the first space of a line beginning `HTTP/`, ended by
/// a space, a carriage return or the end of the line. Anything else carries
/// no status.
pub open spec fn spec_response_status(head: Seq<u8>) -> Option<u16> {
    if !occurs_at(head, http_prefix(), 0) {
        None
    } else {
        match find_byte(head, 32, 0) {
            None => None,
            Some(i) => {
                if i + 4 <= head.len() && is_digit(head[i + 1]) && is_digit(head[i + 2])
                    && is_digit(head[i + 3]) && (i + 4 == head.len() || head[i + 4] == 32
                    || head[i + 4] == 13) {
                    Some(
                        (100 * (head[i + 1] - 48) + 10 * (head[i + 2] - 48) + (head[i + 3]
                            - 48)) as u16,
                    )
                } else {
                    None
                }
            },
        }
    }
}

/// Read the status code off a health response's status line.
pub fn response_status(head: &[u8]) -> (r: Option<u16>)
    ensures
        r == spec_response_status(head@),
{
    if head.len() < 5 {
        proof {
            assert(forall|i: int| occurs_at(head@, http_prefix(), i) ==> i + 5 <= head@.len());
        }
        return None;
    }
    if head[0] != 72 || head[1] != 84 || head[2] != 84 || head[3] != 80 || head[4] != 47 {
        proof {
            assert(forall|j: int|
                0 <= j < 5 ==> head@.subrange(0, 5)[j] == head@[j]);
        }
        return None;
    }
    assert(head@.subrange(0, 5) =~= http_prefix());
    let i = match find_byte_from(head, 32, 0) {
        Some(i) => i,
        None => {
            return None;
        },
    };
    if head.len() - i < 4 {
        return None;
    }
    let d1 = head[i + 1];
    let d2 = head[i + 2];
    let d3 = head[i + 3];
    if d1 < 48 || d1 > 57 || d2 < 48 || d2 > 57 || d3 < 48 || d3 > 57 {
        return None;
    }
    if !(i + 4 == head.len() || head[i + 4] == 32 || head[i + 4] == 13) {
        return None;
    }
    let status: u16 = 100 * ((d1 - 48) as u16) + 10 * ((d2 - 48) as u16) + ((d3 - 48) as u16);
    Some(status)
}

/// Any success status means ready; nothing else does.
pub fn is_ready_status(status: u16) -> (r: bool)
    ensures
        r == (200 <= status < 300),
{
    200 <= status && status < 300
}

/// Whether a health response's status line answers "ready": it carries a
/// status code and that code is a success. An unreadable response, like a
/// refused connection or no response at all, is simply not yet ready.
pub fn response_indicates_ready(head: &[u8]) -> (r: bool)
    ensures
        r == match spec_response_status(head@) {
            Some(status) => 200 <= status < 300,
            None => false,
        },
{
    match response_status(head) {
        Some(status) => is_ready_status(status),
        None => false,
    }
}

/// What one probe attempt saw: either the shared state held no port yet, or
/// a health request went to `port` and either succeeded (any success status)
/// or did not (an error status, a refused connection, any network failure).
#[derive(Clone, Copy, PartialEq, Eq, Structural, Debug)]
pub enum ProbeObservation {
    NoPort,
    Health { port: u16, ok: bool },
}

/// What the session tells the loop to do after an attempt.
#[derive(Clone, Copy, PartialEq, Eq, Structural, Debug)]
pub enum ProbeStep {
    /// Sleep the fixed interval and try again.
    Continue,
    /// The probe is over, with this outcome.
    Finished(ReadinessOutcome),
}

/// The port an observation proves healthy, if any.
pub open spec fn spec_attempt_success(obs: ProbeObservation) -> Option<u16> {
    match obs {
        ProbeObservation::Health { port, ok } => if ok {
            Some(port)
        } else {
            None
        },
        ProbeObservation::NoPort => None,
    }
}

/// Outcome of a probe that starts with `used` attempts already spent and
/// `saw` recording whether any of them saw a port, and then makes the
/// observations in `obs`, in order, until an attempt succeeds or the budget
/// is spent. Meaningful when `used < budget` and `obs` covers the remaining
/// budget.
pub open spec fn spec_probe_run(
    budget: int,
    used: int,
    saw: bool,
    obs: Seq<ProbeObservation>,
) -> ReadinessOutcome
    decreases obs.len(),
{
    if obs.len() == 0 {
        ReadinessOutcome::TimedOut
    } else {
        match spec_attempt_success(obs[0]) {
            Some(p) => ReadinessOutcome::Ready(p),
            None => {
                let saw_now = saw || obs[0] is Health;
                if used + 1 >= budget {
                    if saw_now {
                        ReadinessOutcome::TimedOut
                    } else {
                        ReadinessOutcome::PortNeverAnnounced
                    }
                } else {
                    spec_probe_run(budget, used + 1, saw_now, obs.skip(1))
                }
            },
        }
    }
}

/// One readiness probe in progress: how much of the attempt budget is spent
/// and whether any attempt has seen an announced port.
pub struct ProbeSession {
    budget: u32,
    used: u32,
    saw_port: bool,
}

impl ProbeSession {
    /// The attempt budget this session was created with.
    pub closed spec fn budget(self) -> u32 {
        self.budget
    }

    /// Attempts spent so far.
    pub closed spec fn used(self) -> u32 {
        self.used
    }

    /// Whether any attempt so far saw an announced port.
    pub closed spec fn saw_port(self) -> bool {
        self.saw_port
    }

    /// A session that may still observe: budget not yet spent.
    pub open spec fn live(self) -> bool {
        self.used() < self.budget()
    }

    /// A fresh session with the given attempt budget.
    pub fn new(budget: u32) -> (s: Self)
        requires
            budget >= 1,
        ensures
            s.budget() == budget,
            s.used() == 0,
            !s.saw_port(),
    {
        ProbeSession { budget, used: 0, saw_port: false }
    }

    /// Decide on one attempt's observation.
    ///
    /// A healthy answer ends the probe at once with `Ready` on that port,
    /// however many earlier attempts failed. Anything else spends one
    /// attempt; when the budget runs out the probe ends with `TimedOut` if
    /// any attempt saw a port, and with `PortNeverAnnounced` if none ever
    /// did. Neither exhaustion outcome is an error of the supervising
    /// process: both are reported and the child, if any, keeps running.
    pub fn observe(&mut self, obs: ProbeObservation) -> (r: ProbeStep)
        requires
            old(self).live(),
        ensures
            final(self).budget() == old(self).budget(),
            match spec_attempt_success(obs) {
                Some(p) => {
                    &&& r == ProbeStep::Finished(ReadinessOutcome::Ready(p))
                    &&& *final(self) == *old(self)
                },
                None => {
                    &&& final(self).used() == old(self).used() + 1
                    &&& final(self).saw_port() == (old(self).saw_port() || obs is Health)
                    &&& if final(self).used() == final(self).budget() {
                        r == ProbeStep::Finished(
                            if final(self).saw_port() {
                                ReadinessOutcome::TimedOut
                            } else {
                                ReadinessOutcome::PortNeverAnnounced
                            },
                        )
                    } else {
                        r == ProbeStep::Continue
                    }
                },
            },
    {
        match obs {
            ProbeObservation::Health { port, ok } => {
                if ok {
                    return ProbeStep::Finished(ReadinessOutcome::Ready(port));
                }
                self.saw_port = true;
                self.used = self.used + 1;
            },
            ProbeObservation::NoPort => {
                self.used = self.used + 1;
            },
        }
        if self.used == self.budget {
            ProbeStep::Finished(
                if self.saw_port {
                    ReadinessOutcome::TimedOut
                } else {
                    ReadinessOutcome::PortNeverAnnounced
                },
            )
        } else {
            ProbeStep::Continue
        }
    }
}

/// Run a whole probe over a fixed schedule of observations.
///
/// This is the session loop with every observation known up front; its
/// result is exactly the outcome the one-step specification folds to, which
/// ties the executable session to the laws below.
pub fn probe_outcome_for(observations: &Vec<ProbeObservation>, budget: u32) -> (r:
    ReadinessOutcome)
    requires
        1 <= budget,
        observations@.len() >= budget,
    ensures
        r == spec_probe_run(budget as int, 0, false, observations@),
{
    let mut session = ProbeSession::new(budget);
    let mut i: usize = 0;
    assert(observations@.skip(0) =~= observations@);
    loop
        invariant
            session.budget() == budget,
            session.used() == i,
            i < budget,
            observations@.len() >= budget,
            spec_probe_run(budget as int, 0, false, observations@) == spec_probe_run(
                budget as int,
                i as int,
                session.saw_port(),
                observations@.skip(i as int),
            ),
        decreases budget - i,
    {
        let ghost pre = session;
        let ghost rest = observations@.skip(i as int);
        assert(rest.len() > 0);
        assert(rest[0] == observations@[i as int]);
        let step = session.observe(observations[i]);
        assert(rest.skip(1) =~= observations@.skip(i + 1));
        match step {
            ProbeStep::Finished(outcome) => {
                return outcome;
            },
            ProbeStep::Continue => {
                i = i + 1;
            },
        }
    }
}

/// If some attempt within the budget gets a healthy answer on port `p`, and
/// every earlier attempt got none, the probe returns `Ready(p)` — no matter
/// how many earlier attempts failed or what they saw.
pub proof fn law_success_within_budget_is_ready(
    budget: int,
    used: int,
    saw: bool,
    obs: Seq<ProbeObservation>,
    k: int,
    p: u16,
)
    requires
        0 <= used < budget,
        obs.len() >= budget - used,
        0 <= k < budget - used,
        obs[k] == (ProbeObservation::Health { port: p, ok: true }),
        forall|i: int| 0 <= i < k ==> spec_attempt_success(#[trigger] obs[i]) is None,
    ensures
        spec_probe_run(budget, used, saw, obs) == ReadinessOutcome::Ready(p),
    decreases k,
{
    if k == 0 {
    } else {
        assert(spec_attempt_success(obs[0]) is None);
        assert(obs.skip(1)[k - 1] == obs[k]);
        assert(forall|i: int|
            0 <= i < k - 1 ==> spec_attempt_success(#[trigger] obs.skip(1)[i]) is None);
        law_success_within_budget_is_ready(
            budget,
            used + 1,
            saw || obs[0] is Health,
            obs.skip(1),
            k - 1,
            p,
        );
    }
}

/// The probe never lies: it returns `Ready(p)` only when some observation
/// actually was a healthy answer on port `p`.
pub proof fn law_ready_requires_healthy_answer(
    budget: int,
    used: int,
    saw: bool,
    obs: Seq<ProbeObservation>,
    p: u16,
)
    requires
        spec_probe_run(budget, used, saw, obs) == ReadinessOutcome::Ready(p),
    ensures
        exists|i: int|
            0 <= i < obs.len() && obs[i] == (ProbeObservation::Health { port: p, ok: true }),
    decreases obs.len(),
{
    if obs.len() == 0 {
    } else {
        match spec_attempt_success(obs[0]) {
            Some(q) => {
                assert(obs[0] == (ProbeObservation::Health { port: p, ok: true }));
            },
            None => {
                if used + 1 >= budget {
                } else {
                    law_ready_requires_healthy_answer(
                        budget,
                        used + 1,
                        saw || obs[0] is Health,
                        obs.skip(1),
                        p,
                    );
                    let i = choose|i: int|
                        0 <= i < obs.skip(1).len() && obs.skip(1)[i]
                            == (ProbeObservation::Health { port: p, ok: true });
                    assert(obs[i + 1] == (ProbeObservation::Health { port: p, ok: true }));
                }
            },
        }
    }
}

/// If no attempt within the budget ever sees an announced port, the probe
/// ends with `PortNeverAnnounced`: a reported timeout outcome, not a raised
/// error.
pub proof fn law_no_port_within_budget_times_out(
    budget: int,
    used: int,
    obs: Seq<ProbeObservation>,
)
    requires
        0 <= used < budget,
        obs.len() >= budget - used,
        forall|i: int| 0 <= i < budget - used ==> #[trigger] obs[i] == ProbeObservation::NoPort,
    ensures
        spec_probe_run(budget, used, false, obs) == ReadinessOutcome::PortNeverAnnounced,
    decreases budget - used,
{
    assert(obs[0] == ProbeObservation::NoPort);
    if used + 1 >= budget {
    } else {
        assert(forall|i: int|
            0 <= i < budget - used - 1 ==> #[trigger] obs.skip(1)[i] == obs[i + 1]);
        law_no_port_within_budget_times_out(budget, used + 1, obs.skip(1));
    }
}

} // verus!
