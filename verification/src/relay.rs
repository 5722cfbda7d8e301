//! The output relay: one verified step per event read from the child.
//!
//! The surrounding application drains the child's streams in a background
//! task and hands every raw event to [`relay_step`], holding the lock on the
//! shared [`SupervisorState`] only for the duration of the call. Each child
//! event produces exactly one published event, so a listener sees every line
//! with no buffering and no duplication.

use vstd::prelude::*;

use crate::events::{AppEvent, ChildEvent, StreamKind};
use crate::port_line::{parse_port_announcement, spec_port_announcement};
use crate::state::SupervisorState;

verus! {

/// The one event published for a child event: a stdout line becomes an
/// output event carrying the very same bytes, a stderr line an error event,
/// a termination the terminated event with the exit code.
pub open spec fn spec_forwarded_event(event: ChildEvent) -> AppEvent {
    match event {
        ChildEvent::Output { bytes, stream } => match stream {
            StreamKind::Stdout => AppEvent::OutputLine(bytes),
            StreamKind::Stderr => AppEvent::ErrorLine(bytes),
        },
        ChildEvent::Terminated { exit_code } => AppEvent::ChildTerminated(exit_code),
    }
}

/// What one relay step does: how the shared state moves from `pre` to
/// `post`, and which single event `out` is published, for the child event
/// `event`.
///
/// A stdout line is always forwarded verbatim as an output event; when it is
/// a port announcement the announced port is also recorded, so a reader of
/// the shared state after seeing the forwarded line is guaranteed to see the
/// port. A stderr line is forwarded verbatim and changes nothing. A
/// termination clears process id and port together and forwards the exit
/// code.
pub open spec fn relay_post(
    pre: SupervisorState,
    post: SupervisorState,
    event: ChildEvent,
    out: AppEvent,
) -> bool {
    &&& out == spec_forwarded_event(event)
    &&& match event {
        ChildEvent::Output { bytes, stream } => match stream {
            StreamKind::Stdout => {
                &&& post.pid() == pre.pid()
                &&& match spec_port_announcement(bytes@) {
                    Some(p) => post.port() == Some(p),
                    None => post.port() == pre.port(),
                }
            },
            StreamKind::Stderr => post == pre,
        },
        ChildEvent::Terminated { exit_code } => {
            &&& post.pid() is None
            &&& post.port() is None
        },
    }
}

/// Process one event from the child under the state lock.
pub fn relay_step(state: &mut SupervisorState, event: ChildEvent) -> (out: AppEvent)
    ensures
        relay_post(*old(state), *final(state), event, out),
{
    match event {
        ChildEvent::Output { bytes, stream } => match stream {
            StreamKind::Stdout => {
                match parse_port_announcement(bytes.as_slice()) {
                    Some(p) => {
                        state.record_port(p);
                    },
                    None => {},
                }
                AppEvent::OutputLine(bytes)
            },
            StreamKind::Stderr => AppEvent::ErrorLine(bytes),
        },
        ChildEvent::Terminated { exit_code } => {
            state.clear();
            AppEvent::ChildTerminated(exit_code)
        },
    }
}

/// What one child event does to the shared record, abstractly: a pair of
/// the process id and the port.
pub open spec fn spec_event_effect(s: (Option<u32>, Option<u16>), event: ChildEvent) -> (
    Option<u32>,
    Option<u16>,
) {
    match event {
        ChildEvent::Output { bytes, stream } => match stream {
            StreamKind::Stdout => (
                s.0,
                match spec_port_announcement(bytes@) {
                    Some(p) => Some(p),
                    None => s.1,
                },
            ),
            StreamKind::Stderr => s,
        },
        ChildEvent::Terminated { .. } => (None, None),
    }
}

/// The shared record after a whole sequence of child events, in order.
pub open spec fn spec_state_after(s: (Option<u32>, Option<u16>), events: Seq<ChildEvent>) -> (
    Option<u32>,
    Option<u16>,
)
    decreases events.len(),
{
    if events.len() == 0 {
        s
    } else {
        spec_state_after(spec_event_effect(s, events[0]), events.skip(1))
    }
}

/// Drain a whole event stream, as the relay task does for the lifetime of
/// one child: every event is forwarded exactly once, in order, and the
/// shared record ends as the fold of the events over it.
#[verifier::loop_isolation(false)]
pub fn relay_stream(state: &mut SupervisorState, events: Vec<ChildEvent>) -> (out: Vec<AppEvent>)
    ensures
        out@.len() == events@.len(),
        forall|i: int|
            0 <= i < events@.len() ==> out@[i] == spec_forwarded_event(#[trigger] events@[i]),
        (final(state).pid(), final(state).port()) == spec_state_after(
            (old(state).pid(), old(state).port()),
            events@,
        ),
{
    let ghost orig = events@;
    let mut remaining = events;
    let mut out: Vec<AppEvent> = Vec::new();
    while remaining.len() > 0
        invariant
            out@.len() + remaining@.len() == orig.len(),
            remaining@ =~= orig.skip(out@.len() as int),
            forall|i: int| 0 <= i < out@.len() ==> out@[i] == spec_forwarded_event(orig[i]),
            spec_state_after((old(state).pid(), old(state).port()), orig) == spec_state_after(
                (state.pid(), state.port()),
                remaining@,
            ),
        decreases remaining@.len(),
    {
        let ghost rest = remaining@;
        let event = remaining.remove(0);
        assert(remaining@ =~= rest.skip(1));
        let forwarded = relay_step(state, event);
        out.push(forwarded);
    }
    assert(events@.skip(out@.len() as int).len() == 0);
    out
}

/// A stream that ends with the child's termination always leaves the shared
/// record empty, whatever came before.
pub proof fn law_exhausted_stream_leaves_state_empty(
    s: (Option<u32>, Option<u16>),
    events: Seq<ChildEvent>,
)
    requires
        events.len() > 0,
        events.last() matches ChildEvent::Terminated { .. },
    ensures
        spec_state_after(s, events) == ((None::<u32>, None::<u16>)),
    decreases events.len(),
{
    if events.len() == 1 {
        assert(events[0] == events.last());
        assert(events.skip(1).len() == 0);
        assert(spec_state_after(spec_event_effect(s, events[0]), events.skip(1))
            == spec_event_effect(s, events[0]));
    } else {
        assert(events.skip(1).last() == events.last());
        law_exhausted_stream_leaves_state_empty(spec_event_effect(s, events[0]), events.skip(1));
    }
}

/// For every valid announcement line the relay records exactly the announced
/// port, leaves the process id alone, and still forwards the original line,
/// once, as an ordinary output event.
pub proof fn law_announcement_sets_port(
    pre: SupervisorState,
    post: SupervisorState,
    bytes: Vec<u8>,
    out: AppEvent,
    p: u16,
)
    requires
        relay_post(pre, post, (ChildEvent::Output { bytes, stream: StreamKind::Stdout }), out),
        spec_port_announcement(bytes@) == Some(p),
    ensures
        post.port() == Some(p),
        post.pid() == pre.pid(),
        out == AppEvent::OutputLine(bytes),
{
}

/// A termination event clears process id and port together, whatever they
/// held, and forwards the exit code as the one published event.
pub proof fn law_termination_clears_state(
    pre: SupervisorState,
    post: SupervisorState,
    exit_code: Option<i32>,
    out: AppEvent,
)
    requires
        relay_post(pre, post, (ChildEvent::Terminated { exit_code }), out),
    ensures
        post.pid() is None,
        post.port() is None,
        out == AppEvent::ChildTerminated(exit_code),
{
}

} // verus!
