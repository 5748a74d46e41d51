//! One turn of a worker's loop: the machine takes the step that an event
//! of the transport calls for, the telemetry sink makes the record of it,
//! and the queues are looked at until the transport is needed again.

use crate::telemetry::shows;
use crate::telemetry::Emission;
use crate::telemetry::TelemetryLogger;
use crate::worker::awaits_transport;
use crate::worker::settle;
use crate::worker::settles_to;
use crate::worker::step;
use crate::worker::Event;
use crate::worker::Inbox;
use crate::worker::Note;
use crate::worker::Worker;
use vstd::prelude::*;

verus! {

/// Whether `emission` is what a step's note calls for: the record of the
/// note where there is one, and nothing where there is none.
pub open spec fn answers(
    emission: Option<Emission>,
    sink: TelemetryLogger,
    note: Option<Note<Seq<u8>, Seq<char>>>,
) -> bool {
    match note {
        Some(n) => emission is Some && shows(emission.unwrap(), sink.origin(), sink.conn_id(), n),
        None => emission is None,
    }
}

/// Brings a new worker to the point where it needs the transport, or
/// ends it if its stop signal is already set.
pub fn begin(worker: &mut Worker, inbox: &Inbox)
    requires
        old(worker).wf(),
    ensures
        final(worker).wf(),
        final(worker).kind() == old(worker).kind(),
        final(worker).batch() == old(worker).batch(),
        awaits_transport(final(worker).stage()),
        settles_to(old(worker).stage(), final(worker).stage()),
{
    settle(worker, inbox);
}

/// Takes one turn on an event of the transport. The machine steps on the
/// event; the record that the step asks for, if any, is made by the sink
/// and returned for delivery; then the stop signal and the outbound queue
/// are looked at as far as the machine asks, so that on return the
/// worker needs the transport again or has stopped.
pub fn turn(
    worker: &mut Worker,
    sink: &mut TelemetryLogger,
    inbox: &Inbox,
    event: Event<Vec<u8>, String>,
) -> (emission: Option<Emission>)
    requires
        old(worker).wf(),
    ensures
        final(worker).wf(),
        final(worker).kind() == old(worker).kind(),
        final(worker).batch() == old(worker).batch(),
        final(sink).origin() == old(sink).origin(),
        final(sink).conn_id() == old(sink).conn_id(),
        awaits_transport(final(worker).stage()),
        settles_to(
            step(old(worker).kind(), old(worker).batch(), old(worker).stage(), event@).0,
            final(worker).stage(),
        ),
        answers(
            emission,
            *old(sink),
            step(old(worker).kind(), old(worker).batch(), old(worker).stage(), event@).1,
        ),
{
    let emission = match worker.advance(event) {
        Some(note) => Some(sink.emit_note(note)),
        None => None,
    };
    settle(worker, inbox);
    emission
}

} // verus!
