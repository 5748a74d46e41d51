//! The polling loop of a worker, as a state machine. The machine decides;
//! whoever drives it performs the transport's reads and writes and hands
//! back what happened. One tick looks at the stop signal, writes up to a
//! batch of queued payloads, and makes one read bounded by a timeout.

use crate::channel::bounded_payloads;
use crate::channel::bounded_signals;
use crate::channel::payload_capacity;
use crate::channel::poll;
use crate::channel::signal_capacity;
use crate::channel::Polled;
use crate::error::ConnError;
use crossbeam_channel::Receiver;
use crossbeam_channel::Sender;
use vstd::prelude::*;
use vstd::string::StringExecFns;

verus! {

/// The most payloads that one tick writes before it reads.
pub const BATCH_LIMIT: usize = 64;

/// The capacity of a worker's outbound queue.
pub const OUTBOUND_CAPACITY: usize = 1024;

/// The capacity of a worker's stop channel.
pub const STOP_CAPACITY: usize = 1;

/// The kind of transport that a worker drives.
#[derive(Clone, Copy, Debug, PartialEq, Eq, Structural)]
pub enum TransportKind {
    Serial,
    Tcp,
    Udp,
}

/// Where a worker stands within its tick. `B` is the type of a payload.
#[derive(Debug, PartialEq, Eq)]
pub enum Stage<B> {
    /// About to look at the stop signal.
    CheckStop,
    /// About to take the next queued payload; `sent` payloads were
    /// handled in this tick so far.
    Drain { sent: usize },
    /// `payload` is being written to the transport.
    Write { sent: usize, payload: B },
    /// A read is under way.
    Read,
    /// The loop has ended. No event leads out of this stage.
    Stopped,
}

/// What one read on the transport came to. `B` is the type of the bytes
/// read, `T` that of an error's description.
#[derive(Debug, PartialEq, Eq)]
pub enum ReadOutcome<B, T> {
    /// The read returned these bytes; none at all for a read of length
    /// zero.
    Data(B),
    /// Nothing arrived within the timeout.
    TimedOut,
    /// Nothing is there to read just now.
    WouldBlock,
    /// The read failed for another reason.
    Failed(T),
}

/// What the driver reports back to the machine.
#[derive(Debug, PartialEq, Eq)]
pub enum Event<B, T> {
    /// The stop signal was looked at; `true` when the worker is to stop.
    Stop(bool),
    /// The outbound queue was looked at; the oldest payload if there was
    /// one.
    Queued(Option<B>),
    /// The write of the pending payload ended, with a description of the
    /// failure if it failed.
    Wrote(Option<T>),
    /// The read ended.
    Read(ReadOutcome<B, T>),
}

/// A telemetry record that a step asks to have emitted.
#[derive(Debug, PartialEq, Eq)]
pub enum Note<B, T> {
    /// These bytes were written.
    Tx(B),
    /// These bytes were read.
    Rx(B),
    /// A status message of the worker itself.
    Sys(T),
}

/// What the machine asks its driver to do next.
#[derive(Clone, Copy, Debug, PartialEq, Eq, Structural)]
pub enum Request {
    /// Look at the stop signal, without blocking.
    PollStop,
    /// Look at the outbound queue, without blocking.
    PollQueue,
    /// Write the pending payload fully to the transport.
    Write,
    /// Make one read, bounded by the timeout.
    Read,
    /// Leave the loop.
    Exit,
}

impl View for Stage<Vec<u8>> {
    type V = Stage<Seq<u8>>;

    open spec fn view(&self) -> Stage<Seq<u8>> {
        match *self {
            Stage::CheckStop => Stage::CheckStop,
            Stage::Drain { sent } => Stage::Drain { sent },
            Stage::Write { sent, payload } => Stage::Write { sent, payload: payload@ },
            Stage::Read => Stage::Read,
            Stage::Stopped => Stage::Stopped,
        }
    }
}

impl View for ReadOutcome<Vec<u8>, String> {
    type V = ReadOutcome<Seq<u8>, Seq<char>>;

    open spec fn view(&self) -> ReadOutcome<Seq<u8>, Seq<char>> {
        match *self {
            ReadOutcome::Data(bytes) => ReadOutcome::Data(bytes@),
            ReadOutcome::TimedOut => ReadOutcome::TimedOut,
            ReadOutcome::WouldBlock => ReadOutcome::WouldBlock,
            ReadOutcome::Failed(detail) => ReadOutcome::Failed(detail@),
        }
    }
}

impl View for Event<Vec<u8>, String> {
    type V = Event<Seq<u8>, Seq<char>>;

    open spec fn view(&self) -> Event<Seq<u8>, Seq<char>> {
        match *self {
            Event::Stop(stop) => Event::Stop(stop),
            Event::Queued(Some(payload)) => Event::Queued(Some(payload@)),
            Event::Queued(None) => Event::Queued(None),
            Event::Wrote(Some(detail)) => Event::Wrote(Some(detail@)),
            Event::Wrote(None) => Event::Wrote(None),
            Event::Read(outcome) => Event::Read(outcome@),
        }
    }
}

impl View for Note<Vec<u8>, String> {
    type V = Note<Seq<u8>, Seq<char>>;

    open spec fn view(&self) -> Note<Seq<u8>, Seq<char>> {
        match *self {
            Note::Tx(bytes) => Note::Tx(bytes@),
            Note::Rx(bytes) => Note::Rx(bytes@),
            Note::Sys(text) => Note::Sys(text@),
        }
    }
}

/// The view of an optional note.
pub open spec fn note_view(note: Option<Note<Vec<u8>, String>>) -> Option<
    Note<Seq<u8>, Seq<char>>,
> {
    match note {
        Some(n) => Some(n@),
        None => None,
    }
}

/// The status message for a failed write.
pub open spec fn write_failure(detail: Seq<char>) -> Seq<char> {
    "[ERROR] write failed: "@ + detail
}

/// The status message for a failed read.
pub open spec fn read_failure(detail: Seq<char>) -> Seq<char> {
    "[ERROR] read failed: "@ + detail
}

/// The status message for a connection that its peer has closed.
pub open spec fn peer_closed() -> Seq<char> {
    "[INFO] peer closed the connection"@
}

/// The stage that follows the handling of a payload: the next payload
/// while the batch has room, the read once it is full.
pub open spec fn after_payload(batch: usize, sent: int) -> Stage<Seq<u8>> {
    if sent < batch {
        Stage::Drain { sent: sent as usize }
    } else {
        Stage::Read
    }
}

/// One step of the machine: the stage that follows `stage` on `event`,
/// and the record to emit, if any. An event that the stage did not ask
/// for changes nothing.
pub open spec fn step(
    kind: TransportKind,
    batch: usize,
    stage: Stage<Seq<u8>>,
    event: Event<Seq<u8>, Seq<char>>,
) -> (Stage<Seq<u8>>, Option<Note<Seq<u8>, Seq<char>>>) {
    match (stage, event) {
        (Stage::CheckStop, Event::Stop(true)) => (Stage::Stopped, None),
        (Stage::CheckStop, Event::Stop(false)) => (after_payload(batch, 0), None),
        (Stage::Drain { sent }, Event::Queued(Some(payload))) => (
            Stage::Write { sent, payload },
            None,
        ),
        (Stage::Drain { sent }, Event::Queued(None)) => (Stage::Read, None),
        (Stage::Write { sent, payload }, Event::Wrote(None)) => (
            after_payload(batch, sent + 1),
            Some(Note::Tx(payload)),
        ),
        (Stage::Write { sent, payload }, Event::Wrote(Some(detail))) => (
            if kind == TransportKind::Udp {
                after_payload(batch, sent + 1)
            } else {
                Stage::Stopped
            },
            Some(Note::Sys(write_failure(detail))),
        ),
        (Stage::Read, Event::Read(ReadOutcome::Data(bytes))) => if bytes.len() > 0 {
            (Stage::CheckStop, Some(Note::Rx(bytes)))
        } else if kind == TransportKind::Tcp {
            (Stage::Stopped, Some(Note::Sys(peer_closed())))
        } else {
            (Stage::CheckStop, None)
        },
        (Stage::Read, Event::Read(ReadOutcome::TimedOut)) => (Stage::CheckStop, None),
        (Stage::Read, Event::Read(ReadOutcome::WouldBlock)) => (Stage::CheckStop, None),
        (Stage::Read, Event::Read(ReadOutcome::Failed(detail))) => (
            Stage::Stopped,
            Some(Note::Sys(read_failure(detail))),
        ),
        (other, _) => (other, None),
    }
}

/// What a stage asks of the driver.
pub open spec fn request_of(stage: Stage<Seq<u8>>) -> Request {
    match stage {
        Stage::CheckStop => Request::PollStop,
        Stage::Drain { .. } => Request::PollQueue,
        Stage::Write { .. } => Request::Write,
        Stage::Read => Request::Read,
        Stage::Stopped => Request::Exit,
    }
}

/// A stage is well formed when the payloads it counts fit the batch.
pub open spec fn stage_fits(batch: usize, stage: Stage<Seq<u8>>) -> bool {
    match stage {
        Stage::Drain { sent } => sent < batch,
        Stage::Write { sent, .. } => sent < batch,
        _ => true,
    }
}

/// The fault that an event reports: a failed write or a failed read, with
/// its description. Such a fault stays with its worker; it is told to
/// the log and never to the caller of a command.
pub open spec fn fault_reported(event: Event<Seq<u8>, Seq<char>>) -> Option<Seq<char>> {
    match event {
        Event::Wrote(Some(detail)) => Some(detail),
        Event::Read(ReadOutcome::Failed(detail)) => Some(detail),
        _ => None,
    }
}

/// The fault that an event reports, if it reports one.
pub fn fault_of(event: &Event<Vec<u8>, String>) -> (fault: Option<ConnError>)
    ensures
        match fault {
            Some(ConnError::FatalIo(detail)) => fault_reported(event@) == Some(detail@),
            Some(_) => false,
            None => fault_reported(event@) is None,
        },
{
    match event {
        Event::Wrote(Some(detail)) => Some(ConnError::FatalIo(detail.clone())),
        Event::Read(ReadOutcome::Failed(detail)) => Some(ConnError::FatalIo(detail.clone())),
        _ => None,
    }
}

/// The stage that follows the handling of the payload counted `sent`.
fn next_payload(batch: usize, sent: usize) -> (stage: Stage<Vec<u8>>)
    ensures
        stage@ == after_payload(batch, sent + 1),
{
    if sent < batch && sent + 1 < batch {
        Stage::Drain { sent: sent + 1 }
    } else {
        Stage::Read
    }
}

/// The stage that opens the writes of a tick.
fn first_payload(batch: usize) -> (stage: Stage<Vec<u8>>)
    ensures
        stage@ == after_payload(batch, 0),
{
    if 0 < batch {
        Stage::Drain { sent: 0 }
    } else {
        Stage::Read
    }
}

/// Takes one step: computes the stage that follows `stage` on `event`
/// and the record to emit.
pub fn advance_stage(
    kind: TransportKind,
    batch: usize,
    stage: Stage<Vec<u8>>,
    event: Event<Vec<u8>, String>,
) -> (out: (Stage<Vec<u8>>, Option<Note<Vec<u8>, String>>))
    ensures
        (out.0@, note_view(out.1)) == step(kind, batch, stage@, event@),
        stage_fits(batch, stage@) ==> stage_fits(batch, out.0@),
{
    match stage {
        Stage::CheckStop => match event {
            Event::Stop(true) => (Stage::Stopped, None),
            Event::Stop(false) => (first_payload(batch), None),
            _ => (Stage::CheckStop, None),
        },
        Stage::Drain { sent } => match event {
            Event::Queued(Some(payload)) => (Stage::Write { sent, payload }, None),
            Event::Queued(None) => (Stage::Read, None),
            _ => (Stage::Drain { sent }, None),
        },
        Stage::Write { sent, payload } => match event {
            Event::Wrote(None) => (next_payload(batch, sent), Some(Note::Tx(payload))),
            Event::Wrote(Some(detail)) => {
                let mut text = String::from_str("[ERROR] write failed: ");
                text.append(detail.as_str());
                let next = match kind {
                    TransportKind::Udp => next_payload(batch, sent),
                    _ => Stage::Stopped,
                };
                (next, Some(Note::Sys(text)))
            },
            _ => (Stage::Write { sent, payload }, None),
        },
        Stage::Read => match event {
            Event::Read(ReadOutcome::Data(bytes)) => {
                if bytes.len() > 0 {
                    (Stage::CheckStop, Some(Note::Rx(bytes)))
                } else {
                    match kind {
                        TransportKind::Tcp => (
                            Stage::Stopped,
                            Some(Note::Sys(String::from_str("[INFO] peer closed the connection"))),
                        ),
                        _ => (Stage::CheckStop, None),
                    }
                }
            },
            Event::Read(ReadOutcome::TimedOut) => (Stage::CheckStop, None),
            Event::Read(ReadOutcome::WouldBlock) => (Stage::CheckStop, None),
            Event::Read(ReadOutcome::Failed(detail)) => {
                let mut text = String::from_str("[ERROR] read failed: ");
                text.append(detail.as_str());
                (Stage::Stopped, Some(Note::Sys(text)))
            },
            _ => (Stage::Read, None),
        },
        Stage::Stopped => (Stage::Stopped, None),
    }
}

/// The state of one worker's loop.
pub struct Worker {
    kind: TransportKind,
    batch: usize,
    stage: Stage<Vec<u8>>,
}

impl Worker {
    /// The kind of transport that the worker drives.
    pub closed spec fn kind(&self) -> TransportKind {
        self.kind
    }

    /// The most payloads that the worker writes in one tick.
    pub closed spec fn batch(&self) -> usize {
        self.batch
    }

    /// Where the worker stands.
    pub closed spec fn stage(&self) -> Stage<Seq<u8>> {
        self.stage@
    }

    /// The worker's invariant: its stage fits its batch limit.
    pub open spec fn wf(&self) -> bool {
        stage_fits(self.batch(), self.stage())
    }

    /// A worker at the start of its first tick, with the usual batch
    /// limit.
    pub fn new(kind: TransportKind) -> (worker: Worker)
        ensures
            worker.wf(),
            worker.kind() == kind,
            worker.batch() == BATCH_LIMIT,
            worker.stage() == Stage::<Seq<u8>>::CheckStop,
    {
        Worker { kind, batch: BATCH_LIMIT, stage: Stage::CheckStop }
    }

    /// A worker at the start of its first tick that writes at most
    /// `batch` payloads per tick.
    pub fn with_batch(kind: TransportKind, batch: usize) -> (worker: Worker)
        ensures
            worker.wf(),
            worker.kind() == kind,
            worker.batch() == batch,
            worker.stage() == Stage::<Seq<u8>>::CheckStop,
    {
        Worker { kind, batch, stage: Stage::CheckStop }
    }

    /// What the driver is to do next.
    pub fn request(&self) -> (request: Request)
        ensures
            request == request_of(self.stage()),
    {
        match &self.stage {
            Stage::CheckStop => Request::PollStop,
            Stage::Drain { .. } => Request::PollQueue,
            Stage::Write { .. } => Request::Write,
            Stage::Read => Request::Read,
            Stage::Stopped => Request::Exit,
        }
    }

    /// The payload that is being written, if the worker is writing.
    pub fn payload(&self) -> (pending: Option<&Vec<u8>>)
        ensures
            match self.stage() {
                Stage::Write { payload, .. } => pending is Some && pending.unwrap()@ == payload,
                _ => pending is None,
            },
    {
        match &self.stage {
            Stage::Write { payload, .. } => Some(payload),
            _ => None,
        }
    }

    /// Whether the loop has ended.
    pub fn is_stopped(&self) -> (stopped: bool)
        ensures
            stopped == (self.stage() == Stage::<Seq<u8>>::Stopped),
    {
        match &self.stage {
            Stage::Stopped => true,
            _ => false,
        }
    }

    /// Takes one step on `event` and returns the record to emit, if the
    /// step calls for one.
    pub fn advance(&mut self, event: Event<Vec<u8>, String>) -> (note: Option<Note<Vec<u8>, String>>)
        requires
            old(self).wf(),
        ensures
            final(self).wf(),
            final(self).kind() == old(self).kind(),
            final(self).batch() == old(self).batch(),
            (final(self).stage(), note_view(note)) == step(
                old(self).kind(),
                old(self).batch(),
                old(self).stage(),
                event@,
            ),
    {
        let mut stage: Stage<Vec<u8>> = Stage::Stopped;
        std::mem::swap(&mut self.stage, &mut stage);
        let (next, note) = advance_stage(self.kind, self.batch, stage, event);
        self.stage = next;
        note
    }
}

/// The sending halves of a worker's queues, kept by the registry.
pub struct Controls {
    /// The bounded queue of payloads waiting to be written.
    pub outbound: Sender<Vec<u8>>,
    /// The stop channel.
    pub stop: Sender<()>,
}

/// The receiving halves of a worker's queues, owned by the worker.
pub struct Inbox {
    /// The bounded queue of payloads waiting to be written.
    pub outbound: Receiver<Vec<u8>>,
    /// The stop channel.
    pub stop: Receiver<()>,
}

/// Makes the two queues of a new worker: an outbound queue that holds
/// `OUTBOUND_CAPACITY` payloads and a stop channel that holds
/// `STOP_CAPACITY` signals.
pub fn worker_queues() -> (ends: (Controls, Inbox))
    ensures
        payload_capacity(ends.0.outbound) == OUTBOUND_CAPACITY,
        signal_capacity(ends.0.stop) == STOP_CAPACITY,
{
    let (outbound_tx, outbound_rx) = bounded_payloads(OUTBOUND_CAPACITY);
    let (stop_tx, stop_rx) = bounded_signals(STOP_CAPACITY);
    (
        Controls { outbound: outbound_tx, stop: stop_tx },
        Inbox { outbound: outbound_rx, stop: stop_rx },
    )
}

/// What a look at the stop channel means: stop when a signal was there,
/// and also when every sender is gone, for then nobody is left who could
/// ask.
pub open spec fn stop_meaning(polled: Polled<()>) -> Event<Seq<u8>, Seq<char>> {
    match polled {
        Polled::Item(_) => Event::Stop(true),
        Polled::Empty => Event::Stop(false),
        Polled::Disconnected => Event::Stop(true),
    }
}

/// What a look at the outbound queue means: the payload that was taken,
/// or nothing, whether or not a sender is left.
pub open spec fn queue_meaning(polled: Polled<Vec<u8>>) -> Event<Seq<u8>, Seq<char>> {
    match polled {
        Polled::Item(payload) => Event::Queued(Some(payload@)),
        Polled::Empty => Event::Queued(None),
        Polled::Disconnected => Event::Queued(None),
    }
}

/// Turns a look at the stop channel into the machine's event.
pub fn stop_event(polled: Polled<()>) -> (event: Event<Vec<u8>, String>)
    ensures
        event@ == stop_meaning(polled),
{
    match polled {
        Polled::Item(_) => Event::Stop(true),
        Polled::Empty => Event::Stop(false),
        Polled::Disconnected => Event::Stop(true),
    }
}

/// Turns a look at the outbound queue into the machine's event.
pub fn queue_event(polled: Polled<Vec<u8>>) -> (event: Event<Vec<u8>, String>)
    ensures
        event@ == queue_meaning(polled),
{
    match polled {
        Polled::Item(payload) => Event::Queued(Some(payload)),
        Polled::Empty => Event::Queued(None),
        Polled::Disconnected => Event::Queued(None),
    }
}

/// Whether a stage waits for the transport or has ended, so that the
/// queues have nothing to say to it.
pub open spec fn awaits_transport(stage: Stage<Seq<u8>>) -> bool {
    stage is Write || stage is Read || stage is Stopped
}

/// Where looks at the two queues can take a stage: a stage that waits for
/// the transport stays; a drain turns to the write of its next payload
/// or to the read; a stop check ends the loop or turns to the first
/// payload's write or to the read.
pub open spec fn settles_to(from: Stage<Seq<u8>>, to: Stage<Seq<u8>>) -> bool {
    match from {
        Stage::CheckStop => to is Stopped || to is Read || (to matches Stage::Write { sent, .. }
            && sent == 0),
        Stage::Drain { sent } => to is Read || (to matches Stage::Write { sent: s, .. } && s
            == sent),
        _ => to == from,
    }
}

/// Runs the machine for as long as it asks only for looks at the two
/// queues, and makes those looks. On return the worker waits for a write
/// or a read on the transport, or has stopped. No step taken here emits
/// a record.
pub fn settle(worker: &mut Worker, inbox: &Inbox)
    requires
        old(worker).wf(),
    ensures
        final(worker).wf(),
        final(worker).kind() == old(worker).kind(),
        final(worker).batch() == old(worker).batch(),
        awaits_transport(final(worker).stage()),
        settles_to(old(worker).stage(), final(worker).stage()),
{
    if worker.request() == Request::PollStop {
        let event = stop_event(poll(&inbox.stop));
        let _ = worker.advance(event);
    }
    if worker.request() == Request::PollQueue {
        let event = queue_event(poll(&inbox.outbound));
        let _ = worker.advance(event);
    }
}

} // verus!
