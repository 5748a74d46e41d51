//! What a worker emits over a whole run: the machine of `worker` folded
//! over a sequence of events, and the laws that hold of the records that
//! come out.

use crate::worker::after_payload;
use crate::worker::step;
use crate::worker::Event;
use crate::worker::Note;
use crate::worker::ReadOutcome;
use crate::worker::Stage;
use crate::worker::TransportKind;
use vstd::prelude::*;

verus! {

/// The records of one step, as a sequence.
pub open spec fn emitted(note: Option<Note<Seq<u8>, Seq<char>>>) -> Seq<Note<Seq<u8>, Seq<char>>> {
    match note {
        Some(n) => seq![n],
        None => Seq::empty(),
    }
}

/// The machine run over `events` from `stage`: the stage it ends in and
/// the records it emits, in order.
pub open spec fn run(
    kind: TransportKind,
    batch: usize,
    stage: Stage<Seq<u8>>,
    events: Seq<Event<Seq<u8>, Seq<char>>>,
) -> (Stage<Seq<u8>>, Seq<Note<Seq<u8>, Seq<char>>>)
    decreases events.len(),
{
    if events.len() == 0 {
        (stage, Seq::empty())
    } else {
        let first = step(kind, batch, stage, events[0]);
        let rest = run(kind, batch, first.0, events.drop_first());
        (rest.0, emitted(first.1) + rest.1)
    }
}

/// The events of writing `payloads` one after the other, each taken from
/// the queue and then written with success.
pub open spec fn drain_events(payloads: Seq<Seq<u8>>) -> Seq<Event<Seq<u8>, Seq<char>>>
    decreases payloads.len(),
{
    if payloads.len() == 0 {
        Seq::empty()
    } else {
        seq![Event::Queued(Some(payloads[0])), Event::Wrote(None)] + drain_events(
            payloads.drop_first(),
        )
    }
}

/// One TX record per payload, in order.
pub open spec fn tx_notes(payloads: Seq<Seq<u8>>) -> Seq<Note<Seq<u8>, Seq<char>>> {
    Seq::new(payloads.len(), |i: int| Note::Tx(payloads[i]))
}

/// The record of a read: an RX record for a read that brought bytes, and
/// none for any other.
pub open spec fn read_notes(read: ReadOutcome<Seq<u8>, Seq<char>>) -> Seq<
    Note<Seq<u8>, Seq<char>>,
> {
    match read {
        ReadOutcome::Data(bytes) => if bytes.len() > 0 {
            seq![Note::Rx(bytes)]
        } else {
            Seq::empty()
        },
        _ => Seq::empty(),
    }
}

/// Whether a read leaves the loop running: it brought bytes, or it found
/// nothing to read. A read of length zero on TCP, and a failed read, end
/// the loop.
pub open spec fn keeps_running(kind: TransportKind, read: ReadOutcome<Seq<u8>, Seq<char>>) -> bool {
    match read {
        ReadOutcome::Data(bytes) => bytes.len() > 0 || kind != TransportKind::Tcp,
        ReadOutcome::TimedOut => true,
        ReadOutcome::WouldBlock => true,
        ReadOutcome::Failed(_) => false,
    }
}

/// What happens in one tick without a fault: the payloads that the queue
/// holds for it, and the outcome of its read.
pub struct Tick {
    pub payloads: Seq<Seq<u8>>,
    pub read: ReadOutcome<Seq<u8>, Seq<char>>,
}

/// Whether a tick can happen under the batch limit and leaves the loop
/// running.
pub open spec fn plain_tick(kind: TransportKind, batch: usize, tick: Tick) -> bool {
    tick.payloads.len() <= batch && keeps_running(kind, tick.read)
}

/// The look at the queue that ends a tick's writes: the queue is found
/// empty, unless the batch is full and the queue is not looked at again.
pub open spec fn drain_end(batch: usize, written: nat) -> Seq<Event<Seq<u8>, Seq<char>>> {
    if written < batch {
        seq![Event::Queued(None)]
    } else {
        Seq::empty()
    }
}

/// The events of one tick: the stop signal is not set, the payloads are
/// written, and the read ends.
pub open spec fn tick_events(batch: usize, tick: Tick) -> Seq<Event<Seq<u8>, Seq<char>>> {
    seq![Event::Stop(false)] + drain_events(tick.payloads) + drain_end(
        batch,
        tick.payloads.len(),
    ) + seq![Event::Read(tick.read)]
}

/// The records of one tick: a TX record per payload, then the record of
/// the read.
pub open spec fn tick_notes(tick: Tick) -> Seq<Note<Seq<u8>, Seq<char>>> {
    tx_notes(tick.payloads) + read_notes(tick.read)
}

/// The events of a sequence of ticks.
pub open spec fn session_events(batch: usize, ticks: Seq<Tick>) -> Seq<Event<Seq<u8>, Seq<char>>>
    decreases ticks.len(),
{
    if ticks.len() == 0 {
        Seq::empty()
    } else {
        tick_events(batch, ticks[0]) + session_events(batch, ticks.drop_first())
    }
}

/// The records of a sequence of ticks.
pub open spec fn session_notes(ticks: Seq<Tick>) -> Seq<Note<Seq<u8>, Seq<char>>>
    decreases ticks.len(),
{
    if ticks.len() == 0 {
        Seq::empty()
    } else {
        tick_notes(ticks[0]) + session_notes(ticks.drop_first())
    }
}

/// The number of TX records among `notes`.
pub open spec fn count_tx(notes: Seq<Note<Seq<u8>, Seq<char>>>) -> nat
    decreases notes.len(),
{
    if notes.len() == 0 {
        0
    } else {
        count_tx(notes.drop_last()) + if notes.last() is Tx {
            1nat
        } else {
            0nat
        }
    }
}

/// The number of RX records among `notes`.
pub open spec fn count_rx(notes: Seq<Note<Seq<u8>, Seq<char>>>) -> nat
    decreases notes.len(),
{
    if notes.len() == 0 {
        0
    } else {
        count_rx(notes.drop_last()) + if notes.last() is Rx {
            1nat
        } else {
            0nat
        }
    }
}

/// The number of payloads that a sequence of ticks is fed.
pub open spec fn payloads_fed(ticks: Seq<Tick>) -> nat
    decreases ticks.len(),
{
    if ticks.len() == 0 {
        0
    } else {
        ticks[0].payloads.len() + payloads_fed(ticks.drop_first())
    }
}

/// The number of reads, over a sequence of ticks, that bring bytes.
pub open spec fn reads_delivered(ticks: Seq<Tick>) -> nat
    decreases ticks.len(),
{
    if ticks.len() == 0 {
        0
    } else {
        read_notes(ticks[0].read).len() + reads_delivered(ticks.drop_first())
    }
}

/// Running over two sequences of events in a row is running over the
/// first and then, from where that ended, over the second.
pub proof fn lemma_run_append(
    kind: TransportKind,
    batch: usize,
    stage: Stage<Seq<u8>>,
    a: Seq<Event<Seq<u8>, Seq<char>>>,
    b: Seq<Event<Seq<u8>, Seq<char>>>,
)
    ensures
        run(kind, batch, stage, a + b).0 == run(kind, batch, run(kind, batch, stage, a).0, b).0,
        run(kind, batch, stage, a + b).1 == run(kind, batch, stage, a).1 + run(
            kind,
            batch,
            run(kind, batch, stage, a).0,
            b,
        ).1,
    decreases a.len(),
{
    if a.len() == 0 {
        assert(a + b =~= b);
        assert(run(kind, batch, stage, a).1 + run(kind, batch, stage, b).1 =~= run(
            kind,
            batch,
            stage,
            b,
        ).1);
    } else {
        let first = step(kind, batch, stage, a[0]);
        assert((a + b)[0] == a[0]);
        assert((a + b).drop_first() =~= a.drop_first() + b);
        lemma_run_append(kind, batch, first.0, a.drop_first(), b);
        let mid = run(kind, batch, first.0, a.drop_first());
        let tail = run(kind, batch, mid.0, b);
        assert(emitted(first.1) + (mid.1 + tail.1) =~= (emitted(first.1) + mid.1) + tail.1);
    }
}

/// Running over a single event is taking one step.
pub proof fn lemma_run_single(
    kind: TransportKind,
    batch: usize,
    stage: Stage<Seq<u8>>,
    event: Event<Seq<u8>, Seq<char>>,
)
    ensures
        run(kind, batch, stage, seq![event]) == (
            step(kind, batch, stage, event).0,
            emitted(step(kind, batch, stage, event).1),
        ),
{
    reveal_with_fuel(run, 2);
    let events = seq![event];
    assert(events.drop_first() =~= Seq::empty());
    let first = step(kind, batch, stage, event);
    assert(emitted(first.1) + Seq::<Note<Seq<u8>, Seq<char>>>::empty() =~= emitted(first.1));
}

/// Counting distributes over concatenation.
pub proof fn lemma_count_append(
    a: Seq<Note<Seq<u8>, Seq<char>>>,
    b: Seq<Note<Seq<u8>, Seq<char>>>,
)
    ensures
        count_tx(a + b) == count_tx(a) + count_tx(b),
        count_rx(a + b) == count_rx(a) + count_rx(b),
    decreases b.len(),
{
    if b.len() == 0 {
        assert(a + b =~= a);
    } else {
        assert((a + b).drop_last() =~= a + b.drop_last());
        assert((a + b).last() == b.last());
        lemma_count_append(a, b.drop_last());
    }
}

/// The TX records of a batch of payloads are as many as the payloads, and
/// there is no RX record among them.
pub proof fn lemma_count_tx_notes(payloads: Seq<Seq<u8>>)
    ensures
        count_tx(tx_notes(payloads)) == payloads.len(),
        count_rx(tx_notes(payloads)) == 0,
    decreases payloads.len(),
{
    if payloads.len() > 0 {
        assert(tx_notes(payloads).drop_last() =~= tx_notes(payloads.drop_last()));
        lemma_count_tx_notes(payloads.drop_last());
    }
}

/// Writing a run of queued payloads emits one TX record for each, in the
/// order of the queue, and nothing else.
pub proof fn lemma_drain_emits_tx(
    kind: TransportKind,
    batch: usize,
    sent: nat,
    payloads: Seq<Seq<u8>>,
)
    requires
        sent + payloads.len() <= batch,
    ensures
        run(kind, batch, after_payload(batch, sent as int), drain_events(payloads)) == (
            after_payload(batch, (sent + payloads.len()) as int),
            tx_notes(payloads),
        ),
    decreases payloads.len(),
{
    let start = after_payload(batch, sent as int);
    if payloads.len() == 0 {
        assert(tx_notes(payloads) =~= Seq::empty());
    } else {
        let rest = payloads.drop_first();
        let events = drain_events(payloads);
        let taken = step(kind, batch, start, events[0]);
        assert(events.drop_first()[0] == Event::<Seq<u8>, Seq<char>>::Wrote(None));
        assert(events.drop_first().drop_first() =~= drain_events(rest));
        let written = step(kind, batch, taken.0, events.drop_first()[0]);
        assert(written.0 == after_payload(batch, (sent + 1) as int));
        lemma_drain_emits_tx(kind, batch, sent + 1, rest);
        assert(seq![Note::<Seq<u8>, Seq<char>>::Tx(payloads[0])] + tx_notes(rest) =~= tx_notes(
            payloads,
        ));
        let tail = run(kind, batch, written.0, drain_events(rest));
        assert(run(kind, batch, taken.0, events.drop_first()) == (
            tail.0,
            emitted(written.1) + tail.1,
        ));
        assert(emitted(taken.1) + (emitted(written.1) + tail.1) =~= tx_notes(payloads));
    }
}

/// A tick without a fault emits a TX record for each payload it is fed,
/// in order, and after them the RX record of its read if the read brought
/// bytes; it ends where it began, at the next look at the stop signal.
pub proof fn lemma_tick_emits(kind: TransportKind, batch: usize, tick: Tick)
    requires
        plain_tick(kind, batch, tick),
    ensures
        run(kind, batch, Stage::CheckStop, tick_events(batch, tick)) == (
            Stage::<Seq<u8>>::CheckStop,
            tick_notes(tick),
        ),
{
    let n = tick.payloads.len();
    let opening = seq![Event::<Seq<u8>, Seq<char>>::Stop(false)];
    let drain = drain_events(tick.payloads);
    let closing = drain_end(batch, n);
    let reading = seq![Event::<Seq<u8>, Seq<char>>::Read(tick.read)];
    let s0 = Stage::<Seq<u8>>::CheckStop;
    // the stop check
    lemma_run_single(kind, batch, s0, Event::Stop(false));
    let r1 = run(kind, batch, s0, opening);
    // the writes
    lemma_drain_emits_tx(kind, batch, 0, tick.payloads);
    let r2 = run(kind, batch, r1.0, drain);
    // the end of the writes
    let r3 = run(kind, batch, r2.0, closing);
    if n < batch {
        lemma_run_single(kind, batch, r2.0, Event::Queued(None));
    }
    assert(r3.0 == Stage::<Seq<u8>>::Read);
    assert(r3.1 =~= Seq::empty());
    // the read
    lemma_run_single(kind, batch, r3.0, Event::Read(tick.read));
    let r4 = run(kind, batch, r3.0, reading);
    assert(r4.0 == Stage::<Seq<u8>>::CheckStop);
    assert(r4.1 =~= read_notes(tick.read));
    lemma_run_append(kind, batch, s0, opening, drain);
    lemma_run_append(kind, batch, s0, opening + drain, closing);
    lemma_run_append(kind, batch, s0, opening + drain + closing, reading);
    assert(((r1.1 + r2.1) + r3.1) + r4.1 =~= tick_notes(tick));
}

/// A worker that is fed N payloads and delivers M reads over any number
/// of ticks without a fault emits exactly N TX records and M RX records:
/// tick by tick, the TX records of the tick's payloads and then the RX
/// record of its read.
pub proof fn lemma_session_emits(kind: TransportKind, batch: usize, ticks: Seq<Tick>)
    requires
        forall|i: int| 0 <= i < ticks.len() ==> plain_tick(kind, batch, #[trigger] ticks[i]),
    ensures
        run(kind, batch, Stage::CheckStop, session_events(batch, ticks)) == (
            Stage::<Seq<u8>>::CheckStop,
            session_notes(ticks),
        ),
        count_tx(session_notes(ticks)) == payloads_fed(ticks),
        count_rx(session_notes(ticks)) == reads_delivered(ticks),
    decreases ticks.len(),
{
    if ticks.len() > 0 {
        let rest = ticks.drop_first();
        assert forall|i: int| 0 <= i < rest.len() implies plain_tick(
            kind,
            batch,
            #[trigger] rest[i],
        ) by {
            assert(rest[i] == ticks[i + 1]);
        }
        lemma_tick_emits(kind, batch, ticks[0]);
        lemma_session_emits(kind, batch, rest);
        lemma_run_append(
            kind,
            batch,
            Stage::CheckStop,
            tick_events(batch, ticks[0]),
            session_events(batch, rest),
        );
        lemma_count_append(tick_notes(ticks[0]), session_notes(rest));
        lemma_count_append(tx_notes(ticks[0].payloads), read_notes(ticks[0].read));
        lemma_count_tx_notes(ticks[0].payloads);
        lemma_count_read_notes(ticks[0].read);
    }
}

/// The record of a read is an RX record if there is one.
pub proof fn lemma_count_read_notes(read: ReadOutcome<Seq<u8>, Seq<char>>)
    ensures
        count_tx(read_notes(read)) == 0,
        count_rx(read_notes(read)) == read_notes(read).len(),
{
    reveal_with_fuel(count_tx, 2);
    reveal_with_fuel(count_rx, 2);
    let notes = read_notes(read);
    if notes.len() > 0 {
        assert(notes.drop_last() =~= Seq::empty());
    }
}

/// An idle worker honours a stop request within one read: the tick that
/// is under way when the request comes ends with its read, and the next
/// look at the stop signal ends the loop, with no record emitted.
pub proof fn lemma_idle_stop_within_one_read(
    kind: TransportKind,
    batch: usize,
    read: ReadOutcome<Seq<u8>, Seq<char>>,
)
    requires
        batch > 0,
        read is TimedOut || read is WouldBlock,
    ensures
        run(
            kind,
            batch,
            Stage::CheckStop,
            seq![Event::Stop(false), Event::Queued(None), Event::Read(read), Event::Stop(true)],
        ) == (Stage::<Seq<u8>>::Stopped, Seq::<Note<Seq<u8>, Seq<char>>>::empty()),
{
    let none = Seq::<Note<Seq<u8>, Seq<char>>>::empty();
    let a = seq![Event::<Seq<u8>, Seq<char>>::Stop(false)];
    let b = seq![Event::<Seq<u8>, Seq<char>>::Queued(None)];
    let c = seq![Event::<Seq<u8>, Seq<char>>::Read(read)];
    let d = seq![Event::<Seq<u8>, Seq<char>>::Stop(true)];
    lemma_run_single(kind, batch, Stage::CheckStop, Event::Stop(false));
    lemma_run_single(kind, batch, Stage::Drain { sent: 0 }, Event::Queued(None));
    lemma_run_single(kind, batch, Stage::Read, Event::Read(read));
    lemma_run_single(kind, batch, Stage::CheckStop, Event::Stop(true));
    lemma_run_append(kind, batch, Stage::CheckStop, a, b);
    lemma_run_append(kind, batch, Stage::CheckStop, a + b, c);
    lemma_run_append(kind, batch, Stage::CheckStop, a + b + c, d);
    assert(a + b + c + d =~= seq![
        Event::Stop(false),
        Event::Queued(None),
        Event::Read(read),
        Event::Stop(true),
    ]);
    assert(none + none + none + none =~= none);
}

/// The stopped stage is final: whatever events follow, the worker stays
/// stopped and emits nothing. A second stop request has no effect.
pub proof fn lemma_stopped_is_final(
    kind: TransportKind,
    batch: usize,
    events: Seq<Event<Seq<u8>, Seq<char>>>,
)
    ensures
        run(kind, batch, Stage::Stopped, events) == (
            Stage::<Seq<u8>>::Stopped,
            Seq::<Note<Seq<u8>, Seq<char>>>::empty(),
        ),
    decreases events.len(),
{
    if events.len() > 0 {
        lemma_stopped_is_final(kind, batch, events.drop_first());
        assert(run(kind, batch, Stage::Stopped, events).1 =~= Seq::empty());
    }
}

} // verus!
