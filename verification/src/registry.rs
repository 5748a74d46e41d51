//! The keyed registry of connections: at most one worker handle per
//! connection id, with every handle that leaves the live set parked for
//! its thread to be joined.

use crate::channel::offer;
use crate::channel::SendOutcome;
use crate::error::ConnError;
use crate::marks::casualties;
use crate::marks::everyone;
use crate::marks::lemma_casualties_single;
use crate::marks::lemma_everyone_falls;
use crate::marks::lemma_survivors_unmarked;
use crate::marks::marked;
use crate::marks::survivors;
use crate::payload::apply_append_mode;
use crate::payload::framed;
use crate::text::same_text;
use crate::worker::Controls;
use crossbeam_channel::Sender;
use vstd::prelude::*;

verus! {

/// What the registry holds for one worker: the sending halves of its two
/// queues and the token `J` by which its thread is joined.
pub struct WorkerHandle<J> {
    /// The connection id that the worker serves.
    pub conn_id: String,
    /// The bounded queue of payloads waiting to be written.
    pub outbound: Sender<Vec<u8>>,
    /// The stop channel, of capacity one.
    pub stop: Sender<()>,
    /// The join token of the worker's thread.
    pub join: J,
}

impl<J> WorkerHandle<J> {
    /// The handle of a worker that serves `conn_id`, made of the sending
    /// halves of its queues and the join token of its thread.
    pub fn assemble(conn_id: String, controls: Controls, join: J) -> (handle: WorkerHandle<J>)
        ensures
            handle.conn_id == conn_id,
            handle.outbound == controls.outbound,
            handle.stop == controls.stop,
            handle.join == join,
    {
        WorkerHandle { conn_id, outbound: controls.outbound, stop: controls.stop, join }
    }
}

/// The connection ids of a sequence of handles, in order.
pub open spec fn ids_of<J>(handles: Seq<WorkerHandle<J>>) -> Seq<Seq<char>> {
    Seq::new(handles.len(), |i: int| handles[i].conn_id@)
}

/// The marks that single out the handles serving `id`.
pub open spec fn serving<J>(handles: Seq<WorkerHandle<J>>, id: Seq<char>) -> Seq<bool> {
    Seq::new(handles.len(), |i: int| handles[i].conn_id@ == id)
}

/// The live handles left after the connection `target` is closed: all but
/// the one serving it, or none at all when no id is given.
pub open spec fn after_close<J>(live: Seq<WorkerHandle<J>>, target: Option<Seq<char>>) -> Seq<
    WorkerHandle<J>,
> {
    match target {
        Some(id) => survivors(live, serving(live, id)),
        None => Seq::empty(),
    }
}

/// The handles that closing `target` takes out of the live set.
pub open spec fn closed_by<J>(live: Seq<WorkerHandle<J>>, target: Option<Seq<char>>) -> Seq<
    WorkerHandle<J>,
> {
    match target {
        Some(id) => casualties(live, serving(live, id)),
        None => live,
    }
}

/// The text of an optional string slice.
pub open spec fn opt_text(text: Option<&str>) -> Option<Seq<char>> {
    match text {
        Some(t) => Some(t@),
        None => None,
    }
}

/// What a transmit reports once the queue has answered: success when the
/// payload was queued, `QueueFullOrClosed` when the queue was saturated or
/// its worker had gone.
pub open spec fn enqueue_verdict(outcome: SendOutcome) -> Result<(), ConnError> {
    match outcome {
        SendOutcome::Sent => Ok(()),
        SendOutcome::Full => Err(ConnError::QueueFullOrClosed),
        SendOutcome::Disconnected => Err(ConnError::QueueFullOrClosed),
    }
}

/// Turns the answer of the outbound queue into the result of a transmit.
pub fn enqueue_result(outcome: SendOutcome) -> (result: Result<(), ConnError>)
    ensures
        result == enqueue_verdict(outcome),
{
    match outcome {
        SendOutcome::Sent => Ok(()),
        SendOutcome::Full => Err(ConnError::QueueFullOrClosed),
        SendOutcome::Disconnected => Err(ConnError::QueueFullOrClosed),
    }
}

/// Asks a worker to stop. The stop channel holds one signal, so a second
/// request to a worker that is already stopping is dropped.
pub fn request_stop<J>(handle: &WorkerHandle<J>) {
    let _ = offer(&handle.stop, ());
}

/// The registry of connections. `live` holds one handle per connected id;
/// `retired` holds the handles that were stopped and removed and whose
/// threads are still to be joined.
pub struct Registry<J> {
    live: Vec<WorkerHandle<J>>,
    retired: Vec<WorkerHandle<J>>,
}

impl<J> Registry<J> {
    /// The handles of the connected workers, oldest first.
    pub closed spec fn live(&self) -> Seq<WorkerHandle<J>> {
        self.live@
    }

    /// The handles that were stopped and await joining, oldest first.
    pub closed spec fn retired(&self) -> Seq<WorkerHandle<J>> {
        self.retired@
    }

    /// The ids of the connected workers.
    pub open spec fn ids(&self) -> Seq<Seq<char>> {
        ids_of(self.live())
    }

    /// Whether a worker is registered under `id`.
    pub open spec fn has(&self, id: Seq<char>) -> bool {
        self.ids().contains(id)
    }

    /// The registry's invariant: no connection id has two live workers.
    pub open spec fn wf(&self) -> bool {
        self.ids().no_duplicates()
    }

    /// An empty registry.
    pub fn new() -> (registry: Self)
        ensures
            registry.wf(),
            registry.live() == Seq::<WorkerHandle<J>>::empty(),
            registry.retired() == Seq::<WorkerHandle<J>>::empty(),
    {
        Registry { live: Vec::new(), retired: Vec::new() }
    }

    /// The number of connected workers.
    pub fn len(&self) -> (count: usize)
        ensures
            count == self.live().len(),
    {
        self.live.len()
    }

    /// The handle at position `index` of the live set, for observing its
    /// thread.
    pub fn worker(&self, index: usize) -> (handle: Option<&WorkerHandle<J>>)
        ensures
            index < self.live().len() ==> handle == Some(&self.live()[index as int]),
            index >= self.live().len() ==> handle is None,
    {
        if index < self.live.len() {
            Some(&self.live[index])
        } else {
            None
        }
    }

    /// The position of the worker that serves `id`.
    pub fn route(&self, id: &str) -> (position: Option<usize>)
        ensures
            match position {
                Some(i) => i < self.live().len() && self.ids()[i as int] == id@,
                None => !self.has(id@),
            },
    {
        let mut i: usize = 0;
        while i < self.live.len()
            invariant
                i <= self.live.len(),
                forall|k: int| 0 <= k < i ==> self.ids()[k] != id@,
            decreases self.live.len() - i,
        {
            if same_text(self.live[i].conn_id.as_str(), id) {
                return Some(i);
            }
            i += 1;
        }
        None
    }

    /// The marks that single out the workers serving `id`.
    fn marks_for(&self, id: &str) -> (marks: Vec<bool>)
        ensures
            marks@ == serving(self.live(), id@),
    {
        let mut marks: Vec<bool> = Vec::new();
        let mut i: usize = 0;
        while i < self.live.len()
            invariant
                i <= self.live.len(),
                marks@.len() == i,
                forall|k: int| 0 <= k < i ==> marks@[k] == (self.live@[k].conn_id@ == id@),
            decreases self.live.len() - i,
        {
            marks.push(same_text(self.live[i].conn_id.as_str(), id));
            i += 1;
        }
        assert(marks@ =~= serving(self.live(), id@));
        marks
    }

    /// Stops every live worker at a marked position and moves its handle
    /// to the retired list.
    fn retire_where(&mut self, marks: &Vec<bool>)
        requires
            old(self).wf(),
        ensures
            final(self).wf(),
            final(self).live() == survivors(old(self).live(), marks@),
            final(self).retired() == old(self).retired() + casualties(old(self).live(), marks@),
    {
        let mut pending: Vec<WorkerHandle<J>> = Vec::new();
        std::mem::swap(&mut self.live, &mut pending);
        let total = pending.len();
        let ghost orig = pending@;
        let ghost parked = self.retired@;
        let mut k: usize = 0;
        assert(orig.take(0) =~= Seq::empty());
        assert(orig.skip(0) =~= orig);
        assert(parked + casualties(orig.take(0), marks@) =~= parked);
        while pending.len() > 0
            invariant
                orig.len() == total,
                k + pending.len() == orig.len(),
                pending@ == orig.skip(k as int),
                self.live@ == survivors(orig.take(k as int), marks@),
                self.retired@ == parked + casualties(orig.take(k as int), marks@),
            decreases pending.len(),
        {
            let handle = pending.remove(0);
            let gone = k < marks.len() && marks[k];
            proof {
                let next = orig.take(k + 1);
                assert(next.drop_last() =~= orig.take(k as int));
                assert(next.last() == orig[k as int]);
                assert(handle == orig[k as int]);
                assert(pending@ =~= orig.skip(k + 1));
                assert(gone == marked(marks@, next.len() - 1));
            }
            if gone {
                request_stop(&handle);
                self.retired.push(handle);
                assert(self.retired@ =~= parked + casualties(orig.take(k + 1), marks@));
            } else {
                self.live.push(handle);
            }
            k += 1;
        }
        proof {
            assert(orig.take(k as int) =~= orig);
            lemma_survivors_distinct(orig, marks@);
        }
    }

    /// Removes the workers whose threads were seen to have finished:
    /// `finished[i]` says so of the handle at position `i`. Their handles
    /// are stopped and retired; the others stay, in order.
    pub fn prune(&mut self, finished: &Vec<bool>)
        requires
            old(self).wf(),
        ensures
            final(self).wf(),
            final(self).live() == survivors(old(self).live(), finished@),
            final(self).retired() == old(self).retired() + casualties(
                old(self).live(),
                finished@,
            ),
    {
        self.retire_where(finished);
    }

    /// Stops and retires the worker that serves `id`, if there is one, and
    /// says whether there was.
    pub fn evict(&mut self, id: &str) -> (found: bool)
        requires
            old(self).wf(),
        ensures
            final(self).wf(),
            found == old(self).has(id@),
            !final(self).has(id@),
            final(self).live() == after_close(old(self).live(), Some(id@)),
            final(self).retired() == old(self).retired() + closed_by(old(self).live(), Some(id@)),
    {
        let found = self.route(id).is_some();
        let marks = self.marks_for(id);
        proof {
            lemma_survivors_exclude(self.live(), id@);
        }
        self.retire_where(&marks);
        found
    }

    /// Registers a freshly spawned worker under its id. A worker already
    /// registered under that id is stopped and retired first, so the id
    /// never has two live handles.
    pub fn install(&mut self, handle: WorkerHandle<J>)
        requires
            old(self).wf(),
        ensures
            final(self).wf(),
            final(self).live() == after_close(old(self).live(), Some(handle.conn_id@)).push(
                handle,
            ),
            final(self).retired() == old(self).retired() + closed_by(
                old(self).live(),
                Some(handle.conn_id@),
            ),
    {
        proof {
            lemma_install_keeps_ids_distinct(self.live(), handle);
        }
        self.evict(handle.conn_id.as_str());
        self.live.push(handle);
    }

    /// Closes the connection `target`, or every connection when no id is
    /// given. The workers concerned are stopped and retired.
    pub fn close(&mut self, target: Option<&str>)
        requires
            old(self).wf(),
        ensures
            final(self).wf(),
            final(self).live() == after_close(old(self).live(), opt_text(target)),
            final(self).retired() == old(self).retired() + closed_by(
                old(self).live(),
                opt_text(target),
            ),
    {
        match target {
            Some(id) => {
                self.evict(id);
            },
            None => {
                let mut marks: Vec<bool> = Vec::new();
                let mut i: usize = 0;
                while i < self.live.len()
                    invariant
                        i <= self.live.len(),
                        marks@ == everyone(i as nat),
                    decreases self.live.len() - i,
                {
                    marks.push(true);
                    assert(marks@ =~= everyone((i + 1) as nat));
                    i += 1;
                }
                proof {
                    lemma_everyone_falls(self.live());
                }
                self.retire_where(&marks);
            },
        }
    }

    /// Whether a worker is registered under `id`.
    pub fn contains(&self, id: &str) -> (present: bool)
        ensures
            present == self.has(id@),
    {
        self.route(id).is_some()
    }

    /// What a transmit hands to which queue: the position of the worker
    /// serving `id` and the payload framed by the line ending that
    /// `append` names, or `NotFound` when no worker serves `id`.
    pub fn outbound_frame(&self, id: &str, payload: String, append: &str) -> (result: Result<
        (usize, Vec<u8>),
        ConnError,
    >)
        ensures
            match result {
                Ok((position, bytes)) => position < self.live().len() && self.ids()[position as int]
                    == id@ && bytes@ == framed(payload@, append@),
                Err(error) => error == ConnError::NotFound && !self.has(id@),
            },
    {
        match self.route(id) {
            None => Err(ConnError::NotFound),
            Some(position) => Ok((position, apply_append_mode(payload, append))),
        }
    }

    /// Queues `payload`, framed by the line ending that `append` names,
    /// for the worker serving `id`. The call never blocks: it fails with
    /// `NotFound` when no worker serves `id`, before anything is queued,
    /// and otherwise offers the frame to that worker's queue and reports
    /// what the queue answered at once.
    pub fn transmit(&self, id: &str, payload: String, append: &str) -> (result: Result<
        (),
        ConnError,
    >)
        ensures
            !self.has(id@) ==> result == Err::<(), ConnError>(ConnError::NotFound),
            self.has(id@) ==> result == Ok::<(), ConnError>(()) || result == Err::<(), ConnError>(
                ConnError::QueueFullOrClosed,
            ),
    {
        match self.outbound_frame(id, payload, append) {
            Err(error) => Err(error),
            Ok((position, bytes)) => enqueue_result(offer(&self.live[position].outbound, bytes)),
        }
    }

    /// Whether `id` is connected, after pruning the workers whose threads
    /// were seen to have finished. A worker whose transport has failed but
    /// whose thread has not yet been seen to finish still counts.
    pub fn is_connected(&mut self, id: &str, finished: &Vec<bool>) -> (connected: bool)
        requires
            old(self).wf(),
        ensures
            final(self).wf(),
            final(self).live() == survivors(old(self).live(), finished@),
            final(self).retired() == old(self).retired() + casualties(
                old(self).live(),
                finished@,
            ),
            connected == final(self).has(id@),
    {
        self.prune(finished);
        self.contains(id)
    }

    /// Hands over the retired handles so that their threads can be joined,
    /// and forgets them.
    pub fn take_retired(&mut self) -> (handles: Vec<WorkerHandle<J>>)
        ensures
            handles@ == old(self).retired(),
            final(self).retired() == Seq::<WorkerHandle<J>>::empty(),
            final(self).live() == old(self).live(),
    {
        let mut handles: Vec<WorkerHandle<J>> = Vec::new();
        std::mem::swap(&mut self.retired, &mut handles);
        handles
    }
}

/// Removing handles never introduces a duplicate id.
pub proof fn lemma_survivors_distinct<J>(handles: Seq<WorkerHandle<J>>, marks: Seq<bool>)
    requires
        ids_of(handles).no_duplicates(),
    ensures
        ids_of(survivors(handles, marks)).no_duplicates(),
    decreases handles.len(),
{
    if handles.len() > 0 {
        let front = handles.drop_last();
        let last = handles.len() - 1;
        assert forall|i: int, j: int| 0 <= i < front.len() && 0 <= j < front.len() && i != j implies ids_of(
            front,
        )[i] != ids_of(front)[j] by {
            assert(ids_of(handles)[i] != ids_of(handles)[j]);
        }
        lemma_survivors_distinct(front, marks);
        if !marked(marks, last) {
            let rest = survivors(front, marks);
            let all = survivors(handles, marks);
            assert forall|i: int, j: int| 0 <= i < all.len() && 0 <= j < all.len() && i != j implies ids_of(
                all,
            )[i] != ids_of(all)[j] by {
                if i < rest.len() && j < rest.len() {
                    assert(ids_of(rest)[i] != ids_of(rest)[j]);
                } else {
                    let k = if i < rest.len() {
                        i
                    } else {
                        j
                    };
                    lemma_survivors_unmarked(front, marks, k);
                    let src = choose|s: int|
                        0 <= s < front.len() && !marked(marks, s) && #[trigger] front[s] == rest[k];
                    assert(ids_of(handles)[src] != ids_of(handles)[last]);
                }
            }
        }
    }
}

/// No handle serving `id` survives the marks that single out `id`.
pub proof fn lemma_survivors_exclude<J>(handles: Seq<WorkerHandle<J>>, id: Seq<char>)
    ensures
        !ids_of(survivors(handles, serving(handles, id))).contains(id),
{
    let marks = serving(handles, id);
    let rest = survivors(handles, marks);
    assert forall|k: int| 0 <= k < rest.len() implies ids_of(rest)[k] != id by {
        lemma_survivors_unmarked(handles, marks, k);
    }
}

/// At most one live worker per connection id, whatever is installed: the
/// live set that an install leaves has no id twice, and the id of the
/// installed worker is served by that worker alone.
pub proof fn lemma_install_keeps_ids_distinct<J>(
    live: Seq<WorkerHandle<J>>,
    handle: WorkerHandle<J>,
)
    requires
        ids_of(live).no_duplicates(),
    ensures
        ids_of(after_close(live, Some(handle.conn_id@)).push(handle)).no_duplicates(),
        ids_of(after_close(live, Some(handle.conn_id@)).push(handle)).contains(handle.conn_id@),
        !ids_of(after_close(live, Some(handle.conn_id@))).contains(handle.conn_id@),
{
    let id = handle.conn_id@;
    let rest = after_close(live, Some(id));
    let next = rest.push(handle);
    lemma_survivors_distinct(live, serving(live, id));
    lemma_survivors_exclude(live, id);
    assert forall|i: int, j: int| 0 <= i < next.len() && 0 <= j < next.len() && i != j implies ids_of(
        next,
    )[i] != ids_of(next)[j] by {
        if i < rest.len() && j < rest.len() {
            assert(ids_of(rest)[i] != ids_of(rest)[j]);
        } else if i < rest.len() {
            assert(ids_of(rest)[i] != id);
        } else {
            assert(ids_of(rest)[j] != id);
        }
    }
    assert(ids_of(next)[next.len() - 1] == id);
}

/// Reopening a connected id retires the previous worker before the new
/// one can be installed: closing the id takes exactly the handle that
/// served it out of the live set, and leaves nobody serving the id.
pub proof fn lemma_reopen_retires_previous<J>(live: Seq<WorkerHandle<J>>, id: Seq<char>, at: int)
    requires
        ids_of(live).no_duplicates(),
        0 <= at < live.len(),
        live[at].conn_id@ == id,
    ensures
        closed_by(live, Some(id)) == seq![live[at]],
        !ids_of(after_close(live, Some(id))).contains(id),
{
    let marks = serving(live, id);
    lemma_survivors_exclude(live, id);
    assert forall|i: int| 0 <= i < live.len() implies (marked(marks, i) <==> i == at) by {
        if marked(marks, i) && i != at {
            assert(ids_of(live)[i] == ids_of(live)[at]);
        }
    }
    lemma_casualties_single(live, marks, at);
}

/// Once every connection is closed, none is reported as connected,
/// whichever id is asked for and whatever the threads are seen to do.
pub proof fn lemma_close_all_disconnects<J>(
    live: Seq<WorkerHandle<J>>,
    finished: Seq<bool>,
    id: Seq<char>,
)
    ensures
        after_close(live, None) == Seq::<WorkerHandle<J>>::empty(),
        !ids_of(survivors(after_close(live, None), finished)).contains(id),
{
}

} // verus!
