//! The listener registry: one slot for the one change-stream worker that may
//! be live.
//!
//! Starting a subscription retires whatever holds the slot before the new
//! worker is launched, so that at no time two workers are active. The
//! registry alone owns a worker's handle and alone asks for its cancellation.
//! To retire a worker is to have the runtime asked to cancel it: the registry
//! gives up the handle for the receipt of that request, and its contracts
//! name the handle the receipt is for. A subscription also ends when its
//! worker reports that it has left of its own. Workers are numbered in the
//! order of their launch, and a worker reports by its number, so that the
//! late report of a worker that was superseded never ends its successor, not
//! even one for the same room. Callers keep the registry behind one exclusive
//! lock.

use vstd::prelude::*;
use vstd::string::*;
use tokio::task::JoinHandle;
use crate::outside::{request_abort, AbortReceipt};

verus! {

/// Whether a subscription's worker may still forward events.
#[derive(Clone, Copy, Debug, PartialEq, Eq, Structural)]
pub enum SubscriptionState {
    /// The worker holds the slot.
    Active,
    /// The worker was asked to stop and its handle was let go.
    Aborted,
}

/// The subscription that holds the slot: a room and the handle of the worker
/// that listens to it. A subscription in the slot is active; once retired it
/// lives on only in the registry's record of workers.
pub struct Subscription {
    room_id: String,
    worker_handle: JoinHandle<()>,
    ordinal: u64,
}

/// Why a subscription could not be started.
pub enum StartError {
    /// The worker could not register its listen target; the text is the
    /// transport's account of it.
    Connection(String),
    /// The registry starts nothing any more: it was halted, or it has
    /// numbered as many workers as it can.
    Halted,
}

/// One worker that the registry launched, as contracts speak of it.
pub struct WorkerRecord {
    pub room: Seq<char>,
    pub state: SubscriptionState,
}

/// The registry, as contracts speak of it: every worker it ever launched, in
/// the order of launch, and whether it was halted.
pub struct RegistryModel {
    pub workers: Seq<WorkerRecord>,
    pub halted: bool,
}

/// The same workers, each asked to stop.
pub open spec fn all_retired(workers: Seq<WorkerRecord>) -> Seq<WorkerRecord> {
    Seq::new(
        workers.len(),
        |i: int| WorkerRecord { room: workers[i].room, state: SubscriptionState::Aborted },
    )
}

/// No worker but the one launched last is active.
pub open spec fn only_last_active(workers: Seq<WorkerRecord>) -> bool {
    forall|i: int|
        0 <= i < workers.len() - 1 ==> (#[trigger] workers[i]).state == SubscriptionState::Aborted
}

/// The room of the active worker, if there is one.
pub open spec fn active_room_of(model: RegistryModel) -> Option<Seq<char>> {
    if model.workers.len() > 0 && model.workers.last().state == SubscriptionState::Active {
        Some(model.workers.last().room)
    } else {
        None
    }
}

/// The registry after `stop`.
pub open spec fn after_stop(model: RegistryModel) -> RegistryModel {
    RegistryModel { workers: all_retired(model.workers), ..model }
}

/// The registry after `halt`.
pub open spec fn after_halt(model: RegistryModel) -> RegistryModel {
    RegistryModel { workers: all_retired(model.workers), halted: true }
}

/// Whether the registry refuses to start a subscription: it was halted, or
/// it has launched so many workers that it has no number left for another.
pub open spec fn refuses(model: RegistryModel) -> bool {
    model.halted || model.workers.len() >= u64::MAX
}

/// The number of the active worker, if there is one. Workers are numbered in
/// the order of their launch, from 0, so that no two ever share a number.
pub open spec fn active_worker_of(model: RegistryModel) -> Option<int> {
    if active_room_of(model) is Some {
        Some(model.workers.len() - 1)
    } else {
        None
    }
}

/// The registry after `start` for `room`, where `launched` says whether the
/// new worker could be launched. A registry that refuses stays as it is.
pub open spec fn after_start(model: RegistryModel, room: Seq<char>, launched: bool) -> RegistryModel {
    if refuses(model) {
        model
    } else if launched {
        RegistryModel {
            workers: all_retired(model.workers).push(
                WorkerRecord { room, state: SubscriptionState::Active },
            ),
            ..model
        }
    } else {
        after_stop(model)
    }
}

/// The slot and the record of workers, behind the caller's lock.
pub struct ListenerRegistry {
    slot: Option<Subscription>,
    halted: bool,
    launched: u64,
    last_abort: Option<AbortReceipt>,
    workers: Ghost<Seq<WorkerRecord>>,
}

impl View for ListenerRegistry {
    type V = RegistryModel;

    closed spec fn view(&self) -> RegistryModel {
        RegistryModel { workers: self.workers@, halted: self.halted }
    }
}

impl ListenerRegistry {
    /// The slot holds a subscription exactly when the worker launched last is
    /// active, and then for that worker's room and under that worker's
    /// number; no other worker is active; the workers on record are as many
    /// as were numbered; a halted registry has no active worker.
    pub closed spec fn wf(&self) -> bool {
        &&& only_last_active(self.workers@)
        &&& self.launched == self.workers@.len()
        &&& match self.slot {
            Some(subscription) => active_room_of(self@) == Some(subscription.room_id@)
                && subscription.ordinal == self.workers@.len() - 1,
            None => active_room_of(self@) is None,
        }
        &&& self.halted ==> self.slot is None
    }

    /// The handle of the worker in the slot.
    pub closed spec fn active_handle(&self) -> Option<JoinHandle<()>> {
        match self.slot {
            Some(subscription) => Some(subscription.worker_handle),
            None => None,
        }
    }

    /// The handle of the worker that was retired last. The registry keeps
    /// the receipt of that cancellation, so this is a handle that the runtime
    /// was asked to cancel.
    pub closed spec fn aborted_last(&self) -> Option<JoinHandle<()>> {
        match self.last_abort {
            Some(receipt) => Some(receipt.aborted()),
            None => None,
        }
    }

    /// What [`Self::aborted_last`] is once the slot was retired: the handle
    /// that held the slot, whose cancellation was asked for; with an empty
    /// slot, what it was.
    pub open spec fn aborted_after_retiring(&self) -> Option<JoinHandle<()>> {
        match self.active_handle() {
            Some(handle) => Some(handle),
            None => self.aborted_last(),
        }
    }

    /// A registry with an empty slot that has launched nothing.
    pub fn new() -> (registry: ListenerRegistry)
        ensures
            registry.wf(),
            registry@.workers == Seq::<WorkerRecord>::empty(),
            !registry@.halted,
            registry.active_handle() is None,
            registry.aborted_last() is None,
    {
        ListenerRegistry {
            slot: None,
            halted: false,
            launched: 0,
            last_abort: None,
            workers: Ghost(Seq::empty()),
        }
    }

    /// The room that is listened to, if any.
    pub fn active_room(&self) -> (room: Option<String>)
        requires
            self.wf(),
        ensures
            room is Some <==> active_room_of(self@) is Some,
            room matches Some(id) ==> active_room_of(self@) == Some(id@),
    {
        match &self.slot {
            Some(subscription) => Some(subscription.room_id.clone()),
            None => None,
        }
    }

    /// Whether the registry was halted.
    pub fn is_halted(&self) -> (halted: bool)
        ensures
            halted == self@.halted,
    {
        self.halted
    }

    /// Whether the registry refuses to start a subscription.
    pub fn refuses_starts(&self) -> (refused: bool)
        requires
            self.wf(),
        ensures
            refused == refuses(self@),
    {
        self.halted || self.launched == u64::MAX
    }

    /// The number that the next worker to be launched will carry.
    pub fn next_worker(&self) -> (ordinal: u64)
        requires
            self.wf(),
        ensures
            ordinal == self@.workers.len(),
    {
        self.launched
    }

    /// The number of the active worker, if there is one.
    pub fn active_worker(&self) -> (ordinal: Option<u64>)
        requires
            self.wf(),
        ensures
            ordinal is Some <==> active_worker_of(self@) is Some,
            ordinal matches Some(n) ==> active_worker_of(self@) == Some(n as int),
    {
        match &self.slot {
            Some(subscription) => Some(subscription.ordinal),
            None => None,
        }
    }

    /// Asks the runtime to cancel the worker in the slot, if any, and empties
    /// the slot. The receipt of the cancellation is kept in place of the
    /// handle.
    fn retire(&mut self)
        requires
            old(self).wf(),
        ensures
            final(self).wf(),
            final(self)@ == after_stop(old(self)@),
            final(self).active_handle() is None,
            final(self).aborted_last() == old(self).aborted_after_retiring(),
    {
        let previous = self.slot.take();
        match previous {
            Some(subscription) => {
                self.last_abort = Some(request_abort(subscription.worker_handle));
            },
            None => {},
        }
        proof {
            let before = self.workers@;
            self.workers@ = all_retired(before);
        }
    }

    /// Stops listening. With an empty slot this does nothing.
    pub fn stop(&mut self)
        requires
            old(self).wf(),
        ensures
            final(self).wf(),
            final(self)@ == after_stop(old(self)@),
            active_room_of(final(self)@) is None,
            final(self).active_handle() is None,
            final(self).aborted_last() == old(self).aborted_after_retiring(),
    {
        self.retire();
    }

    /// Stops listening for good: the worker in the slot is asked to stop and
    /// every later start is refused.
    pub fn halt(&mut self)
        requires
            old(self).wf(),
        ensures
            final(self).wf(),
            final(self)@ == after_halt(old(self)@),
            final(self).active_handle() is None,
            final(self).aborted_last() == old(self).aborted_after_retiring(),
    {
        self.retire();
        self.halted = true;
    }

    /// What [`Self::settle`] leaves behind and returns, for the registry
    /// `self` before it and `after` after it.
    ///
    /// A registry that refuses stays as it is, and has the runtime asked to
    /// cancel a worker that was launched all the same. Otherwise whatever
    /// held the slot is retired; a launched worker then holds the slot, under
    /// the number that was next; a failed launch leaves the slot empty and is
    /// reported with the transport's text.
    pub open spec fn settled(
        &self,
        after: ListenerRegistry,
        room: Seq<char>,
        launch: Result<JoinHandle<()>, String>,
        res: Result<(), StartError>,
    ) -> bool {
        &&& after@ == after_start(self@, room, launch is Ok)
        &&& if refuses(self@) {
            &&& res == Err::<(), StartError>(StartError::Halted)
            &&& after.active_handle() == self.active_handle()
            &&& after.aborted_last() == match launch {
                Ok(handle) => Some(handle),
                Err(_) => self.aborted_last(),
            }
        } else {
            &&& after.aborted_last() == self.aborted_after_retiring()
            &&& match launch {
                Ok(handle) => res is Ok && after.active_handle() == Some(handle),
                Err(reason) => res == Err::<(), StartError>(StartError::Connection(reason))
                    && after.active_handle() is None,
            }
        }
    }

    /// Takes the outcome of launching a worker for `room_id` into the slot.
    ///
    /// Whatever held the slot is retired first. A launched worker then holds
    /// the slot; a failed launch leaves the slot empty and is reported with
    /// the transport's text. A registry that refuses stays as it is: a worker
    /// that was launched all the same is asked to stop at once.
    pub fn settle(&mut self, room_id: String, launch: Result<JoinHandle<()>, String>) -> (res:
        Result<(), StartError>)
        requires
            old(self).wf(),
        ensures
            final(self).wf(),
            old(self).settled(*final(self), room_id@, launch, res),
    {
        if self.halted || self.launched == u64::MAX {
            match launch {
                Ok(handle) => {
                    self.last_abort = Some(request_abort(handle));
                },
                Err(_) => {},
            }
            return Err(StartError::Halted);
        }
        self.retire();
        match launch {
            Ok(handle) => {
                proof {
                    let before = self.workers@;
                    assert(all_retired(all_retired(before)) =~= all_retired(before));
                    self.workers@ = before.push(
                        WorkerRecord { room: room_id@, state: SubscriptionState::Active },
                    );
                }
                let ordinal = self.launched;
                self.launched = self.launched + 1;
                self.slot = Some(Subscription { room_id, worker_handle: handle, ordinal });
                Ok(())
            },
            Err(reason) => Err(StartError::Connection(reason)),
        }
    }

    /// Starts listening to `room_id`, superseding whatever was listened to.
    ///
    /// The worker in the slot, if any, is asked to stop and its handle is let
    /// go; only then `launch` is called, with the number of the new worker,
    /// to bring that worker up, and its handle takes the slot. Where `launch`
    /// fails the slot stays empty. A registry that refuses calls nothing and
    /// stays as it is.
    pub fn start<F: FnOnce(u64) -> Result<JoinHandle<()>, String>>(
        &mut self,
        room_id: String,
        launch: F,
    ) -> (res: Result<(), StartError>)
        requires
            old(self).wf(),
            forall|ordinal: u64| call_requires(launch, (ordinal,)),
        ensures
            final(self).wf(),
            refuses(old(self)@) ==> res == Err::<(), StartError>(StartError::Halted)
                && final(self)@ == old(self)@ && final(self).active_handle()
                == old(self).active_handle() && final(self).aborted_last()
                == old(self).aborted_last(),
            !refuses(old(self)@) ==> exists|outcome: Result<JoinHandle<()>, String>|
                {
                    &&& call_ensures(launch, (old(self)@.workers.len() as u64,), outcome)
                    &&& old(self).settled(*final(self), room_id@, outcome, res)
                },
    {
        if self.refuses_starts() {
            return Err(StartError::Halted);
        }
        let ghost before = *self;
        self.retire();
        let ghost retired = *self;
        let outcome = launch(self.launched);
        let res = self.settle(room_id, outcome);
        proof {
            assert(all_retired(all_retired(before@.workers)) =~= all_retired(before@.workers));
            assert(retired.settled(*self, room_id@, outcome, res));
            assert(before.settled(*self, room_id@, outcome, res));
        }
        res
    }
}

impl ListenerRegistry {
    /// Takes a worker's report that it has stopped of its own: the transport
    /// failed for good and the worker numbered `ordinal` has left.
    ///
    /// Where that worker holds the slot, the subscription ends: the slot is
    /// emptied, its handle is let go through a cancellation like any other,
    /// and the worker is on record as no longer active. The report of any
    /// other worker, one that was retired before it could report, changes
    /// nothing, even where its successor listens to the same room. Returns
    /// whether the subscription ended.
    pub fn worker_exited(&mut self, ordinal: u64) -> (ended: bool)
        requires
            old(self).wf(),
        ensures
            final(self).wf(),
            ended == (active_worker_of(old(self)@) == Some(ordinal as int)),
            ended ==> final(self)@ == after_stop(old(self)@) && final(self).active_handle()
                is None && final(self).aborted_last() == old(self).active_handle(),
            !ended ==> final(self)@ == old(self)@ && final(self).active_handle()
                == old(self).active_handle() && final(self).aborted_last()
                == old(self).aborted_last(),
    {
        let holds = match &self.slot {
            Some(subscription) => subscription.ordinal == ordinal,
            None => false,
        };
        if holds {
            self.retire();
        }
        holds
    }
}

/// No two workers are active.
pub open spec fn at_most_one_active(workers: Seq<WorkerRecord>) -> bool {
    forall|i: int, j: int|
        0 <= i < workers.len() && 0 <= j < workers.len() && (#[trigger] workers[i]).state
            == SubscriptionState::Active && (#[trigger] workers[j]).state
            == SubscriptionState::Active ==> i == j
}

/// Whatever the registry held, after a start no worker is active but the one
/// that was just launched, and it listens to the room asked for. Where the
/// launch failed no worker is active.
pub proof fn law_start_supersedes(model: RegistryModel, room: Seq<char>, launched: bool)
    requires
        !refuses(model),
    ensures
        only_last_active(after_start(model, room, launched).workers),
        at_most_one_active(after_start(model, room, launched).workers),
        launched ==> active_room_of(after_start(model, room, launched)) == Some(room),
        !launched ==> active_room_of(after_start(model, room, launched)) is None,
{
}

/// After a stop no worker is active.
pub proof fn law_stop_leaves_none_active(model: RegistryModel)
    ensures
        active_room_of(after_stop(model)) is None,
        forall|i: int|
            0 <= i < after_stop(model).workers.len() ==> (#[trigger] after_stop(
                model,
            ).workers[i]).state == SubscriptionState::Aborted,
{
}

/// Three starts in a row, for rooms `a`, `b` and `c`, leave at most one
/// worker active, and it listens to `c`: the workers launched for `a` and `b`
/// are on record as aborted, like every worker before them.
pub proof fn law_three_starts(model: RegistryModel, a: Seq<char>, b: Seq<char>, c: Seq<char>)
    requires
        !model.halted,
        model.workers.len() + 3 <= u64::MAX,
    ensures
        ({
            let end = after_start(after_start(after_start(model, a, true), b, true), c, true);
            let n = model.workers.len() as int;
            &&& at_most_one_active(end.workers)
            &&& active_room_of(end) == Some(c)
            &&& end.workers.len() == n + 3
            &&& end.workers[n] == (WorkerRecord { room: a, state: SubscriptionState::Aborted })
            &&& end.workers[n + 1] == (WorkerRecord { room: b, state: SubscriptionState::Aborted })
            &&& end.workers[n + 2] == (WorkerRecord { room: c, state: SubscriptionState::Active })
            &&& forall|i: int|
                0 <= i < n + 2 ==> (#[trigger] end.workers[i]).state == SubscriptionState::Aborted
        }),
{
    let first = after_start(model, a, true);
    let second = after_start(first, b, true);
    let end = after_start(second, c, true);
    law_start_supersedes(second, c, true);
    let n = model.workers.len() as int;
    assert(first.workers[n] == (WorkerRecord { room: a, state: SubscriptionState::Active }));
    assert(second.workers[n] == (WorkerRecord { room: a, state: SubscriptionState::Aborted }));
    assert(second.workers[n + 1] == (WorkerRecord { room: b, state: SubscriptionState::Active }));
    assert(end.workers[n] == (WorkerRecord { room: a, state: SubscriptionState::Aborted }));
    assert(end.workers[n + 1] == (WorkerRecord { room: b, state: SubscriptionState::Aborted }));
}

/// Each worker has a number of its own: the worker that a start launches is
/// numbered behind every worker on record, so that the report of an earlier
/// worker never names it.
pub proof fn law_numbers_are_fresh(model: RegistryModel, room: Seq<char>)
    requires
        !refuses(model),
    ensures
        active_worker_of(after_start(model, room, true)) == Some(model.workers.len() as int),
        forall|earlier: int|
            0 <= earlier < model.workers.len() ==> active_worker_of(
                after_start(model, room, true),
            ) != Some(earlier),
{
}

} // verus!
