//! The change-stream worker: what one subscription does with each thing the
//! transport and the runtime hand it.
//!
//! A worker connects, then listens until it is cancelled or the transport
//! fails for good. The worker itself performs nothing: for every signal it
//! says which action its host is to carry out, and moves to its next state.

use vstd::prelude::*;
use vstd::string::*;
use crate::rows::{lemma_take_next, reversed};

verus! {

/// Seconds a listening worker sleeps between two looks at its cancellation.
pub const IDLE_SECONDS: u64 = 60;

/// Where a worker stands.
#[derive(Clone, Copy, Debug, PartialEq, Eq, Structural)]
pub enum WorkerState {
    /// The listen target is being registered.
    Connecting,
    /// Events are taken and forwarded.
    Listening,
    /// The worker has stopped; it forwards nothing any more.
    Terminated,
}

/// What happened to the document an event speaks of.
#[derive(Clone, Copy, Debug, PartialEq, Eq, Structural)]
pub enum ChangeKind {
    Added,
    Modified,
    Removed,
    Unrecognized,
}

/// The kind of a change that brings a document, by the document's own
/// times, each in seconds and nanoseconds: a document that was never
/// updated since it was created was added; any other was modified.
pub open spec fn kind_by_times(created: Option<(i64, i32)>, updated: Option<(i64, i32)>) -> ChangeKind {
    if created == updated {
        ChangeKind::Added
    } else {
        ChangeKind::Modified
    }
}

/// The kind of a change that brings a document created at `created` and last
/// updated at `updated`.
pub fn change_kind(created: Option<(i64, i32)>, updated: Option<(i64, i32)>) -> (kind: ChangeKind)
    ensures
        kind == kind_by_times(created, updated),
{
    let same = match (created, updated) {
        (Some(c), Some(u)) => c.0 == u.0 && c.1 == u.1,
        (None, None) => true,
        _ => false,
    };
    if same {
        ChangeKind::Added
    } else {
        ChangeKind::Modified
    }
}

/// The document of an event, read into the room's message shape `M`.
pub enum Payload<M> {
    /// The document has the shape of a message.
    Decoded(M),
    /// The document has another shape.
    Undecodable,
    /// The event carries no document.
    Missing,
}

/// One change that the remote store reports.
pub struct ChangeEvent<M> {
    pub document_id: String,
    pub change_kind: ChangeKind,
    pub payload: Payload<M>,
}

/// What a worker is handed.
pub enum Signal<M> {
    /// The listen target was registered.
    Connected,
    /// The listen target could not be registered.
    ConnectFailed,
    /// The remote store reports a change.
    Change(ChangeEvent<M>),
    /// The transport reports on the target itself.
    TargetChange,
    /// The transport failed and will deliver nothing more.
    TransportFailed,
    /// The idle sleep ran out.
    IdleElapsed,
    /// The registry's request to stop was observed.
    Cancelled,
}

/// A notification for the user interface.
pub struct UiEvent<M> {
    pub kind: String,
    pub message: M,
}

/// Why an event was not forwarded.
#[derive(Clone, Copy, Debug, PartialEq, Eq, Structural)]
pub enum Remark {
    /// Its document does not have the shape of a message.
    UndecodableDocument,
    /// It carries no document.
    MissingDocument,
    /// It tells of a removal or of something unknown, and carries no
    /// document.
    IgnoredChange,
    /// It concerns the listen target, not a document.
    TargetChanged,
}

/// Why a worker stopped.
#[derive(Clone, Copy, Debug, PartialEq, Eq, Structural)]
pub enum StopReason {
    ConnectFailed,
    TransportFailed,
    Cancelled,
}

/// What the host of a worker is to do next.
pub enum WorkerAction<M> {
    /// Hand the notification to the user interface.
    Forward(UiEvent<M>),
    /// Note the remark and carry on.
    Report(Remark),
    /// Sleep for so many seconds, then signal `IdleElapsed`.
    Idle(u64),
    /// Leave: the worker has stopped.
    Exit(StopReason),
    /// Nothing.
    Ignore,
}

/// An action, as contracts speak of it.
pub enum ActionModel<M> {
    Forward { kind: Seq<char>, message: M },
    Report(Remark),
    Idle(u64),
    Exit(StopReason),
    Ignore,
}

impl<M> View for WorkerAction<M> {
    type V = ActionModel<M>;

    open spec fn view(&self) -> ActionModel<M> {
        match *self {
            WorkerAction::Forward(event) => ActionModel::Forward {
                kind: event.kind@,
                message: event.message,
            },
            WorkerAction::Report(remark) => ActionModel::Report(remark),
            WorkerAction::Idle(seconds) => ActionModel::Idle(seconds),
            WorkerAction::Exit(reason) => ActionModel::Exit(reason),
            WorkerAction::Ignore => ActionModel::Ignore,
        }
    }
}

/// The kind under which every message is forwarded.
pub open spec fn forwarded_kind() -> Seq<char> {
    seq!['a', 'd', 'd', 'e', 'd']
}

/// What a listening worker does with a change: a document that reads as a
/// message is forwarded, whatever the kind of the change; any other is
/// remarked on and dropped.
pub open spec fn reaction_to_change<M>(event: ChangeEvent<M>) -> ActionModel<M> {
    match event.payload {
        Payload::Decoded(message) => ActionModel::Forward { kind: forwarded_kind(), message },
        Payload::Undecodable => ActionModel::Report(Remark::UndecodableDocument),
        Payload::Missing => match event.change_kind {
            ChangeKind::Added | ChangeKind::Modified => ActionModel::Report(
                Remark::MissingDocument,
            ),
            ChangeKind::Removed | ChangeKind::Unrecognized => ActionModel::Report(
                Remark::IgnoredChange,
            ),
        },
    }
}

/// The action a worker in `state` answers `signal` with.
pub open spec fn reaction<M>(state: WorkerState, signal: Signal<M>) -> ActionModel<M> {
    match state {
        WorkerState::Terminated => ActionModel::Ignore,
        WorkerState::Connecting => match signal {
            Signal::Connected => ActionModel::Idle(IDLE_SECONDS),
            Signal::ConnectFailed => ActionModel::Exit(StopReason::ConnectFailed),
            Signal::TransportFailed => ActionModel::Exit(StopReason::TransportFailed),
            Signal::Cancelled => ActionModel::Exit(StopReason::Cancelled),
            _ => ActionModel::Ignore,
        },
        WorkerState::Listening => match signal {
            Signal::Change(event) => reaction_to_change(event),
            Signal::TargetChange => ActionModel::Report(Remark::TargetChanged),
            Signal::IdleElapsed => ActionModel::Idle(IDLE_SECONDS),
            Signal::TransportFailed => ActionModel::Exit(StopReason::TransportFailed),
            Signal::Cancelled => ActionModel::Exit(StopReason::Cancelled),
            _ => ActionModel::Ignore,
        },
    }
}

/// The state a worker in `state` is in after `signal`.
pub open spec fn next_state<M>(state: WorkerState, signal: Signal<M>) -> WorkerState {
    match state {
        WorkerState::Terminated => WorkerState::Terminated,
        WorkerState::Connecting => match signal {
            Signal::Connected => WorkerState::Listening,
            Signal::ConnectFailed | Signal::TransportFailed | Signal::Cancelled =>
                WorkerState::Terminated,
            _ => WorkerState::Connecting,
        },
        WorkerState::Listening => match signal {
            Signal::TransportFailed | Signal::Cancelled => WorkerState::Terminated,
            _ => WorkerState::Listening,
        },
    }
}

/// The state a worker that starts in `state` is in after all of `signals`.
pub open spec fn state_after<M>(state: WorkerState, signals: Seq<Signal<M>>) -> WorkerState
    decreases signals.len(),
{
    if signals.len() == 0 {
        state
    } else {
        state_after(next_state(state, signals[0]), signals.drop_first())
    }
}

/// The messages that a worker starting in `state` forwards while it is handed
/// `signals`, in the order in which it forwards them.
pub open spec fn forwarded<M>(state: WorkerState, signals: Seq<Signal<M>>) -> Seq<M>
    decreases signals.len(),
{
    if signals.len() == 0 {
        Seq::empty()
    } else {
        let rest = forwarded(next_state(state, signals[0]), signals.drop_first());
        match reaction(state, signals[0]) {
            ActionModel::Forward { message, .. } => seq![message] + rest,
            _ => rest,
        }
    }
}

/// The worker of one subscription.
pub struct ChangeStreamWorker {
    room_id: String,
    state: WorkerState,
}

impl ChangeStreamWorker {
    /// The room the worker listens to, as contracts speak of it.
    pub closed spec fn room(&self) -> Seq<char> {
        self.room_id@
    }

    /// The worker's state, as contracts speak of it.
    pub closed spec fn spec_state(&self) -> WorkerState {
        self.state
    }

    /// A worker for `room_id` that has yet to connect.
    pub fn new(room_id: String) -> (worker: ChangeStreamWorker)
        ensures
            worker.room() == room_id@,
            worker.spec_state() == WorkerState::Connecting,
    {
        ChangeStreamWorker { room_id, state: WorkerState::Connecting }
    }

    /// The room the worker listens to.
    pub fn room_id(&self) -> (room: &String)
        ensures
            room@ == self.room(),
    {
        &self.room_id
    }

    /// The worker's state.
    pub fn state(&self) -> (state: WorkerState)
        ensures
            state == self.spec_state(),
    {
        self.state
    }

    /// Takes one signal: moves to the next state and says what the host is to
    /// do.
    pub fn handle<M>(&mut self, signal: Signal<M>) -> (action: WorkerAction<M>)
        ensures
            action@ == reaction(old(self).spec_state(), signal),
            final(self).spec_state() == next_state(old(self).spec_state(), signal),
            final(self).room() == old(self).room(),
    {
        match self.state {
            WorkerState::Terminated => WorkerAction::Ignore,
            WorkerState::Connecting => match signal {
                Signal::Connected => {
                    self.state = WorkerState::Listening;
                    WorkerAction::Idle(IDLE_SECONDS)
                },
                Signal::ConnectFailed => {
                    self.state = WorkerState::Terminated;
                    WorkerAction::Exit(StopReason::ConnectFailed)
                },
                Signal::TransportFailed => {
                    self.state = WorkerState::Terminated;
                    WorkerAction::Exit(StopReason::TransportFailed)
                },
                Signal::Cancelled => {
                    self.state = WorkerState::Terminated;
                    WorkerAction::Exit(StopReason::Cancelled)
                },
                _ => WorkerAction::Ignore,
            },
            WorkerState::Listening => match signal {
                Signal::Change(event) => react_to_change(event),
                Signal::TargetChange => WorkerAction::Report(Remark::TargetChanged),
                Signal::IdleElapsed => WorkerAction::Idle(IDLE_SECONDS),
                Signal::TransportFailed => {
                    self.state = WorkerState::Terminated;
                    WorkerAction::Exit(StopReason::TransportFailed)
                },
                Signal::Cancelled => {
                    self.state = WorkerState::Terminated;
                    WorkerAction::Exit(StopReason::Cancelled)
                },
                _ => WorkerAction::Ignore,
            },
        }
    }
}

/// What a listening worker does with a change: a document that reads as a
/// message is forwarded under the kind `added`, whatever the kind of the
/// change; anything else is remarked on and dropped.
pub fn react_to_change<M>(event: ChangeEvent<M>) -> (action: WorkerAction<M>)
    ensures
        action@ == reaction_to_change(event),
{
    match event.payload {
        Payload::Decoded(message) => {
            proof {
                reveal_strlit("added");
            }
            let kind = String::from_str("added");
            assert(kind@ =~= forwarded_kind());
            WorkerAction::Forward(UiEvent { kind, message })
        },
        Payload::Undecodable => WorkerAction::Report(Remark::UndecodableDocument),
        Payload::Missing => match event.change_kind {
            ChangeKind::Added | ChangeKind::Modified => WorkerAction::Report(
                Remark::MissingDocument,
            ),
            ChangeKind::Removed | ChangeKind::Unrecognized => WorkerAction::Report(
                Remark::IgnoredChange,
            ),
        },
    }
}

/// The messages of a list of notifications.
pub open spec fn messages_of<M>(events: Seq<UiEvent<M>>) -> Seq<M> {
    Seq::new(events.len(), |i: int| events[i].message)
}

impl ChangeStreamWorker {
    /// Takes `signals` one after the other and collects what is to be
    /// forwarded: the messages of the changes that read as messages, in the
    /// order of delivery, none twice, none after the worker has stopped.
    pub fn drain<M>(&mut self, signals: Vec<Signal<M>>) -> (events: Vec<UiEvent<M>>)
        ensures
            messages_of(events@) == forwarded(old(self).spec_state(), signals@),
            forall|i: int| 0 <= i < events@.len() ==> (#[trigger] events@[i]).kind@ == forwarded_kind(),
            final(self).spec_state() == state_after(old(self).spec_state(), signals@),
            final(self).room() == old(self).room(),
    {
        let ghost all = signals@;
        let ghost start = self.state;
        let mut stack = reversed(signals);
        assert(stack@.reverse() =~= all) by {
            assert(all.reverse().reverse() =~= all);
        }
        let mut events: Vec<UiEvent<M>> = Vec::new();
        let ghost mut done: int = 0;
        proof {
            assert(all.subrange(0, all.len() as int) =~= all);
            assert(messages_of(events@) + forwarded(start, all) =~= forwarded(start, all));
        }
        while stack.len() > 0
            invariant
                0 <= done <= all.len(),
                stack@.reverse() == all.subrange(done, all.len() as int),
                self.room() == old(self).room(),
                forall|i: int|
                    0 <= i < events@.len() ==> (#[trigger] events@[i]).kind@ == forwarded_kind(),
                messages_of(events@) + forwarded(self.spec_state(), all.subrange(done, all.len() as int))
                    == forwarded(start, all),
                state_after(self.spec_state(), all.subrange(done, all.len() as int)) == state_after(
                    start,
                    all,
                ),
            decreases stack@.len(),
        {
            let ghost rest = all.subrange(done, all.len() as int);
            let ghost collected = events@;
            let ghost state = self.state;
            proof {
                lemma_take_next(all, done, stack@);
                assert(rest.drop_first() =~= all.subrange(done + 1, all.len() as int));
            }
            let signal = stack.pop().unwrap();
            let action = self.handle(signal);
            match action {
                WorkerAction::Forward(event) => {
                    events.push(event);
                    proof {
                        assert(messages_of(events@) =~= messages_of(collected) + seq![
                            event.message,
                        ]);
                        assert(messages_of(events@) + forwarded(self.spec_state(), rest.drop_first())
                            =~= messages_of(collected) + forwarded(state, rest));
                    }
                },
                _ => {},
            }
            proof {
                done = done + 1;
            }
        }
        proof {
            assert(all.subrange(done, all.len() as int).len() == 0);
            assert(messages_of(events@) + Seq::<M>::empty() =~= messages_of(events@));
        }
        events
    }
}

/// A worker that has stopped stays stopped and forwards nothing, whatever it
/// is handed.
pub proof fn law_terminated_is_silent<M>(signals: Seq<Signal<M>>)
    ensures
        forwarded(WorkerState::Terminated, signals) == Seq::<M>::empty(),
        state_after(WorkerState::Terminated, signals) == WorkerState::Terminated,
    decreases signals.len(),
{
    if signals.len() > 0 {
        law_terminated_is_silent(signals.drop_first());
    }
}

/// Once the request to stop is observed, nothing that the transport still
/// pushes is forwarded.
pub proof fn law_nothing_after_cancel<M>(state: WorkerState, later: Seq<Signal<M>>)
    ensures
        forwarded(state, seq![Signal::<M>::Cancelled] + later) == Seq::<M>::empty(),
        state_after(state, seq![Signal::<M>::Cancelled] + later) == WorkerState::Terminated,
{
    let signals = seq![Signal::<M>::Cancelled] + later;
    assert(signals[0] == Signal::<M>::Cancelled);
    assert(signals.drop_first() =~= later);
    law_terminated_is_silent(later);
}

/// A single change, however malformed, does not end the stream: a listening
/// worker keeps listening.
pub proof fn law_change_keeps_listening<M>(event: ChangeEvent<M>)
    ensures
        next_state(WorkerState::Listening, Signal::Change(event)) == WorkerState::Listening,
        !(event.payload is Decoded) ==> !(reaction(WorkerState::Listening, Signal::Change(event))
            is Forward),
{
}

/// What is forwarded over two stretches of signals is what is forwarded over
/// the first, followed by what is forwarded over the second: delivery order
/// is kept, nothing is dropped, nothing is repeated.
pub proof fn law_forwarding_keeps_order<M>(
    state: WorkerState,
    first: Seq<Signal<M>>,
    second: Seq<Signal<M>>,
)
    ensures
        forwarded(state, first + second) == forwarded(state, first) + forwarded(
            state_after(state, first),
            second,
        ),
        state_after(state, first + second) == state_after(state_after(state, first), second),
    decreases first.len(),
{
    if first.len() == 0 {
        assert(first + second =~= second);
        assert(forwarded(state, first) + forwarded(state, second) =~= forwarded(state, second));
    } else {
        let all = first + second;
        assert(all[0] == first[0]);
        assert(all.drop_first() =~= first.drop_first() + second);
        law_forwarding_keeps_order(next_state(state, first[0]), first.drop_first(), second);
        let tail = forwarded(next_state(state, first[0]), first.drop_first());
        let end = forwarded(state_after(state, first), second);
        match reaction(state, first[0]) {
            ActionModel::Forward { message, .. } => {
                assert(seq![message] + (tail + end) =~= (seq![message] + tail) + end);
            },
            _ => {},
        }
    }
}

} // verus!
