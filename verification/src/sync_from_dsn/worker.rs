//! The worker: it takes the observer's notifications one at a time and
//! answers with imports of blocks from the DSN.
//!
//! A notification that starts a sync opens a cycle: regular sync is paused
//! and the mode found is kept, whatever else is queued is drained so that a
//! burst of notifications comes to one import, the import runs, and the mode
//! that was kept is put back, whether the import has worked or not.
//!
//! [`WorkerState`] holds the decisions. [`Worker`] carries them out as far
//! as nothing has to be waited for; receiving a notification and running the
//! import are the caller's part.

use crate::sync_from_dsn::notifications::{NotificationReason, QueuePoll, SyncMode};
use atomic::Atomic;
use futures::channel::mpsc::{Receiver, TryRecvError};
use std::sync::atomic::Ordering;
use std::sync::Arc;
use vstd::prelude::*;

verus! {

/// Where the worker stands.
#[derive(Clone, Copy, Debug, PartialEq, Eq, Structural)]
pub enum WorkerState {
    /// Between cycles: the next notification is waited for.
    Waiting,
    /// A cycle has begun for `reason`: regular sync is to be paused.
    Pausing { reason: NotificationReason },
    /// Regular sync is paused and was in mode `previous` before: queued
    /// notifications are drained.
    Draining { reason: NotificationReason, previous: SyncMode },
    /// The import from the DSN runs.
    Importing { reason: NotificationReason, previous: SyncMode },
    /// The import has ended: the mode `previous` is to be put back.
    Restoring { previous: SyncMode },
    /// No observer is left: the worker has ended.
    Stopped,
}

/// What the worker is told.
#[derive(Clone, Copy, Debug, PartialEq, Eq, Structural)]
pub enum WorkerEvent {
    /// The wait for a notification has ended: with a notification, or with
    /// `None` because the channel is closed for good.
    Received(Option<NotificationReason>),
    /// Regular sync was paused; it was in mode `previous`.
    Paused { previous: SyncMode },
    /// The queue was looked at.
    Polled(QueuePoll),
    /// The import has ended.
    ImportFinished { succeeded: bool },
    /// The sync mode was put back.
    Restored,
}

/// What is to be done next for the worker.
#[derive(Clone, Copy, Debug, PartialEq, Eq, Structural)]
pub enum WorkerEffect {
    /// Wait for the next notification.
    AwaitNotification,
    /// Exchange the sync mode for `Paused` and keep what was there.
    PauseSync,
    /// Look at the queue without waiting.
    PollQueue,
    /// Import blocks from the DSN; the cycle was opened for this reason.
    ImportBlocks(NotificationReason),
    /// Store this sync mode.
    RestoreSync(SyncMode),
    /// End the worker, in success.
    Stop,
}

impl WorkerState {
    /// The state after `event`. An event that the state does not wait for
    /// changes nothing.
    pub open spec fn after(self, event: WorkerEvent) -> WorkerState {
        match (self, event) {
            (WorkerState::Waiting, WorkerEvent::Received(None)) => WorkerState::Stopped,
            (WorkerState::Waiting, WorkerEvent::Received(Some(reason))) => if reason.starts_sync() {
                WorkerState::Pausing { reason }
            } else {
                WorkerState::Waiting
            },
            (
                WorkerState::Pausing { reason },
                WorkerEvent::Paused { previous },
            ) => WorkerState::Draining { reason, previous },
            (
                WorkerState::Draining { reason, previous },
                WorkerEvent::Polled(poll),
            ) => if poll is Message {
                WorkerState::Draining { reason, previous }
            } else {
                WorkerState::Importing { reason, previous }
            },
            (
                WorkerState::Importing { reason, previous },
                WorkerEvent::ImportFinished { succeeded },
            ) => WorkerState::Restoring { previous },
            (WorkerState::Restoring { previous }, WorkerEvent::Restored) => WorkerState::Waiting,
            _ => self,
        }
    }

    /// What the state waits for.
    pub open spec fn effect(self) -> WorkerEffect {
        match self {
            WorkerState::Waiting => WorkerEffect::AwaitNotification,
            WorkerState::Pausing { reason } => WorkerEffect::PauseSync,
            WorkerState::Draining { reason, previous } => WorkerEffect::PollQueue,
            WorkerState::Importing { reason, previous } => WorkerEffect::ImportBlocks(reason),
            WorkerState::Restoring { previous } => WorkerEffect::RestoreSync(previous),
            WorkerState::Stopped => WorkerEffect::Stop,
        }
    }

    /// The state after all of `events`, in their order.
    pub open spec fn after_all(self, events: Seq<WorkerEvent>) -> WorkerState
        decreases events.len(),
    {
        if events.len() == 0 {
            self
        } else {
            self.after_all(events.drop_last()).after(events.last())
        }
    }

    /// What is asked for after each of `events`, one effect for each event.
    pub open spec fn effects(self, events: Seq<WorkerEvent>) -> Seq<WorkerEffect> {
        Seq::new(events.len(), |i: int| self.after_all(events.take(i + 1)).effect())
    }

    /// Takes the worker one event further.
    pub fn react(self, event: WorkerEvent) -> (next: WorkerState)
        ensures
            next == self.after(event),
    {
        match (self, event) {
            (WorkerState::Waiting, WorkerEvent::Received(None)) => WorkerState::Stopped,
            (WorkerState::Waiting, WorkerEvent::Received(Some(reason))) => if reason.triggers_sync() {
                WorkerState::Pausing { reason }
            } else {
                WorkerState::Waiting
            },
            (
                WorkerState::Pausing { reason },
                WorkerEvent::Paused { previous },
            ) => WorkerState::Draining { reason, previous },
            (
                WorkerState::Draining { reason, previous },
                WorkerEvent::Polled(poll),
            ) => match poll {
                QueuePoll::Message(_) => WorkerState::Draining { reason, previous },
                _ => WorkerState::Importing { reason, previous },
            },
            (
                WorkerState::Importing { reason: _, previous },
                WorkerEvent::ImportFinished { succeeded: _ },
            ) => WorkerState::Restoring { previous },
            (WorkerState::Restoring { previous: _ }, WorkerEvent::Restored) => WorkerState::Waiting,
            (state, _) => state,
        }
    }

    /// What is to be done next.
    pub fn next_effect(self) -> (effect: WorkerEffect)
        ensures
            effect == self.effect(),
    {
        match self {
            WorkerState::Waiting => WorkerEffect::AwaitNotification,
            WorkerState::Pausing { reason: _ } => WorkerEffect::PauseSync,
            WorkerState::Draining { reason: _, previous: _ } => WorkerEffect::PollQueue,
            WorkerState::Importing { reason, previous: _ } => WorkerEffect::ImportBlocks(reason),
            WorkerState::Restoring { previous } => WorkerEffect::RestoreSync(previous),
            WorkerState::Stopped => WorkerEffect::Stop,
        }
    }
}

/// The events of one cycle that such a notification opens: `first` is
/// received, regular sync is paused from `previous`, every notification of
/// `queued` is drained, the queue is then found as `end` says, the import
/// ends, and the sync mode is put back.
pub open spec fn cycle_events(
    first: NotificationReason,
    previous: SyncMode,
    queued: Seq<NotificationReason>,
    end: QueuePoll,
    succeeded: bool,
) -> Seq<WorkerEvent> {
    seq![WorkerEvent::Received(Some(first)), WorkerEvent::Paused { previous }] + Seq::new(
        queued.len(),
        |i: int| WorkerEvent::Polled(QueuePoll::Message(queued[i])),
    ) + seq![
        WorkerEvent::Polled(end),
        WorkerEvent::ImportFinished { succeeded },
        WorkerEvent::Restored,
    ]
}

/// The state of a waiting worker after the first `count` events of a cycle.
proof fn lemma_cycle_prefix(
    first: NotificationReason,
    previous: SyncMode,
    queued: Seq<NotificationReason>,
    end: QueuePoll,
    succeeded: bool,
    count: int,
)
    requires
        first.starts_sync(),
        !(end is Message),
        0 <= count <= queued.len() + 5,
    ensures
        WorkerState::Waiting.after_all(
            cycle_events(first, previous, queued, end, succeeded).take(count),
        ) == (if count == 0 {
            WorkerState::Waiting
        } else if count == 1 {
            WorkerState::Pausing { reason: first }
        } else if count <= queued.len() + 2 {
            WorkerState::Draining { reason: first, previous }
        } else if count == queued.len() + 3 {
            WorkerState::Importing { reason: first, previous }
        } else if count == queued.len() + 4 {
            WorkerState::Restoring { previous }
        } else {
            WorkerState::Waiting
        }),
    decreases count,
{
    let events = cycle_events(first, previous, queued, end, succeeded);
    if count > 0 {
        lemma_cycle_prefix(first, previous, queued, end, succeeded, count - 1);
        assert(events.take(count).drop_last() =~= events.take(count - 1));
        if 3 <= count <= queued.len() + 2 {
            assert(events[count - 1] == WorkerEvent::Polled(
                QueuePoll::Message(queued[count - 3]),
            ));
        }
    }
}

/// A burst of notifications comes to one cycle with one import, and the
/// cycle leaves the sync mode as it found it.
///
/// When a notification that starts a sync is received while any number of
/// others are queued behind it, of whatever reasons, the worker asks for
/// this and nothing else: to pause regular sync, once; to look at the queue,
/// once for each queued notification and once more to find it empty or
/// closed; to import, once; to store the very mode that the pause has found,
/// be it `Paused` itself; and to wait for the next notification. Whether the
/// import works makes no difference.
pub proof fn lemma_burst_is_one_cycle(
    first: NotificationReason,
    previous: SyncMode,
    queued: Seq<NotificationReason>,
    end: QueuePoll,
    succeeded: bool,
)
    requires
        first.starts_sync(),
        !(end is Message),
    ensures
        WorkerState::Waiting.effects(cycle_events(first, previous, queued, end, succeeded))
            == seq![WorkerEffect::PauseSync, WorkerEffect::PollQueue] + Seq::new(
            queued.len(),
            |i: int| WorkerEffect::PollQueue,
        ) + seq![
            WorkerEffect::ImportBlocks(first),
            WorkerEffect::RestoreSync(previous),
            WorkerEffect::AwaitNotification,
        ],
        WorkerState::Waiting.after_all(cycle_events(first, previous, queued, end, succeeded))
            == WorkerState::Waiting,
{
    let events = cycle_events(first, previous, queued, end, succeeded);
    let effects = WorkerState::Waiting.effects(events);
    let expected = seq![WorkerEffect::PauseSync, WorkerEffect::PollQueue] + Seq::new(
        queued.len(),
        |i: int| WorkerEffect::PollQueue,
    ) + seq![
        WorkerEffect::ImportBlocks(first),
        WorkerEffect::RestoreSync(previous),
        WorkerEffect::AwaitNotification,
    ];
    assert forall|i: int| 0 <= i < effects.len() implies effects[i] == expected[i] by {
        lemma_cycle_prefix(first, previous, queued, end, succeeded, i + 1);
    }
    assert(effects =~= expected);
    lemma_cycle_prefix(first, previous, queued, end, succeeded, events.len() as int);
    assert(events.take(events.len() as int) =~= events);
}

/// The shared sync mode after `effect` was carried out on it, with nobody
/// else writing in between: a pause leaves `Paused`, a restore leaves the
/// mode it stores, and nothing else touches the sync mode.
pub open spec fn sync_mode_after(mode: SyncMode, effect: WorkerEffect) -> SyncMode {
    match effect {
        WorkerEffect::PauseSync => SyncMode::Paused,
        WorkerEffect::RestoreSync(restored) => restored,
        _ => mode,
    }
}

/// The shared sync mode after all of `effects` were carried out on it, in
/// their order.
pub open spec fn sync_mode_after_all(mode: SyncMode, effects: Seq<WorkerEffect>) -> SyncMode
    decreases effects.len(),
{
    if effects.len() == 0 {
        mode
    } else {
        sync_mode_after(sync_mode_after_all(mode, effects.drop_last()), effects.last())
    }
}

/// Restoration is exact: a cycle leaves the sync mode that its pause has
/// found. A node whose sync was active gets it back active, and one whose
/// sync was paused before the cycle finds it paused after it; the worker
/// never switches sync on by itself.
pub proof fn lemma_cycle_restores_sync_mode(
    first: NotificationReason,
    previous: SyncMode,
    queued: Seq<NotificationReason>,
    end: QueuePoll,
    succeeded: bool,
)
    requires
        first.starts_sync(),
        !(end is Message),
    ensures
        sync_mode_after_all(
            previous,
            WorkerState::Waiting.effects(cycle_events(first, previous, queued, end, succeeded)),
        ) == previous,
{
    lemma_burst_is_one_cycle(first, previous, queued, end, succeeded);
    let effects = WorkerState::Waiting.effects(
        cycle_events(first, previous, queued, end, succeeded),
    );
    let before_wait = effects.drop_last();
    assert(before_wait.last() == WorkerEffect::RestoreSync(previous));
    assert(sync_mode_after_all(previous, before_wait) == sync_mode_after(
        sync_mode_after_all(previous, before_wait.drop_last()),
        before_wait.last(),
    ));
}

/// Notifications that the node's own network has gone online start nothing:
/// as long as no other notification is received, a waiting worker keeps
/// waiting until the channel closes, whatever else it is told, and never
/// asks for a pause or an import.
pub proof fn lemma_subspace_notifications_start_no_sync(events: Seq<WorkerEvent>)
    requires
        forall|i: int|
            0 <= i < events.len() ==> (#[trigger] events[i] matches WorkerEvent::Received(
                Some(reason),
            ) ==> reason == NotificationReason::WentOnlineSubspace),
    ensures
        WorkerState::Waiting.after_all(events) is Waiting || WorkerState::Waiting.after_all(
            events,
        ) is Stopped,
        forall|i: int|
            0 <= i < events.len() ==> (#[trigger] WorkerState::Waiting.effects(events)[i]
                is AwaitNotification || WorkerState::Waiting.effects(events)[i] is Stop),
    decreases events.len(),
{
    if events.len() > 0 {
        let earlier = events.drop_last();
        lemma_subspace_notifications_start_no_sync(earlier);
        assert forall|i: int| 0 <= i < events.len() implies (
        #[trigger] WorkerState::Waiting.effects(events)[i] is AwaitNotification
            || WorkerState::Waiting.effects(events)[i] is Stop) by {
            if i < earlier.len() {
                assert(events.take(i + 1) =~= earlier.take(i + 1));
                assert(WorkerState::Waiting.effects(earlier)[i] is AwaitNotification
                    || WorkerState::Waiting.effects(earlier)[i] is Stop);
            } else {
                assert(events.take(i + 1) =~= events);
            }
        }
    }
}

/// How often `effects` ask for an import.
pub open spec fn imports_asked(effects: Seq<WorkerEffect>) -> nat
    decreases effects.len(),
{
    if effects.len() == 0 {
        0
    } else {
        imports_asked(effects.drop_last()) + (if effects.last() is ImportBlocks {
            1nat
        } else {
            0nat
        })
    }
}

/// How often `effects` ask for regular sync to be paused.
pub open spec fn pauses_asked(effects: Seq<WorkerEffect>) -> nat
    decreases effects.len(),
{
    if effects.len() == 0 {
        0
    } else {
        pauses_asked(effects.drop_last()) + (if effects.last() is PauseSync {
            1nat
        } else {
            0nat
        })
    }
}

/// How often `effects` ask for the sync mode to be put back.
pub open spec fn restores_asked(effects: Seq<WorkerEffect>) -> nat
    decreases effects.len(),
{
    if effects.len() == 0 {
        0
    } else {
        restores_asked(effects.drop_last()) + (if effects.last() is RestoreSync {
            1nat
        } else {
            0nat
        })
    }
}

/// What a waiting worker is told when it finds `queue` in its channel, first
/// come first: notifications that start no sync are received one by one, and
/// the first one that starts a sync opens a cycle in which all that is queued
/// behind it is drained.
pub open spec fn queue_events(
    queue: Seq<NotificationReason>,
    previous: SyncMode,
    end: QueuePoll,
    succeeded: bool,
) -> Seq<WorkerEvent>
    decreases queue.len(),
{
    if queue.len() == 0 {
        Seq::empty()
    } else if queue[0].starts_sync() {
        cycle_events(queue[0], previous, queue.skip(1), end, succeeded)
    } else {
        seq![WorkerEvent::Received(Some(queue[0]))] + queue_events(
            queue.skip(1),
            previous,
            end,
            succeeded,
        )
    }
}

/// Events that follow each other are taken one after the other.
proof fn lemma_after_all_of_both(
    state: WorkerState,
    earlier: Seq<WorkerEvent>,
    later: Seq<WorkerEvent>,
)
    ensures
        state.after_all(earlier + later) == state.after_all(earlier).after_all(later),
    decreases later.len(),
{
    if later.len() == 0 {
        assert(earlier + later =~= earlier);
    } else {
        assert((earlier + later).drop_last() =~= earlier + later.drop_last());
        lemma_after_all_of_both(state, earlier, later.drop_last());
    }
}

/// The effects of events that follow each other follow each other.
proof fn lemma_effects_of_both(
    state: WorkerState,
    earlier: Seq<WorkerEvent>,
    later: Seq<WorkerEvent>,
)
    ensures
        state.effects(earlier + later) == state.effects(earlier) + state.after_all(
            earlier,
        ).effects(later),
{
    let both = earlier + later;
    let expected = state.effects(earlier) + state.after_all(earlier).effects(later);
    assert forall|i: int| 0 <= i < both.len() implies state.effects(both)[i] == expected[i] by {
        if i < earlier.len() {
            assert(both.take(i + 1) =~= earlier.take(i + 1));
        } else {
            assert(both.take(i + 1) =~= earlier + later.take(i + 1 - earlier.len()));
            lemma_after_all_of_both(state, earlier, later.take(i + 1 - earlier.len()));
        }
    }
}

/// Counting what is asked for goes part by part.
proof fn lemma_asked_of_both(earlier: Seq<WorkerEffect>, later: Seq<WorkerEffect>)
    ensures
        imports_asked(earlier + later) == imports_asked(earlier) + imports_asked(later),
        pauses_asked(earlier + later) == pauses_asked(earlier) + pauses_asked(later),
        restores_asked(earlier + later) == restores_asked(earlier) + restores_asked(later),
    decreases later.len(),
{
    if later.len() > 0 {
        assert((earlier + later).drop_last() =~= earlier + later.drop_last());
        lemma_asked_of_both(earlier, later.drop_last());
    }
}

/// Looking at the queue is neither an import nor a pause nor a restore.
proof fn lemma_polls_ask_nothing_else(polls: nat)
    ensures
        imports_asked(Seq::new(polls, |i: int| WorkerEffect::PollQueue)) == 0,
        pauses_asked(Seq::new(polls, |i: int| WorkerEffect::PollQueue)) == 0,
        restores_asked(Seq::new(polls, |i: int| WorkerEffect::PollQueue)) == 0,
    decreases polls,
{
    if polls > 0 {
        assert(Seq::new(polls, |i: int| WorkerEffect::PollQueue).drop_last() =~= Seq::new(
            (polls - 1) as nat,
            |i: int| WorkerEffect::PollQueue,
        ));
        lemma_polls_ask_nothing_else((polls - 1) as nat);
    }
}

/// Whatever a waiting worker finds queued, it answers with at most one
/// import, and with one exactly if something queued starts a sync.
///
/// Notifications that the node's own network went online make no
/// difference, wherever they stand in the queue: in front they are passed
/// over, behind they are drained. With the one import go one pause and one
/// restore, and in the end the worker waits again.
pub proof fn lemma_queue_comes_to_one_import(
    queue: Seq<NotificationReason>,
    previous: SyncMode,
    end: QueuePoll,
    succeeded: bool,
)
    requires
        !(end is Message),
    ensures
        ({
            let effects = WorkerState::Waiting.effects(
                queue_events(queue, previous, end, succeeded),
            );
            let once: nat = if exists|i: int| 0 <= i < queue.len() && queue[i].starts_sync() {
                1
            } else {
                0
            };
            &&& imports_asked(effects) == once
            &&& pauses_asked(effects) == once
            &&& restores_asked(effects) == once
        }),
        WorkerState::Waiting.after_all(queue_events(queue, previous, end, succeeded))
            == WorkerState::Waiting,
    decreases queue.len(),
{
    if queue.len() == 0 {
        // Nothing is queued and nothing is asked for.
    } else if queue[0].starts_sync() {
        let queued = queue.skip(1);
        lemma_burst_is_one_cycle(queue[0], previous, queued, end, succeeded);
        let begin = seq![WorkerEffect::PauseSync, WorkerEffect::PollQueue];
        let polls = Seq::new(queued.len(), |i: int| WorkerEffect::PollQueue);
        let finish = seq![
            WorkerEffect::ImportBlocks(queue[0]),
            WorkerEffect::RestoreSync(previous),
            WorkerEffect::AwaitNotification,
        ];
        lemma_asked_of_both(begin + polls, finish);
        lemma_asked_of_both(begin, polls);
        lemma_polls_ask_nothing_else(queued.len());
        reveal_with_fuel(imports_asked, 4);
        reveal_with_fuel(pauses_asked, 4);
        reveal_with_fuel(restores_asked, 4);
        assert(begin.drop_last() =~= seq![WorkerEffect::PauseSync]);
        assert(finish.drop_last() =~= seq![
            WorkerEffect::ImportBlocks(queue[0]),
            WorkerEffect::RestoreSync(previous),
        ]);
    } else {
        let passed = seq![WorkerEvent::Received(Some(queue[0]))];
        let rest = queue_events(queue.skip(1), previous, end, succeeded);
        lemma_queue_comes_to_one_import(queue.skip(1), previous, end, succeeded);
        lemma_effects_of_both(WorkerState::Waiting, passed, rest);
        lemma_after_all_of_both(WorkerState::Waiting, passed, rest);
        assert(WorkerState::Waiting.after_all(passed) == WorkerState::Waiting) by {
            reveal_with_fuel(WorkerState::after_all, 2);
        }
        assert(WorkerState::Waiting.effects(passed) =~= seq![WorkerEffect::AwaitNotification]) by {
            assert(passed.take(1) =~= passed);
        }
        lemma_asked_of_both(seq![WorkerEffect::AwaitNotification], WorkerState::Waiting.effects(rest));
        reveal_with_fuel(imports_asked, 2);
        reveal_with_fuel(pauses_asked, 2);
        reveal_with_fuel(restores_asked, 2);
        assert forall|i: int| 0 <= i < queue.skip(1).len() && queue.skip(1)[i].starts_sync() implies (
        exists|j: int| 0 <= j < queue.len() && queue[j].starts_sync()) by {
            assert(queue[i + 1].starts_sync());
        }
        if exists|j: int| 0 <= j < queue.len() && queue[j].starts_sync() {
            let j = choose|j: int| 0 <= j < queue.len() && queue[j].starts_sync();
            assert(queue.skip(1)[j - 1].starts_sync());
        }
    }
}

/// `atomic::Atomic`: a value that threads share and exchange in one step.
#[verifier::external_type_specification]
#[verifier::external_body]
#[verifier::reject_recursive_types(T)]
pub struct ExAtomic<T>(Atomic<T>);

/// `Atomic::swap`: stores a value and returns the one that was there. Other
/// threads write to the same place, so nothing is claimed of the result.
pub assume_specification<T: Copy>[ Atomic::<T>::swap ](
    shared: &Atomic<T>,
    val: T,
    order: Ordering,
) -> (previous: T)
;

/// `Atomic::store`: stores a value. It panics on the orderings `Acquire` and
/// `AcqRel`, which are left out.
pub assume_specification<T: Copy>[ Atomic::<T>::store ](shared: &Atomic<T>, val: T, order: Ordering)
    requires
        !(order is Acquire),
        !(order is AcqRel),
;

/// Number of queued notifications that the worker drains in one go. While
/// more keep coming it goes on in a further step, so that no step runs
/// without end.
pub const DRAIN_BATCH: usize = 1024;

/// What a look at the queue has found, by what the channel has answered: a
/// message, or the error that says whether the empty channel is closed.
pub open spec fn queue_poll(received: Result<NotificationReason, TryRecvError>) -> QueuePoll {
    match received {
        Ok(reason) => QueuePoll::Message(reason),
        Err(TryRecvError::Empty) => QueuePoll::Empty,
        Err(TryRecvError::Closed) => QueuePoll::Closed,
    }
}

/// Tells what a look at the queue has found from what the channel has
/// answered.
pub fn classify_poll(received: Result<NotificationReason, TryRecvError>) -> (poll: QueuePoll)
    ensures
        poll == queue_poll(received),
{
    match received {
        Ok(reason) => QueuePoll::Message(reason),
        Err(TryRecvError::Empty) => QueuePoll::Empty,
        Err(TryRecvError::Closed) => QueuePoll::Closed,
    }
}

/// Looks at the queue without waiting.
///
/// What is queued is up to the senders; what the channel answers is told
/// apart by [`classify_poll`].
fn poll_queue(notifications: &mut Receiver<NotificationReason>) -> QueuePoll {
    classify_poll(notifications.try_recv())
}

/// The worker with what it works on: the node's sync mode, which it shares
/// with the node, and the receiving end of the observer's notifications.
pub struct Worker {
    sync_mode: Arc<Atomic<SyncMode>>,
    notifications: Receiver<NotificationReason>,
    state: WorkerState,
}

impl Worker {
    /// Where the worker stands.
    pub closed spec fn state(&self) -> WorkerState {
        self.state
    }

    /// The sync mode that the worker shares with the node.
    pub closed spec fn sync_mode(&self) -> Arc<Atomic<SyncMode>> {
        self.sync_mode
    }

    /// The receiving end of the notifications.
    pub closed spec fn receiver(&self) -> Receiver<NotificationReason> {
        self.notifications
    }

    /// A worker on the shared `sync_mode` that receives from `notifications`
    /// and waits for its first notification.
    pub fn new(sync_mode: Arc<Atomic<SyncMode>>, notifications: Receiver<NotificationReason>) -> (worker:
        Worker)
        ensures
            worker.state() == WorkerState::Waiting,
            worker.sync_mode() == sync_mode,
            worker.receiver() == notifications,
    {
        Worker { sync_mode, notifications, state: WorkerState::Waiting }
    }

    /// Where the worker stands.
    pub fn current_state(&self) -> (state: WorkerState)
        ensures
            state == self.state(),
    {
        self.state
    }

    /// What is to be done next for the worker.
    pub fn next_effect(&self) -> (effect: WorkerEffect)
        ensures
            effect == self.state().effect(),
    {
        self.state.next_effect()
    }

    /// The receiving end of the notifications, for the caller to wait on.
    ///
    /// The caller gets the worker's own receiver, and what it leaves of it is
    /// what the worker goes on with. Where the worker stands and the sync
    /// mode that it shares do not change by it.
    pub fn notifications(&mut self) -> (notifications: &mut Receiver<NotificationReason>)
        ensures
            *notifications == old(self).receiver(),
            final(self).receiver() == *final(notifications),
            final(self).state() == old(self).state(),
            final(self).sync_mode() == old(self).sync_mode(),
    {
        &mut self.notifications
    }

    /// Carries out what the worker can do without waiting, and says what is
    /// to be done next.
    ///
    /// A pause that is due is made, with the sequentially consistent
    /// exchange of the shared sync mode for `Paused`; the mode found goes
    /// into the state. A mode that is to be put back is stored. While
    /// draining, the queue is looked at until it is found empty or closed,
    /// [`DRAIN_BATCH`] times at most. A worker that waits for a notification
    /// or for the import, or that has ended, is left as it is.
    pub fn proceed(&mut self) -> (next: WorkerEffect)
        ensures
            next == final(self).state().effect(),
            !(next is PauseSync),
            !(next is RestoreSync),
            match old(self).state() {
                WorkerState::Pausing { reason } => exists|previous: SyncMode|
                    final(self).state() == (WorkerState::Draining { reason, previous })
                        || final(self).state() == (WorkerState::Importing { reason, previous }),
                WorkerState::Draining { reason, previous } => final(self).state()
                    == old(self).state() || final(self).state() == (WorkerState::Importing {
                    reason,
                    previous,
                }),
                WorkerState::Restoring { previous } => final(self).state() == WorkerState::Waiting,
                _ => final(self).state() == old(self).state(),
            },
    {
        match self.state {
            WorkerState::Pausing { reason: _ } => {
                let previous = self.sync_mode.swap(SyncMode::Paused, Ordering::SeqCst);
                self.state = self.state.react(WorkerEvent::Paused { previous });
            },
            WorkerState::Restoring { previous } => {
                self.sync_mode.store(previous, Ordering::Release);
                self.state = self.state.react(WorkerEvent::Restored);
            },
            _ => {},
        }
        let ghost entered = self.state;
        let mut polls: usize = 0;
        while polls < DRAIN_BATCH && self.state.next_effect() == WorkerEffect::PollQueue
            invariant
                polls <= DRAIN_BATCH,
                match entered {
                    WorkerState::Draining { reason, previous } => self.state == entered
                        || self.state == (WorkerState::Importing { reason, previous }),
                    _ => self.state == entered,
                },
            decreases DRAIN_BATCH - polls,
        {
            let poll = poll_queue(&mut self.notifications);
            self.state = self.state.react(WorkerEvent::Polled(poll));
            polls = polls + 1;
        }
        self.state.next_effect()
    }

    /// Tells the worker how its wait for a notification has ended, and says
    /// what is to be done next.
    ///
    /// A closed channel ends the worker. A notification that starts no sync
    /// leaves it waiting. Any other opens a cycle: regular sync is paused,
    /// the queue is drained, and the import is asked for, or another look at
    /// the queue if it has not been drained in one go.
    pub fn on_notification(&mut self, notification: Option<NotificationReason>) -> (next:
        WorkerEffect)
        requires
            old(self).state() is Waiting,
        ensures
            next == final(self).state().effect(),
            match notification {
                None => final(self).state() is Stopped,
                Some(reason) => if reason.starts_sync() {
                    exists|previous: SyncMode|
                        final(self).state() == (WorkerState::Draining { reason, previous })
                            || final(self).state() == (WorkerState::Importing { reason, previous })
                } else {
                    final(self).state() is Waiting
                },
            },
    {
        self.state = self.state.react(WorkerEvent::Received(notification));
        self.proceed()
    }

    /// Tells the worker that the import has ended, and says what is to be
    /// done next.
    ///
    /// Whether the import has worked or not, the sync mode that the pause
    /// has found is put back and the worker waits for the next notification.
    pub fn on_import_finished(&mut self, succeeded: bool) -> (next: WorkerEffect)
        requires
            old(self).state() is Importing,
        ensures
            final(self).state() is Waiting,
            next is AwaitNotification,
    {
        self.state = self.state.react(WorkerEvent::ImportFinished { succeeded });
        self.proceed()
    }
}

/// Creates the worker on the shared `sync_mode`, which receives from
/// `notifications` and waits for its first notification.
pub fn create_worker(sync_mode: Arc<Atomic<SyncMode>>, notifications: Receiver<NotificationReason>) -> (worker:
    Worker)
    ensures
        worker.state() == WorkerState::Waiting,
        worker.sync_mode() == sync_mode,
        worker.receiver() == notifications,
{
    Worker::new(sync_mode, notifications)
}

} // verus!
