//! The observer: three watches on the node, each of which notifies the
//! worker on its own.
//!
//! * The node's own network reports every change of its number of peer
//!   connections.
//! * The chain client is waited on for imported blocks, one timeout period
//!   at a time.
//! * The Substrate network is asked for its number of connected peers at a
//!   fixed interval.
//!
//! Waiting and asking is the caller's part. Each watch is told what was
//! seen, notifies the worker if that calls for it, and says whether it goes
//! on.

use crate::sync_from_dsn::notifications::{NotificationReason, SendOutcome};
use futures::channel::mpsc::Sender;
use std::sync::atomic::{AtomicBool, Ordering};
use vstd::prelude::*;

verus! {

/// Whether a watch that was offline before has gone online: it sees peers now
/// and saw none before.
pub open spec fn went_online(was_online: bool, connected: usize) -> bool {
    connected > 0 && !was_online
}

/// Whether a watch takes the node for online after it has seen `counts`, one
/// after the other: whether the last count was above zero. A watch that has
/// seen nothing yet is where it began.
pub open spec fn online_after(was_online: bool, counts: Seq<usize>) -> bool {
    if counts.len() == 0 {
        was_online
    } else {
        counts.last() > 0
    }
}

/// Number of notifications that are due while a watch sees `counts`, one after
/// the other.
pub open spec fn online_notifications(was_online: bool, counts: Seq<usize>) -> nat
    decreases counts.len(),
{
    if counts.len() == 0 {
        0
    } else {
        online_notifications(was_online, counts.drop_last()) + (if went_online(
            online_after(was_online, counts.drop_last()),
            counts.last(),
        ) {
            1nat
        } else {
            0nat
        })
    }
}

/// Only going online is worth a notification. A node that is seen online
/// again and again is reported once, when it was offline before, and not at
/// all when it was online already; and a node that is seen offline is never
/// reported, whatever it was before.
pub proof fn lemma_online_is_reported_on_the_edge(was_online: bool, counts: Seq<usize>)
    ensures
        (forall|i: int| 0 <= i < counts.len() ==> counts[i] > 0) ==> online_notifications(
            was_online,
            counts,
        ) == (if !was_online && counts.len() > 0 {
            1nat
        } else {
            0nat
        }),
        (forall|i: int| 0 <= i < counts.len() ==> counts[i] == 0) ==> online_notifications(
            was_online,
            counts,
        ) == 0,
    decreases counts.len(),
{
    if counts.len() > 0 {
        lemma_online_is_reported_on_the_edge(was_online, counts.drop_last());
    }
}

/// What one step of a watch has done.
#[derive(Clone, Copy, Debug, PartialEq, Eq, Structural)]
pub struct ObserverStep {
    /// The notification that the watch has tried to send, if any.
    pub notification: Option<NotificationReason>,
    /// How that attempt has ended.
    pub outcome: Option<SendOutcome>,
}

impl ObserverStep {
    /// Whether the worker is gone. A notification that was merely dropped
    /// because the worker was busy does not count: it is lost on purpose.
    pub open spec fn worker_gone(self) -> bool {
        self.outcome == Some(SendOutcome::Disconnected)
    }

    /// Whether the worker is gone.
    pub fn is_worker_gone(&self) -> (gone: bool)
        ensures
            gone == self.worker_gone(),
    {
        match self.outcome {
            Some(SendOutcome::Disconnected) => true,
            _ => false,
        }
    }
}

/// How an attempt to send has ended, by what the channel has answered:
/// `None` stands for a message that was taken, and `Some` for one that was
/// refused, with whether it was refused because the receiver is gone.
pub open spec fn send_outcome(refused: Option<bool>) -> SendOutcome {
    match refused {
        None => SendOutcome::Sent,
        Some(disconnected) => if disconnected {
            SendOutcome::Disconnected
        } else {
            SendOutcome::Full
        },
    }
}

/// Tells how an attempt to send has ended from what the channel has
/// answered. A message that was refused while the receiver is still there
/// found the channel full.
pub fn classify_send(refused: Option<bool>) -> (outcome: SendOutcome)
    ensures
        outcome == send_outcome(refused),
{
    match refused {
        None => SendOutcome::Sent,
        Some(true) => SendOutcome::Disconnected,
        Some(false) => SendOutcome::Full,
    }
}

/// Tries to hand `reason` to the worker without waiting for it.
///
/// Whether the channel takes the message is up to the channel; what it
/// answers is told apart by [`classify_send`].
fn try_notify(notifications_sender: &mut Sender<NotificationReason>, reason: NotificationReason) -> (outcome:
    SendOutcome) {
    let refused = match notifications_sender.try_send(reason) {
        Ok(()) => None,
        Err(error) => Some(error.is_disconnected()),
    };
    classify_send(refused)
}

/// Sends `reason` if `due` holds and does nothing otherwise.
fn notify_if(
    notifications_sender: &mut Sender<NotificationReason>,
    due: bool,
    reason: NotificationReason,
) -> (step: ObserverStep)
    ensures
        step.notification == (if due {
            Some(reason)
        } else {
            None
        }),
        step.outcome is Some <==> due,
{
    if due {
        let outcome = try_notify(notifications_sender, reason);
        ObserverStep { notification: Some(reason), outcome: Some(outcome) }
    } else {
        ObserverStep { notification: None, outcome: None }
    }
}

/// Watch on the node's own network.
///
/// The network calls it from wherever a connection changes, so the watch
/// keeps its flag in an atomic and sends through a sender of its own each
/// time.
pub struct SubspaceNetworkObserver {
    was_online: AtomicBool,
    notifications_sender: Sender<NotificationReason>,
}

impl SubspaceNetworkObserver {
    /// The sender that the watch notifies the worker through; it sends
    /// through a clone of it each time.
    pub closed spec fn notifications_sender(&self) -> Sender<NotificationReason> {
        self.notifications_sender
    }

    /// A watch that notifies through `notifications_sender` and takes the
    /// node for offline until it hears otherwise.
    pub fn new(notifications_sender: Sender<NotificationReason>) -> (observer:
        SubspaceNetworkObserver)
        ensures
            observer.notifications_sender() == notifications_sender,
    {
        SubspaceNetworkObserver { was_online: AtomicBool::new(false), notifications_sender }
    }

    /// Takes note of the new number of established peer connections.
    ///
    /// The flag is exchanged for the new state in one atomic step. The
    /// result holds the state that was found there, and the step: the worker
    /// is notified exactly if the node has gone online against that state.
    /// Nothing follows from a failed attempt.
    pub fn on_num_established_peer_connections_change(&self, new_connections: usize) -> (seen: (
        bool,
        ObserverStep,
    ))
        ensures
            seen.1.notification == (if went_online(seen.0, new_connections) {
                Some(NotificationReason::WentOnlineSubspace)
            } else {
                None
            }),
            seen.1.outcome is Some <==> went_online(seen.0, new_connections),
    {
        let is_online = new_connections > 0;
        let was_online = self.was_online.swap(is_online, Ordering::AcqRel);
        let mut notifications_sender = self.notifications_sender.clone();
        let step = notify_if(
            &mut notifications_sender,
            is_online && !was_online,
            NotificationReason::WentOnlineSubspace,
        );
        (was_online, step)
    }
}

/// How a wait for the next imported block has ended.
#[derive(Clone, Copy, Debug, PartialEq, Eq, Structural)]
pub enum ImportWait {
    /// A block was imported.
    Imported,
    /// The chain client has closed its stream of imports.
    StreamClosed,
    /// The timeout period has passed without an import.
    TimedOut,
}

/// The notification that is due after a wait for an imported block: one for
/// each period that has passed without an import, none otherwise.
pub open spec fn idle_notification(wait: ImportWait) -> Option<NotificationReason> {
    if wait is TimedOut {
        Some(NotificationReason::NoImportedBlocks)
    } else {
        None
    }
}

/// Number of notifications that are due over a run of waits for imported
/// blocks.
pub open spec fn idle_notifications(waits: Seq<ImportWait>) -> nat
    decreases waits.len(),
{
    if waits.len() == 0 {
        0
    } else {
        idle_notifications(waits.drop_last()) + (if idle_notification(waits.last()) is Some {
            1nat
        } else {
            0nat
        })
    }
}

/// While no block is imported, every timeout period that passes is worth
/// exactly one notification, for as long as it goes on: over any number of
/// periods that all time out, as many notifications are due as there are
/// periods.
pub proof fn lemma_one_notification_per_idle_period(waits: Seq<ImportWait>)
    requires
        forall|i: int| 0 <= i < waits.len() ==> waits[i] is TimedOut,
    ensures
        idle_notifications(waits) == waits.len(),
        forall|i: int|
            0 <= i < waits.len() ==> idle_notification(#[trigger] waits[i]) == Some(
                NotificationReason::NoImportedBlocks,
            ),
    decreases waits.len(),
{
    if waits.len() > 0 {
        lemma_one_notification_per_idle_period(waits.drop_last());
    }
}

/// Watch on the chain client's imports.
pub struct ImportedBlocksObserver {
    notifications_sender: Sender<NotificationReason>,
}

impl ImportedBlocksObserver {
    /// The sender that the watch notifies the worker through.
    pub closed spec fn notifications_sender(&self) -> Sender<NotificationReason> {
        self.notifications_sender
    }

    /// A watch that notifies through `notifications_sender`.
    pub fn new(notifications_sender: Sender<NotificationReason>) -> (observer:
        ImportedBlocksObserver)
        ensures
            observer.notifications_sender() == notifications_sender,
    {
        ImportedBlocksObserver { notifications_sender }
    }

    /// Takes note of how a wait for the next imported block has ended and
    /// says whether to wait again.
    ///
    /// A period without an import is reported to the worker, every time. An
    /// import is not. The watch ends, without a word, when the stream of
    /// imports is closed, and also when the worker is found gone.
    pub fn on_wait_ended(&mut self, wait: ImportWait) -> (watch: (ObserverStep, bool))
        ensures
            watch.0.notification == idle_notification(wait),
            watch.0.outcome is Some <==> wait is TimedOut,
            watch.1 == (!(wait is StreamClosed) && !watch.0.worker_gone()),
    {
        let due = match wait {
            ImportWait::TimedOut => true,
            _ => false,
        };
        let step = notify_if(
            &mut self.notifications_sender,
            due,
            NotificationReason::NoImportedBlocks,
        );
        let closed = match wait {
            ImportWait::StreamClosed => true,
            _ => false,
        };
        (step, !closed && !step.is_worker_gone())
    }
}

/// Watch on the Substrate network.
pub struct SubstrateNetworkObserver {
    was_online: bool,
    notifications_sender: Sender<NotificationReason>,
}

impl SubstrateNetworkObserver {
    /// Whether the last check has found the node online.
    pub closed spec fn was_online(&self) -> bool {
        self.was_online
    }

    /// The sender that the watch notifies the worker through.
    pub closed spec fn notifications_sender(&self) -> Sender<NotificationReason> {
        self.notifications_sender
    }

    /// A watch that notifies through `notifications_sender` and takes the
    /// node for offline until a check says otherwise.
    pub fn new(notifications_sender: Sender<NotificationReason>) -> (observer:
        SubstrateNetworkObserver)
        ensures
            !observer.was_online(),
            observer.notifications_sender() == notifications_sender,
    {
        SubstrateNetworkObserver { was_online: false, notifications_sender }
    }

    /// Takes note of the number of connected peers that a check has found
    /// and says whether to check again.
    ///
    /// The worker is notified exactly if the node has gone online since the
    /// last check. The watch ends only when the worker is found gone.
    pub fn on_check(&mut self, connected_peers: usize) -> (watch: (ObserverStep, bool))
        ensures
            final(self).was_online() == (connected_peers > 0),
            watch.0.notification == (if went_online(old(self).was_online(), connected_peers) {
                Some(NotificationReason::WentOnlineSubstrate)
            } else {
                None
            }),
            watch.0.outcome is Some <==> went_online(old(self).was_online(), connected_peers),
            watch.1 == !watch.0.worker_gone(),
    {
        let is_online = connected_peers > 0;
        let step = notify_if(
            &mut self.notifications_sender,
            is_online && !self.was_online,
            NotificationReason::WentOnlineSubstrate,
        );
        self.was_online = is_online;
        (step, !step.is_worker_gone())
    }
}

/// The three watches of the observer.
pub struct Observer {
    pub subspace_network: SubspaceNetworkObserver,
    pub imported_blocks: ImportedBlocksObserver,
    pub substrate_network: SubstrateNetworkObserver,
}

impl Observer {
    /// The observer whose watches notify through the given senders, one for
    /// each watch. Both network watches take the node for offline at first.
    pub fn new(
        subspace_sender: Sender<NotificationReason>,
        imported_blocks_sender: Sender<NotificationReason>,
        substrate_sender: Sender<NotificationReason>,
    ) -> (observer: Observer)
        ensures
            observer.subspace_network.notifications_sender() == subspace_sender,
            observer.imported_blocks.notifications_sender() == imported_blocks_sender,
            observer.substrate_network.notifications_sender() == substrate_sender,
            !observer.substrate_network.was_online(),
    {
        Observer {
            subspace_network: SubspaceNetworkObserver::new(subspace_sender),
            imported_blocks: create_imported_blocks_observer(imported_blocks_sender),
            substrate_network: create_substrate_network_observer(substrate_sender),
        }
    }
}

/// Creates the watch on the chain client's imports, which notifies through
/// `notifications_sender`.
pub fn create_imported_blocks_observer(notifications_sender: Sender<NotificationReason>) -> (observer:
    ImportedBlocksObserver)
    ensures
        observer.notifications_sender() == notifications_sender,
{
    ImportedBlocksObserver::new(notifications_sender)
}

/// Creates the watch on the Substrate network, which notifies through
/// `notifications_sender` and takes the node for offline at first.
pub fn create_substrate_network_observer(notifications_sender: Sender<NotificationReason>) -> (observer:
    SubstrateNetworkObserver)
    ensures
        !observer.was_online(),
        observer.notifications_sender() == notifications_sender,
{
    SubstrateNetworkObserver::new(notifications_sender)
}

/// Creates the observer: every watch gets a sender of its own to the same
/// worker, and both network watches take the node for offline at first.
///
/// The watch on the Substrate network gets `notifications_sender` itself, the
/// other two get a clone of it each.
pub fn create_observer(notifications_sender: Sender<NotificationReason>) -> (observer: Observer)
    ensures
        !observer.substrate_network.was_online(),
        observer.substrate_network.notifications_sender() == notifications_sender,
{
    let subspace_sender = notifications_sender.clone();
    let imported_blocks_sender = notifications_sender.clone();
    Observer::new(subspace_sender, imported_blocks_sender, notifications_sender)
}

} // verus!
