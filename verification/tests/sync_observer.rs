use futures::executor::block_on;
use futures::StreamExt;
use std::sync::Arc;
use subspace_coordination::sync_from_dsn::create_observer_and_worker;
use subspace_coordination::sync_from_dsn::notifications::{
    NotificationReason, SendOutcome, SyncMode,
};
use subspace_coordination::sync_from_dsn::observer::{
    classify_send, create_imported_blocks_observer, create_observer,
    create_substrate_network_observer, ImportWait, Observer, ObserverStep,
    SubspaceNetworkObserver,
};
use subspace_coordination::sync_from_dsn::worker::Worker;
use subspace_coordination::sync_from_dsn::{
    CHECK_ONLINE_STATUS_INTERVAL_SECS, NO_IMPORTED_BLOCKS_TIMEOUT_SECS,
};

fn observer_and_worker() -> (Observer, Worker) {
    create_observer_and_worker(Arc::new(atomic::Atomic::new(SyncMode::Active)))
}

fn take_queued(worker: &mut Worker) -> Vec<NotificationReason> {
    let mut queued = Vec::new();
    while let Ok(reason) = worker.notifications().try_recv() {
        queued.push(reason);
    }
    queued
}

const NOTHING: ObserverStep = ObserverStep { notification: None, outcome: None };

#[test]
fn timers_are_ten_minutes_and_ten_seconds() {
    assert_eq!(NO_IMPORTED_BLOCKS_TIMEOUT_SECS, 10 * 60);
    assert_eq!(CHECK_ONLINE_STATUS_INTERVAL_SECS, 10);
}

#[test]
fn substrate_network_notifies_on_going_online_only() {
    let (mut observer, mut worker) = observer_and_worker();
    let mut notified = 0;
    for connected_peers in [0usize, 0, 5, 5, 0, 3] {
        let (step, go_on) = observer.substrate_network.on_check(connected_peers);
        assert!(go_on);
        if step.notification.is_some() {
            assert_eq!(step.notification, Some(NotificationReason::WentOnlineSubstrate));
            assert_eq!(step.outcome, Some(SendOutcome::Sent));
            notified += 1;
            assert_eq!(take_queued(&mut worker), vec![NotificationReason::WentOnlineSubstrate]);
        } else {
            assert_eq!(step, NOTHING);
            assert_eq!(take_queued(&mut worker), vec![]);
        }
    }
    assert_eq!(notified, 2);
}

#[test]
fn substrate_network_steps_follow_the_edges() {
    let (mut observer, _worker) = observer_and_worker();
    let sent: Vec<bool> = [0usize, 0, 5, 5, 0, 3]
        .iter()
        .map(|&connected_peers| {
            observer.substrate_network.on_check(connected_peers).0.notification.is_some()
        })
        .collect();
    assert_eq!(sent, vec![false, false, true, false, false, true]);
}

#[test]
fn subspace_network_notifies_on_going_online_only() {
    let (observer, mut worker) = observer_and_worker();
    let mut was_online = Vec::new();
    let mut notified = Vec::new();
    for new_connections in [0usize, 0, 5, 5, 0, 3] {
        let (was, step) =
            observer.subspace_network.on_num_established_peer_connections_change(new_connections);
        was_online.push(was);
        notified.push(step.notification);
        if step.notification.is_some() {
            assert_eq!(step.outcome, Some(SendOutcome::Sent));
        } else {
            assert_eq!(step.outcome, None);
        }
    }
    assert_eq!(was_online, vec![false, false, false, true, true, false]);
    let went_online = Some(NotificationReason::WentOnlineSubspace);
    assert_eq!(notified, vec![None, None, went_online, None, None, went_online]);
    assert_eq!(
        take_queued(&mut worker),
        vec![NotificationReason::WentOnlineSubspace, NotificationReason::WentOnlineSubspace]
    );
}

#[test]
fn node_that_starts_online_notifies_at_once() {
    let (mut observer, mut worker) = observer_and_worker();
    let (step, go_on) = observer.substrate_network.on_check(1);
    assert_eq!(step.notification, Some(NotificationReason::WentOnlineSubstrate));
    assert!(go_on);
    let (was, step) = observer.subspace_network.on_num_established_peer_connections_change(1);
    assert!(!was);
    assert_eq!(step.notification, Some(NotificationReason::WentOnlineSubspace));
    assert_eq!(take_queued(&mut worker).len(), 2);
}

#[test]
fn every_idle_period_notifies() {
    let (mut observer, mut worker) = observer_and_worker();
    for _ in 0..5 {
        let (step, go_on) = observer.imported_blocks.on_wait_ended(ImportWait::TimedOut);
        assert_eq!(step.notification, Some(NotificationReason::NoImportedBlocks));
        assert_eq!(step.outcome, Some(SendOutcome::Sent));
        assert!(go_on);
        assert_eq!(take_queued(&mut worker), vec![NotificationReason::NoImportedBlocks]);
    }
}

#[test]
fn imported_block_notifies_nothing() {
    let (mut observer, mut worker) = observer_and_worker();
    let (step, go_on) = observer.imported_blocks.on_wait_ended(ImportWait::Imported);
    assert_eq!(step, NOTHING);
    assert!(go_on);
    assert_eq!(take_queued(&mut worker), vec![]);
    let (step, _) = observer.imported_blocks.on_wait_ended(ImportWait::TimedOut);
    assert_eq!(step.notification, Some(NotificationReason::NoImportedBlocks));
}

#[test]
fn closed_import_stream_ends_the_watch_silently() {
    let (mut observer, mut worker) = observer_and_worker();
    let (step, go_on) = observer.imported_blocks.on_wait_ended(ImportWait::StreamClosed);
    assert_eq!(step, NOTHING);
    assert!(!go_on);
    assert_eq!(take_queued(&mut worker), vec![]);
}

#[test]
fn notification_is_dropped_while_the_worker_is_busy() {
    let (mut observer, mut worker) = observer_and_worker();
    let (first, _) = observer.imported_blocks.on_wait_ended(ImportWait::TimedOut);
    assert_eq!(first.outcome, Some(SendOutcome::Sent));
    // Nothing was taken out: the watch's one slot is in use.
    let (second, go_on) = observer.imported_blocks.on_wait_ended(ImportWait::TimedOut);
    assert_eq!(second.notification, Some(NotificationReason::NoImportedBlocks));
    assert_eq!(second.outcome, Some(SendOutcome::Full));
    assert!(!second.is_worker_gone());
    assert!(go_on);
    assert_eq!(take_queued(&mut worker), vec![NotificationReason::NoImportedBlocks]);
    assert_eq!(take_queued(&mut worker), vec![]);
}

#[test]
fn substrate_notification_is_dropped_while_the_worker_is_busy() {
    let (mut observer, mut worker) = observer_and_worker();
    assert_eq!(observer.substrate_network.on_check(2).0.outcome, Some(SendOutcome::Sent));
    assert_eq!(observer.substrate_network.on_check(0).0, NOTHING);
    let (step, go_on) = observer.substrate_network.on_check(4);
    assert_eq!(step.outcome, Some(SendOutcome::Full));
    assert!(go_on);
    assert_eq!(take_queued(&mut worker), vec![NotificationReason::WentOnlineSubstrate]);
}

#[test]
fn watches_end_when_the_worker_is_gone() {
    let (mut observer, worker) = observer_and_worker();
    drop(worker);
    let (step, go_on) = observer.imported_blocks.on_wait_ended(ImportWait::TimedOut);
    assert_eq!(step.outcome, Some(SendOutcome::Disconnected));
    assert!(step.is_worker_gone());
    assert!(!go_on);

    let (step, go_on) = observer.substrate_network.on_check(0);
    assert_eq!(step, NOTHING);
    assert!(go_on);
    let (step, go_on) = observer.substrate_network.on_check(1);
    assert_eq!(step.outcome, Some(SendOutcome::Disconnected));
    assert!(!go_on);

    let (_, step) = observer.subspace_network.on_num_established_peer_connections_change(1);
    assert_eq!(step.notification, Some(NotificationReason::WentOnlineSubspace));
    assert_eq!(step.outcome, Some(SendOutcome::Disconnected));
}

#[test]
fn worker_is_woken_by_a_notification() {
    let (mut observer, mut worker) = observer_and_worker();
    observer.imported_blocks.on_wait_ended(ImportWait::TimedOut);
    let received = block_on(worker.notifications().next());
    assert_eq!(received, Some(NotificationReason::NoImportedBlocks));
}

#[test]
fn channel_closes_when_the_observer_is_gone() {
    let (observer, mut worker) = observer_and_worker();
    drop(observer);
    assert_eq!(block_on(worker.notifications().next()), None);
}

#[test]
fn send_is_told_apart_by_the_answer_of_the_channel() {
    assert_eq!(classify_send(None), SendOutcome::Sent);
    assert_eq!(classify_send(Some(false)), SendOutcome::Full);
    assert_eq!(classify_send(Some(true)), SendOutcome::Disconnected);
}

#[test]
fn watches_notify_through_the_sender_they_are_given() {
    let (sender, mut receiver) = futures::channel::mpsc::channel::<NotificationReason>(0);
    let (other_sender, mut other_receiver) =
        futures::channel::mpsc::channel::<NotificationReason>(0);

    let mut imported_blocks = create_imported_blocks_observer(sender.clone());
    imported_blocks.on_wait_ended(ImportWait::TimedOut);
    assert_eq!(receiver.try_recv(), Ok(NotificationReason::NoImportedBlocks));

    let mut substrate_network = create_substrate_network_observer(sender.clone());
    substrate_network.on_check(1);
    assert_eq!(receiver.try_recv(), Ok(NotificationReason::WentOnlineSubstrate));

    let subspace_network = SubspaceNetworkObserver::new(sender);
    subspace_network.on_num_established_peer_connections_change(1);
    assert_eq!(receiver.try_recv(), Ok(NotificationReason::WentOnlineSubspace));
    assert!(receiver.try_recv().is_err());

    let mut observer = create_observer(other_sender);
    observer.imported_blocks.on_wait_ended(ImportWait::TimedOut);
    observer.substrate_network.on_check(1);
    observer.subspace_network.on_num_established_peer_connections_change(1);
    let mut received = Vec::new();
    while let Ok(reason) = other_receiver.try_recv() {
        received.push(reason);
    }
    assert_eq!(
        received,
        vec![
            NotificationReason::NoImportedBlocks,
            NotificationReason::WentOnlineSubstrate,
            NotificationReason::WentOnlineSubspace
        ]
    );
    assert!(receiver.try_recv().is_err());
}

#[test]
fn observer_is_built_from_one_sender_for_each_watch() {
    let (first, mut first_receiver) = futures::channel::mpsc::channel::<NotificationReason>(0);
    let (second, mut second_receiver) = futures::channel::mpsc::channel::<NotificationReason>(0);
    let (third, mut third_receiver) = futures::channel::mpsc::channel::<NotificationReason>(0);
    let mut observer = Observer::new(first, second, third);
    observer.subspace_network.on_num_established_peer_connections_change(2);
    observer.imported_blocks.on_wait_ended(ImportWait::TimedOut);
    observer.substrate_network.on_check(2);
    assert_eq!(first_receiver.try_recv(), Ok(NotificationReason::WentOnlineSubspace));
    assert_eq!(second_receiver.try_recv(), Ok(NotificationReason::NoImportedBlocks));
    assert_eq!(third_receiver.try_recv(), Ok(NotificationReason::WentOnlineSubstrate));
}
