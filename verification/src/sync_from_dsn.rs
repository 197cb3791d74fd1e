//! Sync from DSN on demand.
//!
//! An observer watches the node and notifies a worker when blocks have
//! stopped arriving or the node has just come online. The worker answers a
//! burst of such notifications with one import of blocks from the DSN, and
//! pauses the node's regular sync while the import runs.

pub mod notifications;
pub mod observer;
pub mod worker;

use crate::sync_from_dsn::notifications::{NotificationReason, SyncMode};
use crate::sync_from_dsn::observer::{create_observer, Observer};
use crate::sync_from_dsn::worker::{create_worker, Worker, WorkerState};
use atomic::Atomic;
use futures::channel::mpsc::channel;
use std::sync::Arc;
use vstd::prelude::*;

verus! {

/// How long to wait for a new block to be imported before sync from DSN is
/// asked for, in seconds.
pub const NO_IMPORTED_BLOCKS_TIMEOUT_SECS: u64 = 600;

/// How often to check whether the node is online, in seconds.
pub const CHECK_ONLINE_STATUS_INTERVAL_SECS: u64 = 10;

/// Creates the observer that tracks the node and the worker that it
/// notifies to start a sync from DSN.
///
/// The two are joined by a channel without buffer, so that a notification
/// which finds the worker busy is dropped instead of piling up. The worker
/// shares `sync_mode` with the node. The observer takes the node for offline
/// at first, and the worker waits for its first notification.
pub fn create_observer_and_worker(sync_mode: Arc<Atomic<SyncMode>>) -> (pair: (Observer, Worker))
    ensures
        !pair.0.substrate_network.was_online(),
        pair.1.state() == WorkerState::Waiting,
        pair.1.sync_mode() == sync_mode,
{
    let (notifications_sender, notifications) = channel::<NotificationReason>(0);
    let observer = create_observer(notifications_sender);
    let worker = create_worker(sync_mode, notifications);
    (observer, worker)
}

} // verus!
