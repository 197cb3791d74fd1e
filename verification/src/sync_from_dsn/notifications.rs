//! Notifications from the observer to the worker, and the channel they
//! travel on.

use futures::channel::mpsc::{Receiver, Sender, TryRecvError, TrySendError};
use vstd::prelude::*;

verus! {

/// Why the observer asks for a sync from DSN.
#[derive(Clone, Copy, Debug, PartialEq, Eq, Structural)]
pub enum NotificationReason {
    /// No block was imported for a whole timeout period.
    NoImportedBlocks,
    /// The node's own network went from no peer connection to some.
    WentOnlineSubspace,
    /// The Substrate network went from no connected peer to some.
    WentOnlineSubstrate,
}

impl NotificationReason {
    /// Whether a notification for this reason starts a sync from DSN.
    ///
    /// Going online on the node's own network does not, for now.
    pub open spec fn starts_sync(self) -> bool {
        self != NotificationReason::WentOnlineSubspace
    }

    /// Whether a notification for this reason starts a sync from DSN.
    #[verifier::when_used_as_spec(starts_sync)]
    pub fn triggers_sync(self) -> (starts: bool)
        ensures
            starts == self.starts_sync(),
    {
        match self {
            NotificationReason::WentOnlineSubspace => false,
            _ => true,
        }
    }
}

/// The node's sync mode, as far as sync from DSN is concerned.
#[derive(Clone, Copy, Debug, PartialEq, Eq, Structural)]
pub enum SyncMode {
    /// Regular sync is running.
    Active,
    /// Regular sync is paused.
    Paused,
}

/// How an attempt to notify the worker has ended.
#[derive(Clone, Copy, Debug, PartialEq, Eq, Structural)]
pub enum SendOutcome {
    /// The notification is on its way.
    Sent,
    /// The worker was not ready to take it; the notification is dropped.
    Full,
    /// There is no worker any more.
    Disconnected,
}

/// What a look at the queued notifications has found.
#[derive(Clone, Copy, Debug, PartialEq, Eq, Structural)]
pub enum QueuePoll {
    /// A notification was queued and is taken out.
    Message(NotificationReason),
    /// Nothing is queued right now.
    Empty,
    /// Nothing is queued and no observer is left to send anything.
    Closed,
}

/// Sending half of a `futures` channel.
#[verifier::external_type_specification]
#[verifier::external_body]
#[verifier::reject_recursive_types(T)]
pub struct ExSender<T>(Sender<T>);

/// Receiving half of a `futures` channel.
#[verifier::external_type_specification]
#[verifier::external_body]
#[verifier::reject_recursive_types(T)]
pub struct ExReceiver<T>(Receiver<T>);

/// The error of `Sender::try_send`.
#[verifier::external_type_specification]
#[verifier::external_body]
#[verifier::reject_recursive_types(T)]
pub struct ExTrySendError<T>(TrySendError<T>);

/// The error of `Receiver::try_recv`: the channel is empty, or empty and
/// closed.
#[verifier::external_type_specification]
pub struct ExTryRecvError(TryRecvError);

/// `futures::channel::mpsc::channel`: a new channel with `buffer` shared
/// slots. Nothing is claimed of the two halves. The function panics unless
/// the buffer is smaller than a quarter of the largest `usize`; such buffers
/// are left out.
pub assume_specification<T>[ futures::channel::mpsc::channel::<T> ](buffer: usize) -> (channel: (
    Sender<T>,
    Receiver<T>,
))
    requires
        buffer < usize::MAX / 4,
;

/// `Clone` for `Sender`: one more sending half of the same channel. Nothing
/// is claimed of it. (It panics once about half of `usize::MAX` senders are
/// alive at once, which no memory holds.)
pub assume_specification<T>[ <Sender<T> as Clone>::clone ](sender: &Sender<T>) -> (other: Sender<T>)
;

/// `Sender::try_send`: tries to queue a message without waiting. Whether
/// that works depends on the state of the channel, so nothing is claimed of
/// the result.
pub assume_specification<T>[ Sender::<T>::try_send ](sender: &mut Sender<T>, msg: T) -> (result:
    Result<(), TrySendError<T>>)
;

/// `TrySendError::is_disconnected`: whether the send failed because the
/// receiver is gone. Nothing is claimed of the result.
pub assume_specification<T>[ TrySendError::<T>::is_disconnected ](error: &TrySendError<T>) -> (
    disconnected: bool
)
;

/// `Receiver::try_recv`: takes a queued message out without waiting. What
/// is queued depends on the senders, so nothing is claimed of the result.
pub assume_specification<T>[ Receiver::<T>::try_recv ](receiver: &mut Receiver<T>) -> (result:
    Result<T, TryRecvError>)
;

} // verus!
