//! The two halves of one Tokio broadcast or watch channel, made together and
//! never separated, and the trusted calls on them.
use tokio::sync::broadcast;
use tokio::sync::watch;
use vstd::prelude::*;

use crate::tokio_channels::max_broadcast_capacity;

verus! {

#[verifier::external_type_specification]
#[verifier::external_body]
#[verifier::reject_recursive_types(T)]
pub struct ExBroadcastSender<T>(broadcast::Sender<T>);

#[verifier::external_type_specification]
#[verifier::external_body]
#[verifier::reject_recursive_types(T)]
pub struct ExBroadcastReceiver<T>(broadcast::Receiver<T>);

#[verifier::external_type_specification]
#[verifier::external_body]
#[verifier::reject_recursive_types(T)]
pub struct ExWatchSender<T>(watch::Sender<T>);

#[verifier::external_type_specification]
#[verifier::external_body]
#[verifier::reject_recursive_types(T)]
pub struct ExWatchReceiver<T>(watch::Receiver<T>);

/// The sender and the receiver of one Tokio broadcast channel.
///
/// The fields are private to this module, and the only code here that
/// builds a value is `open_broadcast`, from the pair that one call of Tokio
/// returns; so the receiver stays subscribed to the sender's channel as long
/// as the value lives.  The trusted calls below rest on that.
#[verifier::reject_recursive_types(T)]
pub struct BroadcastHalves<T> {
    sender: broadcast::Sender<T>,
    receiver: broadcast::Receiver<T>,
    capacity: usize,
}

impl<T> BroadcastHalves<T> {
    /// The ring-buffer capacity the channel was made with.
    pub closed spec fn capacity(&self) -> usize {
        self.capacity
    }
}

/// Calls `tokio::sync::broadcast::channel::<T>(capacity)` and keeps both
/// halves together, recording `capacity`.
///
/// Trusted: Tokio panics when `capacity` is zero or exceeds `usize::MAX / 2`,
/// which the precondition rules out, and makes its ring buffer from
/// `capacity` (rounded up to a power of two); the postcondition states the
/// recorded capacity, which the body sets from the same argument.  The new
/// channel's state is hidden in the two handles.
#[verifier::external_body]
pub(crate) fn open_broadcast<T: Clone>(capacity: usize) -> (r: BroadcastHalves<T>)
    requires
        0 < capacity <= max_broadcast_capacity(),
    ensures
        r.capacity() == capacity,
{
    let (sender, receiver) = broadcast::channel::<T>(capacity);
    BroadcastHalves { sender, receiver, capacity }
}

impl<T> BroadcastHalves<T> {
    /// Calls `broadcast::Sender::send`.
    ///
    /// Trusted: Tokio fails a send only when no receiver is subscribed, and
    /// `self.receiver` stays subscribed as long as `self` lives, so the
    /// result is `Ok` with a receiver count of at least one.
    #[verifier::external_body]
    pub(crate) fn send_kept_open(&self, new: T) -> (r: Result<usize, T>)
        ensures
            r is Ok,
            r matches Ok(n) ==> n >= 1,
    {
        match self.sender.send(new) {
            Ok(n) => Ok(n),
            Err(e) => Err(e.0),
        }
    }

    /// Calls `broadcast::Sender::clone`.  Trusted, with no postcondition.
    #[verifier::external_body]
    pub(crate) fn clone_sender(&self) -> (r: broadcast::Sender<T>) {
        self.sender.clone()
    }
}

impl<T: Clone> BroadcastHalves<T> {
    /// Calls `broadcast::Receiver::resubscribe`.  Trusted, with no
    /// postcondition.  Tokio panics once `usize::MAX >> 2` receivers are
    /// subscribed; that count is hidden state and is not stated.
    #[verifier::external_body]
    pub(crate) fn resubscribe(&self) -> (r: broadcast::Receiver<T>) {
        self.receiver.resubscribe()
    }
}

/// The sender and the receiver of one Tokio watch channel.
///
/// The fields are private to this module, and the only code here that
/// builds a value is `open_watch`, from the pair that one call of Tokio
/// returns; so the receiver stays open on the sender's channel as long as
/// the value lives.  No borrow of the watched value is ever handed out of
/// this module.
#[verifier::reject_recursive_types(T)]
pub struct WatchHalves<T> {
    sender: watch::Sender<T>,
    receiver: watch::Receiver<T>,
}

/// Calls `tokio::sync::watch::channel::<T>(init)` and keeps both halves
/// together.  Trusted, with no postcondition: the stored value is hidden in
/// the two handles.
#[verifier::external_body]
pub(crate) fn open_watch<T>(init: T) -> (r: WatchHalves<T>) {
    let (sender, receiver) = watch::channel::<T>(init);
    WatchHalves { sender, receiver }
}

impl<T> WatchHalves<T> {
    /// Calls `watch::Sender::send`.
    ///
    /// Trusted: Tokio fails a send only when every receiver is gone, and
    /// `self.receiver` stays open as long as `self` lives, so the result is
    /// `Ok`.  Tokio takes the value's write lock; no borrow of the value
    /// leaves this module, so the library never holds one across the call.
    /// A borrow that a caller takes itself through a Tokio handle from
    /// `new_reader` or `new_publisher`, and holds on the same thread across
    /// this call, makes it block (std's lock may also panic); that condition
    /// on the calling thread is not stated.
    #[verifier::external_body]
    pub(crate) fn send_kept_open(&self, new: T) -> (r: Result<(), T>)
        ensures
            r is Ok,
    {
        match self.sender.send(new) {
            Ok(()) => Ok(()),
            Err(e) => Err(e.0),
        }
    }

    /// Calls `watch::Sender::clone`.  Trusted, with no postcondition.
    #[verifier::external_body]
    pub(crate) fn clone_sender(&self) -> (r: watch::Sender<T>) {
        self.sender.clone()
    }

    /// Calls `watch::Receiver::clone`.  Trusted, with no postcondition.
    #[verifier::external_body]
    pub(crate) fn clone_receiver(&self) -> (r: watch::Receiver<T>) {
        self.receiver.clone()
    }
}

impl<T: Clone> WatchHalves<T> {
    /// Calls `watch::Receiver::borrow` and clones the value out of the
    /// borrow, which ends before the call returns.  Trusted, with no
    /// postcondition: the value is the one most recently sent by any handle.
    /// As at `send_kept_open`, a borrow held by the calling thread itself
    /// through a Tokio handle may make the call block; that is not stated.
    #[verifier::external_body]
    pub(crate) fn latest_value(&self) -> (r: T) {
        T::clone(&self.receiver.borrow())
    }
}

} // verus!
