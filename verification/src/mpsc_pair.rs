//! The two halves of one `std::sync::mpsc` channel, made together and never
//! separated, and the trusted calls on them.
use std::sync::mpsc;
use std::sync::mpsc::{Receiver, Sender, SyncSender, TryRecvError, TrySendError};
use vstd::prelude::*;

use crate::std_channels::{RecvFailure, SendFailure};

verus! {

#[verifier::external_type_specification]
#[verifier::external_body]
#[verifier::reject_recursive_types(T)]
pub struct ExSender<T>(Sender<T>);

#[verifier::external_type_specification]
#[verifier::external_body]
#[verifier::reject_recursive_types(T)]
pub struct ExSyncSender<T>(SyncSender<T>);

#[verifier::external_type_specification]
#[verifier::external_body]
#[verifier::reject_recursive_types(T)]
pub struct ExReceiver<T>(Receiver<T>);

/// The sender `S` (a `Sender<T>` or a `SyncSender<T>`) and the receiver of
/// one std channel.
///
/// The fields are private to this module, and the only code here that
/// builds a value is `open_unbounded` and `open_bounded`, each from the pair
/// that one call of std returns.  So every value holds the two halves of one
/// channel, and both stay alive as long as the value does; the trusted calls
/// below rest on that.
#[verifier::reject_recursive_types(S)]
#[verifier::reject_recursive_types(T)]
pub struct MpscHalves<S, T> {
    sender: S,
    receiver: Receiver<T>,
    limit: Option<usize>,
}

impl<S, T> MpscHalves<S, T> {
    /// The bound the channel was made with, or `None` for an unbounded channel.
    pub closed spec fn limit(&self) -> Option<usize> {
        self.limit
    }
}

/// Calls `std::sync::mpsc::channel::<T>()` and keeps both halves together,
/// recording that the channel has no bound.
///
/// Trusted: the postcondition states the recorded limit, which the body
/// sets; the fresh channel's state is hidden inside the two handles.
#[verifier::external_body]
pub(crate) fn open_unbounded<T>() -> (r: MpscHalves<Sender<T>, T>)
    ensures
        r.limit() == None::<usize>,
{
    let (sender, receiver) = mpsc::channel::<T>();
    MpscHalves { sender, receiver, limit: None }
}

/// Calls `std::sync::mpsc::sync_channel::<T>(bound)` and keeps both halves
/// together, recording `bound`, the number of messages std's buffer holds.
///
/// Trusted: std makes the channel from `bound` and accepts every bound,
/// zero included; the postcondition states the recorded bound, which the
/// body sets from the same argument.  The fresh channel's state is hidden
/// inside the two handles.
#[verifier::external_body]
pub(crate) fn open_bounded<T>(bound: usize) -> (r: MpscHalves<SyncSender<T>, T>)
    ensures
        r.limit() == Some(bound),
{
    let (sender, receiver) = mpsc::sync_channel::<T>(bound);
    MpscHalves { sender, receiver, limit: Some(bound) }
}

impl<S, T> MpscHalves<S, T> {
    /// Calls `Receiver::recv`, which blocks until a message arrives.
    ///
    /// Trusted: std fails only when every sender of the channel is gone, and
    /// `self.sender` is one of them that lives as long as `self`, so a
    /// message comes back.  That the call may block for ever when no other
    /// thread sends is not stated.
    #[verifier::external_body]
    pub(crate) fn recv_kept_open(&self) -> (r: Option<T>)
        ensures
            r is Some,
    {
        self.receiver.recv().ok()
    }

    /// Calls `Receiver::try_recv`.
    ///
    /// Trusted: std reports `Disconnected` only when every sender of the
    /// channel is gone, and `self.sender` lives as long as `self`.  Whether a
    /// message is waiting depends on every sender handle, other threads'
    /// included, and is not stated.
    #[verifier::external_body]
    pub(crate) fn try_recv_kept_open(&self) -> (r: Result<T, RecvFailure>)
        ensures
            !(r matches Err(RecvFailure::Disconnected)),
    {
        match self.receiver.try_recv() {
            Ok(m) => Ok(m),
            Err(TryRecvError::Empty) => Err(RecvFailure::Empty),
            Err(TryRecvError::Disconnected) => Err(RecvFailure::Disconnected),
        }
    }
}

impl<T> MpscHalves<Sender<T>, T> {
    /// Calls `Sender::send`.
    ///
    /// Trusted: std fails a send only when the receiving half is gone, and
    /// `self.receiver` is that half and lives as long as `self`, so the
    /// result is `Ok`.
    #[verifier::external_body]
    pub(crate) fn send_unbounded(&self, new: T) -> (r: Result<(), T>)
        ensures
            r is Ok,
    {
        match self.sender.send(new) {
            Ok(()) => Ok(()),
            Err(e) => Err(e.0),
        }
    }

    /// Calls `Sender::clone`.  Trusted, with no postcondition.
    #[verifier::external_body]
    pub(crate) fn clone_unbounded_sender(&self) -> (r: Sender<T>) {
        self.sender.clone()
    }
}

impl<T> MpscHalves<SyncSender<T>, T> {
    /// Calls `SyncSender::send`, which blocks while the buffer is full.
    ///
    /// Trusted: std fails a send only when the receiving half is gone, and
    /// `self.receiver` is that half, so the result is `Ok`.  That the call
    /// may block for ever when nobody receives is not stated.
    #[verifier::external_body]
    pub(crate) fn send_bounded(&self, new: T) -> (r: Result<(), T>)
        ensures
            r is Ok,
    {
        match self.sender.send(new) {
            Ok(()) => Ok(()),
            Err(e) => Err(e.0),
        }
    }

    /// Calls `SyncSender::try_send`.
    ///
    /// Trusted: std hands back the very message it refused; it reports
    /// `Disconnected` only when the receiving half is gone, and
    /// `self.receiver` is that half.  Whether the buffer has room depends on
    /// every handle of the channel and is not stated.
    #[verifier::external_body]
    pub(crate) fn try_send_bounded(&self, new: T) -> (r: Result<(), SendFailure<T>>)
        ensures
            !(r matches Err(SendFailure::Disconnected(_))),
            r matches Err(SendFailure::Full(m)) ==> m == new,
    {
        match self.sender.try_send(new) {
            Ok(()) => Ok(()),
            Err(TrySendError::Full(m)) => Err(SendFailure::Full(m)),
            Err(TrySendError::Disconnected(m)) => Err(SendFailure::Disconnected(m)),
        }
    }

    /// Calls `SyncSender::clone`.  Trusted, with no postcondition.
    #[verifier::external_body]
    pub(crate) fn clone_bounded_sender(&self) -> (r: SyncSender<T>) {
        self.sender.clone()
    }
}

} // verus!
