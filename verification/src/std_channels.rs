//! Channels built on `std::sync::mpsc`, and their registration in the broker.
use std::sync::mpsc::{Sender, SyncSender};
use vstd::prelude::*;

use crate::erased::{downcast_ref, erase, type_key};
use crate::mpsc_pair::{open_bounded, open_unbounded, MpscHalves};
use crate::{ChannelBroker, ChannelDef, ChannelInfo, Erasable, Family};

verus! {

/// Why a non-blocking receive came back without a message.
#[derive(Clone, Copy, Debug, PartialEq, Eq, Structural)]
pub enum RecvFailure {
    /// No message is waiting.
    Empty,
    /// Every sender is gone and no message is waiting.
    Disconnected,
}

/// Why a non-blocking send was refused; each variant hands the message back.
#[derive(Debug)]
pub enum SendFailure<T> {
    /// The bounded buffer is full.
    Full(T),
    /// The receiver is gone.
    Disconnected(T),
}

/// What a non-blocking receive yields on a channel whose sender is held
/// alongside its receiver: the message, or `None` when none is waiting.
pub fn received_message<T>(outcome: Result<T, RecvFailure>) -> (r: Option<T>)
    requires
        !(outcome matches Err(RecvFailure::Disconnected)),
    ensures
        match outcome {
            Ok(m) => r == Some(m),
            Err(_) => r is None,
        },
{
    match outcome {
        Ok(m) => Some(m),
        Err(_) => None,
    }
}

/// What a non-blocking send reports on a channel whose receiver is held
/// alongside its sender: `Ok(())`, or the refused message when the buffer is full.
pub fn send_outcome<T>(outcome: Result<(), SendFailure<T>>) -> (r: Result<(), T>)
    requires
        !(outcome matches Err(SendFailure::Disconnected(_))),
    ensures
        match outcome {
            Ok(()) => r is Ok,
            Err(SendFailure::Full(m)) => r == Err::<(), T>(m),
            Err(SendFailure::Disconnected(_)) => false,
        },
{
    match outcome {
        Ok(()) => Ok(()),
        Err(SendFailure::Full(m)) => Err(m),
        Err(SendFailure::Disconnected(m)) => Err(m),
    }
}

/// An unbounded `std::sync::mpsc` channel that owns both of its halves.
///
/// Which messages are waiting is state of std's channel, shared with every
/// sender handle that `new_publisher` gives out (other threads may hold
/// them), so the operations below state what holds whatever that state is.
#[verifier::reject_recursive_types(T)]
pub struct StdMpscChannel<T> {
    halves: MpscHalves<Sender<T>, T>,
    serial: Ghost<int>,
}

impl<T> Erasable for StdMpscChannel<T> {
    open spec fn info(&self) -> ChannelInfo {
        ChannelInfo { family: Family::StdMpsc, limit: None, serial: self.serial() }
    }
}

impl<T> StdMpscChannel<T> {
    /// The registration serial of this channel (zero for a channel that
    /// `new` made and no broker has registered).
    pub closed spec fn serial(&self) -> int {
        self.serial@
    }

    /// Creates an unbounded channel holding both its sender and its receiver.
    ///
    /// The contract states that the channel has no bound; its messages are
    /// held inside std's handles.
    pub fn new() -> (r: Self)
        ensures
            r.info() == (ChannelInfo { family: Family::StdMpsc, limit: None, serial: 0 }),
    {
        let halves = open_unbounded::<T>();
        StdMpscChannel { halves, serial: Ghost(0) }
    }

    /// The same channel, carrying registration serial `serial`.
    pub(crate) fn with_serial(self, serial: Ghost<int>) -> (r: Self)
        ensures
            r.info() == (ChannelInfo { serial: serial@, ..self.info() }),
    {
        StdMpscChannel { halves: self.halves, serial }
    }

    /// Sends `new` into the channel; this never fails, because the channel
    /// holds its own receiver.
    pub fn send(&self, new: T) {
        let sent = self.halves.send_unbounded(new);
        assert(sent is Ok);
    }

    /// Blocks until a message is available and returns it.
    ///
    /// The contract states nothing of the message: which one arrives depends
    /// on every sender handle of the channel.
    pub fn recv(&self) -> T {
        let got = self.halves.recv_kept_open();
        got.unwrap()
    }

    /// Returns a waiting message, or `None` when no message is waiting.
    ///
    /// The contract states nothing of the result: whether a message is
    /// waiting, and which, depends on every sender handle of the channel,
    /// other threads' included.  Given std's outcome, the result is exactly
    /// what `received_message` states; that the channel is never reported
    /// disconnected is what lets this function return without panicking.
    pub fn try_recv(&self) -> Option<T> {
        let outcome = self.halves.try_recv_kept_open();
        received_message(outcome)
    }

    /// Returns another sender handle for this channel.
    pub fn new_publisher(&self) -> Sender<T> {
        self.halves.clone_unbounded_sender()
    }
}

impl<T> Default for StdMpscChannel<T> {
    fn default() -> Self {
        Self::new()
    }
}

/// A bounded `std::sync::mpsc::sync_channel` that owns both of its halves.
///
/// As for `StdMpscChannel`, the buffered messages are state of std's channel
/// shared with every handle, so the operations state what holds whatever
/// that state is.
#[verifier::reject_recursive_types(T)]
pub struct SyncChannel<T> {
    halves: MpscHalves<SyncSender<T>, T>,
    serial: Ghost<int>,
}

impl<T> Erasable for SyncChannel<T> {
    open spec fn info(&self) -> ChannelInfo {
        ChannelInfo { family: Family::Sync, limit: Some(self.bound()), serial: self.serial() }
    }
}

impl<T> SyncChannel<T> {
    /// The number of messages the channel buffers, as given to `new`.
    pub closed spec fn bound(&self) -> usize {
        self.halves.limit().unwrap()
    }

    /// The registration serial of this channel (zero for a channel that
    /// `new` made and no broker has registered).
    pub closed spec fn serial(&self) -> int {
        self.serial@
    }

    /// Creates a channel that buffers up to `bound` messages (a rendezvous
    /// channel when `bound` is zero).
    ///
    /// The contract states the bound the channel was made with; its messages
    /// are held inside std's handles.
    pub fn new(bound: usize) -> (r: Self)
        ensures
            r.bound() == bound,
            r.info() == (ChannelInfo { family: Family::Sync, limit: Some(bound), serial: 0 }),
    {
        let halves = open_bounded::<T>(bound);
        SyncChannel { halves, serial: Ghost(0) }
    }

    /// The same channel, carrying registration serial `serial`.
    pub(crate) fn with_serial(self, serial: Ghost<int>) -> (r: Self)
        ensures
            r.info() == (ChannelInfo { serial: serial@, ..self.info() }),
    {
        SyncChannel { halves: self.halves, serial }
    }

    /// Sends `new`, blocking while the buffer is full; this never fails,
    /// because the channel holds its own receiver.
    pub fn send(&self, new: T) {
        let sent = self.halves.send_bounded(new);
        assert(sent is Ok);
    }

    /// Sends `new` if the buffer has room; otherwise hands `new` back.
    ///
    /// Whether the buffer has room is std's state and is not stated; given
    /// std's outcome, the result is exactly what `send_outcome` states.
    pub fn try_send(&self, new: T) -> (r: Result<(), T>)
        ensures
            r matches Err(m) ==> m == new,
    {
        let outcome = self.halves.try_send_bounded(new);
        send_outcome(outcome)
    }

    /// Blocks until a message is available and returns it.
    ///
    /// The contract states nothing of the message: which one arrives depends
    /// on every sender handle of the channel.
    pub fn recv(&self) -> T {
        let got = self.halves.recv_kept_open();
        got.unwrap()
    }

    /// Returns a waiting message, or `None` when no message is waiting.
    ///
    /// The contract states nothing of the result, for the reason given at
    /// `StdMpscChannel::try_recv`; given std's outcome, the result is exactly
    /// what `received_message` states.
    pub fn try_recv(&self) -> Option<T> {
        let outcome = self.halves.try_recv_kept_open();
        received_message(outcome)
    }

    /// Returns another sender handle for this channel.
    pub fn new_publisher(&self) -> SyncSender<T> {
        self.halves.clone_bounded_sender()
    }
}

impl ChannelBroker {
    /// Registers a new unbounded channel for `TChannelDef`, replacing the one
    /// it had; other families are untouched.
    ///
    /// The contract states that one entry of the family is registered or
    /// replaced and nothing else changes, and that the entry is a newly made
    /// channel of this family with the bound or capacity given here, never
    /// the entry the key held before.  That its key is the marker's `TypeId`,
    /// and the channel's message type, a contract here cannot name.
    /// `register`, which it goes through, is exact.
    pub fn add_channel<TChannelDef>(self) -> (r: Self)
        where
            TChannelDef: ChannelDef + 'static,
            TChannelDef::Message: 'static,
        ensures
            Self::registers_one(&self, &r, Family::StdMpsc),
            Self::registers_fresh(&self, &r, Family::StdMpsc, None::<usize>),
    {
        let key = type_key::<TChannelDef>();
        let ghost serial = self.next_serial(Family::StdMpsc, key);
        let channel = StdMpscChannel::<TChannelDef::Message>::new().with_serial(Ghost(serial));
        let entry = erase(channel);
        let r = self.register(Family::StdMpsc, key, entry);
        assert(Self::is_registration(&self, &r, Family::StdMpsc, key, entry));
        proof {
            if self.entries(Family::StdMpsc).contains_key(key) {
                assert(entry.info().serial != self.entries(Family::StdMpsc)[key].info().serial);
            }
        }
        r
    }

    /// The unbounded channel registered for `TChannelDef`, if any.
    ///
    /// The contract states that a channel it returns is one stored in the
    /// family (it carries that entry's info: family, bound or capacity, and
    /// registration serial).  That the result is `Some` exactly when a
    /// channel is registered for this marker type depends on the marker's
    /// `TypeId` and on the type inside the stored box, neither of which a
    /// contract here can name.  The keyed lookup `entry` that it goes
    /// through is exact.
    pub fn channel_maybe<TChannelDef>(&self) -> (r: Option<&StdMpscChannel<TChannelDef::Message>>)
        where
            TChannelDef: ChannelDef + 'static,
            TChannelDef::Message: 'static,
        ensures
            r is Some ==> self.has_any(Family::StdMpsc),
            r matches Some(c) ==> self.stores(Family::StdMpsc, c.info()),
    {
        let key = type_key::<TChannelDef>();
        match self.entry(Family::StdMpsc, &key) {
            Some(e) => {
                let found = downcast_ref::<StdMpscChannel<TChannelDef::Message>>(e);
                proof {
                    if found is Some {
                        assert(self.entries(Family::StdMpsc).contains_key(key));
                    }
                }
                found
            },
            None => None,
        }
    }

    /// Registers a new channel bounded by `bound` for `TChannelDef`,
    /// replacing the one it had; other families are untouched.
    ///
    /// The contract states that one entry of the family is registered or
    /// replaced and nothing else changes, and that the entry is a newly made
    /// channel of this family with the bound or capacity given here, never
    /// the entry the key held before.  That its key is the marker's `TypeId`,
    /// and the channel's message type, a contract here cannot name.
    /// `register`, which it goes through, is exact.
    pub fn add_sync_channel<TChannelDef>(self, bound: usize) -> (r: Self)
        where
            TChannelDef: ChannelDef + 'static,
            TChannelDef::Message: 'static,
        ensures
            Self::registers_one(&self, &r, Family::Sync),
            Self::registers_fresh(&self, &r, Family::Sync, Some(bound)),
    {
        let key = type_key::<TChannelDef>();
        let ghost serial = self.next_serial(Family::Sync, key);
        let channel = SyncChannel::<TChannelDef::Message>::new(bound).with_serial(Ghost(serial));
        let entry = erase(channel);
        let r = self.register(Family::Sync, key, entry);
        assert(Self::is_registration(&self, &r, Family::Sync, key, entry));
        proof {
            if self.entries(Family::Sync).contains_key(key) {
                assert(entry.info().serial != self.entries(Family::Sync)[key].info().serial);
            }
        }
        r
    }

    /// The bounded channel registered for `TChannelDef`, if any.
    ///
    /// The contract states that a channel it returns is one stored in the
    /// family (it carries that entry's info: family, bound or capacity, and
    /// registration serial).  That the result is `Some` exactly when a
    /// channel is registered for this marker type depends on the marker's
    /// `TypeId` and on the type inside the stored box, neither of which a
    /// contract here can name.  The keyed lookup `entry` that it goes
    /// through is exact.
    pub fn sync_channel_maybe<TChannelDef>(&self) -> (r: Option<&SyncChannel<TChannelDef::Message>>)
        where
            TChannelDef: ChannelDef + 'static,
            TChannelDef::Message: 'static,
        ensures
            r is Some ==> self.has_any(Family::Sync),
            r matches Some(c) ==> self.stores(Family::Sync, c.info()),
    {
        let key = type_key::<TChannelDef>();
        match self.entry(Family::Sync, &key) {
            Some(e) => {
                let found = downcast_ref::<SyncChannel<TChannelDef::Message>>(e);
                proof {
                    if found is Some {
                        assert(self.entries(Family::Sync).contains_key(key));
                    }
                }
                found
            },
            None => None,
        }
    }
}

} // verus!
