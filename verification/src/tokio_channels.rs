//! Channels built on Tokio's broadcast and watch channels, and their
//! registration in the broker.
use tokio::sync::broadcast;
use tokio::sync::watch;
use vstd::prelude::*;

use crate::erased::{downcast_mut, downcast_ref, erase, type_key};
use crate::tokio_pair::{open_broadcast, open_watch, BroadcastHalves, WatchHalves};
use crate::{ChannelBroker, ChannelDef, ChannelInfo, Erasable, Family};

verus! {

/// The largest ring-buffer capacity that Tokio's broadcast channel accepts.
pub open spec fn max_broadcast_capacity() -> int {
    usize::MAX as int / 2
}

/// Wrapper around `tokio::sync::broadcast`.
///
/// The channel stores one sender and one receiver internally. Use
/// [`Self::new_publisher`] and [`Self::new_reader`] to clone additional
/// handles for other tasks.  What each receiver will yield is state of
/// Tokio's channel, shared with every handle, so the operations below state
/// what holds whatever that state is.
#[verifier::reject_recursive_types(T)]
pub struct BroadcastChannel<T> where T: Clone {
    halves: BroadcastHalves<T>,
    serial: Ghost<int>,
}

impl<T> Erasable for BroadcastChannel<T> where T: Clone {
    open spec fn info(&self) -> ChannelInfo {
        ChannelInfo { family: Family::Broadcast, limit: Some(self.capacity()), serial: self.serial() }
    }
}

impl<T> BroadcastChannel<T> where T: Clone {
    /// The ring-buffer capacity the channel was made with, as given to `new`
    /// (Tokio rounds the buffer it allocates up to a power of two).
    pub closed spec fn capacity(&self) -> usize {
        self.halves.capacity()
    }

    /// The registration serial of this channel (zero for a channel that
    /// `new` made and no broker has registered).
    pub closed spec fn serial(&self) -> int {
        self.serial@
    }

    /// The same channel, carrying registration serial `serial`.
    pub(crate) fn with_serial(self, serial: Ghost<int>) -> (r: Self)
        ensures
            r.info() == (ChannelInfo { serial: serial@, ..self.info() }),
    {
        BroadcastChannel { halves: self.halves, serial }
    }

    /// Creates a new broadcast channel with the provided ring-buffer
    /// `capacity`, which Tokio requires to be positive and at most
    /// `usize::MAX / 2`.  The contract states the capacity the channel was
    /// made with; its messages are held inside Tokio's handles.
    pub fn new(capacity: usize) -> (r: Self)
        requires
            0 < capacity <= max_broadcast_capacity(),
        ensures
            r.capacity() == capacity,
            r.info() == (ChannelInfo { family: Family::Broadcast, limit: Some(capacity), serial: 0 }),
    {
        let halves = open_broadcast::<T>(capacity);
        BroadcastChannel { halves, serial: Ghost(0) }
    }

    /// Broadcasts `new` to all active receivers; this never fails, because
    /// the channel keeps a receiver of its own.  It returns nothing, and what
    /// the receivers will yield is Tokio's state, so the contract states
    /// nothing more.
    pub fn send(&self, new: T) {
        let sent = self.halves.send_kept_open(new);
        assert(sent is Ok);
    }

    /// Clones and returns an additional sender handle.
    pub fn new_publisher(&self) -> broadcast::Sender<T> {
        self.halves.clone_sender()
    }

    /// Returns a fresh receiver subscribed to messages sent after this call.
    pub fn new_reader(&self) -> broadcast::Receiver<T> {
        self.halves.resubscribe()
    }
}

/// Wrapper around `tokio::sync::watch`.
///
/// A watch channel always stores a current value. Use [`Self::read`] to get
/// the latest state and [`Self::new_reader`] to clone additional receivers.
/// The current value is state of Tokio's channel, shared with every handle,
/// so the operations below state what holds whatever that state is.
#[verifier::reject_recursive_types(T)]
pub struct WatchChannel<T> where T: Clone {
    halves: WatchHalves<T>,
    serial: Ghost<int>,
}

impl<T> Erasable for WatchChannel<T> where T: Clone {
    open spec fn info(&self) -> ChannelInfo {
        ChannelInfo { family: Family::Watch, limit: None, serial: self.serial() }
    }
}

impl<T> WatchChannel<T> where T: Clone {
    /// The registration serial of this channel (zero for a channel that
    /// `new` made and no broker has registered).
    pub closed spec fn serial(&self) -> int {
        self.serial@
    }

    /// Creates a new watch channel seeded with `init`.  The contract states
    /// what is known of a channel of this family; the value is held inside
    /// Tokio's handles.
    pub fn new(init: T) -> (r: Self)
        ensures
            r.info() == (ChannelInfo { family: Family::Watch, limit: None, serial: 0 }),
    {
        let halves = open_watch::<T>(init);
        WatchChannel { halves, serial: Ghost(0) }
    }

    /// The same channel, carrying registration serial `serial`.
    pub(crate) fn with_serial(self, serial: Ghost<int>) -> (r: Self)
        ensures
            r.info() == (ChannelInfo { serial: serial@, ..self.info() }),
    {
        WatchChannel { halves: self.halves, serial }
    }

    /// Replaces the current value with `new` and notifies watchers; this
    /// never fails, because the channel keeps a receiver of its own.
    ///
    /// Tokio takes the value's write lock here, on std's `RwLock`.  The
    /// library never holds a borrow of the value across a call, but a caller
    /// that takes one itself through a Tokio handle (`borrow` on a receiver
    /// from `new_reader`, or on a sender from `new_publisher`) and still holds
    /// it on the same thread makes this call block for ever, or panic, as
    /// std's `RwLock` allows.  No precondition can state that condition, so
    /// the contract does not exclude it.
    pub fn update(&self, new: T) {
        let sent = self.halves.send_kept_open(new);
        assert(sent is Ok);
    }

    /// Returns a clone of the most recently published value.  The contract
    /// states nothing of it: any handle of the channel may have published it.
    /// Like `update`, it takes Tokio's lock (a read lock) and can block or
    /// panic while the calling thread holds a borrow of its own through a
    /// Tokio handle.
    pub fn read(&self) -> T {
        self.halves.latest_value()
    }

    /// Clones and returns an additional sender handle.
    pub fn new_publisher(&self) -> watch::Sender<T> {
        self.halves.clone_sender()
    }

    /// Clones and returns an additional receiver handle.
    pub fn new_reader(&self) -> watch::Receiver<T> {
        self.halves.clone_receiver()
    }
}

impl ChannelBroker {
    /// Registers a Tokio broadcast channel for `TChannelDef`, replacing the
    /// one it had; other families are untouched.
    ///
    /// The contract states that one entry of the family is registered or
    /// replaced and nothing else changes, and that the entry is a newly made
    /// channel of this family with the bound or capacity given here, never
    /// the entry the key held before.  That its key is the marker's `TypeId`,
    /// and the channel's message type, a contract here cannot name.
    /// `register`, which it goes through, is exact.
    pub fn add_broadcast<TChannelDef>(self, capacity: usize) -> (r: Self)
        where
            TChannelDef: ChannelDef + 'static,
            TChannelDef::Message: Clone + 'static,
        requires
            0 < capacity <= max_broadcast_capacity(),
        ensures
            Self::registers_one(&self, &r, Family::Broadcast),
            Self::registers_fresh(&self, &r, Family::Broadcast, Some(capacity)),
    {
        let key = type_key::<TChannelDef>();
        let ghost serial = self.next_serial(Family::Broadcast, key);
        let channel = BroadcastChannel::<TChannelDef::Message>::new(capacity).with_serial(Ghost(serial));
        let entry = erase(channel);
        let r = self.register(Family::Broadcast, key, entry);
        assert(Self::is_registration(&self, &r, Family::Broadcast, key, entry));
        proof {
            if self.entries(Family::Broadcast).contains_key(key) {
                assert(entry.info().serial != self.entries(Family::Broadcast)[key].info().serial);
            }
        }
        r
    }

    /// The broadcast channel registered for `TChannelDef`, if any.
    ///
    /// The contract states that a channel it returns is one stored in the
    /// family (it carries that entry's info: family, bound or capacity, and
    /// registration serial).  That the result is `Some` exactly when a
    /// channel is registered for this marker type depends on the marker's
    /// `TypeId` and on the type inside the stored box, neither of which a
    /// contract here can name.  The keyed lookup `entry` that it goes
    /// through is exact.
    pub fn broadcast_maybe<TChannelDef>(&self) -> (r: Option<&BroadcastChannel<TChannelDef::Message>>)
        where
            TChannelDef: ChannelDef + 'static,
            TChannelDef::Message: Clone + 'static,
        ensures
            r is Some ==> self.has_any(Family::Broadcast),
            r matches Some(c) ==> self.stores(Family::Broadcast, c.info()),
    {
        let key = type_key::<TChannelDef>();
        match self.entry(Family::Broadcast, &key) {
            Some(e) => {
                let found = downcast_ref::<BroadcastChannel<TChannelDef::Message>>(e);
                proof {
                    if found is Some {
                        assert(self.entries(Family::Broadcast).contains_key(key));
                    }
                }
                found
            },
            None => None,
        }
    }

    /// The broadcast channel registered for `TChannelDef`, if any, for
    /// mutation; no other entry and no other family can change, and nothing
    /// changes when no channel is returned.  A channel it returns is the one
    /// stored under its key, and what the caller leaves in it is what the key
    /// holds afterwards.  As for `broadcast_maybe`, the contract does not
    /// state when the result is `Some`.
    pub fn broadcast_mut_maybe<TChannelDef>(&mut self) -> (r: Option<&mut BroadcastChannel<TChannelDef::Message>>)
        where
            TChannelDef: ChannelDef + 'static,
            TChannelDef::Message: Clone + 'static,
        ensures
            r is Some ==> old(self).has_any(Family::Broadcast),
            Self::changes_at_most_one(&*old(self), &*final(self), Family::Broadcast),
            r is None ==> forall|g: Family| #[trigger] final(self).entries(g) == old(self).entries(g),
            r matches Some(c) ==> Self::lends(&*old(self), &*final(self), Family::Broadcast, c.info(), final(c).info()),
    {
        let key = type_key::<TChannelDef>();
        match self.entry_mut(Family::Broadcast, &key) {
            Some(e) => {
                let found = downcast_mut::<BroadcastChannel<TChannelDef::Message>>(e);
                proof {
                    if found is None {
                        assert(old(self).entries(Family::Broadcast).insert(key, old(self).entries(Family::Broadcast)[key])
                            =~= old(self).entries(Family::Broadcast));
                    }
                }
                found
            },
            None => None,
        }
    }

    /// Registers a Tokio watch channel seeded with `init` for `TChannelDef`,
    /// replacing the one it had; other families are untouched.
    ///
    /// The contract states that one entry of the family is registered or
    /// replaced and nothing else changes, and that the entry is a newly made
    /// channel of this family with the bound or capacity given here, never
    /// the entry the key held before.  That its key is the marker's `TypeId`,
    /// and the channel's message type, a contract here cannot name.
    /// `register`, which it goes through, is exact.
    pub fn add_watch<TChannelDef>(self, init: TChannelDef::Message) -> (r: Self)
        where
            TChannelDef: ChannelDef + 'static,
            TChannelDef::Message: Clone + 'static,
        ensures
            Self::registers_one(&self, &r, Family::Watch),
            Self::registers_fresh(&self, &r, Family::Watch, None::<usize>),
    {
        let key = type_key::<TChannelDef>();
        let ghost serial = self.next_serial(Family::Watch, key);
        let channel = WatchChannel::<TChannelDef::Message>::new(init).with_serial(Ghost(serial));
        let entry = erase(channel);
        let r = self.register(Family::Watch, key, entry);
        assert(Self::is_registration(&self, &r, Family::Watch, key, entry));
        proof {
            if self.entries(Family::Watch).contains_key(key) {
                assert(entry.info().serial != self.entries(Family::Watch)[key].info().serial);
            }
        }
        r
    }

    /// The watch channel registered for `TChannelDef`, if any.
    ///
    /// The contract states that a channel it returns is one stored in the
    /// family (it carries that entry's info: family, bound or capacity, and
    /// registration serial).  That the result is `Some` exactly when a
    /// channel is registered for this marker type depends on the marker's
    /// `TypeId` and on the type inside the stored box, neither of which a
    /// contract here can name.  The keyed lookup `entry` that it goes
    /// through is exact.
    pub fn watch_maybe<TChannelDef>(&self) -> (r: Option<&WatchChannel<TChannelDef::Message>>)
        where
            TChannelDef: ChannelDef + 'static,
            TChannelDef::Message: Clone + 'static,
        ensures
            r is Some ==> self.has_any(Family::Watch),
            r matches Some(c) ==> self.stores(Family::Watch, c.info()),
    {
        let key = type_key::<TChannelDef>();
        match self.entry(Family::Watch, &key) {
            Some(e) => {
                let found = downcast_ref::<WatchChannel<TChannelDef::Message>>(e);
                proof {
                    if found is Some {
                        assert(self.entries(Family::Watch).contains_key(key));
                    }
                }
                found
            },
            None => None,
        }
    }

    /// The watch channel registered for `TChannelDef`, if any, for mutation;
    /// no other entry and no other family can change, and nothing changes
    /// when no channel is returned.  A channel it returns is the one stored
    /// under its key, and what the caller leaves in it is what the key holds
    /// afterwards.  As for `watch_maybe`, the contract does not state when
    /// the result is `Some`.
    pub fn watch_mut_maybe<TChannelDef>(&mut self) -> (r: Option<&mut WatchChannel<TChannelDef::Message>>)
        where
            TChannelDef: ChannelDef + 'static,
            TChannelDef::Message: Clone + 'static,
        ensures
            r is Some ==> old(self).has_any(Family::Watch),
            Self::changes_at_most_one(&*old(self), &*final(self), Family::Watch),
            r is None ==> forall|g: Family| #[trigger] final(self).entries(g) == old(self).entries(g),
            r matches Some(c) ==> Self::lends(&*old(self), &*final(self), Family::Watch, c.info(), final(c).info()),
    {
        let key = type_key::<TChannelDef>();
        match self.entry_mut(Family::Watch, &key) {
            Some(e) => {
                let found = downcast_mut::<WatchChannel<TChannelDef::Message>>(e);
                proof {
                    if found is None {
                        assert(old(self).entries(Family::Watch).insert(key, old(self).entries(Family::Watch)[key])
                            =~= old(self).entries(Family::Watch));
                    }
                }
                found
            },
            None => None,
        }
    }
}

} // verus!
