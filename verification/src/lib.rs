//! A registry of channels keyed by a marker type, with backends built on
//! `std::sync::mpsc` and on Tokio's broadcast and watch channels.
//!
//! A channel is either registered as a whole sender/receiver pair or absent:
//! each family of channels is a map from a type key to one erased channel,
//! and registering under a key that is already present replaces its entry.
use std::any::TypeId;
use vstd::prelude::*;

pub mod erased;
pub mod laws;
mod mpsc_pair;
pub mod registry;
pub mod std_channels;
pub mod tokio_channels;
mod tokio_pair;

pub use erased::ErasedChannel;
pub use registry::TypeRegistry;
pub use std_channels::{RecvFailure, SendFailure, StdMpscChannel, SyncChannel};
pub use tokio_channels::{BroadcastChannel, WatchChannel};

verus! {

/// Associates a type-level key with the message payload stored in [`ChannelBroker`].
///
/// Implement this trait on a marker type to register one of the
/// marker-keyed channel families with the broker.
pub trait ChannelDef {
    type Message;
}

/// The four families of channels that a broker keeps apart.
#[derive(Clone, Copy, Debug, PartialEq, Eq, Structural)]
pub enum Family {
    StdMpsc,
    Sync,
    Broadcast,
    Watch,
}

/// What the library's specifications know of a channel, whatever its message
/// type: the family it belongs to, the bound or capacity it was made with
/// (`None` for a channel without one), and a registration serial that tells
/// a channel apart from the one it replaced.
pub struct ChannelInfo {
    pub family: Family,
    pub limit: Option<usize>,
    pub serial: int,
}

/// The channel types of this library, described by a `ChannelInfo`.
pub trait Erasable {
    spec fn info(&self) -> ChannelInfo;
}

/// Heterogeneous registry of channel instances keyed by `TypeId`.
///
/// Each registration method consumes and returns `Self`, which makes it
/// convenient to build a broker fluently during initialization. Registering
/// another channel under the same key replaces the previous entry for that key.
pub struct ChannelBroker {
    std_mpsc_channels: TypeRegistry<ErasedChannel>,
    sync_channels: TypeRegistry<ErasedChannel>,
    broadcast_channels: TypeRegistry<ErasedChannel>,
    watch_channels: TypeRegistry<ErasedChannel>,
}

impl ChannelBroker {
    /// The channels registered in `family`, by type key.
    pub closed spec fn entries(&self, family: Family) -> Map<TypeId, ErasedChannel> {
        match family {
            Family::StdMpsc => self.std_mpsc_channels@,
            Family::Sync => self.sync_channels@,
            Family::Broadcast => self.broadcast_channels@,
            Family::Watch => self.watch_channels@,
        }
    }

    /// `after` is `before` with `entry` registered under `key` in `family`:
    /// that family's map gains or replaces exactly that entry, and every
    /// other family is untouched.
    pub open spec fn is_registration(
        before: &Self,
        after: &Self,
        family: Family,
        key: TypeId,
        entry: ErasedChannel,
    ) -> bool {
        &&& after.entries(family) == before.entries(family).insert(key, entry)
        &&& forall|g: Family| g != family ==> #[trigger] after.entries(g) == before.entries(g)
    }

    /// `after` is `before` with one entry registered under some key in `family`.
    pub open spec fn registers_one(before: &Self, after: &Self, family: Family) -> bool {
        exists|key: TypeId, entry: ErasedChannel|
            #[trigger] Self::is_registration(before, after, family, key, entry)
    }

    /// `after` is `before` with at most the value of one existing entry of
    /// `family` changed: no key comes or goes, and other families are untouched.
    pub open spec fn changes_at_most_one(before: &Self, after: &Self, family: Family) -> bool {
        ||| forall|g: Family| #[trigger] after.entries(g) == before.entries(g)
        ||| exists|key: TypeId, entry: ErasedChannel| {
            &&& before.entries(family).contains_key(key)
            &&& #[trigger] Self::is_registration(before, after, family, key, entry)
        }
    }

    /// `after` is `before` with a newly made channel of `family`, with bound
    /// or capacity `limit`, registered under some key: it is never the entry
    /// that the key held before (its info differs from that entry's).
    pub open spec fn registers_fresh(
        before: &Self,
        after: &Self,
        family: Family,
        limit: Option<usize>,
    ) -> bool {
        exists|key: TypeId, entry: ErasedChannel| {
            &&& #[trigger] Self::is_registration(before, after, family, key, entry)
            &&& entry.info().family == family
            &&& entry.info().limit == limit
            &&& before.entries(family).contains_key(key) ==> entry.info() != before.entries(family)[key].info()
        }
    }

    /// `info` describes a channel stored in `family`.
    pub open spec fn stores(&self, family: Family, info: ChannelInfo) -> bool {
        exists|key: TypeId|
            #[trigger] self.entries(family).contains_key(key) && self.entries(family)[key].info() == info
    }

    /// The serial that a channel registered under `key` in `family` gets: one
    /// more than the serial of the entry it replaces, so never equal to it.
    pub open spec fn next_serial(&self, family: Family, key: TypeId) -> int {
        if self.entries(family).contains_key(key) {
            self.entries(family)[key].info().serial + 1
        } else {
            0
        }
    }

    /// `after` is `before` after lending out, for mutation, the channel stored
    /// under some key of `family`: the channel lent out had info `lent` (it
    /// is the stored one), and whatever the borrower left in it, of info
    /// `returned`, is what the key holds afterwards; nothing else changes.
    pub open spec fn lends(
        before: &Self,
        after: &Self,
        family: Family,
        lent: ChannelInfo,
        returned: ChannelInfo,
    ) -> bool {
        exists|key: TypeId, entry: ErasedChannel| {
            &&& before.entries(family).contains_key(key)
            &&& before.entries(family)[key].info() == lent
            &&& entry.info() == returned
            &&& #[trigger] Self::is_registration(before, after, family, key, entry)
        }
    }

    /// Whether anything is registered in `family`.
    pub open spec fn has_any(&self, family: Family) -> bool {
        exists|key: TypeId| #[trigger] self.entries(family).contains_key(key)
    }

    /// Registers `entry` under `key` in `family`, replacing any entry that
    /// the key had there.
    pub fn register(self, family: Family, key: TypeId, entry: ErasedChannel) -> (r: Self)
        ensures
            Self::is_registration(&self, &r, family, key, entry),
    {
        let mut b = self;
        match family {
            Family::StdMpsc => b.std_mpsc_channels.insert(key, entry),
            Family::Sync => b.sync_channels.insert(key, entry),
            Family::Broadcast => b.broadcast_channels.insert(key, entry),
            Family::Watch => b.watch_channels.insert(key, entry),
        }
        b
    }

    /// The entry registered under `key` in `family`, if there is one.
    pub fn entry(&self, family: Family, key: &TypeId) -> (r: Option<&ErasedChannel>)
        ensures
            match r {
                Some(e) => self.entries(family).contains_key(*key) && *e == self.entries(family)[*key],
                None => !self.entries(family).contains_key(*key),
            },
    {
        match family {
            Family::StdMpsc => self.std_mpsc_channels.get(key),
            Family::Sync => self.sync_channels.get(key),
            Family::Broadcast => self.broadcast_channels.get(key),
            Family::Watch => self.watch_channels.get(key),
        }
    }

    /// The entry registered under `key` in `family`, if there is one, for
    /// mutation in place.  Only that entry can change; every other entry and
    /// every other family keep their values.
    pub fn entry_mut(&mut self, family: Family, key: &TypeId) -> (r: Option<&mut ErasedChannel>)
        ensures
            old(self).entries(family).contains_key(*key) == r is Some,
            r is None ==> forall|g: Family| #[trigger] final(self).entries(g) == old(self).entries(g),
            r is Some ==> {
                &&& *r->0 == old(self).entries(family)[*key]
                &&& Self::is_registration(&*old(self), &*final(self), family, *key, *final(r->0))
            },
    {
        match family {
            Family::StdMpsc => self.std_mpsc_channels.get_mut(key),
            Family::Sync => self.sync_channels.get_mut(key),
            Family::Broadcast => self.broadcast_channels.get_mut(key),
            Family::Watch => self.watch_channels.get_mut(key),
        }
    }
}

impl Default for ChannelBroker {
    /// A broker with no channel registered in any family.
    fn default() -> (r: Self)
        ensures
            forall|g: Family| #[trigger] r.entries(g) == Map::<TypeId, ErasedChannel>::empty(),
    {
        ChannelBroker {
            std_mpsc_channels: TypeRegistry::new(),
            sync_channels: TypeRegistry::new(),
            broadcast_channels: TypeRegistry::new(),
            watch_channels: TypeRegistry::new(),
        }
    }
}

} // verus!
