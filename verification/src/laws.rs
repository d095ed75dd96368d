//! Laws of the broker's registries, stated over `ChannelBroker::entries`.
use std::any::TypeId;
use vstd::prelude::*;

use crate::{ChannelBroker, ChannelInfo, ErasedChannel, Family};

verus! {

/// After a channel is registered under `key` in `family`, looking `key` up
/// there finds that channel; every other key of the family keeps what it
/// had, and every other family is unchanged.
pub proof fn lookup_after_register(
    before: &ChannelBroker,
    after: &ChannelBroker,
    family: Family,
    key: TypeId,
    entry: ErasedChannel,
)
    requires
        ChannelBroker::is_registration(before, after, family, key, entry),
    ensures
        after.entries(family).contains_key(key),
        after.entries(family)[key] == entry,
        forall|other: TypeId|
            other != key ==> {
                &&& (after.entries(family).contains_key(other) <==> #[trigger] before.entries(family).contains_key(other))
                &&& before.entries(family).contains_key(other) ==> after.entries(family)[other] == before.entries(family)[other]
            },
        forall|g: Family| g != family ==> #[trigger] after.entries(g) == before.entries(g),
{
}

/// Registering under a key that is already registered replaces the previous
/// entry: after two registrations under one key, the family holds exactly
/// what a single registration of the second channel would have left.
pub proof fn register_replaces(
    before: &ChannelBroker,
    middle: &ChannelBroker,
    after: &ChannelBroker,
    family: Family,
    key: TypeId,
    first: ErasedChannel,
    second: ErasedChannel,
)
    requires
        ChannelBroker::is_registration(before, middle, family, key, first),
        ChannelBroker::is_registration(middle, after, family, key, second),
    ensures
        ChannelBroker::is_registration(before, after, family, key, second),
        after.entries(family).dom() == before.entries(family).dom().insert(key),
{
    assert(after.entries(family) =~= before.entries(family).insert(key, second));
    assert forall|g: Family| g != family implies #[trigger] after.entries(g) == before.entries(g) by {
        assert(middle.entries(g) == before.entries(g));
    }
}

/// Registration never unregisters: every key registered before in any
/// family is still registered afterwards, and the registering family gains
/// at most one key.
pub proof fn register_keeps_keys(before: &ChannelBroker, after: &ChannelBroker, family: Family)
    requires
        ChannelBroker::registers_one(before, after, family),
    ensures
        forall|g: Family| #[trigger] before.entries(g).dom().subset_of(after.entries(g).dom()),
        exists|key: TypeId| after.entries(family).dom() == #[trigger] before.entries(family).dom().insert(key),
{
    let (key, entry) = choose|key: TypeId, entry: ErasedChannel|
        #[trigger] ChannelBroker::is_registration(before, after, family, key, entry);
    assert(after.entries(family).dom() =~= before.entries(family).dom().insert(key));
    assert forall|g: Family| #[trigger] before.entries(g).dom().subset_of(after.entries(g).dom()) by {
        if g == family {
        } else {
            assert(after.entries(g) == before.entries(g));
        }
    }
}

/// Registrations under different keys, or in different families, commute:
/// either order leaves every family with the same entries.
pub proof fn registrations_commute(
    start: &ChannelBroker,
    a_then: &ChannelBroker,
    a_then_b: &ChannelBroker,
    b_then: &ChannelBroker,
    b_then_a: &ChannelBroker,
    family_a: Family,
    key_a: TypeId,
    entry_a: ErasedChannel,
    family_b: Family,
    key_b: TypeId,
    entry_b: ErasedChannel,
)
    requires
        family_a != family_b || key_a != key_b,
        ChannelBroker::is_registration(start, a_then, family_a, key_a, entry_a),
        ChannelBroker::is_registration(a_then, a_then_b, family_b, key_b, entry_b),
        ChannelBroker::is_registration(start, b_then, family_b, key_b, entry_b),
        ChannelBroker::is_registration(b_then, b_then_a, family_a, key_a, entry_a),
    ensures
        forall|g: Family| #[trigger] a_then_b.entries(g) == b_then_a.entries(g),
{
    assert forall|g: Family| #[trigger] a_then_b.entries(g) == b_then_a.entries(g) by {
        if g == family_a && g == family_b {
            assert(a_then_b.entries(g) =~= b_then_a.entries(g));
        } else if g == family_a {
            assert(a_then_b.entries(g) == a_then.entries(g));
            assert(b_then.entries(g) == start.entries(g));
        } else if g == family_b {
            assert(a_then.entries(g) == start.entries(g));
            assert(b_then_a.entries(g) == b_then.entries(g));
        } else {
            assert(a_then_b.entries(g) == a_then.entries(g));
            assert(a_then.entries(g) == start.entries(g));
            assert(b_then_a.entries(g) == b_then.entries(g));
            assert(b_then.entries(g) == start.entries(g));
        }
    }
}

/// Reaching a channel for mutation neither registers nor unregisters
/// anything: every family keeps exactly the keys it had.
pub proof fn mutation_keeps_keys(before: &ChannelBroker, after: &ChannelBroker, family: Family)
    requires
        ChannelBroker::changes_at_most_one(before, after, family),
    ensures
        forall|g: Family| #[trigger] after.entries(g).dom() == before.entries(g).dom(),
{
    if !(forall|g: Family| #[trigger] after.entries(g) == before.entries(g)) {
        let (key, entry) = choose|key: TypeId, entry: ErasedChannel| {
            &&& before.entries(family).contains_key(key)
            &&& #[trigger] ChannelBroker::is_registration(before, after, family, key, entry)
        };
        assert forall|g: Family| #[trigger] after.entries(g).dom() == before.entries(g).dom() by {
            if g == family {
                assert(after.entries(g).dom() =~= before.entries(g).dom());
            }
        }
    }
}

/// A registration into an empty family leaves exactly one channel there,
/// and it is of that family and has the bound or capacity asked for: every
/// channel a lookup then finds carries that limit.
pub proof fn sole_registration_has_its_limit(
    before: &ChannelBroker,
    after: &ChannelBroker,
    family: Family,
    limit: Option<usize>,
    found: ChannelInfo,
)
    requires
        before.entries(family) == Map::<TypeId, ErasedChannel>::empty(),
        ChannelBroker::registers_fresh(before, after, family, limit),
        after.stores(family, found),
    ensures
        found.family == family,
        found.limit == limit,
        after.entries(family).dom().len() == 1,
{
    let (key, entry) = choose|key: TypeId, entry: ErasedChannel| {
        &&& #[trigger] ChannelBroker::is_registration(before, after, family, key, entry)
        &&& entry.info().family == family
        &&& entry.info().limit == limit
        &&& before.entries(family).contains_key(key) ==> entry.info() != before.entries(family)[key].info()
    };
    let k = choose|k: TypeId| #[trigger] after.entries(family).contains_key(k) && after.entries(family)[k].info() == found;
    assert(after.entries(family) == Map::<TypeId, ErasedChannel>::empty().insert(key, entry));
    assert(k == key);
    assert(after.entries(family).dom() =~= set![key]);
}

/// Registering twice under the same key keeps only the second channel: if
/// the second registration adds no key, the family then holds only channels
/// of the second limit, none of which is a channel it held in between.
pub proof fn second_registration_replaces_first(
    before: &ChannelBroker,
    middle: &ChannelBroker,
    after: &ChannelBroker,
    family: Family,
    first: Option<usize>,
    second: Option<usize>,
    found: ChannelInfo,
)
    requires
        before.entries(family) == Map::<TypeId, ErasedChannel>::empty(),
        ChannelBroker::registers_fresh(before, middle, family, first),
        ChannelBroker::registers_fresh(middle, after, family, second),
        after.entries(family).dom() == middle.entries(family).dom(),
        after.stores(family, found),
    ensures
        found.limit == second,
        !middle.stores(family, found),
{
    let (k1, e1) = choose|key: TypeId, entry: ErasedChannel| {
        &&& #[trigger] ChannelBroker::is_registration(before, middle, family, key, entry)
        &&& entry.info().family == family
        &&& entry.info().limit == first
        &&& before.entries(family).contains_key(key) ==> entry.info() != before.entries(family)[key].info()
    };
    let (k2, e2) = choose|key: TypeId, entry: ErasedChannel| {
        &&& #[trigger] ChannelBroker::is_registration(middle, after, family, key, entry)
        &&& entry.info().family == family
        &&& entry.info().limit == second
        &&& middle.entries(family).contains_key(key) ==> entry.info() != middle.entries(family)[key].info()
    };
    assert(middle.entries(family) == Map::<TypeId, ErasedChannel>::empty().insert(k1, e1));
    assert(after.entries(family).dom().contains(k2));
    assert(k2 == k1);
    assert(after.entries(family) =~= Map::<TypeId, ErasedChannel>::empty().insert(k1, e2));
    let k = choose|k: TypeId| #[trigger] after.entries(family).contains_key(k) && after.entries(family)[k].info() == found;
    assert(k == k1);
    if middle.stores(family, found) {
        let m = choose|m: TypeId| #[trigger] middle.entries(family).contains_key(m) && middle.entries(family)[m].info() == found;
        assert(m == k1);
    }
}

/// Lending a channel out for mutation hands out the channel that is stored:
/// the one lent was stored before, what the borrower leaves in it is stored
/// afterwards under the same keys, and no other family changes.
pub proof fn lent_channel_is_stored_one(
    before: &ChannelBroker,
    after: &ChannelBroker,
    family: Family,
    lent: ChannelInfo,
    returned: ChannelInfo,
)
    requires
        ChannelBroker::lends(before, after, family, lent, returned),
    ensures
        before.stores(family, lent),
        after.stores(family, returned),
        after.entries(family).dom() == before.entries(family).dom(),
        forall|g: Family| g != family ==> #[trigger] after.entries(g) == before.entries(g),
{
    let (key, entry) = choose|key: TypeId, entry: ErasedChannel| {
        &&& before.entries(family).contains_key(key)
        &&& before.entries(family)[key].info() == lent
        &&& entry.info() == returned
        &&& #[trigger] ChannelBroker::is_registration(before, after, family, key, entry)
    };
    assert(after.entries(family).contains_key(key));
    assert(after.entries(family).dom() =~= before.entries(family).dom());
}

} // verus!
