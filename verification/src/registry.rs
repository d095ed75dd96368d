//! A map keyed by `TypeId`, with distinct keys.
use std::any::TypeId;
use vstd::prelude::*;

verus! {

#[verifier::external_type_specification]
#[verifier::external_body]
pub struct ExTypeId(TypeId);

/// Compares two type keys with `TypeId`'s `==`.
///
/// Trusted: `TypeId` compares its stored identifier bit for bit, so the
/// result is `true` exactly when the two keys are the same value.
#[verifier::external_body]
fn same_key(a: &TypeId, b: &TypeId) -> (r: bool)
    ensures
        r == (*a == *b),
{
    a == b
}

/// The map that parallel sequences of keys and values stand for.
spec fn map_of<V>(keys: Seq<TypeId>, values: Seq<V>) -> Map<TypeId, V> {
    Map::new(
        |k: TypeId| keys.contains(k),
        |k: TypeId| values[keys.index_of(k)],
    )
}

/// No key occurs twice.
spec fn distinct(keys: Seq<TypeId>) -> bool {
    forall|i: int, j: int| 0 <= i < keys.len() && 0 <= j < keys.len() && i != j ==> keys[i] != keys[j]
}

proof fn lemma_map_of_index<V>(keys: Seq<TypeId>, values: Seq<V>, i: int)
    requires
        distinct(keys),
        keys.len() == values.len(),
        0 <= i < keys.len(),
    ensures
        map_of(keys, values).contains_key(keys[i]),
        map_of(keys, values)[keys[i]] == values[i],
{
    assert(keys.contains(keys[i]));
    let j = keys.index_of(keys[i]);
    assert(keys[j] == keys[i]);
}

proof fn lemma_map_of_update<V>(keys: Seq<TypeId>, values: Seq<V>, i: int)
    requires
        distinct(keys),
        keys.len() == values.len(),
        0 <= i < keys.len(),
    ensures
        forall|v: V| #[trigger] map_of(keys, values.update(i, v)) == map_of(keys, values).insert(keys[i], v),
{
    assert forall|v: V| #[trigger] map_of(keys, values.update(i, v)) == map_of(keys, values).insert(keys[i], v) by {
        let m1 = map_of(keys, values.update(i, v));
        let m2 = map_of(keys, values).insert(keys[i], v);
        assert forall|k: TypeId| m1.contains_key(k) <==> m2.contains_key(k) by {
            if k == keys[i] { assert(keys.contains(k)); }
        }
        assert forall|k: TypeId| m1.contains_key(k) implies m1[k] == m2[k] by {
            let j = keys.index_of(k);
            if k == keys[i] {
                assert(j == i);
            } else {
                assert(j != i);
            }
        }
        assert(m1 =~= m2);
    }
}

proof fn lemma_map_of_push<V>(keys: Seq<TypeId>, values: Seq<V>, k: TypeId, v: V)
    requires
        distinct(keys),
        keys.len() == values.len(),
        !keys.contains(k),
    ensures
        distinct(keys.push(k)),
        map_of(keys.push(k), values.push(v)) == map_of(keys, values).insert(k, v),
{
    let ks = keys.push(k);
    let m1 = map_of(ks, values.push(v));
    let m2 = map_of(keys, values).insert(k, v);
    assert forall|i: int, j: int| 0 <= i < ks.len() && 0 <= j < ks.len() && i != j implies ks[i] != ks[j] by {
        if i == keys.len() { assert(keys.contains(ks[j])); }
        if j == keys.len() { assert(keys.contains(ks[i])); }
    }
    assert forall|x: TypeId| m1.contains_key(x) <==> m2.contains_key(x) by {
        if x != k && ks.contains(x) {
            let j = choose|j: int| 0 <= j < ks.len() && ks[j] == x;
            assert(keys[j] == x);
        }
        if keys.contains(x) {
            let j = choose|j: int| 0 <= j < keys.len() && keys[j] == x;
            assert(ks[j] == x);
        }
        if x == k { assert(ks[keys.len() as int] == k); }
    }
    assert forall|x: TypeId| m1.contains_key(x) implies m1[x] == m2[x] by {
        let j = ks.index_of(x);
        if x == k {
            lemma_map_of_index(ks, values.push(v), keys.len() as int);
        } else {
            let j0 = keys.index_of(x);
            lemma_map_of_index(keys, values, j0);
            lemma_map_of_index(ks, values.push(v), j0);
        }
    }
    assert(m1 =~= m2);
}

/// A map from type keys to values, kept as two parallel vectors in which no
/// key occurs twice.  It stands where a `HashMap<TypeId, _>` would: vstd's
/// specifications of `HashMap` hold only for key types that obey its key
/// model (`obeys_key_model`), which vstd establishes for integers and a few
/// std types but not for `TypeId`, and could only be assumed for it.
pub struct TypeRegistry<V> {
    keys: Vec<TypeId>,
    values: Vec<V>,
}

impl<V> View for TypeRegistry<V> {
    type V = Map<TypeId, V>;

    /// The registered values, by key.
    closed spec fn view(&self) -> Map<TypeId, V> {
        map_of(self.keys@, self.values@)
    }
}

impl<V> TypeRegistry<V> {
    spec fn has_key_at(self, k: TypeId, i: int) -> bool {
        0 <= i < self.keys@.len() && self.keys@[i] == k
    }

    #[verifier::type_invariant]
    closed spec fn keys_distinct(self) -> bool {
        &&& self.keys@.len() == self.values@.len()
        &&& distinct(self.keys@)
    }

    proof fn lemma_index(self, i: int)
        requires
            self.keys_distinct(),
            0 <= i < self.keys@.len(),
        ensures
            self@.contains_key(self.keys@[i]),
            self@[self.keys@[i]] == self.values@[i],
    {
        lemma_map_of_index(self.keys@, self.values@, i);
    }

    /// An empty registry.
    pub fn new() -> (r: Self)
        ensures
            r@ == Map::<TypeId, V>::empty(),
    {
        let r = TypeRegistry { keys: Vec::new(), values: Vec::new() };
        assert(r@ =~= Map::<TypeId, V>::empty());
        r
    }

    /// The position of `key`, if it is registered.
    fn find(&self, key: &TypeId) -> (r: Option<usize>)
        ensures
            match r {
                Some(i) => self.has_key_at(*key, i as int),
                None => !self@.contains_key(*key),
            },
    {
        let mut i: usize = 0;
        while i < self.keys.len()
            invariant
                i <= self.keys@.len(),
                forall|j: int| 0 <= j < i ==> self.keys@[j] != *key,
            decreases self.keys@.len() - i,
        {
            if same_key(&self.keys[i], key) {
                return Some(i);
            }
            i = i + 1;
        }
        None
    }

    /// The value registered under `key`, if any.
    pub fn get(&self, key: &TypeId) -> (r: Option<&V>)
        ensures
            match r {
                Some(v) => self@.contains_key(*key) && *v == self@[*key],
                None => !self@.contains_key(*key),
            },
    {
        proof { use_type_invariant(self); }
        match self.find(key) {
            Some(i) => {
                proof { self.lemma_index(i as int); }
                Some(&self.values[i])
            },
            None => None,
        }
    }

    /// The value registered under `key`, if any, for mutation in place;
    /// only that value can change.
    pub fn get_mut(&mut self, key: &TypeId) -> (r: Option<&mut V>)
        ensures
            old(self)@.contains_key(*key) == r is Some,
            r is None ==> final(self)@ == old(self)@,
            r is Some ==> *r->0 == old(self)@[*key]
                && final(self)@ == old(self)@.insert(*key, *final(r->0)),
    {
        proof { use_type_invariant(&*self); }
        match self.find(key) {
            Some(i) => {
                proof {
                    old(self).lemma_index(i as int);
                    lemma_map_of_update(self.keys@, self.values@, i as int);
                }
                Some(&mut self.values[i])
            },
            None => None,
        }
    }

    /// Registers `value` under `key`, replacing the value the key had.
    pub fn insert(&mut self, key: TypeId, value: V)
        ensures
            final(self)@ == old(self)@.insert(key, value),
    {
        proof { use_type_invariant(&*self); }
        let found = self.find(&key);
        let mut old_self = TypeRegistry::new();
        std::mem::swap(self, &mut old_self);
        proof { use_type_invariant(&old_self); }
        let TypeRegistry { mut keys, mut values } = old_self;
        match found {
            Some(i) => {
                proof { lemma_map_of_update(keys@, values@, i as int); }
                values.set(i, value);
            },
            None => {
                let ghost ks = keys@;
                let ghost vs = values@;
                keys.push(key);
                values.push(value);
                proof { lemma_map_of_push(ks, vs, key, value); }
            },
        }
        *self = TypeRegistry { keys, values };
    }
}

}
