//! A map keyed by interned names that keeps the order in which names first
//! arrived. The key order and the lookup by name come from `indexmap`; the
//! values sit beside it in a vector, one per key, at the key's position.
use indexmap::IndexMap;
use vstd::prelude::*;

verus! {

#[verifier::external_type_specification]
#[verifier::external_body]
#[verifier::reject_recursive_types(K)]
#[verifier::reject_recursive_types(V)]
#[verifier::reject_recursive_types(S)]
pub struct ExIndexMap<K, V, S>(IndexMap<K, V, S>);

/// The keys of an index map, in the map's order.
pub uninterp spec fn keys_of(m: IndexMap<u64, ()>) -> Seq<u64>;

/// Relies on `IndexMap::new`: a new map holds no key.
#[verifier::external_body]
fn index_new() -> (r: IndexMap<u64, ()>)
    ensures
        keys_of(r) == Seq::<u64>::empty(),
{
    IndexMap::new()
}

/// Relies on `IndexMap::get_index_of`: the position of a key, if the map holds it.
#[verifier::external_body]
fn index_of(m: &IndexMap<u64, ()>, k: u64) -> (r: Option<usize>)
    ensures
        r matches Some(i) ==> i < keys_of(*m).len() && keys_of(*m)[i as int] == k,
        r is None ==> !keys_of(*m).contains(k),
{
    m.get_index_of(&k)
}

/// Relies on `IndexMap::insert_full`: a new key goes last in order, a key that
/// is already there keeps its place.
#[verifier::external_body]
fn index_insert(m: &mut IndexMap<u64, ()>, k: u64) -> (r: usize)
    ensures
        keys_of(*old(m)).contains(k) ==> keys_of(*final(m)) == keys_of(*old(m)),
        !keys_of(*old(m)).contains(k) ==> keys_of(*final(m)) == keys_of(*old(m)).push(k),
        r < keys_of(*final(m)).len(),
        keys_of(*final(m))[r as int] == k,
{
    m.insert_full(k, ()).0
}

/// The keys of a sequence of entries, in order.
pub open spec fn keys<V>(s: Seq<(u64, V)>) -> Seq<u64> {
    s.map_values(|e: (u64, V)| e.0)
}

/// The last position of `k` in a sequence of entries, or -1.
pub open spec fn index_in<V>(s: Seq<(u64, V)>, k: u64) -> int
    decreases s.len(),
{
    if s.len() == 0 {
        -1
    } else if s.last().0 == k {
        s.len() - 1
    } else {
        index_in(s.drop_last(), k)
    }
}

/// The value that a sequence of entries holds under `k`.
pub open spec fn lookup<V>(s: Seq<(u64, V)>, k: u64) -> Option<V> {
    if index_in(s, k) >= 0 {
        Some(s[index_in(s, k)].1)
    } else {
        None
    }
}

/// `s` with `k` bound to `v`: in place where `k` is there, appended where not.
pub open spec fn put<V>(s: Seq<(u64, V)>, k: u64, v: V) -> Seq<(u64, V)> {
    if index_in(s, k) >= 0 {
        s.update(index_in(s, k), (k, v))
    } else {
        s.push((k, v))
    }
}

pub struct NameMap<V> {
    slots: IndexMap<u64, ()>,
    entries: Vec<(u64, V)>,
}

impl<V> View for NameMap<V> {
    type V = Seq<(u64, V)>;

    closed spec fn view(&self) -> Seq<(u64, V)> {
        self.entries@
    }
}

impl<V> NameMap<V> {
    pub closed spec fn wf(&self) -> bool {
        &&& keys_of(self.slots) == keys(self.entries@)
        &&& keys(self.entries@).no_duplicates()
    }

    /// A well-formed map holds each key once.
    pub proof fn lemma_distinct(&self)
        requires
            self.wf(),
        ensures
            keys(self@).no_duplicates(),
    {
    }

    pub fn new() -> (r: Self)
        ensures
            r.wf(),
            r@ == Seq::<(u64, V)>::empty(),
    {
        let r = NameMap { slots: index_new(), entries: Vec::new() };
        assert(keys(r.entries@) =~= Seq::<u64>::empty());
        r
    }

    pub fn len(&self) -> (r: usize)
        ensures
            r == self@.len(),
    {
        self.entries.len()
    }

    /// The entry at position `i`.
    pub fn entry(&self, i: usize) -> (r: &(u64, V))
        requires
            i < self@.len(),
        ensures
            *r == self@[i as int],
    {
        &self.entries[i]
    }

    /// Replaces the value at position `i`, keeping its key.
    pub fn set_value(&mut self, i: usize, v: V)
        requires
            old(self).wf(),
            i < old(self)@.len(),
        ensures
            final(self).wf(),
            final(self)@ == old(self)@.update(i as int, (old(self)@[i as int].0, v)),
    {
        let k = self.entries[i].0;
        self.entries.set(i, (k, v));
        assert(keys(self.entries@) =~= keys(old(self).entries@));
    }

    /// The position of `k`, if the map holds it.
    pub fn position(&self, k: u64) -> (r: Option<usize>)
        requires
            self.wf(),
        ensures
            r matches Some(i) ==> i < self@.len() && self@[i as int].0 == k,
            r is None ==> forall|j: int| 0 <= j < self@.len() ==> self@[j].0 != k,
    {
        let r = index_of(&self.slots, k);
        proof {
            if r is None {
                assert forall|j: int| 0 <= j < self@.len() implies self@[j].0 != k by {
                    assert(keys(self.entries@)[j] == self@[j].0);
                }
            } else {
                assert(keys(self.entries@)[r->0 as int] == self@[r->0 as int].0);
            }
        }
        r
    }

    /// The value under `k`, if the map holds it.
    pub fn get(&self, k: u64) -> (r: Option<&V>)
        requires
            self.wf(),
        ensures
            r matches Some(v) ==> lookup(self@, k) == Some(*v),
            r is None ==> lookup(self@, k) is None,
    {
        match self.position(k) {
            Some(i) => {
                proof { lemma_index_at(self@, i as int); }
                Some(&self.entries[i].1)
            },
            None => {
                proof { lemma_index_in(self@, k); }
                None
            },
        }
    }

    /// Binds `k` to `v`: in place where `k` is there, last where not.
    pub fn insert(&mut self, k: u64, v: V)
        requires
            old(self).wf(),
        ensures
            final(self).wf(),
            final(self)@ == put(old(self)@, k, v),
    {
        let pos = self.position(k);
        match pos {
            Some(i) => {
                proof { lemma_index_at(self@, i as int); }
                self.entries.set(i, (k, v));
                assert(keys(self.entries@) =~= keys(old(self).entries@));
            },
            None => {
                index_insert(&mut self.slots, k);
                self.entries.push((k, v));
                assert(keys(self.entries@) =~= keys(old(self).entries@).push(k));
                proof {
                    lemma_index_in(old(self)@, k);
                    assert(!keys(old(self).entries@).contains(k)) by {
                        if keys(old(self).entries@).contains(k) {
                            let j = choose|j: int| 0 <= j < keys(old(self).entries@).len() && keys(old(self).entries@)[j] == k;
                            assert(old(self)@[j].0 == k);
                        }
                    }
                }
            },
        }
    }
}

pub proof fn lemma_index_in<V>(s: Seq<(u64, V)>, k: u64)
    ensures
        -1 <= index_in(s, k) < s.len(),
        index_in(s, k) >= 0 ==> s[index_in(s, k)].0 == k,
        index_in(s, k) == -1 ==> forall|j: int| 0 <= j < s.len() ==> s[j].0 != k,
    decreases s.len(),
{
    if s.len() > 0 && s.last().0 != k {
        lemma_index_in(s.drop_last(), k);
        assert forall|j: int| 0 <= j < s.len() - 1 implies s[j] == s.drop_last()[j] by {}
    }
}

/// Where a sequence has distinct keys, `index_in` finds the key's position.
pub proof fn lemma_index_at<V>(s: Seq<(u64, V)>, n: int)
    requires
        keys(s).no_duplicates(),
        0 <= n < s.len(),
    ensures
        index_in(s, s[n].0) == n,
{
    let k = s[n].0;
    lemma_index_in(s, k);
    let r = index_in(s, k);
    assert(keys(s)[n] == k);
    if r != n {
        assert(keys(s)[r] == k);
    }
}

/// After binding `k` to `v`, `k` looks up `v`, and keys stay distinct.
pub proof fn lemma_put_lookup<V>(s: Seq<(u64, V)>, k: u64, v: V)
    requires
        keys(s).no_duplicates(),
    ensures
        lookup(put(s, k, v), k) == Some(v),
        keys(put(s, k, v)).no_duplicates(),
{
    lemma_index_in(s, k);
    let t = put(s, k, v);
    if index_in(s, k) >= 0 {
        let n = index_in(s, k);
        assert(keys(t) =~= keys(s));
        lemma_index_at(t, n);
    } else {
        assert(keys(t) =~= keys(s).push(k));
        assert(!keys(s).contains(k)) by {
            if keys(s).contains(k) {
                let j = choose|j: int| 0 <= j < keys(s).len() && keys(s)[j] == k;
                assert(s[j].0 == k);
            }
        }
        assert forall|i: int, j: int| 0 <= i < keys(t).len() && 0 <= j < keys(t).len() && i != j implies keys(t)[i] != keys(t)[j] by {
            if i < s.len() && j < s.len() {
                assert(keys(s)[i] != keys(s)[j]);
            } else if i < s.len() {
                assert(keys(s)[i] != k);
            } else if j < s.len() {
                assert(keys(s)[j] != k);
            }
        }
        lemma_index_at(t, s.len() as int);
    }
}

} // verus!
