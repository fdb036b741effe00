//! Key-value storage keyed by accounts, as contract storage holds it.

use vstd::prelude::*;
use crate::account::AccountId;

verus! {

/// A key of a `Mapping`: a plain value whose executable comparison is its equality.
pub trait MapKey: Copy + Sized {
    fn same(&self, other: &Self) -> (r: bool)
        ensures
            r == (*self == *other),
    ;
}

impl MapKey for AccountId {
    fn same(&self, other: &Self) -> (r: bool) {
        *self == *other
    }
}

/// The key of a delegated borrowing allowance: what `delegatee` may borrow on behalf of
/// `owner`.
#[derive(Clone, Copy, Debug, PartialEq, Eq, Structural)]
pub struct AllowancesKey {
    pub owner: AccountId,
    pub delegatee: AccountId,
}

impl MapKey for AllowancesKey {
    fn same(&self, other: &Self) -> (r: bool) {
        *self == *other
    }
}

/// The sum of `f` over the values of `entries`.
pub open spec fn entries_total<K, V>(entries: Seq<(K, V)>, f: spec_fn(V) -> nat) -> nat
    decreases entries.len(),
{
    if entries.len() == 0 {
        0
    } else {
        entries_total(entries.drop_last(), f) + f(entries.last().1)
    }
}

proof fn lemma_entries_total_push<K, V>(entries: Seq<(K, V)>, e: (K, V), f: spec_fn(V) -> nat)
    ensures
        entries_total(entries.push(e), f) == entries_total(entries, f) + f(e.1),
{
    assert(entries.push(e).drop_last() =~= entries);
}

proof fn lemma_entries_total_update<K, V>(entries: Seq<(K, V)>, i: int, e: (K, V), f: spec_fn(V) -> nat)
    requires
        0 <= i < entries.len(),
    ensures
        entries_total(entries.update(i, e), f) + f(entries[i].1) == entries_total(entries, f) + f(e.1),
    decreases entries.len(),
{
    let u = entries.update(i, e);
    if i == entries.len() - 1 {
        assert(u.drop_last() =~= entries.drop_last());
    } else {
        assert(u.drop_last() =~= entries.drop_last().update(i, e));
        lemma_entries_total_update(entries.drop_last(), i, e, f);
    }
}

proof fn lemma_entries_total_ge<K, V>(entries: Seq<(K, V)>, i: int, f: spec_fn(V) -> nat)
    requires
        0 <= i < entries.len(),
    ensures
        f(entries[i].1) <= entries_total(entries, f),
    decreases entries.len(),
{
    if i < entries.len() - 1 {
        lemma_entries_total_ge(entries.drop_last(), i, f);
    }
}

/// A finite map from keys to values, held as a list of entries with distinct keys.
pub struct Mapping<K, V> {
    entries: Vec<(K, V)>,
}

impl<K: MapKey, V: Copy> Mapping<K, V> {
    /// The keys are distinct.
    pub closed spec fn wf(&self) -> bool {
        forall|i: int, j: int|
            0 <= i < j < self.entries@.len() ==> (#[trigger] self.entries@[i]).0
                != (#[trigger] self.entries@[j]).0
    }

    /// The map that the entries stand for.
    pub closed spec fn view(&self) -> Map<K, V> {
        Map::new(
            |k: K| exists|i: int| 0 <= i < self.entries@.len() && self.entries@[i].0 == k,
            |k: K|
                self.entries@[choose|i: int| 0 <= i < self.entries@.len() && self.entries@[i].0 == k].1,
        )
    }

    /// The sum of `f` over the values of the map.
    pub closed spec fn total(&self, f: spec_fn(V) -> nat) -> nat {
        entries_total(self.entries@, f)
    }

    /// Each value counts towards the sum.
    pub proof fn lemma_value_le_total(&self, k: K, f: spec_fn(V) -> nat)
        requires
            self.wf(),
            self.view().contains_key(k),
        ensures
            f(self.view()[k]) <= self.total(f),
    {
        let i = choose|i: int| 0 <= i < self.entries@.len() && self.entries@[i].0 == k;
        self.lemma_view_at(i);
        lemma_entries_total_ge(self.entries@, i, f);
    }

    proof fn lemma_view_at(&self, i: int)
        requires
            self.wf(),
            0 <= i < self.entries@.len(),
        ensures
            self.view().contains_key(self.entries@[i].0),
            self.view()[self.entries@[i].0] == self.entries@[i].1,
    {
        let k = self.entries@[i].0;
        assert(self.view().dom().contains(k));
        let j = choose|j: int| 0 <= j < self.entries@.len() && self.entries@[j].0 == k;
        if j != i {
            if i < j {
                assert(self.entries@[i].0 != self.entries@[j].0);
            } else {
                assert(self.entries@[j].0 != self.entries@[i].0);
            }
        }
    }

    /// The empty map.
    pub fn new() -> (r: Self)
        ensures
            r.wf(),
            r.view() == Map::<K, V>::empty(),
            forall|f: spec_fn(V) -> nat| #[trigger] r.total(f) == 0,
    {
        let r = Mapping { entries: Vec::new() };
        assert(r.view() =~= Map::<K, V>::empty());
        r
    }

    /// The value at `key`, if any.
    pub fn get(&self, key: &K) -> (r: Option<V>)
        requires
            self.wf(),
        ensures
            r == (if self.view().contains_key(*key) {
                Some(self.view()[*key])
            } else {
                None::<V>
            }),
    {
        let mut i: usize = 0;
        while i < self.entries.len()
            invariant
                self.wf(),
                i <= self.entries@.len(),
                forall|j: int| 0 <= j < i ==> self.entries@[j].0 != *key,
            decreases self.entries@.len() - i,
        {
            if self.entries[i].0.same(key) {
                proof {
                    self.lemma_view_at(i as int);
                }
                return Some(self.entries[i].1);
            }
            i = i + 1;
        }
        None
    }

    /// Sets the value at `key`.
    pub fn insert(&mut self, key: &K, value: &V)
        requires
            old(self).wf(),
        ensures
            final(self).wf(),
            final(self).view() == old(self).view().insert(*key, *value),
            forall|f: spec_fn(V) -> nat| #[trigger] final(self).total(f) + (if old(self).view().contains_key(*key) {
                f(old(self).view()[*key])
            } else {
                0
            }) == old(self).total(f) + f(*value),
    {
        let ghost before = self.view();
        let mut i: usize = 0;
        let mut found = false;
        while i < self.entries.len() && !found
            invariant
                self.wf(),
                self.view() == before,
                i <= self.entries@.len(),
                !found ==> forall|j: int| 0 <= j < i ==> self.entries@[j].0 != *key,
                found ==> i < self.entries@.len() && self.entries@[i as int].0 == *key,
            decreases self.entries@.len() - i + (if found { 0int } else { 1int }),
        {
            if self.entries[i].0.same(key) {
                found = true;
            } else {
                i = i + 1;
            }
        }
        if found {
            let ghost old_entries = self.entries@;
            self.entries.set(i, (*key, *value));
            proof {
                old(self).lemma_view_at(i as int);
                assert(self.entries@ == old_entries.update(i as int, (*key, *value)));
                assert forall|f: spec_fn(V) -> nat| #[trigger] self.total(f) + f(old_entries[i as int].1) == old(self).total(f) + f(*value) by {
                    lemma_entries_total_update(old_entries, i as int, (*key, *value), f);
                }
                assert forall|a: int, b: int|
                    0 <= a < b < self.entries@.len() implies (#[trigger] self.entries@[a]).0
                    != (#[trigger] self.entries@[b]).0 by {
                    assert(old_entries[a].0 != old_entries[b].0);
                }
                assert forall|k: K| #[trigger] self.view().contains_key(k) == before.insert(*key, *value).contains_key(k) by {
                    if before.contains_key(k) {
                        let j = choose|j: int| 0 <= j < old_entries.len() && old_entries[j].0 == k;
                        assert(self.entries@[j].0 == k);
                    }
                    if self.view().contains_key(k) {
                        let j = choose|j: int| 0 <= j < self.entries@.len() && self.entries@[j].0 == k;
                        assert(old_entries[j].0 == k);
                    }
                    if k == *key {
                        assert(self.entries@[i as int].0 == k);
                    }
                }
                assert forall|k: K| #[trigger] self.view().contains_key(k) implies self.view()[k] == before.insert(*key, *value)[k] by {
                    let j = choose|j: int| 0 <= j < self.entries@.len() && self.entries@[j].0 == k;
                    self.lemma_view_at(j);
                    if k != *key {
                        assert(old_entries[j].0 == k);
                        let jj = choose|jj: int| 0 <= jj < old_entries.len() && old_entries[jj].0 == k;
                        if jj != j {
                            if jj < j {
                                assert(old_entries[jj].0 != old_entries[j].0);
                            } else {
                                assert(old_entries[j].0 != old_entries[jj].0);
                            }
                        }
                    } else {
                        assert(j == i);
                    }
                }
                assert(self.view() =~= before.insert(*key, *value));
            }
            return;
        }
        let ghost old_entries = self.entries@;
        self.entries.push((*key, *value));
        proof {
            assert(!before.contains_key(*key));
            assert forall|f: spec_fn(V) -> nat| #[trigger] self.total(f) == old(self).total(f) + f(*value) by {
                lemma_entries_total_push(old_entries, (*key, *value), f);
            }
            assert forall|a: int, b: int|
                0 <= a < b < self.entries@.len() implies (#[trigger] self.entries@[a]).0
                != (#[trigger] self.entries@[b]).0 by {
                if b < old_entries.len() {
                    assert(old_entries[a].0 != old_entries[b].0);
                } else {
                    assert(old_entries[a].0 != *key);
                }
            }
            assert forall|k: K| #[trigger] self.view().contains_key(k) == before.insert(*key, *value).contains_key(k) by {
                if before.contains_key(k) {
                    let j = choose|j: int| 0 <= j < old_entries.len() && old_entries[j].0 == k;
                    assert(self.entries@[j].0 == k);
                }
                if k == *key {
                    assert(self.entries@[old_entries.len() as int].0 == k);
                }
                if self.view().contains_key(k) && k != *key {
                    let j = choose|j: int| 0 <= j < self.entries@.len() && self.entries@[j].0 == k;
                    assert(old_entries[j].0 == k);
                }
            }
            assert forall|k: K| #[trigger] self.view().contains_key(k) implies self.view()[k] == before.insert(*key, *value)[k] by {
                let j = choose|j: int| 0 <= j < self.entries@.len() && self.entries@[j].0 == k;
                self.lemma_view_at(j);
                if k != *key {
                    assert(old_entries[j].0 == k);
                    let jj = choose|jj: int| 0 <= jj < old_entries.len() && old_entries[jj].0 == k;
                    if jj != j {
                        assert(self.entries@[jj].0 == k);
                        if jj < j {
                            assert(self.entries@[jj].0 != self.entries@[j].0);
                        } else {
                            assert(self.entries@[j].0 != self.entries@[jj].0);
                        }
                    }
                }
            }
            assert(self.view() =~= before.insert(*key, *value));
        }
    }
}

} // verus!
