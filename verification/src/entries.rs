//! Ledger entries of one kind, found by key.
use vstd::prelude::*;

use crate::shared::Address;

verus! {

/// A value that names a ledger entry.
pub trait Key: Sized {
    /// Whether two keys name the same entry.
    fn same(&self, other: &Self) -> (r: bool)
        ensures
            r == (*self == *other),
    ;
}

impl Key for u64 {
    fn same(&self, other: &Self) -> (r: bool) {
        *self == *other
    }
}

impl Key for (u64, u32) {
    fn same(&self, other: &Self) -> (r: bool) {
        self.0 == other.0 && self.1 == other.1
    }
}

impl Key for (u64, Address) {
    fn same(&self, other: &Self) -> (r: bool) {
        self.0 == other.0 && self.1 == other.1
    }
}

/// The map that a list of pairs stands for; a later pair shadows an earlier one.
pub open spec fn pairs_to_map<K, V>(s: Seq<(K, V)>) -> Map<K, V>
    decreases s.len(),
{
    if s.len() == 0 {
        Map::empty()
    } else {
        pairs_to_map(s.drop_last()).insert(s.last().0, s.last().1)
    }
}

proof fn lemma_absent<K, V>(s: Seq<(K, V)>, key: K)
    requires
        forall|i: int| 0 <= i < s.len() ==> s[i].0 != key,
    ensures
        !pairs_to_map(s).contains_key(key),
    decreases s.len(),
{
    if s.len() > 0 {
        assert(s.last().0 != key);
        assert forall|i: int| 0 <= i < s.drop_last().len() implies s.drop_last()[i].0 != key by {
            assert(s[i].0 != key);
        }
        lemma_absent(s.drop_last(), key);
    }
}

proof fn lemma_last_occurrence<K, V>(s: Seq<(K, V)>, at: int)
    requires
        0 <= at < s.len(),
        forall|i: int| at < i < s.len() ==> s[i].0 != s[at].0,
    ensures
        pairs_to_map(s).contains_key(s[at].0),
        pairs_to_map(s)[s[at].0] == s[at].1,
    decreases s.len(),
{
    if at < s.len() - 1 {
        assert(s.last().0 != s[at].0);
        assert forall|i: int| at < i < s.drop_last().len() implies s.drop_last()[i].0
            != s.drop_last()[at].0 by {
            assert(s[i].0 != s[at].0);
        }
        lemma_last_occurrence(s.drop_last(), at);
    }
}

proof fn lemma_overwrite<K, V>(s: Seq<(K, V)>, at: int, value: V)
    requires
        0 <= at < s.len(),
        forall|i: int| at < i < s.len() ==> s[i].0 != s[at].0,
    ensures
        pairs_to_map(s.update(at, (s[at].0, value))) == pairs_to_map(s).insert(s[at].0, value),
    decreases s.len(),
{
    let key = s[at].0;
    let t = s.update(at, (key, value));
    if at == s.len() - 1 {
        assert(t.drop_last() == s.drop_last());
        assert(pairs_to_map(t) =~= pairs_to_map(s).insert(key, value));
    } else {
        assert(s.last().0 != key);
        assert forall|i: int| at < i < s.drop_last().len() implies s.drop_last()[i].0
            != s.drop_last()[at].0 by {
            assert(s[i].0 != s[at].0);
        }
        lemma_overwrite(s.drop_last(), at, value);
        assert(t.drop_last() == s.drop_last().update(at, (key, value)));
        assert(pairs_to_map(t) =~= pairs_to_map(s).insert(key, value));
    }
}

proof fn lemma_erase<K, V>(s: Seq<(K, V)>, at: int)
    requires
        0 <= at < s.len(),
    ensures
        pairs_to_map(s.remove(at)).remove(s[at].0) == pairs_to_map(s).remove(s[at].0),
    decreases s.len(),
{
    let key = s[at].0;
    let t = s.remove(at);
    if at == s.len() - 1 {
        assert(t == s.drop_last());
        assert(pairs_to_map(t).remove(key) =~= pairs_to_map(s).remove(key));
    } else {
        lemma_erase(s.drop_last(), at);
        assert(t.drop_last() == s.drop_last().remove(at));
        assert(t.last() == s.last());
        let a = pairs_to_map(t.drop_last());
        let b = pairs_to_map(s.drop_last());
        let (k, v) = s.last();
        assert(a.insert(k, v).remove(key) =~= if k == key {
            a.remove(key)
        } else {
            a.remove(key).insert(k, v)
        });
        assert(b.insert(k, v).remove(key) =~= if k == key {
            b.remove(key)
        } else {
            b.remove(key).insert(k, v)
        });
    }
}

/// A keyed store of ledger entries.
#[derive(Debug, Clone)]
#[verifier::reject_recursive_types(K)]
pub struct Entries<K, V> {
    items: Vec<(K, V)>,
}

impl<K, V> View for Entries<K, V> {
    type V = Map<K, V>;

    closed spec fn view(&self) -> Map<K, V> {
        pairs_to_map(self.items@)
    }
}

impl<K: Key, V> Entries<K, V> {
    /// A store without entries.
    pub fn new() -> (r: Self)
        ensures
            r@ == Map::<K, V>::empty(),
    {
        Entries { items: Vec::new() }
    }

    fn find(&self, key: &K) -> (r: Option<usize>)
        ensures
            match r {
                Some(at) => {
                    &&& at < self.items@.len()
                    &&& self.items@[at as int].0 == *key
                    &&& forall|i: int| at < i < self.items@.len() ==> self.items@[i].0 != *key
                    &&& self@.contains_key(*key)
                    &&& self@[*key] == self.items@[at as int].1
                },
                None => !self@.contains_key(*key),
            },
    {
        let mut i: usize = self.items.len();
        while i > 0
            invariant
                i <= self.items@.len(),
                forall|j: int| i <= j < self.items@.len() ==> self.items@[j].0 != *key,
            decreases i,
        {
            i = i - 1;
            if self.items[i].0.same(key) {
                proof {
                    lemma_last_occurrence(self.items@, i as int);
                }
                return Some(i);
            }
        }
        proof {
            lemma_absent(self.items@, *key);
        }
        None
    }

    /// The entry under `key`, if there is one.
    pub fn get(&self, key: &K) -> (r: Option<&V>)
        ensures
            match r {
                Some(value) => self@.contains_key(*key) && *value == self@[*key],
                None => !self@.contains_key(*key),
            },
    {
        match self.find(key) {
            Some(at) => Some(&self.items[at].1),
            None => None,
        }
    }

    /// Writes `value` under `key`, replacing what was there.
    pub fn set(&mut self, key: K, value: V)
        ensures
            final(self)@ == old(self)@.insert(key, value),
    {
        match self.find(&key) {
            Some(at) => {
                proof {
                    lemma_overwrite(self.items@, at as int, value);
                }
                self.items.set(at, (key, value));
            },
            None => {
                self.items.push((key, value));
                assert(self.items@.drop_last() == old(self).items@);
            },
        }
    }

    /// Drops the entry under `key`, if there is one.
    pub fn remove(&mut self, key: &K)
        ensures
            final(self)@ == old(self)@.remove(*key),
    {
        let mut i: usize = self.items.len();
        while i > 0
            invariant
                i <= self.items@.len(),
                forall|j: int| i <= j < self.items@.len() ==> self.items@[j].0 != *key,
                pairs_to_map(self.items@).remove(*key) == old(self)@.remove(*key),
            decreases i,
        {
            i = i - 1;
            if self.items[i].0.same(key) {
                proof {
                    lemma_erase(self.items@, i as int);
                }
                self.items.remove(i);
            }
        }
        proof {
            lemma_absent(self.items@, *key);
        }
        assert(pairs_to_map(self.items@) =~= pairs_to_map(self.items@).remove(*key));
    }
}

} // verus!
