//! A small verified map from identifiers to values.
//!
//! The aggregate keys every collection it owns (members, locations,
//! departments, ...) by a 128-bit identifier. `IdMap` stores entries in a
//! vector with pairwise-distinct keys and is viewed abstractly as a
//! `Map<u128, V::V>`, so contracts throughout the crate speak in terms of
//! mathematical maps.

use vstd::prelude::*;

verus! {

/// Keys of an entry sequence are pairwise distinct.
pub open spec fn unique_keys<V>(s: Seq<(u128, V)>) -> bool {
    forall|i: int, j: int| 0 <= i < j < s.len() ==> (#[trigger] s[i]).0 != (#[trigger] s[j]).0
}

/// The map denoted by an entry sequence; a later entry for a key wins.
pub open spec fn map_of<V: View>(s: Seq<(u128, V)>) -> Map<u128, V::V>
    decreases s.len(),
{
    if s.len() == 0 {
        Map::empty()
    } else {
        map_of(s.drop_last()).insert(s.last().0, s.last().1@)
    }
}

/// With distinct keys, `map_of` contains exactly the entries' keys, maps each
/// key to its entry's view, and its domain is as large as the sequence.
pub proof fn lemma_map_of_unique<V: View>(s: Seq<(u128, V)>)
    requires
        unique_keys(s),
    ensures
        forall|k: u128|
            map_of(s).contains_key(k) <==> exists|i: int| 0 <= i < s.len() && (#[trigger] s[i]).0 == k,
        forall|i: int|
            0 <= i < s.len() ==> map_of(s).contains_key((#[trigger] s[i]).0)
                && map_of(s)[s[i].0] == s[i].1@,
        map_of(s).dom().finite(),
        map_of(s).dom().len() == s.len(),
    decreases s.len(),
{
    if s.len() > 0 {
        let prefix = s.drop_last();
        lemma_map_of_unique(prefix);
        assert forall|i: int| 0 <= i < s.len() implies map_of(s).contains_key((#[trigger] s[i]).0)
            && map_of(s)[s[i].0] == s[i].1@ by {
            if i < s.len() - 1 {
                assert(s[i] == prefix[i]);
                assert(s[i].0 != s.last().0);
            }
        }
        assert(!map_of(prefix).contains_key(s.last().0));
        assert(map_of(s).dom() =~= map_of(prefix).dom().insert(s.last().0));
        vstd::set::axiom_set_insert_len(map_of(prefix).dom(), s.last().0);
    }
}

/// Removing the entry at a position removes exactly its key from the map.
pub proof fn lemma_map_of_remove_entry<V: View>(s: Seq<(u128, V)>, i: int)
    requires
        unique_keys(s),
        0 <= i < s.len(),
    ensures
        unique_keys(s.remove(i)),
        map_of(s.remove(i)) == map_of(s).remove(s[i].0),
{
    let t = s.remove(i);
    let key = s[i].0;
    assert(unique_keys(t)) by {
        assert(forall|j: int|
            0 <= j < t.len() ==> #[trigger] t[j] == if j < i { s[j] } else { s[j + 1] });
    }
    lemma_map_of_unique(s);
    lemma_map_of_unique(t);
    assert forall|k: u128| map_of(t).contains_key(k)
        implies k != key && map_of(s).contains_key(k) && map_of(s)[k] == map_of(t)[k] by {
        let j = choose|j: int| 0 <= j < t.len() && (#[trigger] t[j]).0 == k;
        let w: int = if j < i { j } else { j + 1 };
        assert(s[w] == t[j]);
    }
    assert forall|k: u128| map_of(s).contains_key(k) && k != key
        implies map_of(t).contains_key(k) by {
        let j = choose|j: int| 0 <= j < s.len() && (#[trigger] s[j]).0 == k;
        let w: int = if j < i { j } else { j - 1 };
        assert(t[w] == s[j]);
    }
    assert(map_of(t) =~= map_of(s).remove(key));
}

/// A map from 128-bit identifiers to values, backed by a vector of entries
/// with pairwise-distinct keys.
#[derive(Debug)]
pub struct IdMap<V> {
    entries: Vec<(u128, V)>,
}

impl<V: View> View for IdMap<V> {
    type V = Map<u128, V::V>;

    closed spec fn view(&self) -> Map<u128, <V as View>::V> {
        map_of(self.entries@)
    }
}

impl<V> IdMap<V> {
    #[verifier::type_invariant]
    spec fn wf(self) -> bool {
        unique_keys(self.entries@)
    }
}

impl<V: View> IdMap<V> {
    /// The key of the entry at a position; positions run from 0 to the size
    /// of the map's domain.
    pub closed spec fn spec_key_at(self, i: int) -> u128 {
        self.entries@[i].0
    }

    /// An empty map.
    pub fn new() -> (r: Self)
        ensures
            r@ == Map::<u128, V::V>::empty(),
    {
        IdMap { entries: Vec::new() }
    }

    /// The number of entries.
    pub fn len(&self) -> (r: usize)
        ensures
            r == self@.dom().len(),
    {
        proof {
            use_type_invariant(&*self);
            lemma_map_of_unique(self.entries@);
        }
        self.entries.len()
    }

    /// Whether the map holds no entry.
    pub fn is_empty(&self) -> (r: bool)
        ensures
            r == (self@.dom().len() == 0),
    {
        proof {
            use_type_invariant(&*self);
            lemma_map_of_unique(self.entries@);
        }
        self.entries.len() == 0
    }

    /// Position of the entry with the given key, if any.
    fn find_index(&self, key: u128) -> (r: Option<usize>)
        ensures
            match r {
                Some(i) => i < self.entries@.len() && self.entries@[i as int].0 == key,
                None => forall|i: int|
                    0 <= i < self.entries@.len() ==> (#[trigger] self.entries@[i]).0 != key,
            },
    {
        let n = self.entries.len();
        for i in 0..n
            invariant
                n == self.entries@.len(),
                forall|j: int| 0 <= j < i ==> (#[trigger] self.entries@[j]).0 != key,
        {
            if self.entries[i].0 == key {
                return Some(i);
            }
        }
        None
    }

    /// Whether the map holds an entry for the key.
    pub fn contains_key(&self, key: u128) -> (r: bool)
        ensures
            r == self@.contains_key(key),
    {
        proof {
            use_type_invariant(&*self);
            lemma_map_of_unique(self.entries@);
        }
        self.find_index(key).is_some()
    }

    /// The value stored under the key, if any.
    pub fn get(&self, key: u128) -> (r: Option<&V>)
        ensures
            match r {
                Some(v) => self@.contains_key(key) && v@ == self@[key],
                None => !self@.contains_key(key),
            },
    {
        proof {
            use_type_invariant(&*self);
            lemma_map_of_unique(self.entries@);
        }
        match self.find_index(key) {
            Some(i) => Some(&self.entries[i].1),
            None => None,
        }
    }

    /// Store a value under a key, replacing any previous value.
    pub fn insert(&mut self, key: u128, value: V)
        ensures
            final(self)@ == old(self)@.insert(key, value@),
    {
        proof {
            use_type_invariant(&*self);
            lemma_map_of_unique(self.entries@);
        }
        let ghost old_entries = self.entries@;
        let found = self.find_index(key);
        let mut es: Vec<(u128, V)> = Vec::new();
        core::mem::swap(&mut es, &mut self.entries);
        let ghost pre: Seq<(u128, V)>;
        match found {
            Some(i) => {
                es.remove(i);
                proof {
                    lemma_map_of_remove_entry(old_entries, i as int);
                    pre = es@;
                    lemma_map_of_unique(pre);
                    assert(map_of(pre) == old(self)@.remove(key));
                    assert(forall|j: int|
                        0 <= j < pre.len() ==> (#[trigger] pre[j]).0 != key);
                }
                es.push((key, value));
            },
            None => {
                proof {
                    pre = es@;
                    assert(map_of(pre) == old(self)@);
                    assert(!old(self)@.contains_key(key));
                }
                es.push((key, value));
            },
        }
        proof {
            assert(es@.drop_last() =~= pre);
            assert(unique_keys(es@)) by {
                assert(forall|j: int| 0 <= j < pre.len() ==> #[trigger] es@[j] == pre[j]);
                assert(es@.last().0 == key);
            }
        }
        self.entries = es;
        proof {
            assert(self@ == map_of(pre).insert(key, value@));
            assert(self@ =~= old(self)@.insert(key, value@));
        }
    }

    /// Remove and return the value stored under a key.
    pub fn remove(&mut self, key: u128) -> (r: Option<V>)
        ensures
            final(self)@ == old(self)@.remove(key),
            match r {
                Some(v) => old(self)@.contains_key(key) && v@ == old(self)@[key],
                None => !old(self)@.contains_key(key),
            },
    {
        proof {
            use_type_invariant(&*self);
            lemma_map_of_unique(self.entries@);
        }
        let ghost old_entries = self.entries@;
        let found = self.find_index(key);
        match found {
            Some(i) => {
                let mut es: Vec<(u128, V)> = Vec::new();
                core::mem::swap(&mut es, &mut self.entries);
                let entry = es.remove(i);
                proof {
                    lemma_map_of_remove_entry(old_entries, i as int);
                }
                self.entries = es;
                Some(entry.1)
            },
            None => {
                proof {
                    assert(self@ =~= old(self)@.remove(key));
                }
                None
            },
        }
    }

    /// Remove every entry.
    pub fn clear(&mut self)
        ensures
            final(self)@ == Map::<u128, V::V>::empty(),
    {
        self.entries = Vec::new();
    }

    /// The entry at a position; positions enumerate the whole map.
    pub fn entry_at(&self, i: usize) -> (r: (u128, &V))
        requires
            i < self@.dom().len(),
        ensures
            r.0 == self.spec_key_at(i as int),
            self@.contains_key(r.0),
            r.1@ == self@[r.0],
    {
        proof {
            use_type_invariant(&*self);
            lemma_map_of_unique(self.entries@);
        }
        let entry = &self.entries[i];
        (entry.0, &entry.1)
    }

    /// Establishes the facts linking positions to the map: positions
    /// enumerate the domain without repetition.
    pub fn positions_cover_domain(&self)
        ensures
            forall|k: u128|
                self@.contains_key(k) <==> exists|i: int|
                    0 <= i < self@.dom().len() && self.spec_key_at(i) == k,
            forall|i: int, j: int|
                0 <= i < j < self@.dom().len() ==> self.spec_key_at(i) != self.spec_key_at(j),
            forall|i: int|
                0 <= i < self@.dom().len() ==> self@.contains_key(#[trigger] self.spec_key_at(i)),
    {
        proof {
            use_type_invariant(&*self);
            lemma_map_of_unique(self.entries@);
            assert forall|k: u128| self@.contains_key(k)
                implies exists|i: int|
                    0 <= i < self@.dom().len() && self.spec_key_at(i) == k by {
                let i = choose|i: int|
                    0 <= i < self.entries@.len() && (#[trigger] self.entries@[i]).0 == k;
                assert(self.spec_key_at(i) == k);
            }
            assert forall|i: int| 0 <= i < self@.dom().len()
                implies self@.contains_key(#[trigger] self.spec_key_at(i)) by {
                assert(self.spec_key_at(i) == (self.entries@[i]).0);
            }
            assert forall|i: int, j: int| 0 <= i < j < self@.dom().len()
                implies self.spec_key_at(i) != self.spec_key_at(j) by {
                assert((self.entries@[i]).0 != (self.entries@[j]).0);
            }
        }
    }
}

} // verus!
