//! An ordered key-value mapping from strings to strings.
//!
//! A [`Mapping`] holds each key at most once and remembers the order in which
//! keys first arrived. Contracts speak of it through two models: the sequence of
//! its entries, [`Mapping::pairs`], and the map from key to value, its view.

use vstd::prelude::*;
use crate::text::Text;

verus! {

/// True when some entry of `pairs` carries the key `key`.
pub open spec fn has_key(pairs: Seq<(Text, Text)>, key: Text) -> bool {
    exists|i: int| 0 <= i < pairs.len() && (#[trigger] pairs[i]).0 == key
}

/// An index at which `key` stands in `pairs`; the only one when keys are distinct.
pub open spec fn position(pairs: Seq<(Text, Text)>, key: Text) -> int {
    choose|i: int| 0 <= i < pairs.len() && (#[trigger] pairs[i]).0 == key
}

/// True when no two entries of `pairs` share a key.
pub open spec fn distinct_keys(pairs: Seq<(Text, Text)>) -> bool {
    forall|i: int, j: int|
        0 <= i < j < pairs.len() ==> (#[trigger] pairs[i]).0 != (#[trigger] pairs[j]).0
}

/// The map from each key of `pairs` to the value stored with it.
pub open spec fn map_of(pairs: Seq<(Text, Text)>) -> Map<Text, Text> {
    Map::new(|k: Text| has_key(pairs, k), |k: Text| pairs[position(pairs, k)].1)
}

/// `pairs` after `key` has been bound to `value`: an entry that already has the
/// key keeps its place and takes the new value, a new key goes to the end.
pub open spec fn put(pairs: Seq<(Text, Text)>, key: Text, value: Text) -> Seq<(Text, Text)> {
    if has_key(pairs, key) {
        pairs.update(position(pairs, key), (key, value))
    } else {
        pairs.push((key, value))
    }
}

/// `pairs` without the entry for `key`; unchanged when there is none.
pub open spec fn without(pairs: Seq<(Text, Text)>, key: Text) -> Seq<(Text, Text)> {
    if has_key(pairs, key) {
        pairs.remove(position(pairs, key))
    } else {
        pairs
    }
}

/// With distinct keys, the entry at index `i` is the one its key is found at.
pub proof fn lemma_position(pairs: Seq<(Text, Text)>, i: int)
    requires
        distinct_keys(pairs),
        0 <= i < pairs.len(),
    ensures
        has_key(pairs, pairs[i].0),
        position(pairs, pairs[i].0) == i,
        map_of(pairs).contains_key(pairs[i].0),
        map_of(pairs)[pairs[i].0] == pairs[i].1,
{
    let key = pairs[i].0;
    let p = position(pairs, key);
    assert(0 <= p < pairs.len() && pairs[p].0 == key);
    if p < i {
        assert(pairs[p].0 != pairs[i].0);
    } else if i < p {
        assert(pairs[i].0 != pairs[p].0);
    }
}

/// Binding a key behaves as `Map::insert` does, and keeps keys distinct.
pub proof fn lemma_put(pairs: Seq<(Text, Text)>, key: Text, value: Text)
    requires
        distinct_keys(pairs),
    ensures
        distinct_keys(put(pairs, key, value)),
        map_of(put(pairs, key, value)) == map_of(pairs).insert(key, value),
        has_key(put(pairs, key, value), key),
{
    let after = put(pairs, key, value);
    if has_key(pairs, key) {
        let p = position(pairs, key);
        assert(0 <= p < pairs.len() && pairs[p].0 == key);
        assert forall|i: int, j: int| 0 <= i < j < after.len() implies (#[trigger] after[i]).0 != (
        #[trigger] after[j]).0 by {
            assert(after[i].0 == pairs[i].0);
            assert(after[j].0 == pairs[j].0);
        }
        assert(after[p].0 == key);
    } else {
        assert forall|i: int, j: int| 0 <= i < j < after.len() implies (#[trigger] after[i]).0 != (
        #[trigger] after[j]).0 by {
            if j < pairs.len() {
                assert(after[i] == pairs[i]);
                assert(after[j] == pairs[j]);
            } else {
                assert(after[i] == pairs[i]);
                assert(after[j].0 == key);
            }
        }
        assert(after[pairs.len() as int].0 == key);
    }
    assert(has_key(after, key));
    assert forall|k: Text| #[trigger] map_of(after).contains_key(k) <==> map_of(pairs).insert(
        key,
        value,
    ).contains_key(k) by {
        if has_key(after, k) {
            let q = position(after, k);
            assert(0 <= q < after.len() && after[q].0 == k);
            if k != key {
                assert(q < pairs.len());
                assert(pairs[q].0 == k);
            }
        }
        if has_key(pairs, k) {
            let q = position(pairs, k);
            assert(0 <= q < pairs.len() && pairs[q].0 == k);
            assert(after[q].0 == k);
        }
    }
    assert forall|k: Text| #[trigger] map_of(after).contains_key(k) implies map_of(after)[k]
        == map_of(pairs).insert(key, value)[k] by {
        let q = position(after, k);
        assert(0 <= q < after.len() && after[q].0 == k);
        lemma_position(after, q);
        if k != key {
            assert(q < pairs.len());
            assert(pairs[q] == after[q]);
            lemma_position(pairs, q);
        }
    }
    assert(map_of(after) =~= map_of(pairs).insert(key, value));
}

/// Dropping a key behaves as `Map::remove` does, and keeps keys distinct.
pub proof fn lemma_without(pairs: Seq<(Text, Text)>, key: Text)
    requires
        distinct_keys(pairs),
    ensures
        distinct_keys(without(pairs, key)),
        map_of(without(pairs, key)) == map_of(pairs).remove(key),
        !has_key(without(pairs, key), key),
{
    let after = without(pairs, key);
    if has_key(pairs, key) {
        let p = position(pairs, key);
        assert(0 <= p < pairs.len() && pairs[p].0 == key);
        lemma_position(pairs, p);
        assert forall|i: int| 0 <= i < after.len() implies #[trigger] after[i] == pairs[if i
            < p {
            i
        } else {
            i + 1
        }] by {}
        assert forall|i: int, j: int| 0 <= i < j < after.len() implies (#[trigger] after[i]).0 != (
        #[trigger] after[j]).0 by {
            let a = if i < p { i } else { i + 1 };
            let b = if j < p { j } else { j + 1 };
            assert(after[i] == pairs[a]);
            assert(after[j] == pairs[b]);
            assert(pairs[a].0 != pairs[b].0);
        }
        assert forall|i: int| 0 <= i < after.len() implies (#[trigger] after[i]).0 != key by {
            let a = if i < p { i } else { i + 1 };
            assert(after[i] == pairs[a]);
            if a < p {
                assert(pairs[a].0 != pairs[p].0);
            } else {
                assert(pairs[p].0 != pairs[a].0);
            }
        }
        assert forall|k: Text| #[trigger] map_of(after).contains_key(k) <==> map_of(pairs).remove(
            key,
        ).contains_key(k) by {
            if has_key(after, k) {
                let q = position(after, k);
                assert(0 <= q < after.len() && after[q].0 == k);
                let a = if q < p { q } else { q + 1 };
                assert(after[q] == pairs[a]);
                assert(pairs[a].0 == k);
            }
            if has_key(pairs, k) && k != key {
                let q = position(pairs, k);
                assert(0 <= q < pairs.len() && pairs[q].0 == k);
                let a = if q < p { q } else { q - 1 };
                assert(after[a] == pairs[q]);
                assert(after[a].0 == k);
            }
        }
        assert forall|k: Text| #[trigger] map_of(after).contains_key(k) implies map_of(after)[k]
            == map_of(pairs).remove(key)[k] by {
            let q = position(after, k);
            assert(0 <= q < after.len() && after[q].0 == k);
            lemma_position(after, q);
            let a = if q < p { q } else { q + 1 };
            assert(after[q] == pairs[a]);
            lemma_position(pairs, a);
        }
    }
    assert(map_of(after) =~= map_of(pairs).remove(key));
}

/// `pairs` after each entry of `entries` has been bound in turn, so that of two
/// entries with one key the later gives the value.
pub open spec fn put_all(pairs: Seq<(Text, Text)>, entries: Seq<(Text, Text)>) -> Seq<(Text, Text)>
    decreases entries.len(),
{
    if entries.len() == 0 {
        pairs
    } else {
        put(put_all(pairs, entries.drop_last()), entries.last().0, entries.last().1)
    }
}

/// Entries with distinct keys, bound in turn from nothing, come out as they
/// went in: what a mapping hands out rebuilds that mapping.
pub proof fn lemma_entries_round_trip(entries: Seq<(Text, Text)>)
    requires
        distinct_keys(entries),
    ensures
        put_all(Seq::empty(), entries) == entries,
    decreases entries.len(),
{
    if entries.len() != 0 {
        let front = entries.drop_last();
        let n = front.len() as int;
        assert forall|i: int, j: int| 0 <= i < j < front.len() implies (#[trigger] front[i]).0 != (
        #[trigger] front[j]).0 by {
            assert(front[i] == entries[i]);
            assert(front[j] == entries[j]);
        }
        lemma_entries_round_trip(front);
        let key = entries.last().0;
        if has_key(front, key) {
            let p = position(front, key);
            assert(0 <= p < n && front[p].0 == key);
            assert(front[p] == entries[p]);
            assert(entries[p].0 != entries[n].0);
        }
        assert(front.push(entries.last()) =~= entries);
    }
}

/// An ordered mapping from string keys to string values, each key held once.
#[derive(Debug, PartialEq, Eq)]
pub struct Mapping {
    entries: Vec<(String, String)>,
}

impl Clone for Mapping {
    /// A mapping with the same entries in the same order.
    fn clone(&self) -> (copy: Mapping)
        ensures
            copy.pairs() == self.pairs(),
    {
        Mapping::from_entries(self.entries())
    }
}

impl View for Mapping {
    type V = Map<Text, Text>;

    /// The mapping as a map from key to value.
    open spec fn view(&self) -> Map<Text, Text> {
        map_of(self.pairs())
    }
}

impl Mapping {
    #[verifier::type_invariant]
    spec fn well_formed(&self) -> bool {
        distinct_keys(self.entries.deep_view())
    }

    /// The entries in the order in which their keys first arrived.
    pub closed spec fn pairs(&self) -> Seq<(Text, Text)> {
        self.entries.deep_view()
    }

    /// An empty mapping.
    pub fn new() -> (mapping: Mapping)
        ensures
            mapping.pairs() == Seq::<(Text, Text)>::empty(),
            mapping@ == Map::<Text, Text>::empty(),
    {
        let mapping = Mapping { entries: Vec::new() };
        assert(mapping.pairs() =~= Seq::<(Text, Text)>::empty());
        assert(mapping@ =~= Map::<Text, Text>::empty());
        mapping
    }

    /// The index of the entry for `key`, if there is one.
    fn find(&self, key: &str) -> (found: Option<usize>)
        ensures
            distinct_keys(self.pairs()),
            match found {
                Some(i) => i < self.pairs().len() && self.pairs()[i as int].0 == key@ && has_key(
                    self.pairs(),
                    key@,
                ) && position(self.pairs(), key@) == i,
                None => !has_key(self.pairs(), key@),
            },
    {
        proof {
            use_type_invariant(self);
        }
        let wanted = key.to_owned();
        let mut i: usize = 0;
        while i < self.entries.len()
            invariant
                i <= self.entries.len(),
                wanted@ == key@,
                distinct_keys(self.pairs()),
                forall|j: int| 0 <= j < i ==> (#[trigger] self.pairs()[j]).0 != key@,
            decreases self.entries.len() - i,
        {
            if self.entries[i].0 == wanted {
                proof {
                    lemma_position(self.pairs(), i as int);
                }
                return Some(i);
            }
            i += 1;
        }
        None
    }

    /// The value bound to `key`, if any.
    pub fn get(&self, key: &str) -> (value: Option<&String>)
        ensures
            match value {
                Some(v) => self@.contains_key(key@) && v@ == self@[key@],
                None => !self@.contains_key(key@),
            },
    {
        match self.find(key) {
            Some(i) => {
                proof {
                    lemma_position(self.pairs(), i as int);
                }
                Some(&self.entries[i].1)
            },
            None => None,
        }
    }

    /// Binds `key` to `value` and returns the value that `key` had before.
    pub fn insert(&mut self, key: String, value: String) -> (previous: Option<String>)
        ensures
            final(self).pairs() == put(old(self).pairs(), key@, value@),
            final(self)@ == old(self)@.insert(key@, value@),
            match previous {
                Some(v) => old(self)@.contains_key(key@) && v@ == old(self)@[key@],
                None => !old(self)@.contains_key(key@),
            },
    {
        let found = self.find(key.as_str());
        proof {
            lemma_put(self.pairs(), key@, value@);
        }
        let ghost before = self.pairs();
        let ghost k = key@;
        let ghost v = value@;
        let mut entries: Vec<(String, String)> = Vec::new();
        std::mem::swap(&mut self.entries, &mut entries);
        let previous = match found {
            Some(i) => {
                proof {
                    lemma_position(before, i as int);
                }
                let previous = entries[i].1.clone();
                entries.set(i, (key, value));
                assert(entries.deep_view() =~= before.update(i as int, (k, v)));
                Some(previous)
            },
            None => {
                entries.push((key, value));
                assert(entries.deep_view() =~= before.push((k, v)));
                None
            },
        };
        self.entries = entries;
        previous
    }

    /// Removes the entry for `key` and returns its value, if there was one.
    pub fn remove(&mut self, key: &str) -> (removed: Option<String>)
        ensures
            final(self).pairs() == without(old(self).pairs(), key@),
            final(self)@ == old(self)@.remove(key@),
            match removed {
                Some(v) => old(self)@.contains_key(key@) && v@ == old(self)@[key@],
                None => !old(self)@.contains_key(key@),
            },
    {
        let found = self.find(key);
        proof {
            lemma_without(self.pairs(), key@);
        }
        match found {
            Some(i) => {
                proof {
                    lemma_position(self.pairs(), i as int);
                }
                let ghost before = self.pairs();
                let mut entries: Vec<(String, String)> = Vec::new();
                std::mem::swap(&mut self.entries, &mut entries);
                let entry = entries.remove(i);
                assert(entries.deep_view() =~= before.remove(i as int));
                self.entries = entries;
                Some(entry.1)
            },
            None => None,
        }
    }

    /// The mapping made by binding each entry of `entries` in turn. Of two
    /// entries with one key, the first gives the place and the last the value.
    pub fn from_entries(entries: Vec<(String, String)>) -> (mapping: Mapping)
        ensures
            mapping.pairs() == put_all(Seq::empty(), entries.deep_view()),
            distinct_keys(entries.deep_view()) ==> mapping.pairs() == entries.deep_view(),
    {
        let mut mapping = Mapping::new();
        let mut i: usize = 0;
        while i < entries.len()
            invariant
                i <= entries.len(),
                mapping.pairs() == put_all(Seq::empty(), entries.deep_view().take(i as int)),
            decreases entries.len() - i,
        {
            let key = entries[i].0.clone();
            let value = entries[i].1.clone();
            proof {
                let next = entries.deep_view().take(i + 1);
                assert(next.drop_last() =~= entries.deep_view().take(i as int));
                assert(next.last() == (key@, value@));
            }
            mapping.insert(key, value);
            i += 1;
        }
        proof {
            assert(entries.deep_view().take(entries.len() as int) =~= entries.deep_view());
            if distinct_keys(entries.deep_view()) {
                lemma_entries_round_trip(entries.deep_view());
            }
        }
        mapping
    }

    /// The entries, in order, as owned pairs of key and value.
    pub fn entries(&self) -> (out: Vec<(String, String)>)
        ensures
            out.deep_view() == self.pairs(),
            distinct_keys(out.deep_view()),
            map_of(out.deep_view()) == self@,
    {
        proof {
            use_type_invariant(self);
        }
        let mut out: Vec<(String, String)> = Vec::new();
        let mut i: usize = 0;
        while i < self.entries.len()
            invariant
                i <= self.entries.len(),
                out.len() == i,
                forall|j: int| 0 <= j < i ==> (#[trigger] out@[j]).deep_view() == self.pairs()[j],
            decreases self.entries.len() - i,
        {
            let key = self.entries[i].0.clone();
            let value = self.entries[i].1.clone();
            out.push((key, value));
            i += 1;
        }
        assert(out.deep_view() =~= self.pairs());
        out
    }
}

} // verus!
