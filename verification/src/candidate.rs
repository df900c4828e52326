//! Reference implementation of the collection API that the grader exercises:
//! a string key-value map with last-write-wins semantics and an append/pop
//! byte sequence.

use vstd::prelude::*;

verus! {

/// One stored key/value pair of the lookup map.
pub struct MapEntry {
    pub key: String,
    pub value: String,
}

/// The map described by a sequence of stored entries: later entries win.
pub open spec fn entries_map(entries: Seq<MapEntry>) -> Map<Seq<char>, Seq<char>>
    decreases entries.len(),
{
    if entries.len() == 0 {
        Map::empty()
    } else {
        entries_map(entries.drop_last()).insert(entries.last().key@, entries.last().value@)
    }
}

/// The value the map reports for a key that was never stored.
pub open spec fn not_found_sentinel() -> Seq<char> {
    "No Value Found"@
}

/// What a map read returns: the stored value, or the sentinel for an absent key.
pub open spec fn map_lookup(m: Map<Seq<char>, Seq<char>>, key: Seq<char>) -> Seq<char> {
    if m.contains_key(key) {
        m[key]
    } else {
        not_found_sentinel()
    }
}

/// What one pop returns: the tail element, or 0 when the sequence is empty.
pub open spec fn pop_value(s: Seq<u8>) -> u8 {
    if s.len() > 0 {
        s.last()
    } else {
        0
    }
}

/// The sequence left behind by one pop.
pub open spec fn pop_rest(s: Seq<u8>) -> Seq<u8> {
    if s.len() > 0 {
        s.drop_last()
    } else {
        s
    }
}

/// The values returned by `n` successive pops, in the order they come out.
pub open spec fn pops(s: Seq<u8>, n: nat) -> Seq<u8>
    decreases n,
{
    if n == 0 {
        Seq::empty()
    } else {
        seq![pop_value(s)] + pops(pop_rest(s), (n - 1) as nat)
    }
}

/// The sequence left behind by `n` successive pops.
pub open spec fn pops_rest(s: Seq<u8>, n: nat) -> Seq<u8>
    decreases n,
{
    if n == 0 {
        s
    } else {
        pops_rest(pop_rest(s), (n - 1) as nat)
    }
}

/// A bulk replacement clears the stored sequence, then appends every element
/// of the input in order.
pub open spec fn replace_all(prior: Seq<u8>, input: Seq<u8>) -> Seq<u8> {
    prior.take(0) + input
}

/// The candidate reference store: the map and the sequence the grader checks.
pub struct Contract {
    pub test_lookup_map: Vec<MapEntry>,
    pub test_vector: Vec<u8>,
}

impl Contract {
    /// The key-value map currently stored.
    pub open spec fn map_view(&self) -> Map<Seq<char>, Seq<char>> {
        entries_map(self.test_lookup_map@)
    }

    /// The byte sequence currently stored.
    pub open spec fn seq_view(&self) -> Seq<u8> {
        self.test_vector@
    }

    /// Returns the value stored under `key`, or the "No Value Found" sentinel.
    pub fn get_from_map(&self, key: String) -> (r: String)
        ensures
            r@ == map_lookup(self.map_view(), key@),
    {
        let entries = &self.test_lookup_map;
        let mut i: usize = entries.len();
        proof {
            assert(entries@.take(i as int) =~= entries@);
        }
        while i > 0
            invariant
                i <= entries.len(),
                entries == &self.test_lookup_map,
                map_lookup(entries_map(entries@.take(i as int)), key@) == map_lookup(
                    self.map_view(),
                    key@,
                ),
            decreases i,
        {
            i = i - 1;
            proof {
                assert(entries@.take(i + 1).drop_last() =~= entries@.take(i as int));
                assert(entries@.take(i + 1).last() == entries@[i as int]);
            }
            let e = &entries[i];
            if e.key == key {
                return e.value.clone();
            }
        }
        proof {
            assert(entries@.take(0) =~= Seq::<MapEntry>::empty());
        }
        String::from_str("No Value Found")
    }

    /// Stores `value` under `key`, overwriting any earlier value for that key.
    pub fn add_to_map(&mut self, key: String, value: String)
        ensures
            final(self).map_view() == old(self).map_view().insert(key@, value@),
            final(self).seq_view() == old(self).seq_view(),
    {
        let entry = MapEntry { key, value };
        self.test_lookup_map.push(entry);
        proof {
            assert(self.test_lookup_map@.drop_last() =~= old(self).test_lookup_map@);
            assert(self.test_lookup_map@.last() == entry);
        }
    }

    /// Appends one byte at the tail of the sequence.
    pub fn add_to_vector(&mut self, value: u8)
        ensures
            final(self).seq_view() == old(self).seq_view().push(value),
            final(self).map_view() == old(self).map_view(),
    {
        self.test_vector.push(value);
    }

    /// Removes and returns the tail element, or returns 0 when the sequence is
    /// empty (leaving it empty).
    pub fn vector_pop_test(&mut self) -> (r: u8)
        ensures
            r == pop_value(old(self).seq_view()),
            final(self).seq_view() == pop_rest(old(self).seq_view()),
            final(self).map_view() == old(self).map_view(),
    {
        match self.test_vector.pop() {
            Some(v) => v,
            None => 0,
        }
    }

    /// Clears the sequence, then appends every element of `vec_to_add` in order.
    pub fn vector_multi_add(&mut self, vec_to_add: Vec<u8>)
        ensures
            final(self).seq_view() == replace_all(old(self).seq_view(), vec_to_add@),
            final(self).map_view() == old(self).map_view(),
    {
        self.test_vector.clear();
        let mut i: usize = 0;
        while i < vec_to_add.len()
            invariant
                i <= vec_to_add.len(),
                self.test_vector@ == vec_to_add@.take(i as int),
                self.test_lookup_map == old(self).test_lookup_map,
            decreases vec_to_add.len() - i,
        {
            self.test_vector.push(vec_to_add[i]);
            proof {
                assert(vec_to_add@.take(i as int).push(vec_to_add@[i as int]) =~= vec_to_add@.take(
                    i + 1,
                ));
            }
            i = i + 1;
        }
        proof {
            assert(vec_to_add@.take(vec_to_add@.len() as int) =~= vec_to_add@);
            assert(replace_all(old(self).seq_view(), vec_to_add@) =~= vec_to_add@);
        }
    }

    /// Returns a full ordered copy of the stored sequence.
    pub fn get_full_array_test(&self) -> (r: Vec<u8>)
        ensures
            r@ == self.seq_view(),
    {
        let mut out: Vec<u8> = Vec::new();
        let mut i: usize = 0;
        while i < self.test_vector.len()
            invariant
                i <= self.test_vector.len(),
                out@ == self.test_vector@.take(i as int),
            decreases self.test_vector.len() - i,
        {
            out.push(self.test_vector[i]);
            proof {
                assert(self.test_vector@.take(i as int).push(self.test_vector@[i as int])
                    =~= self.test_vector@.take(i + 1));
            }
            i = i + 1;
        }
        proof {
            assert(self.test_vector@.take(self.test_vector@.len() as int) =~= self.test_vector@);
        }
        out
    }
}

impl Default for Contract {
    /// A fresh store: empty map, empty sequence.
    fn default() -> (r: Contract)
        ensures
            r.map_view() == Map::<Seq<char>, Seq<char>>::empty(),
            r.seq_view() == Seq::<u8>::empty(),
    {
        Contract { test_lookup_map: Vec::new(), test_vector: Vec::new() }
    }
}

/// Law: a value just stored under a key is exactly what a lookup of that key
/// reports afterwards.
pub proof fn lemma_map_put_get(m: Map<Seq<char>, Seq<char>>, key: Seq<char>, value: Seq<char>)
    ensures
        map_lookup(m.insert(key, value), key) == value,
{
}

/// Law: storing twice under one key keeps only the later value: a lookup of
/// that key reports the last write.
pub proof fn lemma_map_last_write_wins(
    m: Map<Seq<char>, Seq<char>>,
    key: Seq<char>,
    first: Seq<char>,
    second: Seq<char>,
)
    ensures
        map_lookup(m.insert(key, first).insert(key, second), key) == second,
{
}

/// Law: a key that was never stored maps to the "No Value Found" sentinel.
pub proof fn lemma_map_absent_sentinel(m: Map<Seq<char>, Seq<char>>, key: Seq<char>)
    requires
        !m.contains_key(key),
    ensures
        map_lookup(m, key) == not_found_sentinel(),
{
}

/// Law: after appending the elements of `appended` at the tail of `s`, that
/// many pops return exactly the appended elements in reverse append order and
/// leave `s` behind.
pub proof fn lemma_pops_reverse_appends(s: Seq<u8>, appended: Seq<u8>)
    ensures
        pops(s + appended, appended.len()) == appended.reverse(),
        pops_rest(s + appended, appended.len()) == s,
    decreases appended.len(),
{
    if appended.len() == 0 {
        assert(s + appended =~= s);
        assert(pops(s + appended, 0) =~= appended.reverse());
    } else {
        let whole = s + appended;
        assert(whole.len() > 0);
        assert(whole.last() == appended.last());
        assert(whole.drop_last() =~= s + appended.drop_last());
        lemma_pops_reverse_appends(s, appended.drop_last());
        assert(pops(whole, appended.len()) =~= seq![appended.last()] + appended.drop_last()
            .reverse());
        assert(seq![appended.last()] + appended.drop_last().reverse() =~= appended.reverse());
    }
}

/// Law: one pop of an empty sequence returns 0 and leaves it empty.
pub proof fn lemma_pop_empty()
    ensures
        pop_value(Seq::<u8>::empty()) == 0,
        pop_rest(Seq::<u8>::empty()) == Seq::<u8>::empty(),
{
}

/// Law: a bulk replacement discards all prior contents: a snapshot taken after
/// `vector_multi_add(input)` is exactly `input`, whatever was stored before.
pub proof fn lemma_replace_all_discards_prior(prior: Seq<u8>, input: Seq<u8>)
    ensures
        replace_all(prior, input) == input,
{
    assert(replace_all(prior, input) =~= input);
}

} // verus!
