//! The data that goes into a model and comes out of it: byte payloads under
//! unique keys.
use vstd::prelude::*;

verus! {

/// One payload with its key.
#[derive(Debug, Clone, PartialEq, Eq)]
pub struct Entry {
    pub key: String,
    pub value: Vec<u8>,
}

/// The keys and payloads of a list of entries.
pub open spec fn entry_pairs(entries: Seq<Entry>) -> Seq<(Seq<char>, Seq<u8>)> {
    entries.map_values(|e: Entry| (e.key@, e.value@))
}

/// Whether no key occurs twice in `pairs`.
pub open spec fn distinct_keys(pairs: Seq<(Seq<char>, Seq<u8>)>) -> bool {
    forall|i: int, j: int|
        0 <= i < j < pairs.len() ==> (#[trigger] pairs[i]).0 != (#[trigger] pairs[j]).0
}

/// Whether `key` occurs in `pairs`.
pub open spec fn has_key(pairs: Seq<(Seq<char>, Seq<u8>)>, key: Seq<char>) -> bool {
    exists|i: int| 0 <= i < pairs.len() && (#[trigger] pairs[i]).0 == key
}

/// A place at which `key` occurs in `pairs`.
pub open spec fn index_of_key(pairs: Seq<(Seq<char>, Seq<u8>)>, key: Seq<char>) -> int {
    choose|i: int| 0 <= i < pairs.len() && (#[trigger] pairs[i]).0 == key
}

/// `pairs` with `value` under `key`: in the place of the key where it occurs
/// already, else at the end.
pub open spec fn pairs_insert(
    pairs: Seq<(Seq<char>, Seq<u8>)>,
    key: Seq<char>,
    value: Seq<u8>,
) -> Seq<(Seq<char>, Seq<u8>)> {
    if has_key(pairs, key) {
        pairs.update(index_of_key(pairs, key), (key, value))
    } else {
        pairs.push((key, value))
    }
}

/// The mapping that `pairs` describes.
pub open spec fn pairs_map(pairs: Seq<(Seq<char>, Seq<u8>)>) -> Map<Seq<char>, Seq<u8>>
    decreases pairs.len(),
{
    if pairs.len() == 0 {
        Map::empty()
    } else {
        pairs_map(pairs.drop_last()).insert(pairs.last().0, pairs.last().1)
    }
}

/// The sum of the lengths of the payloads in `pairs`.
pub open spec fn pairs_size(pairs: Seq<(Seq<char>, Seq<u8>)>) -> nat
    decreases pairs.len(),
{
    if pairs.len() == 0 {
        0
    } else {
        pairs_size(pairs.drop_last()) + pairs.last().1.len()
    }
}

/// What the mapping of pairs with distinct keys holds: exactly the keys of
/// the pairs, each with its payload.
pub proof fn lemma_pairs_map(pairs: Seq<(Seq<char>, Seq<u8>)>)
    requires
        distinct_keys(pairs),
    ensures
        forall|key: Seq<char>| #[trigger]
            pairs_map(pairs).contains_key(key) <==> has_key(pairs, key),
        forall|i: int|
            0 <= i < pairs.len() ==> pairs_map(pairs)[(#[trigger] pairs[i]).0] == pairs[i].1,
        pairs_map(pairs).dom().finite(),
        pairs_map(pairs).len() == pairs.len(),
    decreases pairs.len(),
{
    if pairs.len() > 0 {
        let front = pairs.drop_last();
        let last = pairs.last();
        assert forall|i: int, j: int| 0 <= i < j < front.len() implies (#[trigger] front[i]).0 != (
        #[trigger] front[j]).0 by {
            assert(front[i] == pairs[i] && front[j] == pairs[j]);
        }
        lemma_pairs_map(front);
        assert(!has_key(front, last.0)) by {
            if has_key(front, last.0) {
                let i = index_of_key(front, last.0);
                assert(pairs[i] == front[i]);
                assert(pairs[pairs.len() - 1] == last);
            }
        }
        assert forall|key: Seq<char>| #[trigger]
            pairs_map(pairs).contains_key(key) <==> has_key(pairs, key) by {
            if has_key(pairs, key) {
                let i = index_of_key(pairs, key);
                if i < front.len() {
                    assert(front[i] == pairs[i]);
                    assert(has_key(front, key));
                }
            }
            if pairs_map(pairs).contains_key(key) {
                if key == last.0 {
                    assert(pairs[pairs.len() - 1].0 == key);
                } else {
                    assert(has_key(front, key));
                    let i = index_of_key(front, key);
                    assert(pairs[i] == front[i]);
                }
            }
        }
        assert forall|i: int| 0 <= i < pairs.len() implies pairs_map(pairs)[(
        #[trigger] pairs[i]).0] == pairs[i].1 by {
            if i < front.len() {
                assert(front[i] == pairs[i]);
                assert(pairs[pairs.len() - 1] == last);
            }
        }
    }
}

/// Putting a payload under a key keeps the keys distinct and changes the
/// mapping at that key alone.
pub proof fn lemma_pairs_insert(pairs: Seq<(Seq<char>, Seq<u8>)>, key: Seq<char>, value: Seq<u8>)
    requires
        distinct_keys(pairs),
    ensures
        distinct_keys(pairs_insert(pairs, key, value)),
        pairs_map(pairs_insert(pairs, key, value)) == pairs_map(pairs).insert(key, value),
{
    let after = pairs_insert(pairs, key, value);
    if has_key(pairs, key) {
        let at = index_of_key(pairs, key);
        assert forall|i: int, j: int| 0 <= i < j < after.len() implies (#[trigger] after[i]).0 != (
        #[trigger] after[j]).0 by {
            assert(after[i].0 == pairs[i].0 && after[j].0 == pairs[j].0);
        }
    } else {
        assert forall|i: int, j: int| 0 <= i < j < after.len() implies (#[trigger] after[i]).0 != (
        #[trigger] after[j]).0 by {
            assert(after[i] == pairs[i]);
            if j < pairs.len() {
                assert(after[j] == pairs[j]);
            }
        }
    }
    lemma_pairs_map(pairs);
    lemma_pairs_map(after);
    let expected = pairs_map(pairs).insert(key, value);
    assert forall|k: Seq<char>| pairs_map(after).contains_key(k) <==> expected.contains_key(
        k,
    ) by {
        if has_key(after, k) {
            let i = index_of_key(after, k);
            if k != key {
                assert(after[i] == pairs[i]);
                assert(has_key(pairs, k));
            }
        }
        if has_key(pairs, k) {
            let i = index_of_key(pairs, k);
            assert(after[i].0 == k);
            assert(has_key(after, k));
        }
        if k == key {
            if has_key(pairs, key) {
                assert(after[index_of_key(pairs, key)].0 == key);
            } else {
                assert(after[after.len() - 1].0 == key);
            }
            assert(has_key(after, k));
        }
    }
    assert forall|k: Seq<char>| pairs_map(after).contains_key(k) implies pairs_map(after)[k]
        == expected[k] by {
        let i = index_of_key(after, k);
        assert(after[i].0 == k);
        if k == key {
            if has_key(pairs, key) {
                let at = index_of_key(pairs, key);
                assert(after[at].0 == key);
                assert(i == at);
            } else {
                assert(after[after.len() - 1].0 == key);
                assert(i == after.len() - 1);
            }
        } else {
            assert(after[i] == pairs[i]);
        }
    }
    assert(pairs_map(after) =~= expected);
}

/// Byte payloads under unique keys, in the order in which the keys came. The
/// payloads are kept in a list, so that the order in which they are handed out
/// is the same every time.
#[derive(Debug, PartialEq, Eq)]
pub struct ModelData {
    entries: Vec<Entry>,
}

/// What goes into a model for one prediction.
pub type ModelInputData = ModelData;

/// What comes out of a model for one prediction.
pub type ModelOutputData = ModelData;

/// The inputs of a batch, in order.
pub type BatchedModelInputData = Vec<ModelData>;

/// The outputs of a batch, in order.
pub type BatchedModelOutputData = Vec<ModelData>;

impl View for ModelData {
    type V = Map<Seq<char>, Seq<u8>>;

    open spec fn view(&self) -> Map<Seq<char>, Seq<u8>> {
        pairs_map(self.pairs())
    }
}

impl Clone for ModelData {
    /// A copy with the same keys and payloads in the same order.
    fn clone(&self) -> (copy: Self)
        ensures
            copy.pairs() == self.pairs(),
            copy@ == self@,
    {
        proof {
            use_type_invariant(self);
        }
        let mut entries: Vec<Entry> = Vec::new();
        let mut i: usize = 0;
        while i < self.entries.len()
            invariant
                i <= self.entries.len(),
                entries@.len() == i,
                entry_pairs(entries@) == entry_pairs(self.entries@.take(i as int)),
            decreases self.entries.len() - i,
        {
            let value = self.entries[i].value.clone();
            assert(value@ =~= self.entries[i as int].value@);
            let entry = Entry { key: self.entries[i].key.clone(), value };
            proof {
                let copied = entry_pairs(entries@.push(entry));
                let given = entry_pairs(self.entries@.take(i + 1));
                assert forall|j: int| 0 <= j < copied.len() implies copied[j] == given[j] by {
                    if j < i {
                        assert(entry_pairs(entries@)[j] == entry_pairs(
                            self.entries@.take(i as int),
                        )[j]);
                    }
                }
                assert(copied =~= given);
            }
            entries.push(entry);
            i += 1;
        }
        assert(self.entries@.take(i as int) =~= self.entries@);
        ModelData { entries }
    }
}

impl ModelData {
    #[verifier::type_invariant]
    spec fn keys_are_distinct(&self) -> bool {
        distinct_keys(entry_pairs(self.entries@))
    }

    /// The keys with their payloads, in the order in which the keys came.
    pub closed spec fn pairs(&self) -> Seq<(Seq<char>, Seq<u8>)> {
        entry_pairs(self.entries@)
    }

    /// Data without any payload.
    pub fn new() -> (data: Self)
        ensures
            data.pairs() == Seq::<(Seq<char>, Seq<u8>)>::empty(),
            data@ == Map::<Seq<char>, Seq<u8>>::empty(),
    {
        let data = ModelData { entries: Vec::new() };
        assert(data.pairs() =~= Seq::<(Seq<char>, Seq<u8>)>::empty());
        data
    }

    /// The number of payloads.
    pub fn len(&self) -> (n: usize)
        ensures
            n == self.pairs().len(),
            n == self@.len(),
            distinct_keys(self.pairs()),
    {
        proof {
            use_type_invariant(self);
            lemma_pairs_map(self.pairs());
        }
        self.entries.len()
    }

    /// The place of `key` among the entries, if it is there.
    fn position(&self, key: &String) -> (at: Option<usize>)
        ensures
            distinct_keys(self.pairs()),
            match at {
                Some(i) => i < self.pairs().len() && self.pairs()[i as int].0 == key@,
                None => !has_key(self.pairs(), key@),
            },
    {
        proof {
            use_type_invariant(self);
        }
        let mut i: usize = 0;
        while i < self.entries.len()
            invariant
                i <= self.entries.len(),
                distinct_keys(self.pairs()),
                forall|j: int| 0 <= j < i ==> (#[trigger] self.pairs()[j]).0 != key@,
            decreases self.entries.len() - i,
        {
            if self.entries[i].key == *key {
                return Some(i);
            }
            i += 1;
        }
        None
    }

    /// The payload under `key`, if there is one.
    pub fn get(&self, key: &String) -> (value: Option<&Vec<u8>>)
        ensures
            match value {
                Some(v) => self@.contains_key(key@) && v@ == self@[key@],
                None => !self@.contains_key(key@),
            },
    {
        proof {
            use_type_invariant(self);
            lemma_pairs_map(self.pairs());
        }
        match self.position(key) {
            Some(i) => {
                assert(self.pairs()[i as int].0 == key@);
                Some(&self.entries[i].value)
            },
            None => None,
        }
    }

    /// Puts `value` under `key`, in place of what was there.
    pub fn insert(&mut self, key: String, value: Vec<u8>)
        ensures
            final(self).pairs() == pairs_insert(old(self).pairs(), key@, value@),
            final(self)@ == old(self)@.insert(key@, value@),
            distinct_keys(final(self).pairs()),
    {
        let ghost before = self.pairs();
        let found = self.position(&key);
        let mut taken = ModelData::new();
        core::mem::swap(self, &mut taken);
        let mut entries = taken.entries;
        proof {
            lemma_pairs_insert(before, key@, value@);
        }
        match found {
            Some(i) => {
                proof {
                    assert(before[i as int].0 == key@);
                    assert(has_key(before, key@));
                    let at = index_of_key(before, key@);
                    assert(before[at].0 == key@);
                    assert(at == i);
                    assert(entry_pairs(entries@.update(i as int, Entry { key, value }))
                        =~= pairs_insert(before, key@, value@));
                }
                entries.set(i, Entry { key, value });
            },
            None => {
                proof {
                    assert(entry_pairs(entries@.push(Entry { key, value })) =~= pairs_insert(
                        before,
                        key@,
                        value@,
                    ));
                }
                entries.push(Entry { key, value });
            },
        }
        *self = ModelData { entries };
    }

    /// The entries, in the order in which the keys came.
    pub fn entries(&self) -> (entries: &Vec<Entry>)
        ensures
            entry_pairs(entries@) == self.pairs(),
            distinct_keys(self.pairs()),
    {
        proof {
            use_type_invariant(self);
        }
        &self.entries
    }

    /// The entries, in the order in which the keys came.
    pub fn into_entries(self) -> (entries: Vec<Entry>)
        ensures
            entry_pairs(entries@) == self.pairs(),
            distinct_keys(self.pairs()),
    {
        proof {
            use_type_invariant(&self);
        }
        self.entries
    }
}

} // verus!
