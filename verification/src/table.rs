//! A map from texts to values.
use crate::text;
use crate::text::same_text;
use vstd::prelude::*;

verus! {

/// A map from texts to values, which keeps its entries in the order in which their
/// keys came in.
#[derive(Debug)]
pub struct Table<V: View> {
    entries: Vec<(String, V)>,
}

/// The map that `entries` write down.
spec fn entries_map<V: View>(entries: Seq<(String, V)>) -> Map<Seq<char>, V::V> {
    Map::new(
        |key: Seq<char>| entries_keys(entries).contains(key),
        |key: Seq<char>| entries[entries_keys(entries).index_of(key)].1@,
    )
}

/// The keys of `entries`.
spec fn entries_keys<V: View>(entries: Seq<(String, V)>) -> Seq<Seq<char>> {
    entries.map_values(|entry: (String, V)| entry.0@)
}

impl<V: View> View for Table<V> {
    type V = Map<Seq<char>, V::V>;

    closed spec fn view(&self) -> Map<Seq<char>, V::V> {
        entries_map(self.entries@)
    }
}

/// An entry is what the map holds under its key.
proof fn lemma_entry<V: View>(entries: Seq<(String, V)>, i: int)
    requires
        entries_keys(entries).no_duplicates(),
        0 <= i < entries.len(),
    ensures
        entries_map(entries).dom().contains(entries[i].0@),
        entries_map(entries)[entries[i].0@] == entries[i].1@,
        entries_keys(entries)[i] == entries[i].0@,
{
    let keys = entries_keys(entries);
    assert(keys[i] == entries[i].0@);
    assert(keys.contains(keys[i]));
    assert(keys[keys.index_of(keys[i])] == keys[i]);
}

/// What the map holds under a key stands in one of the entries.
proof fn lemma_key_has_entry<V: View>(entries: Seq<(String, V)>, key: Seq<char>) -> (i: int)
    requires
        entries_map(entries).dom().contains(key),
    ensures
        0 <= i < entries.len(),
        entries[i].0@ == key,
        entries_map(entries)[key] == entries[i].1@,
{
    let i = entries_keys(entries).index_of(key);
    assert(entries_keys(entries).contains(key));
    assert(entries_keys(entries)[i] == key);
    i
}

impl<V: View> Table<V> {
    #[verifier::type_invariant]
    spec fn each_key_once(self) -> bool {
        entries_keys(self.entries@).no_duplicates()
    }

    /// The keys, in the order of the entries.
    pub closed spec fn keys(self) -> Seq<Seq<char>> {
        entries_keys(self.entries@)
    }

    /// A table without entries.
    pub fn new() -> (result: Self)
        ensures
            result@ == Map::<Seq<char>, V::V>::empty(),
            result.keys().len() == 0,
    {
        let result = Table { entries: Vec::new() };
        assert(result@ =~= Map::<Seq<char>, V::V>::empty());
        result
    }

    /// The number of entries.
    pub fn len(&self) -> (result: usize)
        ensures
            result == self.keys().len(),
            result == self@.dom().len(),
            self.keys().no_duplicates(),
            self.keys().to_set() == self@.dom(),
    {
        proof {
            use_type_invariant(self);
            assert(self.keys().to_set() =~= self@.dom());
            self.keys().unique_seq_to_set();
        }
        self.entries.len()
    }

    /// Whether there is no entry.
    pub fn is_empty(&self) -> (result: bool)
        ensures
            result == (self@ == Map::<Seq<char>, V::V>::empty()),
    {
        proof {
            if self.entries@.len() == 0 {
                assert(self@ =~= Map::<Seq<char>, V::V>::empty());
            } else {
                use_type_invariant(self);
                lemma_entry(self.entries@, 0);
            }
        }
        self.entries.len() == 0
    }

    /// The key and the value of the entry at the index `i`.
    pub fn entry_at(&self, i: usize) -> (result: (&str, &V))
        requires
            i < self.keys().len(),
        ensures
            result.0@ == self.keys()[i as int],
            self@.dom().contains(result.0@),
            result.1@ == self@[result.0@],
    {
        proof {
            use_type_invariant(self);
            lemma_entry(self.entries@, i as int);
        }
        let entry = &self.entries[i];
        (entry.0.as_str(), &entry.1)
    }

    /// The index of the entry under `key`.
    fn find(&self, key: &str) -> (result: Option<usize>)
        ensures
            match result {
                Some(i) => {
                    &&& i < self.entries@.len()
                    &&& self.entries@[i as int].0@ == key@
                    &&& self@.dom().contains(key@)
                    &&& self@[key@] == self.entries@[i as int].1@
                },
                None => !self@.dom().contains(key@),
            },
    {
        proof {
            use_type_invariant(self);
        }
        let mut i: usize = 0;
        while i < self.entries.len()
            invariant
                i <= self.entries@.len(),
                entries_keys(self.entries@).no_duplicates(),
                forall|j: int| 0 <= j < i ==> (#[trigger] self.entries@[j]).0@ != key@,
            decreases self.entries@.len() - i,
        {
            if same_text(self.entries[i].0.as_str(), key) {
                proof {
                    lemma_entry(self.entries@, i as int);
                }
                return Some(i);
            }
            i += 1;
        }
        proof {
            if self@.dom().contains(key@) {
                let j = lemma_key_has_entry(self.entries@, key@);
            }
        }
        None
    }

    /// The value under `key`.
    pub fn get(&self, key: &str) -> (result: Option<&V>)
        ensures
            text::view_opt(result) == if self@.dom().contains(key@) {
                Some(self@[key@])
            } else {
                None
            },
    {
        match self.find(key) {
            Some(i) => Some(&self.entries[i].1),
            None => None,
        }
    }

    /// Whether there is an entry under `key`.
    pub fn contains_key(&self, key: &str) -> (result: bool)
        ensures
            result == self@.dom().contains(key@),
    {
        self.find(key).is_some()
    }

    /// Puts `value` under `key`, in place of what stood there.
    pub fn insert(&mut self, key: String, value: V)
        ensures
            final(self)@ == old(self)@.insert(key@, value@),
    {
        let found = self.find(key.as_str());
        proof {
            use_type_invariant(&*self);
        }
        let ghost before = self.entries@;
        let ghost keys = entries_keys(before);
        let mut entries: Vec<(String, V)> = Vec::new();
        std::mem::swap(&mut entries, &mut self.entries);
        match found {
            Some(i) => {
                entries.set(i, (key, value));
                assert(entries_keys(entries@) =~= keys);
                proof {
                    lemma_insert_in_place(before, entries@, i as int);
                }
            },
            None => {
                entries.push((key, value));
                proof {
                    assert(entries@.drop_last() =~= before);
                    lemma_insert_at_end(before, entries@);
                }
            },
        }
        self.entries = entries;
    }

    /// Removes what stands under `key`, and says whether there was anything.
    pub fn remove(&mut self, key: &str) -> (result: bool)
        ensures
            final(self)@ == old(self)@.remove(key@),
            result == old(self)@.dom().contains(key@),
    {
        match self.find(key) {
            Some(i) => {
                proof {
                    use_type_invariant(&*self);
                }
                let ghost before = self.entries@;
                let mut entries: Vec<(String, V)> = Vec::new();
                std::mem::swap(&mut entries, &mut self.entries);
                let _removed = entries.remove(i);
                proof {
                    lemma_remove(before, entries@, i as int);
                }
                self.entries = entries;
                true
            },
            None => {
                assert(old(self)@.remove(key@) =~= old(self)@);
                false
            },
        }
    }

    /// Removes every entry.
    pub fn clear(&mut self)
        ensures
            final(self)@ == Map::<Seq<char>, V::V>::empty(),
    {
        self.entries = Vec::new();
        assert(self@ =~= Map::<Seq<char>, V::V>::empty());
    }
}

proof fn lemma_insert_in_place<V: View>(
    before: Seq<(String, V)>,
    after: Seq<(String, V)>,
    i: int,
)
    requires
        entries_keys(before).no_duplicates(),
        0 <= i < before.len(),
        after == before.update(i, after[i]),
        after[i].0@ == before[i].0@,
        entries_keys(after) == entries_keys(before),
    ensures
        entries_map(after) == entries_map(before).insert(after[i].0@, after[i].1@),
{
    let key = after[i].0@;
    let expected = entries_map(before).insert(key, after[i].1@);
    lemma_entry(before, i);
    lemma_entry(after, i);
    assert(entries_map(after).dom() =~= expected.dom());
    assert forall|k: Seq<char>| entries_map(after).dom().contains(k) implies entries_map(
        after,
    )[k] == expected[k] by {
        let j = lemma_key_has_entry(after, k);
        lemma_entry(after, j);
        lemma_entry(before, j);
        if k != key {
            assert(after[j] == before[j]);
        }
    }
    assert(entries_map(after) =~= expected);
}

proof fn lemma_insert_at_end<V: View>(before: Seq<(String, V)>, after: Seq<(String, V)>)
    requires
        entries_keys(before).no_duplicates(),
        after.len() == before.len() + 1,
        after.drop_last() == before,
        !entries_map(before).dom().contains(after.last().0@),
    ensures
        entries_keys(after).no_duplicates(),
        entries_map(after) == entries_map(before).insert(after.last().0@, after.last().1@),
{
    let key = after.last().0@;
    let last = after.len() - 1;
    let expected = entries_map(before).insert(key, after.last().1@);
    assert(entries_keys(after) =~= entries_keys(before).push(key));
    assert(!entries_keys(before).contains(key));
    lemma_entry(after, last);
    assert forall|k: Seq<char>| entries_map(after).dom().contains(k) == expected.dom().contains(
        k,
    ) by {
        if entries_map(after).dom().contains(k) {
            let j = lemma_key_has_entry(after, k);
            if j < last {
                assert(before[j] == after[j]);
                lemma_entry(before, j);
            }
        }
        if entries_map(before).dom().contains(k) {
            let j = lemma_key_has_entry(before, k);
            assert(before[j] == after[j]);
            lemma_entry(after, j);
        }
    }
    assert forall|k: Seq<char>| entries_map(after).dom().contains(k) implies entries_map(
        after,
    )[k] == expected[k] by {
        let j = lemma_key_has_entry(after, k);
        lemma_entry(after, j);
        if j < last {
            assert(before[j] == after[j]);
            lemma_entry(before, j);
        }
    }
    assert(entries_map(after) =~= expected);
}

proof fn lemma_remove<V: View>(before: Seq<(String, V)>, after: Seq<(String, V)>, i: int)
    requires
        entries_keys(before).no_duplicates(),
        0 <= i < before.len(),
        after == before.remove(i),
    ensures
        entries_keys(after).no_duplicates(),
        entries_map(after) == entries_map(before).remove(before[i].0@),
{
    let key = before[i].0@;
    let expected = entries_map(before).remove(key);
    let old_keys = entries_keys(before);
    let new_keys = entries_keys(after);
    assert(new_keys =~= old_keys.remove(i));
    assert forall|a: int, b: int| 0 <= a < new_keys.len() && 0 <= b < new_keys.len() && a != b
        implies new_keys[a] != new_keys[b] by {
        let x = if a < i {
            a
        } else {
            a + 1
        };
        let y = if b < i {
            b
        } else {
            b + 1
        };
        assert(new_keys[a] == old_keys[x]);
        assert(new_keys[b] == old_keys[y]);
    }
    assert forall|k: Seq<char>| entries_map(after).dom().contains(k) == expected.dom().contains(
        k,
    ) by {
        if entries_map(after).dom().contains(k) {
            let j = lemma_key_has_entry(after, k);
            let x = if j < i {
                j
            } else {
                j + 1
            };
            assert(after[j] == before[x]);
            lemma_entry(before, x);
            assert(old_keys[x] != old_keys[i]);
        }
        if expected.dom().contains(k) {
            let j = lemma_key_has_entry(before, k);
            let x = if j < i {
                j
            } else {
                j - 1
            };
            assert(after[x] == before[j]);
            lemma_entry(after, x);
        }
    }
    assert forall|k: Seq<char>| entries_map(after).dom().contains(k) implies entries_map(
        after,
    )[k] == expected[k] by {
        let j = lemma_key_has_entry(after, k);
        let x = if j < i {
            j
        } else {
            j + 1
        };
        assert(after[j] == before[x]);
        lemma_entry(before, x);
        assert(old_keys[x] != old_keys[i]);
        assert(k != key);
    }
    assert(entries_map(after) =~= expected);
}

} // verus!
