//! A small map with text keys, kept as a list in the order of insertion.
use vstd::prelude::*;
use crate::text::same_text;

verus! {

/// The place of a key in a list of entries.
pub open spec fn place_of<V>(entries: Seq<(String, V)>, key: Seq<char>) -> int {
    choose|i: int| 0 <= i < entries.len() && (#[trigger] entries[i]).0@ == key
}

/// Whether a list of entries has a key.
pub open spec fn has_key<V>(entries: Seq<(String, V)>, key: Seq<char>) -> bool {
    exists|i: int| 0 <= i < entries.len() && (#[trigger] entries[i]).0@ == key
}

/// Whether no key occurs twice.
pub open spec fn distinct_keys<V>(entries: Seq<(String, V)>) -> bool {
    forall|i: int, j: int|
        0 <= i < j < entries.len() ==> (#[trigger] entries[i]).0@ != (#[trigger] entries[j]).0@
}

/// The map that a list of entries stands for.
pub open spec fn entries_map<V>(entries: Seq<(String, V)>) -> Map<Seq<char>, V> {
    Map::new(
        |key: Seq<char>| has_key(entries, key),
        |key: Seq<char>| entries[place_of(entries, key)].1,
    )
}

/// A map from texts to values.
#[derive(Debug)]
pub struct TextMap<V> {
    entries: Vec<(String, V)>,
}

impl<V> View for TextMap<V> {
    type V = Map<Seq<char>, V>;

    closed spec fn view(&self) -> Map<Seq<char>, V> {
        entries_map(self.entries@)
    }
}

proof fn lemma_lookup<V>(entries: Seq<(String, V)>, i: int)
    requires
        distinct_keys(entries),
        0 <= i < entries.len(),
    ensures
        has_key(entries, entries[i].0@),
        place_of(entries, entries[i].0@) == i,
        entries_map(entries).contains_key(entries[i].0@),
        entries_map(entries)[entries[i].0@] == entries[i].1,
{
    let key = entries[i].0@;
    assert(has_key(entries, key));
    let j = place_of(entries, key);
    assert(0 <= j < entries.len() && entries[j].0@ == key);
    if j < i {
        assert(entries[j].0@ != entries[i].0@);
    } else if i < j {
        assert(entries[i].0@ != entries[j].0@);
    }
}

proof fn lemma_same_map<V>(left: Seq<(String, V)>, right: Map<Seq<char>, V>)
    requires
        distinct_keys(left),
        forall|i: int|
            0 <= i < left.len() ==> right.contains_key((#[trigger] left[i]).0@)
                && right[left[i].0@] == left[i].1,
        forall|key: Seq<char>| #[trigger] right.contains_key(key) ==> has_key(left, key),
    ensures
        entries_map(left) == right,
{
    let map = entries_map(left);
    assert forall|key: Seq<char>| map.contains_key(key) == right.contains_key(key) by {
        if has_key(left, key) {
            let i = place_of(left, key);
            assert(left[i].0@ == key);
        }
    }
    assert forall|key: Seq<char>| map.contains_key(key) implies map[key] == right[key] by {
        let i = place_of(left, key);
        assert(left[i].0@ == key);
        lemma_lookup(left, i);
    }
    assert(map =~= right);
}

impl<V> TextMap<V> {
    #[verifier::type_invariant]
    spec fn keys_distinct(self) -> bool {
        distinct_keys(self.entries@)
    }

    pub fn new() -> (r: Self)
        ensures
            r@ == Map::<Seq<char>, V>::empty(),
    {
        let r = TextMap { entries: Vec::new() };
        assert(r@ =~= Map::<Seq<char>, V>::empty());
        r
    }

    fn position(&self, key: &str) -> (r: Option<usize>)
        ensures
            match r {
                Some(i) => i < self.entries@.len() && self.entries@[i as int].0@ == key@,
                None => !has_key(self.entries@, key@),
            },
    {
        let mut index: usize = 0;
        while index < self.entries.len()
            invariant
                index <= self.entries@.len(),
                forall|i: int| 0 <= i < index ==> (#[trigger] self.entries@[i]).0@ != key@,
            decreases self.entries.len() - index,
        {
            if same_text(self.entries[index].0.as_str(), key) {
                return Some(index);
            }
            index = index + 1;
        }
        None
    }

    pub fn get(&self, key: &str) -> (r: Option<&V>)
        ensures
            match r {
                Some(value) => self@.contains_key(key@) && self@[key@] == *value,
                None => !self@.contains_key(key@),
            },
    {
        proof {
            use_type_invariant(self);
        }
        match self.position(key) {
            Some(index) => {
                proof {
                    lemma_lookup(self.entries@, index as int);
                }
                Some(&self.entries[index].1)
            },
            None => None,
        }
    }

    pub fn contains_key(&self, key: &str) -> (r: bool)
        ensures
            r == self@.contains_key(key@),
    {
        self.get(key).is_some()
    }

    pub fn is_empty(&self) -> (r: bool)
        ensures
            r == (self@ == Map::<Seq<char>, V>::empty()),
    {
        proof {
            use_type_invariant(self);
            if self.entries@.len() > 0 {
                lemma_lookup(self.entries@, 0);
            } else {
                assert(self@ =~= Map::<Seq<char>, V>::empty());
            }
        }
        self.entries.len() == 0
    }

    /// Puts a value under a key, in place of the value that was there.
    pub fn insert(&mut self, key: &str, value: V)
        ensures
            final(self)@ == old(self)@.insert(key@, value),
    {
        proof {
            use_type_invariant(&*self);
        }
        let ghost before = self.entries@;
        let ghost expected = self@.insert(key@, value);
        let place = self.position(key);
        let mut entries: Vec<(String, V)> = Vec::new();
        std::mem::swap(&mut entries, &mut self.entries);
        match place {
            Some(index) => {
                let old_entry = entries.remove(index);
                entries.insert(index, (old_entry.0, value));
                proof {
                    assert(entries@ =~= before.update(index as int, (old_entry.0, value)));
                    assert forall|i: int| 0 <= i < entries@.len() implies expected.contains_key(
                        (#[trigger] entries@[i]).0@,
                    ) && expected[entries@[i].0@] == entries@[i].1 by {
                        lemma_lookup(before, i);
                        if i != index {
                            assert(before[i].0@ != key@) by {
                                if i < index {
                                    assert(before[i].0@ != before[index as int].0@);
                                } else {
                                    assert(before[index as int].0@ != before[i].0@);
                                }
                            }
                        }
                    }
                    assert forall|k: Seq<char>| #[trigger]
                        expected.contains_key(k) implies has_key(entries@, k) by {
                        if k == key@ {
                            assert(entries@[index as int].0@ == k);
                        } else {
                            let i = place_of(before, k);
                            assert(before[i].0@ == k);
                            assert(entries@[i].0@ == k);
                        }
                    }
                }
            },
            None => {
                entries.push((key.to_owned(), value));
                proof {
                    let last = before.len() as int;
                    assert(entries@.len() == last + 1);
                    assert forall|i: int| 0 <= i < entries@.len() implies expected.contains_key(
                        (#[trigger] entries@[i]).0@,
                    ) && expected[entries@[i].0@] == entries@[i].1 by {
                        if i < last {
                            assert(entries@[i] == before[i]);
                            lemma_lookup(before, i);
                        }
                    }
                    assert forall|k: Seq<char>| #[trigger]
                        expected.contains_key(k) implies has_key(entries@, k) by {
                        if k == key@ {
                            assert(entries@[last].0@ == k);
                        } else {
                            let i = place_of(before, k);
                            assert(before[i].0@ == k);
                            assert(entries@[i].0@ == k);
                        }
                    }
                }
            },
        }
        proof {
            lemma_same_map(entries@, expected);
        }
        self.entries = entries;
    }

    /// Takes the value out that is under a key.
    pub fn remove(&mut self, key: &str) -> (r: Option<V>)
        ensures
            final(self)@ == old(self)@.remove(key@),
            match r {
                Some(value) => old(self)@.contains_key(key@) && old(self)@[key@] == value,
                None => !old(self)@.contains_key(key@),
            },
    {
        proof {
            use_type_invariant(&*self);
        }
        let ghost before = self.entries@;
        let ghost expected = self@.remove(key@);
        match self.position(key) {
            None => {
                assert(expected =~= self@);
                None
            },
            Some(index) => {
                let mut entries: Vec<(String, V)> = Vec::new();
                std::mem::swap(&mut entries, &mut self.entries);
                let entry = entries.remove(index);
                proof {
                    let gone = index as int;
                    lemma_lookup(before, gone);
                    assert(entries@ =~= before.remove(gone));
                    assert forall|i: int| 0 <= i < entries@.len() implies expected.contains_key(
                        (#[trigger] entries@[i]).0@,
                    ) && expected[entries@[i].0@] == entries@[i].1 by {
                        let j = if i < gone {
                            i
                        } else {
                            i + 1
                        };
                        assert(entries@[i] == before[j]);
                        lemma_lookup(before, j);
                        if j < gone {
                            assert(before[j].0@ != before[gone].0@);
                        } else {
                            assert(before[gone].0@ != before[j].0@);
                        }
                    }
                    assert(distinct_keys(entries@)) by {
                        assert forall|i: int, j: int| 0 <= i < j < entries@.len() implies (
                        #[trigger] entries@[i]).0@ != (#[trigger] entries@[j]).0@ by {
                            let a = if i < gone {
                                i
                            } else {
                                i + 1
                            };
                            let b = if j < gone {
                                j
                            } else {
                                j + 1
                            };
                            assert(entries@[i] == before[a]);
                            assert(entries@[j] == before[b]);
                        }
                    }
                    assert forall|k: Seq<char>| #[trigger]
                        expected.contains_key(k) implies has_key(entries@, k) by {
                        let j = place_of(before, k);
                        assert(before[j].0@ == k);
                        let i = if j < gone {
                            j
                        } else {
                            j - 1
                        };
                        assert(entries@[i] == before[j]);
                    }
                    lemma_same_map(entries@, expected);
                }
                self.entries = entries;
                Some(entry.1)
            },
        }
    }

    /// The keys, each once.
    pub fn keys(&self) -> (r: Vec<String>)
        ensures
            forall|i: int|
                0 <= i < r@.len() ==> self@.contains_key((#[trigger] r@[i])@),
            forall|key: Seq<char>| #[trigger]
                self@.contains_key(key) ==> exists|i: int|
                    0 <= i < r@.len() && (#[trigger] r@[i])@ == key,
            forall|i: int, j: int|
                0 <= i < j < r@.len() ==> (#[trigger] r@[i])@ != (#[trigger] r@[j])@,
    {
        proof {
            use_type_invariant(self);
        }
        let mut keys: Vec<String> = Vec::new();
        let mut index: usize = 0;
        while index < self.entries.len()
            invariant
                index <= self.entries@.len(),
                keys@.len() == index,
                forall|i: int|
                    0 <= i < index ==> (#[trigger] keys@[i])@ == self.entries@[i].0@,
            decreases self.entries.len() - index,
        {
            keys.push(self.entries[index].0.clone());
            index = index + 1;
        }
        proof {
            let entries = self.entries@;
            assert forall|i: int| 0 <= i < keys@.len() implies self@.contains_key(
                (#[trigger] keys@[i])@,
            ) by {
                lemma_lookup(entries, i);
            }
            assert forall|key: Seq<char>| #[trigger] self@.contains_key(key) implies exists|i: int|
                0 <= i < keys@.len() && (#[trigger] keys@[i])@ == key by {
                let i = place_of(entries, key);
                assert(entries[i].0@ == key);
                assert(keys@[i]@ == key);
            }
            assert forall|i: int, j: int| 0 <= i < j < keys@.len() implies (#[trigger] keys@[i])@
                != (#[trigger] keys@[j])@ by {
                assert(entries[i].0@ != entries[j].0@);
            }
        }
        keys
    }
}

} // verus!
