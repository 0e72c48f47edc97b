//! A table from text keys to values that remembers the order in which its keys
//! first came.
use vstd::prelude::*;
use vstd::string::*;

verus! {

/// What a table holds: its keys in the order of their first insertion, and the
/// value that each key stands for.
pub struct TableView<T> {
    pub order: Seq<Seq<char>>,
    pub map: Map<Seq<char>, T>,
}

impl<T> TableView<T> {
    /// The table without any key.
    pub open spec fn empty() -> Self {
        TableView { order: Seq::empty(), map: Map::empty() }
    }

    /// The table after `key` was given `value`: a new key goes to the end, a
    /// known key keeps its place.
    pub open spec fn insert(self, key: Seq<char>, value: T) -> Self {
        TableView {
            order: if self.map.contains_key(key) {
                self.order
            } else {
                self.order.push(key)
            },
            map: self.map.insert(key, value),
        }
    }

    /// The value of `key`, if the table has that key.
    pub open spec fn get(self, key: Seq<char>) -> Option<T> {
        if self.map.contains_key(key) {
            Some(self.map[key])
        } else {
            None
        }
    }

    /// The value of the key at place `i`.
    pub open spec fn value_at(self, i: int) -> T {
        self.map[self.order[i]]
    }

    /// The same keys in the same order, with the value at place `i` replaced.
    pub open spec fn with_value_at(self, i: int, value: T) -> Self {
        TableView { order: self.order, map: self.map.insert(self.order[i], value) }
    }

    /// Every key is listed once, and only keys are listed.
    pub open spec fn wf(self) -> bool {
        &&& self.order.no_duplicates()
        &&& forall|key: Seq<char>| self.map.contains_key(key) <==> self.order.contains(key)
    }
}

/// The keys of the entries, in order.
pub open spec fn entry_keys<V>(entries: Seq<(String, V)>) -> Seq<Seq<char>> {
    entries.map_values(|e: (String, V)| e.0@)
}

/// The map that the entries stand for.
pub open spec fn entry_map<V: View>(entries: Seq<(String, V)>) -> Map<Seq<char>, V::V> {
    Map::new(
        |key: Seq<char>| entry_keys(entries).contains(key),
        |key: Seq<char>| entries[entry_keys(entries).index_of(key)].1@,
    )
}

/// A table from text keys to values. Looking a key up, inserting and walking
/// the keys in insertion order are all it offers.
#[derive(Debug)]
pub struct LookupTable<V> {
    pub(crate) entries: Vec<(String, V)>,
}

impl<V: View> View for LookupTable<V> {
    type V = TableView<V::V>;

    closed spec fn view(&self) -> TableView<V::V> {
        TableView { order: entry_keys(self.entries@), map: entry_map(self.entries@) }
    }
}

impl<V: View> LookupTable<V> {
    /// No key is listed twice. Every table made by `new` and changed by the
    /// methods below is so.
    pub closed spec fn wf(&self) -> bool {
        entry_keys(self.entries@).no_duplicates()
    }

    /// Whether `value` stands in the table, under whatever key.
    pub closed spec fn holds(&self, value: V) -> bool {
        exists|i: int| 0 <= i < self.entries@.len() && #[trigger] self.entries@[i].1 == value
    }

    /// A table whose value at place `i` was changed in place, and nothing else,
    /// holds the same keys with that one value replaced.
    pub(crate) proof fn lemma_changed_at(before: &Self, after: &Self, i: int)
        requires
            before.wf(),
            0 <= i < before.entries@.len(),
            after.entries@ == before.entries@.update(
                i,
                (before.entries@[i].0, after.entries@[i].1),
            ),
        ensures
            after.wf(),
            after@ == before@.with_value_at(i, after.entries@[i].1@),
            before@.order.len() == before.entries@.len(),
            before@.value_at(i) == before.entries@[i].1@,
            before.holds(before.entries@[i].1),
            forall|value: V|
                after.holds(value) ==> before.holds(value) || value == after.entries@[i].1,
    {
        assert forall|value: V| after.holds(value) implies before.holds(value) || value
            == after.entries@[i].1 by {
            let j = choose|j: int|
                0 <= j < after.entries@.len() && #[trigger] after.entries@[j].1 == value;
            if j != i {
                assert(before.entries@[j].1 == value);
            }
        }
        assert(entry_keys(before.entries@)[i] == before.entries@[i].0@);
        assert(entry_keys(after.entries@) =~= entry_keys(before.entries@));
        assert(after@.map =~= before@.map.insert(before@.order[i], after.entries@[i].1@)) by {
            assert forall|k: Seq<char>| entry_keys(before.entries@).contains(k) implies #[trigger]
                after@.map[k] == before@.map.insert(before@.order[i], after.entries@[i].1@)[k] by {
                let j = entry_keys(before.entries@).index_of(k);
                assert(entry_keys(before.entries@)[j] == k);
            }
        }
    }

    /// The table lists one key for each of its entries.
    pub(crate) proof fn lemma_len(&self)
        ensures
            self@.order.len() == self.entries@.len(),
    {
    }

    /// What a well-formed table holds is well-formed too.
    pub proof fn lemma_view_wf(&self)
        requires
            self.wf(),
        ensures
            self@.wf(),
    {
    }

    /// The empty table.
    pub fn new() -> (r: Self)
        ensures
            r.wf(),
            r@ == TableView::<V::V>::empty(),
            forall|value: V| !r.holds(value),
    {
        let r = LookupTable { entries: Vec::new() };
        assert(r@.order =~= Seq::empty());
        assert(r@.map =~= Map::empty());
        r
    }

    /// How many keys the table has.
    pub fn len(&self) -> (r: usize)
        ensures
            r == self@.order.len(),
    {
        self.entries.len()
    }

    /// The place of `key` among the entries, if it is there.
    fn position(&self, key: &str) -> (r: Option<usize>)
        ensures
            match r {
                Some(i) => i < self.entries.len() && self.entries[i as int].0@ == key@,
                None => !entry_keys(self.entries@).contains(key@),
            },
    {
        let mut i: usize = 0;
        while i < self.entries.len()
            invariant
                i <= self.entries.len(),
                forall|j: int| 0 <= j < i ==> self.entries[j].0@ != key@,
            decreases self.entries.len() - i,
        {
            if *self.entries[i].0.as_str() == *key {
                return Some(i);
            }
            i = i + 1;
        }
        None
    }

    /// The value of `key`, if the table has that key.
    pub fn get(&self, key: &str) -> (r: Option<&V>)
        requires
            self.wf(),
        ensures
            match r {
                Some(value) => self@.get(key@) == Some(value@) && self.holds(*value),
                None => self@.get(key@) is None,
            },
    {
        match self.position(key) {
            Some(i) => {
                assert(entry_keys(self.entries@)[i as int] == key@);
                Some(&self.entries[i].1)
            },
            None => None,
        }
    }

    /// Whether the table has `key`.
    pub fn contains_key(&self, key: &str) -> (r: bool)
        ensures
            r == self@.map.contains_key(key@),
    {
        match self.position(key) {
            Some(i) => {
                assert(entry_keys(self.entries@)[i as int] == key@);
                true
            },
            None => false,
        }
    }

    /// Gives `key` the value `value`, in place of the value it had if any.
    pub fn insert(&mut self, key: String, value: V)
        requires
            old(self).wf(),
        ensures
            final(self).wf(),
            final(self)@ == old(self)@.insert(key@, value@),
            forall|other: V| final(self).holds(other) ==> old(self).holds(other) || other == value,
    {
        let ghost before = self.entries@;
        match self.position(key.as_str()) {
            Some(i) => {
                assert(entry_keys(before)[i as int] == key@);
                self.entries[i] = (key, value);
                assert(entry_keys(self.entries@) =~= entry_keys(before));
                assert(self@.map =~= old(self)@.map.insert(key@, value@)) by {
                    assert forall|k: Seq<char>| entry_keys(before).contains(k) implies #[trigger]
                        self@.map[k] == old(self)@.map.insert(key@, value@)[k] by {
                        let j = entry_keys(before).index_of(k);
                        assert(entry_keys(before)[j] == k);
                    }
                }
            },
            None => {
                self.entries.push((key, value));
                assert(entry_keys(self.entries@) =~= entry_keys(before).push(key@));
                assert(self@.map =~= old(self)@.map.insert(key@, value@)) by {
                    assert forall|k: Seq<char>| entry_keys(self.entries@).contains(k) implies #[trigger]
                        self@.map[k] == old(self)@.map.insert(key@, value@)[k] by {
                        let j = entry_keys(self.entries@).index_of(k);
                        assert(entry_keys(self.entries@)[j] == k);
                        if k != key@ {
                            assert(j < before.len());
                            assert(entry_keys(before)[j] == k);
                            let j0 = entry_keys(before).index_of(k);
                            assert(entry_keys(before)[j0] == k);
                        }
                    }
                    assert forall|k: Seq<char>| entry_keys(before).contains(k) implies entry_keys(
                        self.entries@,
                    ).contains(k) by {
                        let j = entry_keys(before).index_of(k);
                        assert(entry_keys(self.entries@)[j] == k);
                    }
                    assert(entry_keys(self.entries@)[before.len() as int] == key@);
                }
            },
        }
    }

    /// The key at place `i`.
    pub fn key_at(&self, i: usize) -> (r: &str)
        requires
            i < self@.order.len(),
        ensures
            r@ == self@.order[i as int],
    {
        self.entries[i].0.as_str()
    }

    /// The value of the key at place `i`.
    pub fn value_at(&self, i: usize) -> (r: &V)
        requires
            self.wf(),
            i < self@.order.len(),
        ensures
            r@ == self@.value_at(i as int),
            self.holds(*r),
    {
        proof {
            assert(entry_keys(self.entries@)[i as int] == self.entries[i as int].0@);
        }
        &self.entries[i].1
    }
}

} // verus!
