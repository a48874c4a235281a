//! A table from text keys to values that holds at most one value for each
//! key.

use crate::text::same_text;
use vstd::prelude::*;

verus! {

broadcast use vstd::string::group_string_axioms;

/// One entry of a table: a key and the value stored for it.
#[derive(Debug, Clone)]
pub struct Entry<V> {
    pub key: String,
    pub value: V,
}

/// A table from text keys to values. No key occurs twice.
#[derive(Debug)]
pub struct Table<V> {
    entries: Vec<Entry<V>>,
}

/// No two entries have the same key.
pub open spec fn distinct_keys<V>(entries: Seq<Entry<V>>) -> bool {
    forall|i: int, j: int|
        0 <= i < j < entries.len() ==> (#[trigger] entries[i]).key@ != (#[trigger] entries[j]).key@
}

/// An entry for `key` stands at index `i`.
pub open spec fn stands_at<V>(entries: Seq<Entry<V>>, key: Seq<char>, i: int) -> bool {
    0 <= i < entries.len() && entries[i].key@ == key
}

/// The map that a sequence of entries writes down: each key with the value
/// of an entry for it.
pub open spec fn entries_map<V>(entries: Seq<Entry<V>>) -> Map<Seq<char>, V> {
    Map::new(
        |key: Seq<char>| exists|i: int| stands_at(entries, key, i),
        |key: Seq<char>| entries[choose|i: int| stands_at(entries, key, i)].value,
    )
}

/// Where no key occurs twice, the map holds each entry: its key with its
/// value.
pub proof fn lemma_map_holds_each_entry<V>(entries: Seq<Entry<V>>, i: int)
    requires
        distinct_keys(entries),
        0 <= i < entries.len(),
    ensures
        entries_map(entries).dom().contains(entries[i].key@),
        entries_map(entries)[entries[i].key@] == entries[i].value,
{
    let key = entries[i].key@;
    assert(stands_at(entries, key, i));
    let j = choose|j: int| stands_at(entries, key, j);
    assert(stands_at(entries, key, j));
    if i < j {
        assert(entries[i].key@ != entries[j].key@);
    }
    if j < i {
        assert(entries[j].key@ != entries[i].key@);
    }
}

impl<V> View for Table<V> {
    type V = Map<Seq<char>, V>;

    closed spec fn view(&self) -> Map<Seq<char>, V> {
        entries_map(self.entries@)
    }
}

impl<V> Table<V> {
    #[verifier::type_invariant]
    spec fn well_formed(self) -> bool {
        distinct_keys(self.entries@)
    }

    /// The table that holds nothing.
    pub fn new() -> (table: Table<V>)
        ensures
            table@ == Map::<Seq<char>, V>::empty(),
    {
        let table = Table { entries: Vec::new() };
        assert(table@ =~= Map::<Seq<char>, V>::empty());
        table
    }

    fn position(&self, key: &str) -> (found: Option<usize>)
        ensures
            match found {
                Some(i) => stands_at(self.entries@, key@, i as int),
                None => forall|i: int| !stands_at(self.entries@, key@, i),
            },
    {
        let mut i: usize = 0;
        while i < self.entries.len()
            invariant
                i <= self.entries.len(),
                forall|j: int| 0 <= j < i ==> self.entries@[j].key@ != key@,
            decreases self.entries.len() - i,
        {
            if same_text(self.entries[i].key.as_str(), key) {
                return Some(i);
            }
            i = i + 1;
        }
        None
    }

    /// The value stored for `key`, if there is one.
    pub fn get(&self, key: &str) -> (value: Option<&V>)
        ensures
            match value {
                Some(v) => self@.dom().contains(key@) && *v == self@[key@],
                None => !self@.dom().contains(key@),
            },
    {
        proof {
            use_type_invariant(self);
        }
        match self.position(key) {
            Some(i) => {
                proof {
                    lemma_map_holds_each_entry(self.entries@, i as int);
                }
                Some(&self.entries[i].value)
            },
            None => None,
        }
    }

    /// Stores `value` for `key`, in place of what was stored for it.
    pub fn insert(&mut self, key: String, value: V)
        ensures
            final(self)@ == old(self)@.insert(key@, value),
    {
        proof {
            use_type_invariant(&*self);
        }
        let ghost before = self.entries@;
        let found = self.position(key.as_str());
        let mut entries: Vec<Entry<V>> = Vec::new();
        core::mem::swap(&mut self.entries, &mut entries);
        match found {
            Some(i) => {
                entries.remove(i);
            },
            None => {},
        }
        let ghost kept = entries@;
        assert(distinct_keys(kept));
        assert(forall|j: int| !stands_at(kept, key@, j));
        let entry = Entry { key, value };
        entries.push(entry);
        proof {
            assert(distinct_keys(entries@)) by {
                assert forall|a: int, b: int| 0 <= a < b < entries@.len() implies (
                #[trigger] entries@[a]).key@ != (#[trigger] entries@[b]).key@ by {
                    if b == entries@.len() - 1 {
                        assert(!stands_at(kept, entry.key@, a));
                    } else {
                        assert(kept[a].key@ != kept[b].key@);
                    }
                }
            }
        }
        core::mem::swap(&mut self.entries, &mut entries);
        let ghost after = self.entries@;
        proof {
            assert forall|k: Seq<char>| #[trigger]
                entries_map(after).dom().contains(k) == entries_map(before).insert(
                    entry.key@,
                    entry.value,
                ).dom().contains(k) by {
                if k != entry.key@ {
                    if exists|j: int| stands_at(after, k, j) {
                        let j = choose|j: int| stands_at(after, k, j);
                        assert(stands_at(kept, k, j));
                        lemma_kept_from(before, kept, k, j);
                    }
                    if exists|j: int| stands_at(before, k, j) {
                        let j = choose|j: int| stands_at(before, k, j);
                        lemma_kept_in(before, kept, entry.key@, k, j);
                        let m = choose|m: int| stands_at(kept, k, m);
                        assert(stands_at(after, k, m));
                    }
                } else {
                    assert(stands_at(after, k, after.len() - 1));
                }
            }
            assert forall|k: Seq<char>| #[trigger]
                entries_map(after).dom().contains(k) implies entries_map(after)[k]
                == entries_map(before).insert(entry.key@, entry.value)[k] by {
                let j = choose|j: int| stands_at(after, k, j);
                assert(stands_at(after, k, j));
                lemma_map_holds_each_entry(after, j);
                if k != entry.key@ {
                    assert(stands_at(kept, k, j));
                    lemma_kept_from(before, kept, k, j);
                    let m = choose|m: int| stands_at(before, k, m) && before[m] == kept[j];
                    lemma_map_holds_each_entry(before, m);
                } else {
                    lemma_map_holds_each_entry(after, after.len() - 1);
                }
            }
            assert(entries_map(after) =~= entries_map(before).insert(entry.key@, entry.value));
        }
    }

    /// The entries of the table, in no stated order: each key of the table
    /// with its value, once.
    pub fn entries(&self) -> (entries: &Vec<Entry<V>>)
        ensures
            distinct_keys(entries@),
            entries_map(entries@) == self@,
    {
        proof {
            use_type_invariant(self);
        }
        &self.entries
    }
}

impl<V: Clone> Clone for Table<V> {
    /// A table with the same keys, each with a clone of its value.
    fn clone(&self) -> (copy: Self)
        ensures
            copy@.dom() == self@.dom(),
            forall|key: Seq<char>|
                self@.dom().contains(key) ==> vstd::pervasive::cloned(
                    #[trigger] self@[key],
                    copy@[key],
                ),
    {
        proof {
            use_type_invariant(self);
        }
        let mut entries: Vec<Entry<V>> = Vec::new();
        let mut i: usize = 0;
        while i < self.entries.len()
            invariant
                i <= self.entries.len(),
                entries@.len() == i,
                forall|j: int|
                    0 <= j < i ==> (#[trigger] entries@[j]).key@ == self.entries@[j].key@,
                forall|j: int|
                    0 <= j < i ==> vstd::pervasive::cloned(
                        self.entries@[j].value,
                        (#[trigger] entries@[j]).value,
                    ),
            decreases self.entries.len() - i,
        {
            let entry = Entry {
                key: self.entries[i].key.clone(),
                value: self.entries[i].value.clone(),
            };
            entries.push(entry);
            i = i + 1;
        }
        proof {
            assert(distinct_keys(entries@)) by {
                assert forall|a: int, b: int| 0 <= a < b < entries@.len() implies (
                #[trigger] entries@[a]).key@ != (#[trigger] entries@[b]).key@ by {
                    assert(self.entries@[a].key@ != self.entries@[b].key@);
                }
            }
            assert forall|k: Seq<char>|
                entries_map(entries@).dom().contains(k) == entries_map(
                    self.entries@,
                ).dom().contains(k) by {
                if exists|j: int| stands_at(entries@, k, j) {
                    let j = choose|j: int| stands_at(entries@, k, j);
                    assert(stands_at(self.entries@, k, j));
                }
                if exists|j: int| stands_at(self.entries@, k, j) {
                    let j = choose|j: int| stands_at(self.entries@, k, j);
                    assert(stands_at(entries@, k, j));
                }
            }
            assert(entries_map(entries@).dom() =~= entries_map(self.entries@).dom());
            assert forall|key: Seq<char>| entries_map(self.entries@).dom().contains(key) implies
                vstd::pervasive::cloned(
                #[trigger] entries_map(self.entries@)[key],
                entries_map(entries@)[key],
            ) by {
                let j = choose|j: int| stands_at(self.entries@, key, j);
                assert(stands_at(self.entries@, key, j));
                assert(stands_at(entries@, key, j));
                lemma_map_holds_each_entry(self.entries@, j);
                lemma_map_holds_each_entry(entries@, j);
            }
        }
        Table { entries }
    }
}

/// An entry that was kept when at most one entry was removed stood in the
/// sequence before.
proof fn lemma_kept_from<V>(before: Seq<Entry<V>>, kept: Seq<Entry<V>>, key: Seq<char>, j: int)
    requires
        kept == before || exists|i: int| 0 <= i < before.len() && kept == before.remove(i),
        stands_at(kept, key, j),
    ensures
        exists|m: int| stands_at(before, key, m) && before[m] == kept[j],
{
    if kept == before {
        assert(stands_at(before, key, j) && before[j] == kept[j]);
    } else {
        let i = choose|i: int| 0 <= i < before.len() && kept == before.remove(i);
        if j < i {
            assert(stands_at(before, key, j) && before[j] == kept[j]);
        } else {
            assert(stands_at(before, key, j + 1) && before[j + 1] == kept[j]);
        }
    }
}

/// An entry for another key than the one removed is kept.
proof fn lemma_kept_in<V>(
    before: Seq<Entry<V>>,
    kept: Seq<Entry<V>>,
    removed: Seq<char>,
    key: Seq<char>,
    j: int,
)
    requires
        (kept == before) || exists|i: int|
            0 <= i < before.len() && before[i].key@ == removed && kept == before.remove(i),
        key != removed,
        stands_at(before, key, j),
    ensures
        exists|m: int| stands_at(kept, key, m),
{
    if kept == before {
        assert(stands_at(kept, key, j));
    } else {
        let i = choose|i: int|
            0 <= i < before.len() && before[i].key@ == removed && kept == before.remove(i);
        if j < i {
            assert(stands_at(kept, key, j));
        } else {
            assert(stands_at(kept, key, j - 1));
        }
    }
}

} // verus!
