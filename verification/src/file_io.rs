//! The settings that are kept between runs: a small store of named values.

use vstd::prelude::*;
use vstd::string::*;
use crate::path::names;

verus! {

/// A stored value.
#[derive(Debug)]
pub enum DataType {
    Directory(Option<String>),
    Number(Option<i32>),
    Boolean(Option<bool>),
    String(Option<String>),
}

/// A stored value as plain values.
pub enum DataValue {
    Directory(Option<Seq<char>>),
    Number(Option<i32>),
    Boolean(Option<bool>),
    Text(Option<Seq<char>>),
}

/// The view of an optional text.
pub open spec fn text_view(t: Option<String>) -> Option<Seq<char>> {
    match t {
        Some(s) => Some(s@),
        None => None,
    }
}

impl View for DataType {
    type V = DataValue;

    open spec fn view(&self) -> DataValue {
        match self {
            DataType::Directory(p) => DataValue::Directory(text_view(*p)),
            DataType::Number(n) => DataValue::Number(*n),
            DataType::Boolean(b) => DataValue::Boolean(*b),
            DataType::String(s) => DataValue::Text(text_view(*s)),
        }
    }
}

/// One named value.
#[derive(Debug)]
pub struct Entry {
    pub key: String,
    pub value: DataType,
}

/// No two entries share a key.
pub open spec fn keys_unique(entries: Seq<Entry>) -> bool {
    forall|i: int, j: int|
        0 <= i < j < entries.len() ==> (#[trigger] entries[i]).key@ != (#[trigger] entries[j]).key@
}

/// Some entry carries `key`.
pub open spec fn has_key(entries: Seq<Entry>, key: Seq<char>) -> bool {
    exists|i: int| 0 <= i < entries.len() && (#[trigger] entries[i]).key@ == key
}

/// The index of an entry that carries `key`.
pub open spec fn index_of_key(entries: Seq<Entry>, key: Seq<char>) -> int {
    choose|i: int| 0 <= i < entries.len() && (#[trigger] entries[i]).key@ == key
}

/// The entries as a map from key to value.
pub open spec fn entries_map(entries: Seq<Entry>) -> Map<Seq<char>, DataValue> {
    Map::new(
        |key: Seq<char>| has_key(entries, key),
        |key: Seq<char>| entries[index_of_key(entries, key)].value@,
    )
}

/// With unique keys, the entry at `i` is what the map holds under its key.
pub proof fn lemma_entry_in_map(entries: Seq<Entry>, i: int)
    requires
        keys_unique(entries),
        0 <= i < entries.len(),
    ensures
        entries_map(entries).contains_key(entries[i].key@),
        entries_map(entries)[entries[i].key@] == entries[i].value@,
{
    assert(has_key(entries, entries[i].key@));
}

/// The stored settings: at most one value for each key.
#[derive(Debug)]
pub struct ProgramData {
    data: Vec<Entry>,
}

impl View for ProgramData {
    type V = Map<Seq<char>, DataValue>;

    closed spec fn view(&self) -> Map<Seq<char>, DataValue> {
        entries_map(self.data@)
    }
}

impl ProgramData {
    #[verifier::type_invariant]
    spec fn well_formed(&self) -> bool {
        keys_unique(self.data@)
    }

    /// An empty store.
    pub fn new() -> (d: ProgramData)
        ensures
            d@ == Map::<Seq<char>, DataValue>::empty(),
    {
        ProgramData { data: Vec::new() }
    }

    fn find(&self, key: &str) -> (r: Option<usize>)
        ensures
            match r {
                Some(i) => i < self.data@.len() && self.data@[i as int].key@ == key@,
                None => !has_key(self.data@, key@),
            },
    {
        let wanted = String::from_str(key);
        let mut i: usize = 0;
        while i < self.data.len()
            invariant
                i <= self.data@.len(),
                wanted@ == key@,
                forall|j: int| 0 <= j < i ==> (#[trigger] self.data@[j]).key@ != key@,
            decreases self.data@.len() - i,
        {
            if self.data[i].key == wanted {
                return Some(i);
            }
            i = i + 1;
        }
        None
    }

    /// Stores `value` under `key`, in place of what was there.
    pub fn set_data(&mut self, key: &str, value: DataType)
        ensures
            final(self)@ == old(self)@.insert(key@, value@),
    {
        proof {
            use_type_invariant(&*self);
        }
        let found = self.find(key);
        let ghost before = self.data@;
        let entry = Entry { key: String::from_str(key), value };
        let mut taken = ProgramData { data: Vec::new() };
        core::mem::swap(self, &mut taken);
        let mut data = taken.data;
        match found {
            Some(i) => {
                data.set(i, entry);
                proof {
                    let after = data@;
                    assert(keys_unique(after));
                    assert forall|k: Seq<char>| has_key(after, k) <==> has_key(before, k) || k
                        == key@ by {
                        if has_key(before, k) {
                            assert(after[index_of_key(before, k)].key@ == k);
                        }
                    }
                    assert forall|k: Seq<char>| has_key(after, k) implies entries_map(after)[k]
                        == entries_map(before).insert(key@, value@)[k] by {
                        let a = index_of_key(after, k);
                        lemma_entry_in_map(after, a);
                        if a != i {
                            lemma_entry_in_map(before, a);
                        }
                    }
                }
            },
            None => {
                data.push(entry);
                proof {
                    let after = data@;
                    assert(keys_unique(after));
                    assert forall|k: Seq<char>| has_key(after, k) <==> has_key(before, k) || k
                        == key@ by {
                        if has_key(before, k) {
                            assert(after[index_of_key(before, k)].key@ == k);
                        }
                        if k == key@ {
                            assert(after[before.len() as int].key@ == k);
                        }
                    }
                    assert forall|k: Seq<char>| has_key(after, k) implies entries_map(after)[k]
                        == entries_map(before).insert(key@, value@)[k] by {
                        let a = index_of_key(after, k);
                        lemma_entry_in_map(after, a);
                        if a < before.len() {
                            lemma_entry_in_map(before, a);
                        }
                    }
                }
            },
        }
        *self = ProgramData { data };
    }

    /// The value stored under `key`, where there is one.
    pub fn get_data(&self, key: &str) -> (r: Option<&DataType>)
        ensures
            match r {
                Some(value) => self@.contains_key(key@) && self@[key@] == value@,
                None => !self@.contains_key(key@),
            },
    {
        proof {
            use_type_invariant(self);
        }
        match self.find(key) {
            Some(i) => {
                proof {
                    lemma_entry_in_map(self.data@, i as int);
                }
                Some(&self.data[i].value)
            },
            None => None,
        }
    }

    /// Number of stored values: the number of keys.
    pub fn len(&self) -> (n: usize)
        ensures
            self@.dom().finite(),
            n == self@.dom().len(),
    {
        proof {
            use_type_invariant(self);
            lemma_keys_are_domain(self.data@);
        }
        self.data.len()
    }

    /// The keys, each once, in the order of first storing.
    pub fn keys(&self) -> (r: Vec<String>)
        ensures
            names(r@).no_duplicates(),
            names(r@).to_set() == self@.dom(),
            r@.len() == self@.dom().len(),
    {
        proof {
            use_type_invariant(self);
            lemma_keys_are_domain(self.data@);
        }
        let mut r: Vec<String> = Vec::new();
        let mut i: usize = 0;
        while i < self.data.len()
            invariant
                i <= self.data@.len(),
                names(r@) =~= entry_keys(self.data@).subrange(0, i as int),
            decreases self.data@.len() - i,
        {
            let key = self.data[i].key.clone();
            let ghost before = r@;
            r.push(key);
            proof {
                assert(names(r@) =~= names(before).push(key@));
            }
            i = i + 1;
        }
        proof {
            assert(names(r@) =~= entry_keys(self.data@));
        }
        r
    }
}

/// The keys of the entries, in order.
pub open spec fn entry_keys(entries: Seq<Entry>) -> Seq<Seq<char>> {
    entries.map_values(|e: Entry| e.key@)
}

/// With unique keys, the keys of the entries are the map's domain, each
/// once.
pub proof fn lemma_keys_are_domain(entries: Seq<Entry>)
    requires
        keys_unique(entries),
    ensures
        entry_keys(entries).no_duplicates(),
        entry_keys(entries).to_set() == entries_map(entries).dom(),
        entries_map(entries).dom().finite(),
        entries_map(entries).dom().len() == entries.len(),
{
    let keys = entry_keys(entries);
    assert(keys.no_duplicates()) by {
        assert forall|i: int, j: int|
            0 <= i < keys.len() && 0 <= j < keys.len() && i != j implies keys[i] != keys[j] by {
            if i < j {
                assert(entries[i].key@ != entries[j].key@);
            } else {
                assert(entries[j].key@ != entries[i].key@);
            }
        }
    }
    assert forall|k: Seq<char>| keys.to_set().contains(k) <==> entries_map(
        entries,
    ).dom().contains(k) by {
        if keys.contains(k) {
            let i = choose|i: int| 0 <= i < keys.len() && keys[i] == k;
            assert(entries[i].key@ == k);
        }
        if has_key(entries, k) {
            let i = index_of_key(entries, k);
            assert(keys[i] == k);
        }
    }
    assert(keys.to_set() =~= entries_map(entries).dom());
    vstd::seq_lib::seq_to_set_is_finite(keys);
    keys.unique_seq_to_set();
}

impl Default for ProgramData {
    fn default() -> (d: ProgramData)
        ensures
            d@ == Map::<Seq<char>, DataValue>::empty(),
    {
        ProgramData::new()
    }
}

} // verus!
