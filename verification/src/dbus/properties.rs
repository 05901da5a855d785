//! D-Bus property dictionaries (`a{sv}`) as far as the plugin reads them.
//!
//! A value in such a dictionary is a variant. The plugin only ever asks of
//! a value whether it is a string, and which one, so [`PropertyValue`] keeps
//! exactly that. A [`PropertyMap`] is a dictionary from property names to
//! such values; its keys are distinct, as in the dictionary that D-Bus sent.

use vstd::prelude::*;

use crate::text::same_text;

verus! {

/// A D-Bus variant value, seen as what the plugin reads of it.
#[derive(Debug, PartialEq, Eq)]
pub enum PropertyValue {
    /// A string value.
    Str(String),
    /// A value of any other D-Bus type.
    Other,
}

impl View for PropertyValue {
    /// The string held by the value, or `None` when it is not a string.
    type V = Option<Seq<char>>;

    open spec fn view(&self) -> Option<Seq<char>> {
        match self {
            PropertyValue::Str(s) => Some(s@),
            PropertyValue::Other => None,
        }
    }
}

impl PropertyValue {
    /// The string held by the value, if it is a string.
    pub fn as_str(&self) -> (text: Option<&str>)
        ensures
            text is Some <==> self@ is Some,
            text matches Some(s) ==> self@ == Some(s@),
    {
        match self {
            PropertyValue::Str(s) => Some(s.as_str()),
            PropertyValue::Other => None,
        }
    }
}

/// The entries of a dictionary have pairwise distinct keys.
pub open spec fn distinct_keys(es: Seq<(String, PropertyValue)>) -> bool {
    forall|i: int, j: int|
        0 <= i < es.len() && 0 <= j < es.len() && i != j ==> #[trigger] es[i].0@ != #[trigger] es[j].0@
}

/// Some entry of `es` has the key `k`.
pub open spec fn has_key(es: Seq<(String, PropertyValue)>, k: Seq<char>) -> bool {
    exists|i: int| 0 <= i < es.len() && #[trigger] es[i].0@ == k
}

/// The dictionary that a list of entries stands for: each key maps to the
/// value of an entry with that key.
pub open spec fn entries_map(es: Seq<(String, PropertyValue)>) -> Map<Seq<char>, Option<Seq<char>>> {
    Map::new(
        |k: Seq<char>| has_key(es, k),
        |k: Seq<char>| es[choose|i: int| 0 <= i < es.len() && #[trigger] es[i].0@ == k].1@,
    )
}

/// With distinct keys, the dictionary maps the key of entry `i` to its value.
proof fn lemma_entries_map_at(es: Seq<(String, PropertyValue)>, i: int)
    requires
        distinct_keys(es),
        0 <= i < es.len(),
    ensures
        entries_map(es).contains_key(es[i].0@),
        entries_map(es)[es[i].0@] == es[i].1@,
{
    let k = es[i].0@;
    assert(has_key(es, k));
    let j = choose|j: int| 0 <= j < es.len() && #[trigger] es[j].0@ == k;
    if j != i {
        assert(es[i].0@ != es[j].0@);
    }
}

/// Overwriting the entry that has the key of `e` keeps the keys distinct and
/// inserts `e` into the dictionary.
proof fn lemma_entries_update(es: Seq<(String, PropertyValue)>, i: int, e: (String, PropertyValue))
    requires
        distinct_keys(es),
        0 <= i < es.len(),
        es[i].0@ == e.0@,
    ensures
        distinct_keys(es.update(i, e)),
        entries_map(es.update(i, e)) =~= entries_map(es).insert(e.0@, e.1@),
{
    let ns = es.update(i, e);
    assert forall|a: int, b: int|
        0 <= a < ns.len() && 0 <= b < ns.len() && a != b implies #[trigger] ns[a].0@
        != #[trigger] ns[b].0@ by {
        assert(es[a].0@ != es[b].0@);
    }
    let m = entries_map(es).insert(e.0@, e.1@);
    let nm = entries_map(ns);
    assert forall|k: Seq<char>| nm.contains_key(k) <==> m.contains_key(k) by {
        if has_key(ns, k) {
            let j = choose|j: int| 0 <= j < ns.len() && #[trigger] ns[j].0@ == k;
            if j != i {
                assert(es[j].0@ == k);
                assert(has_key(es, k));
            }
        }
        if m.contains_key(k) {
            if k == e.0@ {
                assert(ns[i].0@ == k);
            } else {
                let j = choose|j: int| 0 <= j < es.len() && #[trigger] es[j].0@ == k;
                assert(ns[j].0@ == k);
            }
        }
    }
    assert forall|k: Seq<char>| nm.contains_key(k) implies nm[k] == m[k] by {
        let j = choose|j: int| 0 <= j < ns.len() && #[trigger] ns[j].0@ == k;
        lemma_entries_map_at(ns, j);
        if k != e.0@ {
            assert(j != i);
            lemma_entries_map_at(es, j);
        } else {
            lemma_entries_map_at(ns, i);
        }
    }
}

/// Appending an entry with a new key keeps the keys distinct and inserts it
/// into the dictionary.
proof fn lemma_entries_push(es: Seq<(String, PropertyValue)>, e: (String, PropertyValue))
    requires
        distinct_keys(es),
        !has_key(es, e.0@),
    ensures
        distinct_keys(es.push(e)),
        entries_map(es.push(e)) =~= entries_map(es).insert(e.0@, e.1@),
{
    let ns = es.push(e);
    let n = es.len() as int;
    assert forall|a: int, b: int|
        0 <= a < ns.len() && 0 <= b < ns.len() && a != b implies #[trigger] ns[a].0@
        != #[trigger] ns[b].0@ by {
        if a == n {
            assert(es[b].0@ != e.0@);
        } else if b == n {
            assert(es[a].0@ != e.0@);
        } else {
            assert(es[a].0@ != es[b].0@);
        }
    }
    let m = entries_map(es).insert(e.0@, e.1@);
    let nm = entries_map(ns);
    assert forall|k: Seq<char>| nm.contains_key(k) <==> m.contains_key(k) by {
        if has_key(ns, k) {
            let j = choose|j: int| 0 <= j < ns.len() && #[trigger] ns[j].0@ == k;
            if j != n {
                assert(es[j].0@ == k);
                assert(has_key(es, k));
            }
        }
        if m.contains_key(k) {
            if k == e.0@ {
                assert(ns[n].0@ == k);
            } else {
                let j = choose|j: int| 0 <= j < es.len() && #[trigger] es[j].0@ == k;
                assert(ns[j].0@ == k);
            }
        }
    }
    assert forall|k: Seq<char>| nm.contains_key(k) implies nm[k] == m[k] by {
        let j = choose|j: int| 0 <= j < ns.len() && #[trigger] ns[j].0@ == k;
        lemma_entries_map_at(ns, j);
        if j != n {
            assert(es[j].0@ == k);
            lemma_entries_map_at(es, j);
        }
    }
}

/// Removing entry `i` keeps the keys distinct and removes its key from the
/// dictionary.
proof fn lemma_entries_remove(es: Seq<(String, PropertyValue)>, i: int)
    requires
        distinct_keys(es),
        0 <= i < es.len(),
    ensures
        distinct_keys(es.remove(i)),
        entries_map(es.remove(i)) =~= entries_map(es).remove(es[i].0@),
{
    let ns = es.remove(i);
    let key = es[i].0@;
    assert forall|a: int, b: int|
        0 <= a < ns.len() && 0 <= b < ns.len() && a != b implies #[trigger] ns[a].0@
        != #[trigger] ns[b].0@ by {
        let a2 = if a < i { a } else { a + 1 };
        let b2 = if b < i { b } else { b + 1 };
        assert(ns[a] == es[a2]);
        assert(ns[b] == es[b2]);
        assert(es[a2].0@ != es[b2].0@);
    }
    let m = entries_map(es).remove(key);
    let nm = entries_map(ns);
    assert forall|k: Seq<char>| nm.contains_key(k) <==> m.contains_key(k) by {
        if has_key(ns, k) {
            let j = choose|j: int| 0 <= j < ns.len() && #[trigger] ns[j].0@ == k;
            let j2 = if j < i { j } else { j + 1 };
            assert(ns[j] == es[j2]);
            assert(has_key(es, k));
            assert(es[j2].0@ != es[i].0@);
        }
        if m.contains_key(k) {
            let j = choose|j: int| 0 <= j < es.len() && #[trigger] es[j].0@ == k;
            assert(j != i);
            let j2 = if j < i { j } else { j - 1 };
            assert(ns[j2] == es[j]);
            assert(has_key(ns, k));
        }
    }
    assert forall|k: Seq<char>| nm.contains_key(k) implies nm[k] == m[k] by {
        let j = choose|j: int| 0 <= j < ns.len() && #[trigger] ns[j].0@ == k;
        lemma_entries_map_at(ns, j);
        let j2 = if j < i { j } else { j + 1 };
        assert(ns[j] == es[j2]);
        lemma_entries_map_at(es, j2);
    }
}

/// Index of the entry with key `key`, if there is one.
fn find_key(entries: &Vec<(String, PropertyValue)>, key: &str) -> (found: Option<usize>)
    ensures
        found matches Some(i) ==> i < entries@.len() && entries@[i as int].0@ == key@,
        found is None ==> !has_key(entries@, key@),
{
    let mut i: usize = 0;
    while i < entries.len()
        invariant
            i <= entries@.len(),
            forall|j: int| 0 <= j < i ==> #[trigger] entries@[j].0@ != key@,
        decreases entries@.len() - i,
    {
        if same_text(entries[i].0.as_str(), key) {
            return Some(i);
        }
        i = i + 1;
    }
    assert forall|j: int| 0 <= j < entries@.len() implies #[trigger] entries@[j].0@ != key@ by {}
    None
}

/// A D-Bus dictionary from property names to values.
pub struct PropertyMap {
    entries: Vec<(String, PropertyValue)>,
}

impl PropertyMap {
    #[verifier::type_invariant]
    spec fn keys_are_distinct(self) -> bool {
        distinct_keys(self.entries@)
    }
}

impl View for PropertyMap {
    type V = Map<Seq<char>, Option<Seq<char>>>;

    closed spec fn view(&self) -> Map<Seq<char>, Option<Seq<char>>> {
        entries_map(self.entries@)
    }
}

impl PropertyMap {
    /// An empty dictionary.
    pub fn new() -> (map: Self)
        ensures
            map@ == Map::<Seq<char>, Option<Seq<char>>>::empty(),
    {
        let map = PropertyMap { entries: Vec::new() };
        assert(map@ =~= Map::<Seq<char>, Option<Seq<char>>>::empty());
        map
    }

    /// Whether the dictionary has an entry for `key`.
    pub fn contains_key(&self, key: &str) -> (present: bool)
        ensures
            present == self@.contains_key(key@),
    {
        self.find_entry(key).is_some()
    }

    /// The value stored under `key`, if any.
    pub fn get(&self, key: &str) -> (value: Option<&PropertyValue>)
        ensures
            value is Some <==> self@.contains_key(key@),
            value matches Some(v) ==> self@[key@] == v@,
    {
        match self.find_entry(key) {
            Some(i) => Some(&self.entries[i].1),
            None => None,
        }
    }

    /// Index of the entry for `key`; its value is what the view maps `key` to.
    fn find_entry(&self, key: &str) -> (found: Option<usize>)
        ensures
            found is Some <==> self@.contains_key(key@),
            found matches Some(i) ==> i < self.entries@.len() && self.entries@[i as int].0@ == key@
                && self@[key@] == self.entries@[i as int].1@,
    {
        proof {
            use_type_invariant(self);
        }
        let found = find_key(&self.entries, key);
        proof {
            if let Some(i) = found {
                lemma_entries_map_at(self.entries@, i as int);
            }
        }
        found
    }

    /// Stores `value` under `key`, replacing and returning the value that was
    /// stored there before.
    pub fn insert(&mut self, key: String, value: PropertyValue) -> (previous: Option<PropertyValue>)
        ensures
            final(self)@ == old(self)@.insert(key@, value@),
            previous is Some <==> old(self)@.contains_key(key@),
            previous matches Some(v) ==> old(self)@[key@] == v@,
    {
        proof {
            use_type_invariant(&*self);
        }
        let ghost before = self.entries@;
        let mut entries: Vec<(String, PropertyValue)> = Vec::new();
        std::mem::swap(&mut entries, &mut self.entries);
        assert(entries@ == before);
        match find_key(&entries, key.as_str()) {
            Some(i) => {
                proof {
                    lemma_entries_map_at(before, i as int);
                }
                let old_entry = entries.remove(i);
                entries.insert(i, (key, value));
                proof {
                    assert(entries@ =~= before.update(i as int, entries@[i as int]));
                    lemma_entries_update(before, i as int, entries@[i as int]);
                }
                self.entries = entries;
                Some(old_entry.1)
            },
            None => {
                entries.push((key, value));
                proof {
                    lemma_entries_push(before, entries@[before.len() as int]);
                    assert(entries@ =~= before.push(entries@[before.len() as int]));
                }
                self.entries = entries;
                None
            },
        }
    }

    /// Removes the entry for `key`, returning its value.
    pub fn remove(&mut self, key: &str) -> (removed: Option<PropertyValue>)
        ensures
            final(self)@ == old(self)@.remove(key@),
            removed is Some <==> old(self)@.contains_key(key@),
            removed matches Some(v) ==> old(self)@[key@] == v@,
    {
        proof {
            use_type_invariant(&*self);
        }
        let ghost before = self.entries@;
        let mut entries: Vec<(String, PropertyValue)> = Vec::new();
        std::mem::swap(&mut entries, &mut self.entries);
        match find_key(&entries, key) {
            Some(i) => {
                proof {
                    lemma_entries_map_at(before, i as int);
                    lemma_entries_remove(before, i as int);
                }
                let old_entry = entries.remove(i);
                self.entries = entries;
                Some(old_entry.1)
            },
            None => {
                proof {
                    assert(entries_map(before).remove(key@) =~= entries_map(before));
                }
                self.entries = entries;
                None
            },
        }
    }
}

} // verus!
