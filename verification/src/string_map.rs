//! A small map from text keys to text values, kept in insertion order.

use vstd::prelude::*;

verus! {

/// Position of the first entry with the key, if there is one.
pub open spec fn key_position(entries: Seq<(Seq<char>, Seq<char>)>, key: Seq<char>) -> Option<int> {
    if exists|i: int| 0 <= i < entries.len() && entries[i].0 == key {
        Some(choose|i: int| 0 <= i < entries.len() && entries[i].0 == key
            && forall|k: int| 0 <= k < i ==> entries[k].0 != key)
    } else {
        None
    }
}

/// The value stored under the key, if any.
pub open spec fn lookup(entries: Seq<(Seq<char>, Seq<char>)>, key: Seq<char>) -> Option<Seq<char>> {
    match key_position(entries, key) {
        Some(i) => Some(entries[i].1),
        None => None,
    }
}

/// No key occurs twice.
pub open spec fn distinct_keys(entries: Seq<(Seq<char>, Seq<char>)>) -> bool {
    forall|i: int, j: int| 0 <= i < j < entries.len() ==> entries[i].0 != entries[j].0
}

/// The entries after storing `value` under `key`: the entry with the key
/// gets the new value in place, or a new entry is appended.
pub open spec fn stored(entries: Seq<(Seq<char>, Seq<char>)>, key: Seq<char>, value: Seq<char>) -> Seq<(Seq<char>, Seq<char>)> {
    match key_position(entries, key) {
        Some(i) => entries.update(i, (key, value)),
        None => entries.push((key, value)),
    }
}

/// A map from text keys to text values; entries keep the order in which
/// their keys were first stored.
#[derive(Debug, Clone)]
pub struct StringMap {
    entries: Vec<(String, String)>,
}

impl View for StringMap {
    type V = Seq<(Seq<char>, Seq<char>)>;

    closed spec fn view(&self) -> Seq<(Seq<char>, Seq<char>)> {
        self.entries@.map_values(|e: (String, String)| (e.0@, e.1@))
    }
}

impl StringMap {
    /// No key occurs twice.
    pub open spec fn wf(&self) -> bool {
        distinct_keys(self@)
    }

    /// An empty map.
    pub fn new() -> (m: Self)
        ensures
            m.wf(),
            m@ == Seq::<(Seq<char>, Seq<char>)>::empty(),
    {
        let m = StringMap { entries: Vec::new() };
        assert(m@ =~= Seq::<(Seq<char>, Seq<char>)>::empty());
        m
    }

    fn position(&self, key: &str) -> (r: Option<usize>)
        ensures
            match key_position(self@, key@) {
                None => r is None,
                Some(i) => r is Some && r->0 == i,
            },
            r is Some ==> r->0 < self@.len() && self@[r->0 as int].0 == key@,
    {
        let wanted = String::from_str(key);
        let mut i: usize = 0;
        while i < self.entries.len()
            invariant
                i <= self.entries@.len(),
                wanted@ == key@,
                forall|k: int| 0 <= k < i ==> self@[k].0 != key@,
            decreases self.entries@.len() - i,
        {
            if self.entries[i].0 == wanted {
                proof {
                    assert(self@[i as int].0 == key@);
                    let j = key_position(self@, key@)->0;
                    assert(j == i);
                }
                return Some(i);
            }
            i = i + 1;
        }
        assert(key_position(self@, key@) is None);
        None
    }

    /// Stores `value` under `key`, replacing the value stored before.
    pub fn insert(&mut self, key: &str, value: &str)
        requires
            old(self).wf(),
        ensures
            final(self).wf(),
            final(self)@ == stored(old(self)@, key@, value@),
    {
        match self.position(key) {
            Some(i) => {
                self.entries.set(i, (String::from_str(key), String::from_str(value)));
                assert(self@ =~= old(self)@.update(i as int, (key@, value@)));
            },
            None => {
                self.entries.push((String::from_str(key), String::from_str(value)));
                assert(self@ =~= old(self)@.push((key@, value@)));
            },
        }
    }

    /// The value stored under `key`, if any.
    pub fn get(&self, key: &str) -> (r: Option<&String>)
        ensures
            lookup(self@, key@) is None ==> r is None,
            lookup(self@, key@) is Some ==> r is Some && r->0@ == lookup(self@, key@)->0,
    {
        match self.position(key) {
            Some(i) => Some(&self.entries[i].1),
            None => None,
        }
    }

    /// A copy of the map.
    pub fn duplicate(&self) -> (m: Self)
        ensures
            m@ == self@,
    {
        let mut entries: Vec<(String, String)> = Vec::new();
        let mut i: usize = 0;
        while i < self.entries.len()
            invariant
                i <= self.entries@.len(),
                entries@ == self.entries@.subrange(0, i as int),
            decreases self.entries@.len() - i,
        {
            let k = self.entries[i].0.clone();
            let v = self.entries[i].1.clone();
            entries.push((k, v));
            i = i + 1;
            assert(entries@ =~= self.entries@.subrange(0, i as int));
        }
        assert(self.entries@.subrange(0, self.entries@.len() as int) =~= self.entries@);
        StringMap { entries }
    }

    /// Whether some entry has the key.
    pub fn contains_key(&self, key: &str) -> (b: bool)
        ensures
            b == (lookup(self@, key@) is Some),
    {
        self.position(key).is_some()
    }

    /// Number of entries.
    pub fn len(&self) -> (n: usize)
        ensures
            n == self@.len(),
    {
        self.entries.len()
    }

    /// The entry at a position, in the order the keys were first stored.
    pub fn entry_at(&self, i: usize) -> (e: (&String, &String))
        requires
            i < self@.len(),
        ensures
            (e.0@, e.1@) == self@[i as int],
    {
        (&self.entries[i].0, &self.entries[i].1)
    }

    /// Whether there is no entry.
    pub fn is_empty(&self) -> (b: bool)
        ensures
            b == (self@.len() == 0),
    {
        self.entries.len() == 0
    }
}

/// Reading a key right after storing a value under it gives that value,
/// and storing leaves every other key's value as it was.
pub proof fn lemma_lookup_after_store(entries: Seq<(Seq<char>, Seq<char>)>, key: Seq<char>, value: Seq<char>, other: Seq<char>)
    requires
        distinct_keys(entries),
    ensures
        lookup(stored(entries, key, value), key) == Some(value),
        other != key ==> lookup(stored(entries, key, value), other) == lookup(entries, other),
        distinct_keys(stored(entries, key, value)),
{
    let s = stored(entries, key, value);
    match key_position(entries, key) {
        Some(i) => {
            assert(s[i].0 == key);
            let p = key_position(s, key)->0;
            assert(p == i);
        },
        None => {
            assert(s[entries.len() as int].0 == key);
            let p = key_position(s, key)->0;
            assert(p == entries.len());
        },
    }
    if other != key {
        match key_position(entries, other) {
            Some(j) => {
                assert(s[j].0 == other);
                let p = key_position(s, other)->0;
                assert(p == j);
            },
            None => {
                assert(key_position(s, other) is None);
            },
        }
    }
}

} // verus!
