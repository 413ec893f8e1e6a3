//! Maps and sets keyed by names (strings), kept in insertion order.
//!
//! These hold the name-keyed tables of the library: dictionary columns, the
//! dictionaries of a schema, the dictionary schema map and function aliases.

use vstd::prelude::*;

verus! {

/// The index of the entry whose key is `k` (meaningful when there is one).
pub open spec fn key_index<V>(s: Seq<(String, V)>, k: Seq<char>) -> int {
    choose|i: int| 0 <= i < s.len() && #[trigger] s[i].0@ == k
}

/// The keys of a sequence of entries, as character sequences.
pub open spec fn entry_keys<V>(s: Seq<(String, V)>) -> Seq<Seq<char>> {
    s.map_values(|e: (String, V)| e.0@)
}

/// The map that a sequence of entries with distinct keys denotes.
pub open spec fn entries_map<V>(s: Seq<(String, V)>) -> Map<Seq<char>, V> {
    Map::new(
        |k: Seq<char>| entry_keys(s).contains(k),
        |k: Seq<char>| s[key_index(s, k)].1,
    )
}

/// A map from names to values.
///
/// Each name occurs at most once; names are kept in the order in which they
/// were first inserted.
#[derive(Debug)]
pub struct NameMap<V> {
    entries: Vec<(String, V)>,
}

impl<V> View for NameMap<V> {
    type V = Map<Seq<char>, V>;

    closed spec fn view(&self) -> Map<Seq<char>, V> {
        entries_map(self.entries@)
    }
}

/// The entry at position `i` of a sequence with distinct keys is the one the
/// map finds under its key.
proof fn lemma_entry_found<V>(s: Seq<(String, V)>, i: int)
    requires
        entry_keys(s).no_duplicates(),
        0 <= i < s.len(),
    ensures
        entries_map(s).contains_key(s[i].0@),
        entries_map(s)[s[i].0@] == s[i].1,
        key_index(s, s[i].0@) == i,
{
    let k = s[i].0@;
    assert(entry_keys(s)[i] == k);
    let j = key_index(s, k);
    assert(0 <= j < s.len() && s[j].0@ == k);
    assert(entry_keys(s)[j] == k);
}

impl<V> NameMap<V> {
    /// The names of the map, in insertion order.
    pub closed spec fn key_seq(&self) -> Seq<Seq<char>> {
        entry_keys(self.entries@)
    }

    #[verifier::type_invariant]
    closed spec fn names_distinct(&self) -> bool {
        entry_keys(self.entries@).no_duplicates()
    }

    /// With distinct names, the names in insertion order are exactly the keys of the map.
    proof fn lemma_key_seq(m: &Self)
        requires
            m.names_distinct(),
        ensures
            m.key_seq().no_duplicates(),
            m.key_seq().len() == m@.len(),
            m.key_seq().to_set() == m@.dom(),
            forall|k: Seq<char>| #[trigger] m@.contains_key(k) <==> m.key_seq().contains(k),
    {
        let ks = m.key_seq();
        assert(ks.to_set() =~= m@.dom());
        ks.unique_seq_to_set();
    }

    /// Creates an empty map.
    pub fn new() -> (m: Self)
        ensures
            m@ == Map::<Seq<char>, V>::empty(),
            m.key_seq() == Seq::<Seq<char>>::empty(),
    {
        let m = NameMap { entries: Vec::new() };
        assert(m@ =~= Map::<Seq<char>, V>::empty());
        assert(m.key_seq() =~= Seq::<Seq<char>>::empty());
        m
    }

    /// The position of `k` among the entries, if it is a key.
    fn position(&self, k: &String) -> (r: Option<usize>)
        ensures
            match r {
                Some(i) => i < self.entries@.len() && self.entries@[i as int].0@ == k@
                    && self@.contains_key(k@),
                None => !self@.contains_key(k@),
            },
    {
        let n: usize = self.entries.len();
        for i in 0..n
            invariant
                n == self.entries@.len(),
                forall|j: int| 0 <= j < i ==> self.entries@[j].0@ != k@,
        {
            if self.entries[i].0 == *k {
                proof {
                    assert(self.key_seq()[i as int] == k@);
                }
                return Some(i);
            }
        }
        proof {
            if self@.contains_key(k@) {
                let j = choose|j: int| 0 <= j < self.key_seq().len() && self.key_seq()[j] == k@;
                assert(self.entries@[j].0@ == k@);
            }
        }
        None
    }

    /// The number of names in the map.
    pub fn len(&self) -> (n: usize)
        ensures
            n == self@.len(),
            n == self.key_seq().len(),
            self.key_seq().no_duplicates(),
            forall|k: Seq<char>| #[trigger] self@.contains_key(k) <==> self.key_seq().contains(k),
    {
        proof {
            use_type_invariant(self);
            Self::lemma_key_seq(self);
        }
        self.entries.len()
    }

    /// Whether `k` is a name of the map.
    pub fn contains_key(&self, k: &str) -> (b: bool)
        ensures
            b == self@.contains_key(k@),
    {
        let key = k.to_owned();
        self.position(&key).is_some()
    }

    /// The value stored under `k`, if any.
    pub fn get(&self, k: &str) -> (r: Option<&V>)
        ensures
            match r {
                Some(v) => self@.contains_key(k@) && *v == self@[k@],
                None => !self@.contains_key(k@),
            },
    {
        proof {
            use_type_invariant(self);
        }
        let key = k.to_owned();
        match self.position(&key) {
            Some(i) => {
                proof {
                    lemma_entry_found(self.entries@, i as int);
                }
                Some(&self.entries[i].1)
            },
            None => None,
        }
    }

    /// Stores `v` under `k`; returns the value that was stored under `k` before, if any.
    ///
    /// A new name is placed after all others; a name already present keeps its place.
    pub fn insert(&mut self, k: String, v: V) -> (previous: Option<V>)
        ensures
            final(self)@ == old(self)@.insert(k@, v),
            match previous {
                Some(p) => old(self)@.contains_key(k@) && p == old(self)@[k@],
                None => !old(self)@.contains_key(k@),
            },
            old(self)@.contains_key(k@) ==> final(self).key_seq() == old(self).key_seq(),
            !old(self)@.contains_key(k@) ==> final(self).key_seq() == old(self).key_seq().push(k@),
    {
        proof {
            use_type_invariant(&*self);
        }
        let ghost old_entries = self.entries@;
        let ghost kv = k@;
        let found = self.position(&k);
        let mut entries: Vec<(String, V)> = Vec::new();
        std::mem::swap(&mut entries, &mut self.entries);
        assert(entries@ == old_entries);
        match found {
            Some(i) => {
                proof {
                    lemma_entry_found(old_entries, i as int);
                }
                let removed = entries.remove(i);
                entries.insert(i, (k, v));
                proof {
                    let new_entries = entries@;
                    assert(new_entries =~= old_entries.update(i as int, (new_entries[i as int].0, v)));
                    assert(entry_keys(new_entries) =~= entry_keys(old_entries));
                    lemma_entry_found(new_entries, i as int);
                    assert forall|key: Seq<char>| #[trigger] entries_map(new_entries).contains_key(key)
                        implies entries_map(new_entries)[key] == entries_map(old_entries).insert(kv, v)[key] by {
                        let j = key_index(new_entries, key);
                        assert(entry_keys(new_entries)[j] == key);
                        lemma_entry_found(new_entries, j);
                        if key != kv {
                            lemma_entry_found(old_entries, j);
                        }
                    }
                    assert(entries_map(new_entries) =~= entries_map(old_entries).insert(kv, v));
                }
                self.entries = entries;
                Some(removed.1)
            },
            None => {
                entries.push((k, v));
                proof {
                    let new_entries = entries@;
                    assert(entry_keys(new_entries) =~= entry_keys(old_entries).push(kv));
                    assert(!entry_keys(old_entries).contains(kv));
                    assert forall|key: Seq<char>|
                        #[trigger] entry_keys(new_entries).contains(key)
                            == (entry_keys(old_entries).contains(key) || key == kv) by {
                        if entry_keys(old_entries).contains(key) {
                            let j = choose|j: int| 0 <= j < entry_keys(old_entries).len()
                                && entry_keys(old_entries)[j] == key;
                            assert(entry_keys(new_entries)[j] == key);
                        }
                        if key == kv {
                            assert(entry_keys(new_entries)[new_entries.len() - 1] == key);
                        }
                        if entry_keys(new_entries).contains(key) {
                            let j = choose|j: int| 0 <= j < entry_keys(new_entries).len()
                                && entry_keys(new_entries)[j] == key;
                            if j < old_entries.len() {
                                assert(entry_keys(old_entries)[j] == key);
                            }
                        }
                    }
                    assert forall|a: int, b: int|
                        0 <= a < b < new_entries.len() implies
                        entry_keys(new_entries)[a] != entry_keys(new_entries)[b] by {
                        if b == new_entries.len() - 1 {
                            assert(entry_keys(old_entries)[a] == entry_keys(new_entries)[a]);
                        }
                    }
                    assert forall|key: Seq<char>| #[trigger] entries_map(new_entries).contains_key(key)
                        implies entries_map(new_entries)[key] == entries_map(old_entries).insert(kv, v)[key] by {
                        let j = key_index(new_entries, key);
                        assert(entry_keys(new_entries)[j] == key);
                        lemma_entry_found(new_entries, j);
                        if key != kv {
                            lemma_entry_found(old_entries, j);
                        }
                    }
                    assert(entries_map(new_entries) =~= entries_map(old_entries).insert(kv, v));
                }
                self.entries = entries;
                None
            },
        }
    }

    /// The names of the map, in insertion order.
    pub fn keys(&self) -> (ks: Vec<String>)
        ensures
            ks@.map_values(|s: String| s@) == self.key_seq(),
            ks@.len() == self.key_seq().len(),
            forall|i: int| 0 <= i < ks@.len() ==> #[trigger] ks@[i]@ == self.key_seq()[i],
            self.key_seq().no_duplicates(),
            self.key_seq().len() == self@.len(),
            self.key_seq().to_set() == self@.dom(),
            forall|k: Seq<char>| #[trigger] self@.contains_key(k) <==> self.key_seq().contains(k),
    {
        proof {
            use_type_invariant(self);
            Self::lemma_key_seq(self);
        }
        let mut ks: Vec<String> = Vec::new();
        let n: usize = self.entries.len();
        for i in 0..n
            invariant
                n == self.entries@.len(),
                ks@.len() == i,
                forall|j: int| 0 <= j < i ==> #[trigger] ks@[j]@ == self.entries@[j].0@,
        {
            ks.push(self.entries[i].0.clone());
        }
        assert(ks@.map_values(|s: String| s@) =~= self.key_seq());
        ks
    }

    /// The entry at position `i` of the insertion order.
    pub fn entry_at(&self, i: usize) -> (e: (&String, &V))
        requires
            i < self.key_seq().len(),
        ensures
            e.0@ == self.key_seq()[i as int],
            self@.contains_key(e.0@),
            *e.1 == self@[e.0@],
    {
        proof {
            use_type_invariant(self);
            lemma_entry_found(self.entries@, i as int);
        }
        let e = &self.entries[i];
        (&e.0, &e.1)
    }
}

impl<V: Clone> Clone for NameMap<V> {
    /// A copy with the same names in the same order; the value under each
    /// name is a clone of the value under that name here.
    fn clone(&self) -> (c: Self)
        ensures
            c.key_seq() == self.key_seq(),
            c@.dom() == self@.dom(),
            forall|k: Seq<char>| #[trigger] c@.contains_key(k) ==> cloned::<V>(self@[k], c@[k]),
    {
        proof {
            use_type_invariant(self);
        }
        let mut entries: Vec<(String, V)> = Vec::new();
        let n: usize = self.entries.len();
        for i in 0..n
            invariant
                n == self.entries@.len(),
                entries@.len() == i,
                forall|j: int| 0 <= j < i ==> #[trigger] entries@[j].0@ == self.entries@[j].0@,
                forall|j: int| 0 <= j < i ==> cloned::<V>(self.entries@[j].1, #[trigger] entries@[j].1),
        {
            let e = &self.entries[i];
            entries.push((e.0.clone(), e.1.clone()));
        }
        assert(entry_keys(entries@) =~= entry_keys(self.entries@));
        let c = NameMap { entries };
        proof {
            assert(c@.dom() =~= self@.dom());
            assert forall|k: Seq<char>| #[trigger] c@.contains_key(k) implies cloned::<V>(self@[k], c@[k]) by {
                let i = choose|i: int| 0 <= i < entry_keys(c.entries@).len() && entry_keys(c.entries@)[i] == k;
                lemma_entry_found(c.entries@, i);
                lemma_entry_found(self.entries@, i);
                assert(entry_keys(self.entries@)[i] == k);
            }
        }
        c
    }
}

/// A set of names, kept in insertion order.
#[derive(Debug, Clone)]
pub struct NameSet {
    names: NameMap<()>,
}

impl View for NameSet {
    type V = Set<Seq<char>>;

    closed spec fn view(&self) -> Set<Seq<char>> {
        self.names@.dom()
    }
}

impl NameSet {
    /// The names of the set, in insertion order.
    pub closed spec fn name_seq(&self) -> Seq<Seq<char>> {
        self.names.key_seq()
    }

    /// Creates an empty set.
    pub fn new() -> (s: Self)
        ensures
            s@ == Set::<Seq<char>>::empty(),
            s.name_seq() == Seq::<Seq<char>>::empty(),
    {
        let s = NameSet { names: NameMap::new() };
        assert(s@ =~= Set::<Seq<char>>::empty());
        s
    }

    /// Adds `name`; returns whether it was not there before.
    pub fn insert(&mut self, name: String) -> (added: bool)
        ensures
            final(self)@ == old(self)@.insert(name@),
            added == !old(self)@.contains(name@),
    {
        let previous = self.names.insert(name, ());
        assert(self@ =~= old(self)@.insert(name@));
        previous.is_none()
    }

    /// Whether `name` is in the set.
    pub fn contains(&self, name: &str) -> (b: bool)
        ensures
            b == self@.contains(name@),
    {
        self.names.contains_key(name)
    }

    /// The number of names in the set.
    pub fn len(&self) -> (n: usize)
        ensures
            n == self@.len(),
    {
        self.names.len()
    }

    /// The names of the set, in insertion order, each once.
    pub fn to_vec(&self) -> (v: Vec<String>)
        ensures
            v@.map_values(|s: String| s@).no_duplicates(),
            v@.map_values(|s: String| s@).to_set() == self@,
            v@.len() == self@.len(),
            forall|name: Seq<char>|
                #[trigger] self@.contains(name) <==> exists|i: int| 0 <= i < v@.len() && #[trigger] v@[i]@ == name,
    {
        let v = self.names.keys();
        assert(v@.len() == v@.map_values(|s: String| s@).len());
        assert forall|name: Seq<char>| #[trigger] self@.contains(name)
            <==> exists|i: int| 0 <= i < v@.len() && #[trigger] v@[i]@ == name by {
            if self@.contains(name) {
                assert(self.names.key_seq().contains(name));
                let i = choose|i: int| 0 <= i < self.names.key_seq().len() && self.names.key_seq()[i] == name;
                assert(v@[i]@ == name);
            }
            if exists|i: int| 0 <= i < v@.len() && #[trigger] v@[i]@ == name {
                let i = choose|i: int| 0 <= i < v@.len() && #[trigger] v@[i]@ == name;
                assert(self.names.key_seq()[i] == name);
            }
        }
        v
    }
}

} // verus!
