//! A small map from names to values, kept as a list in which no name
//! occurs twice.

use crate::text::same_text;
use vstd::prelude::*;

verus! {

/// A finite map keyed by name. Its entries stand in the order in which
/// their names first came in.
#[derive(Debug)]
pub struct NameMap<V> {
    entries: Vec<(String, V)>,
}

/// The names of a list of entries.
pub open spec fn entry_names<V>(entries: Seq<(String, V)>) -> Seq<Seq<char>> {
    entries.map_values(|e: (String, V)| e.0@)
}

/// The values of a list of entries.
pub open spec fn entry_values<V>(entries: Seq<(String, V)>) -> Seq<V> {
    entries.map_values(|e: (String, V)| e.1)
}

impl<V> View for NameMap<V> {
    type V = Map<Seq<char>, V>;

    /// The map that the entries make up.
    open spec fn view(&self) -> Map<Seq<char>, V> {
        Map::new(
            |name: Seq<char>| self.keys().contains(name),
            |name: Seq<char>| self.values()[self.keys().index_of(name)],
        )
    }
}

impl<V: Clone> Clone for NameMap<V> {
    /// A map of the same names, each with a clone of its value.
    fn clone(&self) -> (r: Self)
        ensures
            r.wf(),
            r.keys() == self.keys(),
            r.values().len() == self.values().len(),
            forall|i: int|
                0 <= i < self.values().len() ==> cloned(
                    #[trigger] self.values()[i],
                    r.values()[i],
                ),
    {
        proof {
            use_type_invariant(self);
        }
        let n: usize = self.entries.len();
        let mut entries: Vec<(String, V)> = Vec::new();
        let mut i: usize = 0;
        while i < n
            invariant
                i <= n,
                n == self.entries.len(),
                entries.len() == i,
                entry_names(entries@) =~= entry_names(self.entries@).take(i as int),
                forall|j: int|
                    0 <= j < i ==> cloned(
                        #[trigger] entry_values(self.entries@)[j],
                        entry_values(entries@)[j],
                    ),
            decreases n - i,
        {
            let name: String = self.entries[i].0.clone();
            let value: V = self.entries[i].1.clone();
            entries.push((name, value));
            i = i + 1;
        }
        assert(entry_names(entries@) =~= entry_names(self.entries@));
        assert(entry_values(entries@).len() == entries.len());
        NameMap { entries }
    }
}

impl<V> NameMap<V> {
    /// The names, in the order of the entries.
    pub closed spec fn keys(self) -> Seq<Seq<char>> {
        entry_names(self.entries@)
    }

    /// The values, in the order of the entries.
    pub closed spec fn values(self) -> Seq<V> {
        entry_values(self.entries@)
    }

    /// Every entry has its value, and no name occurs twice.
    pub open spec fn wf(self) -> bool {
        &&& self.keys().len() == self.values().len()
        &&& self.keys().no_duplicates()
    }

    #[verifier::type_invariant]
    spec fn inv(self) -> bool {
        self.wf()
    }

    /// In a well-formed map each entry is found under its own name, and
    /// the map holds nothing else.
    pub proof fn lemma_entries(self)
        requires
            self.wf(),
        ensures
            self@.dom().finite(),
            self@.dom().len() == self.keys().len(),
            forall|i: int|
                0 <= i < self.keys().len() ==> self@.contains_key(#[trigger] self.keys()[i])
                    && self@[self.keys()[i]] == self.values()[i],
            forall|name: Seq<char>|
                self@.contains_key(name) ==> 0 <= self.keys().index_of(name) < self.keys().len()
                    && self.keys()[self.keys().index_of(name)] == name,
    {
        let keys = self.keys();
        assert forall|i: int| 0 <= i < keys.len() implies self@.contains_key(#[trigger] keys[i])
            && self@[keys[i]] == self.values()[i] by {
            assert(keys.contains(keys[i]));
            let j = keys.index_of(keys[i]);
            assert(keys[j] == keys[i]);
        }
        assert(self@.dom() =~= keys.to_set());
        keys.unique_seq_to_set();
    }

    /// The map without entries.
    pub fn new() -> (m: Self)
        ensures
            m.keys() == Seq::<Seq<char>>::empty(),
            m.values() == Seq::<V>::empty(),
            m@ == Map::<Seq<char>, V>::empty(),
            m.wf(),
    {
        let entries: Vec<(String, V)> = Vec::new();
        assert(entry_names(entries@) =~= Seq::<Seq<char>>::empty());
        assert(entry_values(entries@) =~= Seq::<V>::empty());
        let m = NameMap { entries };
        assert(m@ =~= Map::<Seq<char>, V>::empty());
        m
    }

    /// How many entries the map has.
    pub fn len(&self) -> (n: usize)
        ensures
            n == self.keys().len(),
            n == self.values().len(),
            self.wf(),
    {
        proof {
            use_type_invariant(self);
        }
        self.entries.len()
    }

    /// The name of the entry at `i`.
    pub fn key(&self, i: usize) -> (name: &String)
        requires
            i < self.keys().len(),
        ensures
            name@ == self.keys()[i as int],
    {
        &self.entries[i].0
    }

    /// The value of the entry at `i`.
    pub fn value(&self, i: usize) -> (value: &V)
        requires
            i < self.values().len(),
        ensures
            *value == self.values()[i as int],
    {
        &self.entries[i].1
    }

    /// Where the entry of a name stands, if the map has one.
    pub fn position(&self, name: &str) -> (r: Option<usize>)
        ensures
            self.wf(),
            match r {
                Some(i) => i < self.keys().len() && self.keys()[i as int] == name@
                    && self.keys().index_of(name@) == i,
                None => !self.keys().contains(name@),
            },
    {
        proof {
            use_type_invariant(self);
        }
        let n: usize = self.entries.len();
        let mut i: usize = 0;
        while i < n
            invariant
                i <= n,
                n == self.entries.len(),
                self.wf(),
                forall|j: int| 0 <= j < i ==> self.keys()[j] != name@,
            decreases n - i,
        {
            if same_text(self.entries[i].0.as_str(), name) {
                proof {
                    let keys = self.keys();
                    assert(keys[i as int] == name@);
                    assert(keys.contains(name@));
                    let j = keys.index_of(name@);
                    assert(keys[j] == name@);
                }
                return Some(i);
            }
            i = i + 1;
        }
        None
    }

    /// The value that stands under a name.
    pub fn get(&self, name: &str) -> (r: Option<&V>)
        ensures
            match r {
                Some(value) => self@.contains_key(name@) && *value == self@[name@],
                None => !self@.contains_key(name@),
            },
    {
        match self.position(name) {
            Some(i) => Some(&self.entries[i].1),
            None => None,
        }
    }

    /// The entries, handed over in their order.
    pub fn into_entries(self) -> (entries: Vec<(String, V)>)
        ensures
            entry_names(entries@) == self.keys(),
            entry_values(entries@) == self.values(),
            self.wf(),
    {
        proof {
            use_type_invariant(&self);
        }
        self.entries
    }

    /// Puts a value under a name. A name that the map has keeps its place
    /// and takes the new value; a new name goes to the end.
    pub fn insert(&mut self, name: String, value: V)
        ensures
            final(self).wf(),
            final(self)@ == old(self)@.insert(name@, value),
            old(self).keys().contains(name@) ==> {
                &&& final(self).keys() == old(self).keys()
                &&& final(self).values() == old(self).values().update(
                    old(self).keys().index_of(name@),
                    value,
                )
            },
            !old(self).keys().contains(name@) ==> {
                &&& final(self).keys() == old(self).keys().push(name@)
                &&& final(self).values() == old(self).values().push(value)
            },
    {
        let ghost before = *self;
        let found = self.position(name.as_str());
        let mut taken: NameMap<V> = NameMap::new();
        std::mem::swap(self, &mut taken);
        let NameMap { entries } = taken;
        let mut entries = entries;
        match found {
            Some(i) => {
                entries.set(i, (name, value));
                assert(entry_names(entries@) =~= before.keys());
                assert(entry_values(entries@) =~= before.values().update(i as int, value));
                *self = NameMap { entries };
                proof {
                    assert(self.keys() =~= before.keys());
                    assert(self.values() =~= before.values().update(i as int, value));
                    assert(self@ =~= before@.insert(name@, value)) by {
                        assert forall|k: Seq<char>|
                            self.keys().contains(k) implies #[trigger] self@[k] == before@.insert(
                            name@,
                            value,
                        )[k] by {
                            let j = self.keys().index_of(k);
                            assert(self.keys()[j] == k);
                        }
                    }
                }
            },
            None => {
                entries.push((name, value));
                let ghost keys = entry_names(entries@);
                proof {
                    assert(keys =~= before.keys().push(name@));
                    assert(entry_values(entries@) =~= before.values().push(value));
                    assert forall|a: int, b: int| 0 <= a < keys.len() && 0 <= b < keys.len() && a
                        != b implies keys[a] != keys[b] by {
                        if a < before.keys().len() {
                            assert(before.keys().contains(keys[a]));
                        }
                        if b < before.keys().len() {
                            assert(before.keys().contains(keys[b]));
                        }
                    }
                }
                *self = NameMap { entries };
                proof {
                    let keys = self.keys();
                    assert(keys =~= before.keys().push(name@));
                    assert(self.values() =~= before.values().push(value));
                    assert forall|a: int, b: int| 0 <= a < keys.len() && 0 <= b < keys.len() && a
                        != b implies keys[a] != keys[b] by {
                        if a < before.keys().len() {
                            assert(before.keys().contains(keys[a]));
                        }
                        if b < before.keys().len() {
                            assert(before.keys().contains(keys[b]));
                        }
                    }
                    assert(self@ =~= before@.insert(name@, value)) by {
                        assert forall|k: Seq<char>| keys.contains(k) <==> (before.keys().contains(k)
                            || k == name@) by {
                            if keys.contains(k) {
                                let j = keys.index_of(k);
                                assert(keys[j] == k);
                                if j < before.keys().len() {
                                    assert(before.keys()[j] == k);
                                }
                            }
                            if before.keys().contains(k) {
                                let j = before.keys().index_of(k);
                                assert(before.keys()[j] == k);
                                assert(keys[j] == k);
                            }
                            if k == name@ {
                                assert(keys[keys.len() - 1] == k);
                            }
                        }
                        assert forall|k: Seq<char>| keys.contains(k) implies #[trigger] self@[k]
                            == before@.insert(name@, value)[k] by {
                            let j = keys.index_of(k);
                            assert(keys[j] == k);
                            if k != name@ {
                                let j0 = before.keys().index_of(k);
                                assert(before.keys()[j0] == k);
                                assert(keys[j0] == k);
                            } else {
                                assert(keys[keys.len() - 1] == k);
                            }
                        }
                    }
                }
            },
        }
    }
}

} // verus!
