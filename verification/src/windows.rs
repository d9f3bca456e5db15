//! A map from window names to ordered lists, kept in insertion order.
//!
//! The position of an item in a window's list is its instance index, so the
//! lists are never reordered.

use crate::diff::{demands, Demand};
use crate::text::text_eq;
use vstd::prelude::*;

verus! {

/// Maps each window name to the ordered list of its instances. No name
/// occurs twice, and the names keep the order in which they were first
/// inserted.
#[derive(Debug)]
pub struct WindowMap<T> {
    entries: Vec<(String, Vec<T>)>,
}

impl<T> View for WindowMap<T> {
    type V = Map<Seq<char>, Seq<T>>;

    /// The list of each window that has one.
    open spec fn view(&self) -> Map<Seq<char>, Seq<T>> {
        Map::new(
            |name: Seq<char>| self.names().contains(name),
            |name: Seq<char>| self.lists()[self.names().index_of(name)],
        )
    }
}

impl<T> WindowMap<T> {
    /// The window names, in insertion order.
    pub closed spec fn names(&self) -> Seq<Seq<char>> {
        self.entries@.map_values(|e: (String, Vec<T>)| e.0@)
    }

    /// The lists, each at the position of its window's name.
    pub closed spec fn lists(&self) -> Seq<Seq<T>> {
        self.entries@.map_values(|e: (String, Vec<T>)| e.1@)
    }

    /// No name occurs twice.
    #[verifier::type_invariant]
    closed spec fn wf(&self) -> bool {
        self.names().no_duplicates()
    }

    /// Whether the names are distinct and as many as the lists. Every map
    /// that executable code holds is well formed.
    pub open spec fn well_formed(&self) -> bool {
        self.names().no_duplicates() && self.names().len() == self.lists().len()
    }

    /// How many instances each window has, in insertion order.
    pub open spec fn demand(&self) -> Seq<Demand> {
        Seq::new(
            self.names().len(),
            |i: int| Demand { window: self.names()[i], count: self.lists()[i].len() },
        )
    }

    /// The map without any window.
    pub fn new() -> (map: WindowMap<T>)
        ensures
            map.names() == Seq::<Seq<char>>::empty(),
            map.lists() == Seq::<Seq<T>>::empty(),
            map@ == Map::<Seq<char>, Seq<T>>::empty(),
            map.well_formed(),
    {
        let map = WindowMap { entries: Vec::new() };
        assert(map.names() =~= Seq::<Seq<char>>::empty());
        assert(map.lists() =~= Seq::<Seq<T>>::empty());
        assert(map@ =~= Map::<Seq<char>, Seq<T>>::empty());
        map
    }

    /// The number of windows.
    pub fn len(&self) -> (count: usize)
        ensures
            count == self.names().len(),
            self.well_formed(),
    {
        proof {
            use_type_invariant(self);
        }
        self.entries.len()
    }

    /// Whether the map has no window.
    pub fn is_empty(&self) -> (empty: bool)
        ensures
            empty == (self.names().len() == 0),
            empty == (self@ == Map::<Seq<char>, Seq<T>>::empty()),
            self.well_formed(),
    {
        proof {
            use_type_invariant(self);
            if self.names().len() == 0 {
                assert(self@ =~= Map::<Seq<char>, Seq<T>>::empty());
            } else {
                assert(self.names().contains(self.names()[0]));
                assert(self@.contains_key(self.names()[0]));
            }
        }
        self.entries.len() == 0
    }

    /// The position of `name` among the entries.
    fn find(&self, name: &str) -> (found: Option<usize>)
        ensures
            match found {
                Some(i) => i < self.names().len() && self.names()[i as int] == name@
                    && self.names().index_of(name@) == i,
                None => !self.names().contains(name@),
            },
    {
        proof {
            use_type_invariant(self);
        }
        let mut i: usize = 0;
        while i < self.entries.len()
            invariant
                i <= self.entries.len(),
                self.names().no_duplicates(),
                forall|k: int| 0 <= k < i ==> self.names()[k] != name@,
            decreases self.entries.len() - i,
        {
            if text_eq(self.entries[i].0.as_str(), name) {
                assert(self.names()[i as int] == name@);
                assert(self.names().contains(name@));
                return Some(i);
            }
            i += 1;
        }
        None
    }

    /// The name and the list at position `i`, in insertion order.
    pub fn entry(&self, i: usize) -> (entry: (&str, &Vec<T>))
        requires
            i < self.names().len(),
        ensures
            entry.0@ == self.names()[i as int],
            entry.1@ == self.lists()[i as int],
            self@.contains_key(entry.0@),
            self@[entry.0@] == entry.1@,
            self.well_formed(),
    {
        proof {
            use_type_invariant(self);
            assert(self.names().contains(self.names()[i as int]));
        }
        let e = &self.entries[i];
        (e.0.as_str(), &e.1)
    }

    /// Whether `name` has a list.
    pub fn contains_key(&self, name: &str) -> (found: bool)
        ensures
            found == self@.contains_key(name@),
    {
        self.find(name).is_some()
    }

    /// The list of `name`, if it has one.
    pub fn get(&self, name: &str) -> (list: Option<&Vec<T>>)
        ensures
            match list {
                Some(found) => self@.contains_key(name@) && found@ == self@[name@],
                None => !self@.contains_key(name@),
            },
    {
        match self.find(name) {
            Some(i) => Some(&self.entries[i].1),
            None => None,
        }
    }

    /// Gives `name` the list `list`. A name that is new goes behind the
    /// others; one that is there keeps its place and takes the new list.
    pub fn insert(&mut self, name: String, list: Vec<T>)
        ensures
            final(self)@ == old(self)@.insert(name@, list@),
            final(self).well_formed(),
            old(self).names().contains(name@) ==> final(self).names() == old(self).names()
                && final(self).lists() == old(self).lists().update(
                old(self).names().index_of(name@),
                list@,
            ),
            !old(self).names().contains(name@) ==> final(self).names() == old(self).names().push(
                name@,
            ) && final(self).lists() == old(self).lists().push(list@),
    {
        proof {
            use_type_invariant(&*self);
        }
        let ghost before = *self;
        let ghost key = name@;
        let ghost value = list@;
        let found = self.find(name.as_str());
        let mut taken: WindowMap<T> = WindowMap::new();
        core::mem::swap(self, &mut taken);
        let mut entries = taken.entries;
        match found {
            Some(i) => {
                entries.set(i, (name, list));
            },
            None => {
                entries.push((name, list));
            },
        }
        let ghost after = WindowMap { entries };
        proof {
            match found {
                Some(i) => {
                    assert(after.names() =~= before.names());
                    assert(after.lists() =~= before.lists().update(i as int, value));
                    assert forall|n: Seq<char>| after@.contains_key(n) implies #[trigger] after@[n]
                        == before@.insert(key, value)[n] by {
                        let at = after.names().index_of(n);
                        if n != key {
                            assert(at != i);
                        }
                    }
                },
                None => {
                    assert(after.names() =~= before.names().push(key));
                    assert(after.lists() =~= before.lists().push(value));
                    assert forall|n: Seq<char>| before@.insert(key, value).contains_key(
                        n,
                    ) implies after@.contains_key(n) by {
                        if n == key {
                            assert(after.names()[before.names().len() as int] == key);
                        } else {
                            let at = before.names().index_of(n);
                            assert(after.names()[at] == n);
                        }
                    }
                    assert forall|n: Seq<char>| after@.contains_key(n) implies #[trigger] after@[n]
                        == before@.insert(key, value)[n] by {
                        let at = after.names().index_of(n);
                        if n != key {
                            assert(before.names()[at] == n);
                            assert(before.names().index_of(n) == at);
                        }
                    }
                },
            }
            assert(after@ =~= before@.insert(key, value));
        }
        *self = WindowMap { entries };
    }

    /// Each window with the length of its list, in insertion order.
    pub fn counts(&self) -> (counts: Vec<(&str, usize)>)
        ensures
            demands(counts@) == self.demand(),
            self.well_formed(),
    {
        proof {
            use_type_invariant(self);
        }
        let mut counts: Vec<(&str, usize)> = Vec::new();
        let mut i: usize = 0;
        while i < self.entries.len()
            invariant
                i <= self.entries.len(),
                counts@.len() == i,
                forall|k: int|
                    0 <= k < i ==> (#[trigger] counts@[k]).0@ == self.names()[k] && counts@[k].1
                        == self.lists()[k].len(),
            decreases self.entries.len() - i,
        {
            let e = &self.entries[i];
            counts.push((e.0.as_str(), e.1.len()));
            i += 1;
        }
        assert(demands(counts@) =~= self.demand());
        counts
    }
}

impl<T: Clone> Clone for WindowMap<T> {
    /// A map with the same windows in the same order, each with a clone of
    /// its list.
    fn clone(&self) -> (copy: WindowMap<T>)
        ensures
            copy.names() == self.names(),
            copy.lists().len() == self.lists().len(),
            forall|i: int|
                0 <= i < self.lists().len() ==> (#[trigger] copy.lists()[i]).len()
                    == self.lists()[i].len(),
            forall|i: int, k: int|
                0 <= i < self.lists().len() && 0 <= k < self.lists()[i].len() ==> cloned::<T>(
                    self.lists()[i][k],
                    #[trigger] copy.lists()[i][k],
                ),
    {
        proof {
            use_type_invariant(self);
        }
        let mut entries: Vec<(String, Vec<T>)> = Vec::new();
        let mut i: usize = 0;
        while i < self.entries.len()
            invariant
                i <= self.entries.len(),
                entries@.len() == i,
                forall|m: int| 0 <= m < i ==> (#[trigger] entries@[m]).0@ == self.entries@[m].0@,
                forall|m: int|
                    0 <= m < i ==> (#[trigger] entries@[m]).1@.len() == self.entries@[m].1@.len(),
                forall|m: int, k: int|
                    0 <= m < i && 0 <= k < self.entries@[m].1@.len() ==> cloned::<T>(
                        self.entries@[m].1@[k],
                        #[trigger] entries@[m].1@[k],
                    ),
            decreases self.entries.len() - i,
        {
            let entry = &self.entries[i];
            let name = entry.0.clone();
            let list = entry.1.clone();
            entries.push((name, list));
            i += 1;
        }
        let ghost copy = WindowMap { entries };
        assert(copy.names() =~= self.names());
        WindowMap { entries }
    }
}

} // verus!
