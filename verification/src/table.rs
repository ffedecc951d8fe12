//! A small table from names to values that keeps the order in which the
//! names came.

use vstd::prelude::*;
use crate::assoc::{
    as_map, lemma_as_map_absent, lemma_as_map_at, lemma_as_map_empty, lemma_as_map_len,
    lemma_as_map_push, lemma_as_map_remove, lemma_as_map_update, unique_keys,
};

verus! {

/// A table keyed by text. No name stands twice in it.
#[derive(Clone, Debug)]
pub struct Table<V> {
    entries: Vec<(String, V)>,
}

impl<V> Table<V> {
    /// The entries in the order in which their names were first put in.
    pub closed spec fn pairs(&self) -> Seq<(Seq<char>, V)> {
        Seq::new(self.entries@.len(), |i: int| (self.entries@[i].0@, self.entries@[i].1))
    }

    /// What every table satisfies: no name stands twice.
    pub open spec fn wf(&self) -> bool {
        unique_keys(self.pairs())
    }

    /// The table as a map.
    pub open spec fn view(&self) -> Map<Seq<char>, V> {
        as_map(self.pairs())
    }

    pub fn new() -> (table: Self)
        ensures
            table.wf(),
            table.pairs() == Seq::<(Seq<char>, V)>::empty(),
            table@ == Map::<Seq<char>, V>::empty(),
    {
        let table = Table { entries: Vec::new() };
        proof {
            assert(table.pairs() =~= Seq::<(Seq<char>, V)>::empty());
            lemma_as_map_empty::<Seq<char>, V>();
        }
        table
    }

    pub fn len(&self) -> (count: usize)
        ensures
            count == self.pairs().len(),
            self.wf() ==> self@.dom().finite() && count == self@.len(),
    {
        proof {
            if self.wf() {
                lemma_as_map_len(self.pairs());
            }
        }
        self.entries.len()
    }

    pub fn is_empty(&self) -> (empty: bool)
        ensures
            empty == (self.pairs().len() == 0),
    {
        self.entries.len() == 0
    }

    /// Where a name stands.
    pub fn position(&self, name: &str) -> (found: Option<usize>)
        requires
            self.wf(),
        ensures
            match found {
                Some(i) => {
                    &&& i < self.pairs().len()
                    &&& self.pairs()[i as int].0 == name@
                    &&& self@.contains_key(name@)
                    &&& self@[name@] == self.pairs()[i as int].1
                },
                None => !self@.contains_key(name@),
            },
    {
        let mut i: usize = 0;
        while i < self.entries.len()
            invariant
                self.wf(),
                i <= self.entries@.len(),
                forall|j: int| 0 <= j < i ==> self.pairs()[j].0 != name@,
            decreases self.entries.len() - i,
        {
            if crate::text::same_text(self.entries[i].0.as_str(), name) {
                proof {
                    lemma_as_map_at(self.pairs(), i as int);
                }
                return Some(i);
            }
            i += 1;
        }
        proof {
            lemma_as_map_absent(self.pairs(), name@);
        }
        None
    }

    pub fn contains_key(&self, name: &str) -> (found: bool)
        requires
            self.wf(),
        ensures
            found == self@.contains_key(name@),
    {
        self.position(name).is_some()
    }

    pub fn get(&self, name: &str) -> (value: Option<&V>)
        requires
            self.wf(),
        ensures
            match value {
                Some(v) => self@.contains_key(name@) && *v == self@[name@],
                None => !self@.contains_key(name@),
            },
    {
        match self.position(name) {
            Some(i) => Some(&self.entries[i].1),
            None => None,
        }
    }

    /// The name at a position.
    pub fn name_at(&self, i: usize) -> (name: &String)
        requires
            i < self.pairs().len(),
        ensures
            name@ == self.pairs()[i as int].0,
    {
        &self.entries[i].0
    }

    /// The value at a position.
    pub fn value_at(&self, i: usize) -> (value: &V)
        requires
            i < self.pairs().len(),
        ensures
            *value == self.pairs()[i as int].1,
    {
        &self.entries[i].1
    }

    /// Puts a value under a name and hands back the value that stood there.
    /// A new name goes to the end; a known one keeps its place.
    pub fn insert(&mut self, name: String, value: V) -> (replaced: Option<V>)
        requires
            old(self).wf(),
        ensures
            final(self).wf(),
            final(self)@ == old(self)@.insert(name@, value),
            match replaced {
                Some(before) => {
                    &&& old(self)@.contains_key(name@)
                    &&& before == old(self)@[name@]
                    &&& exists|i: int|
                        0 <= i < old(self).pairs().len() && old(self).pairs()[i].0 == name@
                            && final(self).pairs() == old(self).pairs().update(
                            i,
                            (name@, value),
                        )
                },
                None => {
                    &&& !old(self)@.contains_key(name@)
                    &&& final(self).pairs() == old(self).pairs().push((name@, value))
                },
            },
    {
        let ghost before = self.pairs();
        match self.position(name.as_str()) {
            Some(i) => {
                let (_, replaced) = self.entries.remove(i);
                self.entries.insert(i, (name, value));
                proof {
                    assert(self.pairs() =~= before.update(i as int, (name@, value)));
                    lemma_as_map_update(before, i as int, value);
                }
                Some(replaced)
            },
            None => {
                self.entries.push((name, value));
                proof {
                    assert(self.pairs() =~= before.push((name@, value)));
                    lemma_as_map_push(before, (name@, value));
                }
                None
            },
        }
    }

    /// Takes a name out of the table and hands back its value.
    pub fn remove(&mut self, name: &str) -> (removed: Option<V>)
        requires
            old(self).wf(),
        ensures
            final(self).wf(),
            final(self)@ == old(self)@.remove(name@),
            match removed {
                Some(value) => {
                    &&& old(self)@.contains_key(name@)
                    &&& value == old(self)@[name@]
                    &&& exists|i: int|
                        0 <= i < old(self).pairs().len() && old(self).pairs()[i].0 == name@
                            && final(self).pairs() == old(self).pairs().remove(i)
                },
                None => !old(self)@.contains_key(name@) && final(self).pairs() == old(
                    self,
                ).pairs(),
            },
    {
        let ghost before = self.pairs();
        match self.position(name) {
            Some(i) => {
                let (_, value) = self.entries.remove(i);
                proof {
                    assert(self.pairs() =~= before.remove(i as int));
                    lemma_as_map_remove(before, i as int);
                }
                Some(value)
            },
            None => {
                proof {
                    assert(self@ =~= old(self)@.remove(name@));
                }
                None
            },
        }
    }
}

} // verus!
