//! A table from variable names to whether what they call is realtime.
use vstd::prelude::*;

verus! {

/// Variable names with a realtime flag each; no name occurs twice.
pub struct VarTable {
    entries: Vec<(String, bool)>,
}

impl View for VarTable {
    type V = Map<Seq<char>, bool>;

    /// The table as a map from names to flags.
    closed spec fn view(&self) -> Map<Seq<char>, bool> {
        Map::new(|k: Seq<char>| self.has(k), |k: Seq<char>| self.entries@[self.index_of(k)].1)
    }
}

impl VarTable {
    /// The names occur once each.
    pub closed spec fn wf(&self) -> bool {
        forall|i: int, j: int|
            0 <= i < self.entries@.len() && 0 <= j < self.entries@.len() && i != j
                ==> #[trigger] self.entries@[i].0@ != #[trigger] self.entries@[j].0@
    }

    /// `name` has an entry.
    pub closed spec fn has(&self, name: Seq<char>) -> bool {
        exists|i: int| 0 <= i < self.entries@.len() && #[trigger] self.entries@[i].0@ == name
    }

    /// The position of the entry of `name`.
    closed spec fn index_of(&self, name: Seq<char>) -> int {
        choose|i: int| 0 <= i < self.entries@.len() && #[trigger] self.entries@[i].0@ == name
    }

    proof fn lemma_index_of(&self, i: int)
        requires
            self.wf(),
            0 <= i < self.entries@.len(),
        ensures
            self.has(self.entries@[i].0@),
            self.index_of(self.entries@[i].0@) == i,
            self@.contains_key(self.entries@[i].0@),
            self@[self.entries@[i].0@] == self.entries@[i].1,
    {
        let k = self.entries@[i].0@;
        assert(self.has(k));
        let j = self.index_of(k);
        assert(self.entries@[j].0@ == k);
    }

    /// An empty table.
    pub fn new() -> (r: VarTable)
        ensures
            r.wf(),
            r@ == Map::<Seq<char>, bool>::empty(),
    {
        let r = VarTable { entries: Vec::new() };
        assert(r@ =~= Map::<Seq<char>, bool>::empty());
        r
    }

    /// The position of the entry of `name`, if it has one.
    fn find(&self, name: &String) -> (r: Option<usize>)
        requires
            self.wf(),
        ensures
            match r {
                Some(i) => i < self.entries@.len() && self.entries@[i as int].0@ == name@,
                None => !self.has(name@),
            },
    {
        let n = self.entries.len();
        for i in 0..n
            invariant
                n == self.entries@.len(),
                forall|j: int| 0 <= j < i ==> self.entries@[j].0@ != name@,
        {
            if self.entries[i].0 == *name {
                return Some(i);
            }
        }
        None
    }

    /// The flag of `name`, if it has one.
    pub fn get(&self, name: &String) -> (r: Option<bool>)
        requires
            self.wf(),
        ensures
            r == (if self@.contains_key(name@) {
                Some(self@[name@])
            } else {
                None::<bool>
            }),
    {
        match self.find(name) {
            Some(i) => {
                proof {
                    self.lemma_index_of(i as int);
                }
                Some(self.entries[i].1)
            },
            None => None,
        }
    }

    /// Gives `name` the flag `value`, replacing any flag it had.
    pub fn insert(&mut self, name: String, value: bool)
        requires
            old(self).wf(),
        ensures
            final(self).wf(),
            final(self)@ == old(self)@.insert(name@, value),
    {
        let ghost before = *self;
        match self.find(&name) {
            Some(i) => {
                self.entries.set(i, (name, value));
                proof {
                    let key = self.entries@[i as int].0@;
                    assert forall|k: Seq<char>| self.has(k) <==> before.has(k) by {
                        if before.has(k) {
                            let j = before.index_of(k);
                            assert(self.entries@[j].0@ == k);
                        }
                        if self.has(k) {
                            let j = self.index_of(k);
                            assert(before.entries@[j].0@ == k);
                        }
                    }
                    assert forall|k: Seq<char>| #[trigger] self.has(k) && k != key implies self.entries@[self.index_of(k)].1
                        == before.entries@[before.index_of(k)].1 by {
                        let j = before.index_of(k);
                        before.lemma_index_of(j);
                        self.lemma_index_of(j);
                    }
                    self.lemma_index_of(i as int);
                    assert(self@ =~= before@.insert(name@, value));
                }
            },
            None => {
                self.entries.push((name, value));
                proof {
                    let n = before.entries@.len() as int;
                    let key = self.entries@[n].0@;
                    assert forall|k: Seq<char>| self.has(k) <==> (before.has(k) || k == key) by {
                        if before.has(k) {
                            let j = before.index_of(k);
                            assert(self.entries@[j].0@ == k);
                        }
                        if self.has(k) && k != key {
                            let j = self.index_of(k);
                            assert(before.entries@[j].0@ == k);
                        }
                    }
                    assert forall|k: Seq<char>| #[trigger] self.has(k) && k != key implies self.entries@[self.index_of(k)].1
                        == before.entries@[before.index_of(k)].1 by {
                        let j = before.index_of(k);
                        before.lemma_index_of(j);
                        self.lemma_index_of(j);
                    }
                    self.lemma_index_of(n);
                    assert(self@ =~= before@.insert(name@, value));
                }
            },
        }
    }
}

} // verus!
