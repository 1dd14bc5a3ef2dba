use crate::assoc::{
    assoc_map, distinct_keys, has_key, lemma_assoc_dom, lemma_assoc_len, lemma_assoc_remove, lemma_assoc_update,
    lemma_assoc_value,
};
use crate::text::text_eq;
use vstd::prelude::*;

verus! {

/// The pairs of a list of variables as texts.
pub open spec fn pairs_view(entries: Seq<(String, String)>) -> Seq<(Seq<char>, Seq<char>)> {
    entries.map_values(|p: (String, String)| (p.0@, p.1@))
}

/// Environment variables: a finite map from names to values.
#[derive(Debug)]
pub struct EnvVars {
    entries: Vec<(String, String)>,
}

impl View for EnvVars {
    type V = Map<Seq<char>, Seq<char>>;

    closed spec fn view(&self) -> Map<Seq<char>, Seq<char>> {
        assoc_map(pairs_view(self.entries@))
    }
}

impl EnvVars {
    #[verifier::type_invariant]
    spec fn no_name_twice(self) -> bool {
        distinct_keys(pairs_view(self.entries@))
    }

    /// No variables at all.
    pub fn new() -> (r: EnvVars)
        ensures
            r@ == Map::<Seq<char>, Seq<char>>::empty(),
    {
        let r = EnvVars { entries: Vec::new() };
        assert(pairs_view(r.entries@) =~= Seq::empty());
        r
    }

    /// The number of variables.
    pub fn len(&self) -> (n: usize)
        ensures
            self@.dom().finite(),
            n == self@.len(),
    {
        proof {
            use_type_invariant(self);
            lemma_assoc_len(pairs_view(self.entries@));
        }
        self.entries.len()
    }

    /// Tells whether no variable is set.
    pub fn is_empty(&self) -> (r: bool)
        ensures
            r == (self@ == Map::<Seq<char>, Seq<char>>::empty()),
    {
        proof {
            use_type_invariant(self);
            lemma_assoc_len(pairs_view(self.entries@));
            if self.entries@.len() == 0 {
                assert(self@ =~= Map::<Seq<char>, Seq<char>>::empty());
            }
        }
        self.entries.len() == 0
    }

    fn position(&self, name: &str) -> (r: Option<usize>)
        ensures
            match r {
                Some(i) => i < self.entries@.len() && self.entries@[i as int].0@ == name@,
                None => !has_key(pairs_view(self.entries@), name@),
            },
    {
        let mut i: usize = 0;
        while i < self.entries.len()
            invariant
                i <= self.entries@.len(),
                forall|k: int| 0 <= k < i ==> self.entries@[k].0@ != name@,
            decreases self.entries@.len() - i,
        {
            if text_eq(self.entries[i].0.as_str(), name) {
                return Some(i);
            }
            i += 1;
        }
        proof {
            let pairs = pairs_view(self.entries@);
            assert forall|k: int| 0 <= k < pairs.len() implies (#[trigger] pairs[k]).0 != name@ by {
                assert(pairs[k].0 == self.entries@[k].0@);
            }
        }
        None
    }

    /// The value of a variable, if it is set.
    pub fn get(&self, name: &str) -> (r: Option<&String>)
        ensures
            match r {
                Some(value) => self@.contains_key(name@) && value@ == self@[name@],
                None => !self@.contains_key(name@),
            },
    {
        proof {
            use_type_invariant(self);
            lemma_assoc_dom(pairs_view(self.entries@));
        }
        match self.position(name) {
            Some(i) => {
                proof {
                    let pairs = pairs_view(self.entries@);
                    assert(pairs[i as int] == (self.entries@[i as int].0@, self.entries@[i as int].1@));
                    lemma_assoc_value(pairs, i as int);
                }
                Some(&self.entries[i].1)
            },
            None => None,
        }
    }

    /// Sets a variable, replacing the value it had.
    pub fn insert(&mut self, name: String, value: String)
        ensures
            final(self)@ == old(self)@.insert(name@, value@),
    {
        proof {
            use_type_invariant(&*self);
            lemma_assoc_dom(pairs_view(self.entries@));
        }
        let ghost before = pairs_view(self.entries@);
        let found = self.position(name.as_str());
        let mut taken = EnvVars::new();
        std::mem::swap(self, &mut taken);
        let EnvVars { entries: mut entries } = taken;
        match found {
            Some(i) => {
                proof {
                    assert(before[i as int] == (entries@[i as int].0@, entries@[i as int].1@));
                    lemma_assoc_update(before, i as int, value@);
                }
                entries.set(i, (name, value));
                assert(pairs_view(entries@) =~= before.update(i as int, (name@, value@)));
            },
            None => {
                entries.push((name, value));
                proof {
                    let after = pairs_view(entries@);
                    assert(after =~= before.push((name@, value@)));
                    assert(after.drop_last() =~= before);
                    assert forall|i: int, j: int| 0 <= i < j < after.len() implies (#[trigger] after[i]).0
                        != (#[trigger] after[j]).0 by {
                        if j < before.len() {
                            assert(before[i].0 != before[j].0);
                        } else {
                            assert(before[i].0 != name@);
                        }
                    }
                }
            },
        }
        *self = EnvVars { entries };
    }

    /// A copy of every variable as a name and value pair, each name once.
    pub fn to_pairs(&self) -> (r: Vec<(String, String)>)
        ensures
            distinct_keys(pairs_view(r@)),
            assoc_map(pairs_view(r@)) == self@,
    {
        proof {
            use_type_invariant(self);
        }
        let mut out: Vec<(String, String)> = Vec::new();
        let mut i: usize = 0;
        while i < self.entries.len()
            invariant
                i <= self.entries@.len(),
                out@.len() == i,
                forall|k: int| 0 <= k < i ==> out@[k].0@ == self.entries@[k].0@ && out@[k].1@
                    == self.entries@[k].1@,
            decreases self.entries@.len() - i,
        {
            out.push((self.entries[i].0.clone(), self.entries[i].1.clone()));
            i += 1;
        }
        assert(pairs_view(out@) =~= pairs_view(self.entries@));
        out
    }
    /// Sets every variable of `other`, replacing the values that were there.
    pub fn extend(&mut self, other: &EnvVars)
        ensures
            final(self)@ == old(self)@.union_prefer_right(other@),
    {
        let pairs = other.to_pairs();
        let ghost start = self@;
        let mut i: usize = 0;
        assert(pairs_view(pairs@).take(0) =~= Seq::empty());
        assert(self@ =~= start.union_prefer_right(Map::empty()));
        while i < pairs.len()
            invariant
                i <= pairs@.len(),
                self@ == start.union_prefer_right(assoc_map(pairs_view(pairs@).take(i as int))),
            decreases pairs@.len() - i,
        {
            let ghost done = pairs_view(pairs@).take(i as int);
            let ghost next = pairs_view(pairs@).take(i as int + 1);
            proof {
                assert(next.drop_last() =~= done);
                assert(next.last() == (pairs@[i as int].0@, pairs@[i as int].1@));
                assert(start.union_prefer_right(assoc_map(next)) =~= start.union_prefer_right(
                    assoc_map(done),
                ).insert(pairs@[i as int].0@, pairs@[i as int].1@));
            }
            self.insert(pairs[i].0.clone(), pairs[i].1.clone());
            i += 1;
        }
        assert(pairs_view(pairs@).take(pairs@.len() as int) =~= pairs_view(pairs@));
    }

    /// A copy with the same variables.
    pub fn duplicate(&self) -> (r: EnvVars)
        ensures
            r@ == self@,
    {
        let mut r = EnvVars::new();
        r.extend(self);
        assert(r@ =~= self@);
        r
    }
    /// Unsets a variable; nothing changes where it was not set.
    pub fn remove(&mut self, name: &str)
        ensures
            final(self)@ == old(self)@.remove(name@),
    {
        proof {
            use_type_invariant(&*self);
            lemma_assoc_dom(pairs_view(self.entries@));
        }
        let ghost before = pairs_view(self.entries@);
        match self.position(name) {
            Some(i) => {
                let mut taken = EnvVars::new();
                std::mem::swap(self, &mut taken);
                let EnvVars { entries: mut entries } = taken;
                proof {
                    assert(before[i as int] == (entries@[i as int].0@, entries@[i as int].1@));
                    lemma_assoc_remove(before, i as int);
                }
                entries.remove(i);
                assert(pairs_view(entries@) =~= before.remove(i as int));
                *self = EnvVars { entries };
            },
            None => {
                assert(self@.remove(name@) =~= self@);
            },
        }
    }
}

} // verus!
