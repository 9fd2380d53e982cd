//! An environment: a named deployment context's variables, each key once.

use vstd::prelude::*;
use crate::pairs::{
    assoc, find_key, has_key, keys_distinct, lemma_assoc_dom, lemma_assoc_index, lemma_assoc_remove,
    lemma_assoc_update, lemma_push_distinct, string_pairs,
};

verus! {

/// The variables of one environment, kept as a list of `(key, value)` pairs in
/// a stable order, with no key twice.
pub struct Environment {
    vars: Vec<(String, String)>,
}

impl View for Environment {
    type V = Seq<(Seq<char>, Seq<char>)>;

    closed spec fn view(&self) -> Seq<(Seq<char>, Seq<char>)> {
        string_pairs(self.vars@)
    }
}

impl Environment {
    /// Each key occurs once.
    pub open spec fn wf(&self) -> bool {
        keys_distinct(self@)
    }

    /// The variables as a map from key to value.
    pub open spec fn map(&self) -> Map<Seq<char>, Seq<char>> {
        assoc(self@)
    }

    /// An environment without variables.
    pub fn new() -> (r: Environment)
        ensures
            r@ == Seq::<(Seq<char>, Seq<char>)>::empty(),
            r.wf(),
    {
        let r = Environment { vars: Vec::new() };
        assert(r@ =~= Seq::<(Seq<char>, Seq<char>)>::empty());
        r
    }

    /// The variables, in their stable order.
    pub fn pairs(&self) -> (r: &Vec<(String, String)>)
        ensures
            string_pairs(r@) == self@,
    {
        &self.vars
    }

    /// A copy of the variables, in their stable order.
    pub fn to_pairs(&self) -> (r: Vec<(String, String)>)
        ensures
            string_pairs(r@) == self@,
    {
        let mut r: Vec<(String, String)> = Vec::new();
        let mut i: usize = 0;
        while i < self.vars.len()
            invariant
                i <= self.vars@.len(),
                string_pairs(r@) =~= string_pairs(self.vars@).take(i as int),
            decreases self.vars@.len() - i,
        {
            let k = self.vars[i].0.clone();
            let v = self.vars[i].1.clone();
            let ghost before = r@;
            r.push((k, v));
            proof {
                assert(r@ =~= before.push((k, v)));
                assert(string_pairs(r@) =~= string_pairs(before).push((k@, v@)));
                assert(string_pairs(self.vars@).take(i + 1) =~= string_pairs(self.vars@).take(
                    i as int,
                ).push((k@, v@)));
            }
            i = i + 1;
        }
        assert(string_pairs(self.vars@).take(i as int) =~= string_pairs(self.vars@));
        r
    }

    /// The number of variables.
    pub fn len(&self) -> (r: usize)
        ensures
            r == self@.len(),
    {
        self.vars.len()
    }

    /// The value of `key`, if the environment has it.
    pub fn get(&self, key: &str) -> (r: Option<&String>)
        requires
            self.wf(),
        ensures
            match r {
                Some(v) => self.map().contains_key(key@) && self.map()[key@] == v@,
                None => !self.map().contains_key(key@),
            },
    {
        proof {
            lemma_assoc_dom(self@, key@);
        }
        match find_key(&self.vars, key) {
            Some(i) => {
                proof {
                    lemma_assoc_index(self@, i as int);
                }
                Some(&self.vars[i].1)
            },
            None => {
                assert(!has_key(self@, key@));
                None
            },
        }
    }

    /// Sets `key` to `value`: an existing key keeps its place, a new one goes
    /// last.
    pub fn insert(&mut self, key: String, value: String)
        requires
            old(self).wf(),
        ensures
            final(self).wf(),
            final(self).map() == old(self).map().insert(key@, value@),
            old(self).map().contains_key(key@) ==> final(self)@.len() == old(self)@.len(),
            !old(self).map().contains_key(key@) ==> final(self)@ == old(self)@.push(
                (key@, value@),
            ),
    {
        proof {
            lemma_assoc_dom(self@, key@);
        }
        match find_key(&self.vars, key.as_str()) {
            Some(i) => {
                let ghost s = self@;
                self.vars.set(i, (key, value));
                proof {
                    assert(self@ =~= s.update(i as int, (s[i as int].0, value@)));
                    lemma_assoc_update(s, i as int, value@);
                }
            },
            None => {
                let ghost s = self@;
                let ghost k = key@;
                let ghost v = value@;
                self.vars.push((key, value));
                proof {
                    assert(self@ =~= s.push((k, v)));
                    lemma_push_distinct(s, k, v);
                    assert(s.push((k, v)).drop_last() =~= s);
                }
            },
        }
    }

    /// Removes `key`; tells whether it was there.
    pub fn remove(&mut self, key: &str) -> (r: bool)
        requires
            old(self).wf(),
        ensures
            final(self).wf(),
            r == old(self).map().contains_key(key@),
            final(self).map() == old(self).map().remove(key@),
    {
        proof {
            lemma_assoc_dom(self@, key@);
        }
        match find_key(&self.vars, key) {
            Some(i) => {
                let ghost s = self@;
                self.vars.remove(i);
                proof {
                    assert(self@ =~= s.remove(i as int));
                    lemma_assoc_remove(s, i as int);
                }
                true
            },
            None => {
                assert(!has_key(self@, key@));
                assert(self.map().remove(key@) =~= self.map());
                false
            },
        }
    }

    /// Builds an environment from pairs; where a key repeats, the last pair
    /// gives its value.
    pub fn from_pairs(pairs: Vec<(String, String)>) -> (r: Environment)
        ensures
            r.wf(),
            r.map() == assoc(string_pairs(pairs@)),
    {
        let mut r = Environment::new();
        let mut i: usize = 0;
        while i < pairs.len()
            invariant
                i <= pairs@.len(),
                r.wf(),
                r.map() == assoc(string_pairs(pairs@).take(i as int)),
            decreases pairs@.len() - i,
        {
            let k = pairs[i].0.clone();
            let v = pairs[i].1.clone();
            r.insert(k, v);
            proof {
                let s = string_pairs(pairs@);
                assert(s.take(i + 1).drop_last() =~= s.take(i as int));
            }
            i = i + 1;
        }
        assert(string_pairs(pairs@).take(i as int) =~= string_pairs(pairs@));
        r
    }
}

} // verus!
