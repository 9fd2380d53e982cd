//! The store: every environment the daemon knows, by name.

use vstd::prelude::*;
use crate::environment::Environment;
use crate::pairs::{
    assoc, find_key, has_key, keys_distinct, keys_of, lemma_assoc_dom, lemma_assoc_index,
    lemma_assoc_update, lemma_push_distinct, string_views,
};

verus! {

/// Environments by name, in a stable order, each name once.
pub struct Store {
    entries: Vec<(String, Environment)>,
}

impl View for Store {
    type V = Seq<(Seq<char>, Seq<(Seq<char>, Seq<char>)>)>;

    closed spec fn view(&self) -> Seq<(Seq<char>, Seq<(Seq<char>, Seq<char>)>)> {
        self.entries@.map_values(|e: (String, Environment)| (e.0@, e.1@))
    }
}

impl Store {
    /// Each name occurs once, and each environment has each key once.
    pub open spec fn wf(&self) -> bool {
        &&& keys_distinct(self@)
        &&& forall|i: int| 0 <= i < self@.len() ==> keys_distinct(#[trigger] self@[i].1)
    }

    /// The names of the environments, in their stable order.
    pub open spec fn names(&self) -> Seq<Seq<char>> {
        keys_of(self@)
    }

    /// Each environment's variables, in their stable order, by name.
    pub open spec fn envs(&self) -> Map<Seq<char>, Seq<(Seq<char>, Seq<char>)>> {
        assoc(self@)
    }

    /// Each environment as a map from key to value, by name.
    pub open spec fn contents(&self) -> Map<Seq<char>, Map<Seq<char>, Seq<char>>> {
        self.envs().map_values(|vars: Seq<(Seq<char>, Seq<char>)>| assoc(vars))
    }

    /// A store without environments.
    pub fn new() -> (r: Store)
        ensures
            r.wf(),
            r@ == Seq::<(Seq<char>, Seq<(Seq<char>, Seq<char>)>)>::empty(),
            r.contents() == Map::<Seq<char>, Map<Seq<char>, Seq<char>>>::empty(),
    {
        let r = Store { entries: Vec::new() };
        assert(r@ =~= Seq::<(Seq<char>, Seq<(Seq<char>, Seq<char>)>)>::empty());
        assert(r.contents() =~= Map::<Seq<char>, Map<Seq<char>, Seq<char>>>::empty());
        r
    }

    /// The environment called `name`, if there is one.
    pub fn get(&self, name: &str) -> (r: Option<&Environment>)
        requires
            self.wf(),
        ensures
            match r {
                Some(env) => {
                    &&& self.envs().contains_key(name@)
                    &&& self.envs()[name@] == env@
                    &&& env.wf()
                },
                None => !self.envs().contains_key(name@),
            },
    {
        proof {
            lemma_assoc_dom(self@, name@);
        }
        match find_key(&self.entries, name) {
            Some(i) => {
                proof {
                    lemma_assoc_index(self@, i as int);
                    assert(keys_distinct(self@[i as int].1));
                }
                Some(&self.entries[i].1)
            },
            None => {
                assert(!has_key(self@, name@));
                None
            },
        }
    }

    /// The names of the environments, in their stable order.
    pub fn list_names(&self) -> (r: Vec<String>)
        ensures
            string_views(r@) == self.names(),
    {
        let mut r: Vec<String> = Vec::new();
        let mut i: usize = 0;
        while i < self.entries.len()
            invariant
                i <= self.entries@.len(),
                string_views(r@) =~= keys_of(self@).take(i as int),
            decreases self.entries@.len() - i,
        {
            let n = self.entries[i].0.clone();
            let ghost before = r@;
            r.push(n);
            proof {
                assert(string_views(r@) =~= string_views(before).push(n@));
                assert(keys_of(self@).take(i + 1) =~= keys_of(self@).take(i as int).push(n@));
            }
            i = i + 1;
        }
        assert(keys_of(self@).take(i as int) =~= keys_of(self@));
        r
    }

    /// Inserts the environment `name`, or replaces it whole. A replaced name
    /// keeps its place; a new one goes last.
    pub fn put(&mut self, name: String, env: Environment)
        requires
            old(self).wf(),
            env.wf(),
        ensures
            final(self).wf(),
            final(self).envs() == old(self).envs().insert(name@, env@),
            final(self).contents() == old(self).contents().insert(name@, env.map()),
            old(self).envs().contains_key(name@) ==> final(self).names() == old(self).names(),
            !old(self).envs().contains_key(name@) ==> final(self).names() == old(self).names().push(
                name@,
            ),
    {
        proof {
            lemma_assoc_dom(self@, name@);
        }
        let ghost s = self@;
        let ghost n = name@;
        let ghost e = env@;
        match find_key(&self.entries, name.as_str()) {
            Some(i) => {
                self.entries.set(i, (name, env));
                proof {
                    assert(self@ =~= s.update(i as int, (s[i as int].0, e)));
                    lemma_assoc_update(s, i as int, e);
                    assert(keys_of(self@) =~= keys_of(s));
                }
            },
            None => {
                self.entries.push((name, env));
                proof {
                    assert(self@ =~= s.push((n, e)));
                    lemma_push_distinct(s, n, e);
                    assert(s.push((n, e)).drop_last() =~= s);
                    assert(keys_of(self@) =~= keys_of(s).push(n));
                }
            },
        }
        assert(self.contents() =~= old(self).contents().insert(name@, env.map()));
        assert forall|i: int| 0 <= i < self@.len() implies keys_distinct(#[trigger] self@[i].1) by {
            if i < s.len() && self@[i] == s[i] {
                assert(keys_distinct(s[i].1));
            }
        }
    }
}

} // verus!
