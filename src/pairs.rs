//! Association lists keyed by strings: the shape shared by an environment
//! (key to value) and by the store (name to environment).

use vstd::prelude::*;
use crate::text::str_equal;

verus! {

/// The map that a list of pairs describes; a later pair wins over an earlier
/// one with the same key.
pub open spec fn assoc<V>(s: Seq<(Seq<char>, V)>) -> Map<Seq<char>, V>
    decreases s.len(),
{
    if s.len() == 0 {
        Map::empty()
    } else {
        assoc(s.drop_last()).insert(s.last().0, s.last().1)
    }
}

/// No key occurs twice in the list.
pub open spec fn keys_distinct<V>(s: Seq<(Seq<char>, V)>) -> bool {
    forall|i: int, j: int| 0 <= i < s.len() && 0 <= j < s.len() && i != j ==> s[i].0 != s[j].0
}

/// The keys of the list, in order.
pub open spec fn keys_of<V>(s: Seq<(Seq<char>, V)>) -> Seq<Seq<char>> {
    s.map_values(|p: (Seq<char>, V)| p.0)
}

/// The key occurs in the list.
pub open spec fn has_key<V>(s: Seq<(Seq<char>, V)>, k: Seq<char>) -> bool {
    exists|i: int| 0 <= i < s.len() && s[i].0 == k
}

/// The list view of a vector of string pairs.
pub open spec fn string_pairs(v: Seq<(String, String)>) -> Seq<(Seq<char>, Seq<char>)> {
    v.map_values(|p: (String, String)| (p.0@, p.1@))
}

/// The views of a vector of strings.
pub open spec fn string_views(v: Seq<String>) -> Seq<Seq<char>> {
    v.map_values(|s: String| s@)
}

/// The map of a list holds exactly the keys of the list.
pub proof fn lemma_assoc_dom<V>(s: Seq<(Seq<char>, V)>, k: Seq<char>)
    ensures
        assoc(s).contains_key(k) <==> has_key(s, k),
    decreases s.len(),
{
    if s.len() > 0 {
        let t = s.drop_last();
        lemma_assoc_dom(t, k);
        if has_key(t, k) {
            let i = choose|i: int| 0 <= i < t.len() && t[i].0 == k;
            assert(s[i].0 == k);
        }
        if has_key(s, k) && s.last().0 != k {
            let i = choose|i: int| 0 <= i < s.len() && s[i].0 == k;
            assert(i != s.len() - 1);
            assert(t[i].0 == k);
        }
        if s.last().0 == k {
            assert(s[s.len() - 1].0 == k);
        }
    }
}

/// With distinct keys, the map of a list gives each key the value that stands
/// beside it.
pub proof fn lemma_assoc_index<V>(s: Seq<(Seq<char>, V)>, i: int)
    requires
        keys_distinct(s),
        0 <= i < s.len(),
    ensures
        assoc(s).contains_key(s[i].0),
        assoc(s)[s[i].0] == s[i].1,
    decreases s.len(),
{
    let t = s.drop_last();
    if i < s.len() - 1 {
        assert(keys_distinct(t));
        assert(t[i] == s[i]);
        lemma_assoc_index(t, i);
        assert(s.last().0 != s[i].0);
    }
}

/// Two lists with distinct keys, the same keys and the same value beside each
/// key describe the same map.
pub proof fn lemma_assoc_ext<V>(s: Seq<(Seq<char>, V)>, t: Seq<(Seq<char>, V)>)
    requires
        keys_distinct(s),
        keys_distinct(t),
        forall|k: Seq<char>| has_key(s, k) <==> has_key(t, k),
        forall|i: int, j: int|
            0 <= i < s.len() && 0 <= j < t.len() && s[i].0 == t[j].0 ==> s[i].1 == t[j].1,
    ensures
        assoc(s) == assoc(t),
{
    assert forall|k: Seq<char>| #[trigger] assoc(s).contains_key(k) == assoc(t).contains_key(k) by {
        lemma_assoc_dom(s, k);
        lemma_assoc_dom(t, k);
    }
    assert forall|k: Seq<char>| assoc(s).contains_key(k) implies #[trigger] assoc(s)[k]
        == assoc(t)[k] by {
        lemma_assoc_dom(s, k);
        lemma_assoc_dom(t, k);
        let i = choose|i: int| 0 <= i < s.len() && s[i].0 == k;
        let j = choose|j: int| 0 <= j < t.len() && t[j].0 == k;
        lemma_assoc_index(s, i);
        lemma_assoc_index(t, j);
    }
    assert(assoc(s) =~= assoc(t));
}

/// Replacing the value beside a key in a list with distinct keys replaces it
/// in the map.
pub proof fn lemma_assoc_update<V>(s: Seq<(Seq<char>, V)>, i: int, v: V)
    requires
        keys_distinct(s),
        0 <= i < s.len(),
    ensures
        keys_distinct(s.update(i, (s[i].0, v))),
        assoc(s.update(i, (s[i].0, v))) == assoc(s).insert(s[i].0, v),
{
    let k = s[i].0;
    let u = s.update(i, (k, v));
    let w = s.remove(i).push((k, v));
    assert(keys_distinct(w)) by {
        assert forall|a: int, b: int| 0 <= a < w.len() && 0 <= b < w.len() && a != b implies w[a].0
            != w[b].0 by {
            let sa = if a < i { a } else if a < w.len() - 1 { a + 1 } else { i };
            let sb = if b < i { b } else if b < w.len() - 1 { b + 1 } else { i };
            assert(w[a].0 == s[sa].0);
            assert(w[b].0 == s[sb].0);
        }
    }
    assert forall|key: Seq<char>| has_key(u, key) <==> has_key(w, key) by {
        if has_key(u, key) {
            let a = choose|a: int| 0 <= a < u.len() && u[a].0 == key;
            let b = if a < i { a } else if a == i { w.len() - 1 } else { a - 1 };
            assert(w[b].0 == key);
        }
        if has_key(w, key) {
            let b = choose|b: int| 0 <= b < w.len() && w[b].0 == key;
            let a = if b < i { b } else if b == w.len() - 1 { i } else { b + 1 };
            assert(u[a].0 == key);
        }
    }
    assert(keys_distinct(u)) by {
        assert forall|a: int, b: int| 0 <= a < u.len() && 0 <= b < u.len() && a != b implies u[a].0
            != u[b].0 by {
            assert(u[a].0 == s[a].0);
            assert(u[b].0 == s[b].0);
        }
    }
    assert forall|a: int, b: int| 0 <= a < u.len() && 0 <= b < w.len() && u[a].0 == w[b].0 implies u[a].1
        == w[b].1 by {
        let sb = if b < i { b } else if b < w.len() - 1 { b + 1 } else { i };
        assert(w[b].0 == u[sb].0);
        assert(w[b] == u[sb]);
    }
    lemma_assoc_ext(u, w);
    lemma_assoc_remove(s, i);
    assert(w.drop_last() =~= s.remove(i));
}

/// Removing the pair at an index of a list with distinct keys removes its key
/// from the map.
pub proof fn lemma_assoc_remove<V>(s: Seq<(Seq<char>, V)>, i: int)
    requires
        keys_distinct(s),
        0 <= i < s.len(),
    ensures
        keys_distinct(s.remove(i)),
        assoc(s.remove(i)) == assoc(s).remove(s[i].0),
{
    let r = s.remove(i);
    let k = s[i].0;
    assert(keys_distinct(r)) by {
        assert forall|a: int, b: int| 0 <= a < r.len() && 0 <= b < r.len() && a != b implies r[a].0
            != r[b].0 by {
            let sa = if a < i { a } else { a + 1 };
            let sb = if b < i { b } else { b + 1 };
            assert(r[a] == s[sa]);
            assert(r[b] == s[sb]);
        }
    }
    assert forall|key: Seq<char>| #[trigger] assoc(r).contains_key(key) == assoc(s).remove(
        k,
    ).contains_key(key) by {
        lemma_assoc_dom(r, key);
        lemma_assoc_dom(s, key);
        if has_key(r, key) {
            let a = choose|a: int| 0 <= a < r.len() && r[a].0 == key;
            let sa = if a < i { a } else { a + 1 };
            assert(s[sa] == r[a]);
        }
        if has_key(s, key) && key != k {
            let a = choose|a: int| 0 <= a < s.len() && s[a].0 == key;
            assert(a != i);
            let ra = if a < i { a } else { a - 1 };
            assert(r[ra] == s[a]);
        }
    }
    assert forall|key: Seq<char>| assoc(r).contains_key(key) implies #[trigger] assoc(r)[key]
        == assoc(s).remove(k)[key] by {
        lemma_assoc_dom(r, key);
        let a = choose|a: int| 0 <= a < r.len() && r[a].0 == key;
        let sa = if a < i { a } else { a + 1 };
        assert(s[sa] == r[a]);
        lemma_assoc_index(r, a);
        lemma_assoc_index(s, sa);
    }
    assert(assoc(r) =~= assoc(s).remove(k));
}

/// Appending a pair whose key is new keeps the keys distinct.
pub proof fn lemma_push_distinct<V>(s: Seq<(Seq<char>, V)>, k: Seq<char>, v: V)
    requires
        keys_distinct(s),
        !has_key(s, k),
    ensures
        keys_distinct(s.push((k, v))),
{
    let t = s.push((k, v));
    assert forall|a: int, b: int| 0 <= a < t.len() && 0 <= b < t.len() && a != b implies t[a].0
        != t[b].0 by {
        if a < s.len() && b < s.len() {
            assert(t[a] == s[a] && t[b] == s[b]);
        } else if a < s.len() {
            assert(t[a] == s[a]);
        } else if b < s.len() {
            assert(t[b] == s[b]);
        }
    }
}

/// Finds the index of `key` among the first components of `v`.
pub fn find_key<V>(v: &Vec<(String, V)>, key: &str) -> (r: Option<usize>)
    ensures
        match r {
            Some(i) => i < v@.len() && v@[i as int].0@ == key@,
            None => forall|j: int| 0 <= j < v@.len() ==> v@[j].0@ != key@,
        },
{
    let mut i: usize = 0;
    while i < v.len()
        invariant
            i <= v@.len(),
            forall|j: int| 0 <= j < i ==> v@[j].0@ != key@,
        decreases v@.len() - i,
    {
        if str_equal(v[i].0.as_str(), key) {
            return Some(i);
        }
        i = i + 1;
    }
    None
}

/// A copy of a vector of string pairs.
pub fn clone_pairs(v: &Vec<(String, String)>) -> (r: Vec<(String, String)>)
    ensures
        r@ == v@,
{
    let mut r: Vec<(String, String)> = Vec::new();
    let mut i: usize = 0;
    while i < v.len()
        invariant
            i <= v@.len(),
            r@ =~= v@.take(i as int),
        decreases v@.len() - i,
    {
        let k = v[i].0.clone();
        let x = v[i].1.clone();
        r.push((k, x));
        assert(v@.take(i + 1) =~= v@.take(i as int).push(v@[i as int]));
        i = i + 1;
    }
    assert(v@.take(i as int) =~= v@);
    r
}

} // verus!
