//! Maps from text keys kept as sequences of (key, value) pairs, each key at most once.

use vstd::prelude::*;

verus! {

/// Index of the first pair whose key is `k`, searching from `from`.
pub open spec fn key_index<V>(es: Seq<(Seq<char>, V)>, k: Seq<char>, from: int) -> Option<int>
    decreases es.len() - from,
{
    if from < 0 || from >= es.len() {
        None
    } else if es[from].0 == k {
        Some(from)
    } else {
        key_index(es, k, from + 1)
    }
}

/// The value stored under `k`.
pub open spec fn assoc_get<V>(es: Seq<(Seq<char>, V)>, k: Seq<char>) -> Option<V> {
    match key_index(es, k, 0) {
        Some(i) => Some(es[i].1),
        None => None,
    }
}

/// Insertion: an existing key gets the new value in place, a new key is appended.
pub open spec fn assoc_insert<V>(es: Seq<(Seq<char>, V)>, k: Seq<char>, v: V) -> Seq<
    (Seq<char>, V),
> {
    match key_index(es, k, 0) {
        Some(i) => es.update(i, (k, v)),
        None => es.push((k, v)),
    }
}

/// No key occurs twice.
pub open spec fn keys_unique<V>(es: Seq<(Seq<char>, V)>) -> bool {
    forall|i: int, j: int| 0 <= i < j < es.len() ==> es[i].0 != es[j].0
}

/// The keys, in order.
pub open spec fn assoc_keys<V>(es: Seq<(Seq<char>, V)>) -> Seq<Seq<char>> {
    es.map_values(|e: (Seq<char>, V)| e.0)
}

pub proof fn lemma_key_index_none<V>(es: Seq<(Seq<char>, V)>, k: Seq<char>, from: int)
    requires
        0 <= from <= es.len(),
        forall|j: int| from <= j < es.len() ==> es[j].0 != k,
    ensures
        key_index(es, k, from) is None,
    decreases es.len() - from,
{
    if from < es.len() {
        lemma_key_index_none(es, k, from + 1);
    }
}

pub proof fn lemma_key_index_found<V>(es: Seq<(Seq<char>, V)>, k: Seq<char>, from: int, i: int)
    requires
        0 <= from <= i < es.len(),
        forall|j: int| from <= j < i ==> es[j].0 != k,
        es[i].0 == k,
    ensures
        key_index(es, k, from) == Some(i),
    decreases i - from,
{
    if from < i {
        lemma_key_index_found(es, k, from + 1, i);
    }
}

pub proof fn lemma_key_index_props<V>(es: Seq<(Seq<char>, V)>, k: Seq<char>, from: int)
    requires
        0 <= from,
    ensures
        match key_index(es, k, from) {
            Some(i) => from <= i < es.len() && es[i].0 == k && forall|j: int|
                from <= j < i ==> es[j].0 != k,
            None => forall|j: int| from <= j < es.len() ==> es[j].0 != k,
        },
    decreases es.len() - from,
{
    if from < es.len() {
        lemma_key_index_props(es, k, from + 1);
    }
}

/// Insertion keeps keys unique and makes the key map to the new value.
pub proof fn lemma_assoc_insert<V>(es: Seq<(Seq<char>, V)>, k: Seq<char>, v: V)
    requires
        keys_unique(es),
    ensures
        keys_unique(assoc_insert(es, k, v)),
        assoc_get(assoc_insert(es, k, v), k) == Some(v),
        forall|k2: Seq<char>| k2 != k ==> assoc_get(assoc_insert(es, k, v), k2) == assoc_get(es, k2),
{
    lemma_key_index_props(es, k, 0);
    let r = assoc_insert(es, k, v);
    assert(keys_unique(r));
    lemma_key_index_props(r, k, 0);
    match key_index(es, k, 0) {
        Some(i) => {
            lemma_key_index_found(r, k, 0, i);
        },
        None => {
            lemma_key_index_found(r, k, 0, es.len() as int);
        },
    }
    assert forall|k2: Seq<char>| k2 != k implies assoc_get(r, k2) == assoc_get(es, k2) by {
        lemma_key_index_props(es, k2, 0);
        lemma_key_index_props(r, k2, 0);
        match key_index(es, k2, 0) {
            Some(i) => {
                lemma_key_index_found(r, k2, 0, i);
            },
            None => {
                lemma_key_index_none(r, k2, 0);
            },
        }
    }
}


/// The pairs of a vector of (text, value) pairs, each key taken as its characters.
pub open spec fn pairs_view<V>(es: Seq<(String, V)>) -> Seq<(Seq<char>, V)> {
    es.map_values(|e: (String, V)| (e.0@, e.1))
}

/// Two pair sequences with the same keys at the same places find a key at the same index.
pub proof fn lemma_key_index_same_keys<V, W>(
    a: Seq<(Seq<char>, V)>,
    b: Seq<(Seq<char>, W)>,
    k: Seq<char>,
    from: int,
)
    requires
        a.len() == b.len(),
        forall|i: int| 0 <= i < a.len() ==> #[trigger] a[i].0 == b[i].0,
    ensures
        key_index(a, k, from) == key_index(b, k, from),
    decreases a.len() - from,
{
    if 0 <= from < a.len() {
        lemma_key_index_same_keys(a, b, k, from + 1);
    }
}

/// Index of the pair keyed `key`.
pub fn find_key<V>(es: &Vec<(String, V)>, key: &str) -> (r: Option<usize>)
    ensures
        match r {
            Some(i) => i < es@.len() && key_index(pairs_view(es@), key@, 0) == Some(i as int),
            None => key_index(pairs_view(es@), key@, 0) is None,
        },
{
    let ghost pv = pairs_view(es@);
    let mut i: usize = 0;
    while i < es.len()
        invariant
            i <= es.len(),
            pv == pairs_view(es@),
            forall|j: int| 0 <= j < i ==> pv[j].0 != key@,
        decreases es.len() - i,
    {
        if crate::text::chars_eq(es[i].0.as_str(), key) {
            proof {
                lemma_key_index_found(pv, key@, 0, i as int);
            }
            return Some(i);
        }
        i = i + 1;
    }
    proof {
        lemma_key_index_none(pv, key@, 0);
    }
    None
}

/// Inserts a value under a key: replaces the value of an existing key in place, or appends.
pub fn insert_key<V>(es: &mut Vec<(String, V)>, key: &str, v: V)
    ensures
        pairs_view(final(es)@) == assoc_insert(pairs_view(old(es)@), key@, v),
{
    let ghost before = pairs_view(es@);
    match find_key(es, key) {
        Some(i) => {
            es.set(i, (String::from_str(key), v));
            assert(pairs_view(es@) =~= before.update(i as int, (key@, v)));
        },
        None => {
            es.push((String::from_str(key), v));
            assert(pairs_view(es@) =~= before.push((key@, v)));
        },
    }
}


/// The pairs with each value transformed by `f`.
pub open spec fn map_vals<V, W>(es: Seq<(Seq<char>, V)>, f: spec_fn(V) -> W) -> Seq<(Seq<char>, W)> {
    es.map_values(|e: (Seq<char>, V)| (e.0, f(e.1)))
}

/// Transforming the values keeps where each key is found, whether keys are unique, and
/// commutes with insertion.
pub proof fn lemma_map_vals<V, W>(es: Seq<(Seq<char>, V)>, f: spec_fn(V) -> W, k: Seq<char>, v: V)
    ensures
        key_index(map_vals(es, f), k, 0) == key_index(es, k, 0),
        keys_unique(map_vals(es, f)) == keys_unique(es),
        map_vals(assoc_insert(es, k, v), f) == assoc_insert(map_vals(es, f), k, f(v)),
{
    let m = map_vals(es, f);
    lemma_key_index_same_keys(es, m, k, 0);
    assert(keys_unique(m) == keys_unique(es)) by {
        if keys_unique(es) {
            assert forall|i: int, j: int| 0 <= i < j < m.len() implies m[i].0 != m[j].0 by {
                assert(m[i].0 == es[i].0 && m[j].0 == es[j].0);
            }
        }
        if keys_unique(m) {
            assert forall|i: int, j: int| 0 <= i < j < es.len() implies es[i].0 != es[j].0 by {
                assert(m[i].0 == es[i].0 && m[j].0 == es[j].0);
            }
        }
    }
    lemma_key_index_props(es, k, 0);
    match key_index(es, k, 0) {
        Some(i) => {
            assert(assoc_insert(m, k, f(v)) == m.update(i, (k, f(v))));
            assert(map_vals(assoc_insert(es, k, v), f) =~= assoc_insert(m, k, f(v)));
        },
        None => {
            assert(map_vals(assoc_insert(es, k, v), f) =~= assoc_insert(m, k, f(v)));
        },
    }
}


/// Removal: the pair keyed `k`, if any, leaves; the others keep their order.
pub open spec fn assoc_remove<V>(es: Seq<(Seq<char>, V)>, k: Seq<char>) -> Seq<(Seq<char>, V)> {
    match key_index(es, k, 0) {
        Some(i) => es.remove(i),
        None => es,
    }
}

/// Removal keeps keys unique.
pub proof fn lemma_assoc_remove_unique<V>(es: Seq<(Seq<char>, V)>, k: Seq<char>)
    requires
        keys_unique(es),
    ensures
        keys_unique(assoc_remove(es, k)),
{
    lemma_key_index_props(es, k, 0);
    match key_index(es, k, 0) {
        Some(i) => {
            let r = es.remove(i);
            assert forall|a: int, b: int| 0 <= a < b < r.len() implies r[a].0 != r[b].0 by {
                let a2 = if a < i { a } else { a + 1 };
                let b2 = if b < i { b } else { b + 1 };
                assert(r[a] == es[a2] && r[b] == es[b2]);
            }
        },
        None => {},
    }
}

/// Removes the pair keyed `key`, if any.
pub fn remove_key<V>(es: &mut Vec<(String, V)>, key: &str)
    ensures
        pairs_view(final(es)@) == assoc_remove(pairs_view(old(es)@), key@),
{
    let ghost before = pairs_view(es@);
    match find_key(es, key) {
        Some(i) => {
            let _ = es.remove(i);
            assert(pairs_view(es@) =~= before.remove(i as int));
        },
        None => {},
    }
}


/// Transforming the values commutes with removal.
pub proof fn lemma_map_vals_remove<V, W>(es: Seq<(Seq<char>, V)>, f: spec_fn(V) -> W, k: Seq<char>)
    ensures
        map_vals(assoc_remove(es, k), f) == assoc_remove(map_vals(es, f), k),
{
    lemma_key_index_same_keys(es, map_vals(es, f), k, 0);
    lemma_key_index_props(es, k, 0);
    match key_index(es, k, 0) {
        Some(i) => {
            assert(map_vals(es.remove(i), f) =~= map_vals(es, f).remove(i));
        },
        None => {},
    }
}

} // verus!
