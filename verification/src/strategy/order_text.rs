//! Lexicographic order on texts (by character code, which is the order of their UTF-8
//! bytes) and sorted sets of texts.

use vstd::prelude::*;

verus! {

/// `a` comes strictly before `b`.
pub open spec fn str_lt(a: Seq<char>, b: Seq<char>) -> bool
    decreases a.len(),
{
    if a.len() == 0 {
        b.len() > 0
    } else if b.len() == 0 {
        false
    } else if a[0] != b[0] {
        a[0] < b[0]
    } else {
        str_lt(a.drop_first(), b.drop_first())
    }
}

pub proof fn lemma_str_lt_irreflexive(a: Seq<char>)
    ensures
        !str_lt(a, a),
    decreases a.len(),
{
    if a.len() > 0 {
        lemma_str_lt_irreflexive(a.drop_first());
    }
}

pub proof fn lemma_str_lt_total(a: Seq<char>, b: Seq<char>)
    ensures
        a == b || str_lt(a, b) || str_lt(b, a),
        !(str_lt(a, b) && str_lt(b, a)),
    decreases a.len(),
{
    if a.len() > 0 && b.len() > 0 {
        lemma_str_lt_total(a.drop_first(), b.drop_first());
        if a[0] == b[0] && a.drop_first() == b.drop_first() {
            assert(a =~= seq![a[0]] + a.drop_first());
            assert(b =~= seq![b[0]] + b.drop_first());
        }
    } else if a.len() == 0 && b.len() == 0 {
        assert(a =~= b);
    }
}

pub proof fn lemma_str_lt_trans(a: Seq<char>, b: Seq<char>, c: Seq<char>)
    requires
        str_lt(a, b),
        str_lt(b, c),
    ensures
        str_lt(a, c),
    decreases a.len(),
{
    if a.len() > 0 && b.len() > 0 && c.len() > 0 {
        if a[0] == b[0] && b[0] == c[0] {
            lemma_str_lt_trans(a.drop_first(), b.drop_first(), c.drop_first());
        }
    }
}

/// The texts of a vector of strings.
pub open spec fn names(v: Seq<String>) -> Seq<Seq<char>> {
    v.map_values(|s: String| s@)
}

/// Strictly increasing: sorted with no text twice.
pub open spec fn strictly_sorted(s: Seq<Seq<char>>) -> bool {
    forall|i: int, j: int| 0 <= i < j < s.len() ==> str_lt(s[i], s[j])
}

/// Whether `a` comes strictly before `b`.
pub fn str_less(a: &str, b: &str) -> (r: bool)
    ensures
        r == str_lt(a@, b@),
{
    let av = crate::text::chars_of(a);
    let bv = crate::text::chars_of(b);
    let mut k: usize = 0;
    assert(a@.skip(0) =~= a@);
    assert(b@.skip(0) =~= b@);
    while k < av.len() && k < bv.len() && av[k] == bv[k]
        invariant
            k <= av.len(),
            k <= bv.len(),
            av@ == a@,
            bv@ == b@,
            str_lt(a@, b@) == str_lt(a@.skip(k as int), b@.skip(k as int)),
        decreases av.len() - k,
    {
        assert(a@.skip(k as int).drop_first() =~= a@.skip(k + 1));
        assert(b@.skip(k as int).drop_first() =~= b@.skip(k + 1));
        k = k + 1;
    }
    let ghost sa = a@.skip(k as int);
    let ghost sb = b@.skip(k as int);
    if k == av.len() {
        assert(sa.len() == 0);
        k < bv.len()
    } else if k == bv.len() {
        assert(sb.len() == 0);
        false
    } else {
        assert(sa[0] == av@[k as int]);
        assert(sb[0] == bv@[k as int]);
        av[k] < bv[k]
    }
}

/// Adds a text to a strictly increasing vector of texts, keeping it strictly increasing.
pub fn sorted_insert(v: &mut Vec<String>, x: &String)
    requires
        strictly_sorted(names(old(v)@)),
    ensures
        strictly_sorted(names(final(v)@)),
        forall|k: Seq<char>|
            #[trigger] names(final(v)@).contains(k) <==> (names(old(v)@).contains(k) || k == x@),
{
    let ghost sv = names(v@);
    let mut p: usize = 0;
    while p < v.len() && str_less(v[p].as_str(), x.as_str())
        invariant
            p <= v.len(),
            sv == names(v@),
            strictly_sorted(sv),
            forall|j: int| 0 <= j < p ==> str_lt(#[trigger] sv[j], x@),
        decreases v.len() - p,
    {
        p = p + 1;
    }
    if p < v.len() && crate::text::chars_eq(v[p].as_str(), x.as_str()) {
        assert(sv[p as int] == x@);
        return;
    }
    proof {
        if p < v.len() {
            lemma_str_lt_total(sv[p as int], x@);
        }
        assert forall|j: int| p <= j < sv.len() implies str_lt(x@, #[trigger] sv[j]) by {
            if j > p {
                lemma_str_lt_trans(x@, sv[p as int], sv[j]);
            }
        }
    }
    let item = x.clone();
    v.insert(p, item);
    proof {
        let nv = names(v@);
        assert(nv =~= sv.insert(p as int, x@));
        assert forall|i: int, j: int| 0 <= i < j < nv.len() implies str_lt(nv[i], nv[j]) by {
            if j < p {
            } else if j == p {
            } else if i < p {
                lemma_str_lt_trans(sv[i], x@, sv[j - 1]);
            } else if i == p {
            } else {
            }
        }
        assert forall|k: Seq<char>| nv.contains(k) <==> (sv.contains(k) || k == x@) by {
            if nv.contains(k) {
                let idx = choose|idx: int| 0 <= idx < nv.len() && nv[idx] == k;
                if idx < p {
                    assert(sv[idx] == k);
                } else if idx > p {
                    assert(sv[idx - 1] == k);
                }
            }
            if sv.contains(k) {
                let idx = choose|idx: int| 0 <= idx < sv.len() && sv[idx] == k;
                if idx < p {
                    assert(nv[idx] == k);
                } else {
                    assert(nv[idx + 1] == k);
                }
            }
            if k == x@ {
                assert(nv[p as int] == k);
            }
        }
    }
}

/// The first `i + 1` items hold what the first `i` hold and item `i`.
pub proof fn lemma_take_push_contains<A>(t: Seq<A>, i: int)
    requires
        0 <= i < t.len(),
    ensures
        forall|k: A| #[trigger] t.take(i + 1).contains(k) <==> (t.take(i).contains(k) || k == t[i]),
{
    assert forall|k: A| #[trigger] t.take(i + 1).contains(k) <==> (t.take(i).contains(k) || k == t[i]) by {
        if t.take(i + 1).contains(k) {
            let j = choose|j: int| 0 <= j < i + 1 && #[trigger] t.take(i + 1)[j] == k;
            if j < i {
                assert(t.take(i)[j] == k);
            }
        }
        if t.take(i).contains(k) {
            let j = choose|j: int| 0 <= j < i && #[trigger] t.take(i)[j] == k;
            assert(t.take(i + 1)[j] == k);
        }
        if k == t[i] {
            assert(t.take(i + 1)[i] == k);
        }
    }
}

} // verus!
