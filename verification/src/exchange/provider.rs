//! Order identifiers for orders placed through an exchange provider.

use vstd::prelude::*;
use crate::numparse::{decimal_text, lemma_decimal_text_digits, lemma_decimal_text_injective, u128_to_text, is_digit};
use crate::text::string_of;

verus! {

/// The text of an order ID: `ORD-<timestamp>-<counter>`, both numbers in decimal.
pub open spec fn spec_order_id(timestamp: nat, counter: nat) -> Seq<char> {
    "ORD-"@ + decimal_text(timestamp) + "-"@ + decimal_text(counter)
}

/// Builds an order ID from a timestamp (nanoseconds since the Unix epoch) and a counter
/// value that the caller advances on every call.
pub fn generate_order_id(timestamp_nanos: u128, counter: u64) -> (r: String)
    ensures
        r@ == spec_order_id(timestamp_nanos as nat, counter as nat),
{
    let ts = u128_to_text(timestamp_nanos);
    let c = u128_to_text(counter as u128);
    let mut v: Vec<char> = Vec::new();
    v.push('O');
    v.push('R');
    v.push('D');
    v.push('-');
    let mut i: usize = 0;
    while i < ts.len()
        invariant
            i <= ts.len(),
            v@ == seq!['O', 'R', 'D', '-'] + ts@.take(i as int),
        decreases ts.len() - i,
    {
        v.push(ts[i]);
        i = i + 1;
        assert(ts@.take(i as int) =~= ts@.take((i - 1) as int).push(ts@[i - 1]));
    }
    v.push('-');
    let mut j: usize = 0;
    let ghost mid = v@;
    while j < c.len()
        invariant
            j <= c.len(),
            v@ == mid + c@.take(j as int),
        decreases c.len() - j,
    {
        v.push(c[j]);
        j = j + 1;
        assert(c@.take(j as int) =~= c@.take((j - 1) as int).push(c@[j - 1]));
    }
    proof {
        reveal_strlit("ORD-");
        reveal_strlit("-");
        assert(ts@.take(ts@.len() as int) =~= ts@);
        assert(c@.take(c@.len() as int) =~= c@);
        assert(v@ =~= spec_order_id(timestamp_nanos as nat, counter as nat));
    }
    string_of(&v)
}

/// Order IDs built from different counter values (or different timestamps) differ.
pub proof fn lemma_order_ids_unique(t1: nat, c1: nat, t2: nat, c2: nat)
    requires
        t1 != t2 || c1 != c2,
    ensures
        spec_order_id(t1, c1) != spec_order_id(t2, c2),
{
    reveal_strlit("ORD-");
    reveal_strlit("-");
    lemma_decimal_text_digits(t1);
    lemma_decimal_text_digits(t2);
    lemma_decimal_text_digits(c1);
    lemma_decimal_text_digits(c2);
    let a = spec_order_id(t1, c1);
    let b = spec_order_id(t2, c2);
    let d1 = decimal_text(t1);
    let d2 = decimal_text(t2);
    if a == b {
        // The position of the second '-' is fixed by the length of the timestamp digits.
        if d1.len() != d2.len() {
            if d1.len() < d2.len() {
                let k: int = d1.len() as int;
                assert(a[4 + k] == '-');
                assert(b[4 + k] == d2[k]);
                assert(is_digit(d2[k]));
            } else {
                let k: int = d2.len() as int;
                assert(b[4 + k] == '-');
                assert(a[4 + k] == d1[k]);
                assert(is_digit(d1[k]));
            }
        } else {
            assert(d1 =~= a.subrange(4, 4 + d1.len() as int));
            assert(d2 =~= b.subrange(4, 4 + d2.len() as int));
            lemma_decimal_text_injective(t1, t2);
            let e1 = decimal_text(c1);
            let e2 = decimal_text(c2);
            assert(e1 =~= a.subrange(5 + d1.len() as int, a.len() as int));
            assert(e2 =~= b.subrange(5 + d2.len() as int, b.len() as int));
            lemma_decimal_text_injective(c1, c2);
        }
    }
}

} // verus!
