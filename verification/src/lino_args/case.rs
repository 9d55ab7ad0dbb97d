//! Conversions between naming conventions (UPPER_CASE, camelCase, kebab-case,
//! snake_case, PascalCase).

use vstd::prelude::*;
use crate::text::{
    all_ascii, ascii_lower, ascii_upper, char_lowercase, chars_of, is_ascii_upper, is_uppercase,
    lowercase, string_of, to_ascii_lower, to_ascii_upper, unicode_char_lowercase, unicode_is_uppercase,
    unicode_lowercase,
};

verus! {

/// Word separators recognised by every conversion.
pub open spec fn is_separator(c: char) -> bool {
    c == '-' || c == '_' || c == ' '
}

/// The text produced for the character at index `i` when a name is split into words:
/// an upper-case character (other than the first) opens a new word, a separator becomes
/// `joiner`, and any other character is case-converted.
pub open spec fn word_piece(s: Seq<char>, i: int, joiner: char, upper: bool) -> Seq<char> {
    let c = s[i];
    let lead: Seq<char> = if unicode_is_uppercase(c) && i > 0 { seq![joiner] } else { seq![] };
    let body: Seq<char> = if c == '-' || c == ' ' || c == '_' {
        seq![joiner]
    } else if upper {
        seq![ascii_upper(c)]
    } else {
        seq![ascii_lower(c)]
    };
    lead + body
}

/// Concatenation of the word pieces of the first `n` characters.
pub open spec fn split_join(s: Seq<char>, n: int, joiner: char, upper: bool) -> Seq<char>
    decreases n,
{
    if n <= 0 {
        seq![]
    } else {
        split_join(s, n - 1, joiner, upper) + word_piece(s, n - 1, joiner, upper)
    }
}

/// Drops every leading occurrence of `c`.
pub open spec fn trim_leading(s: Seq<char>, c: char) -> Seq<char>
    decreases s.len(),
{
    if s.len() > 0 && s[0] == c {
        trim_leading(s.drop_first(), c)
    } else {
        s
    }
}

/// Replaces every run of consecutive `c` by a single `c`.
pub open spec fn squeeze(s: Seq<char>, c: char) -> Seq<char>
    decreases s.len(),
{
    if s.len() == 0 {
        s
    } else if s.len() >= 2 && s.last() == c && s[s.len() - 2] == c {
        squeeze(s.drop_last(), c)
    } else {
        squeeze(s.drop_last(), c).push(s.last())
    }
}

/// Replaces every occurrence of `from` by `to`.
pub open spec fn replace_char(s: Seq<char>, from: char, to: char) -> Seq<char> {
    s.map_values(|c: char| if c == from { to } else { c })
}

/// The common shape of UPPER_CASE, snake_case and kebab-case: split into words, join with
/// `joiner`, then drop leading joiners and collapse repeated ones.
pub open spec fn joined_case(s: Seq<char>, joiner: char, upper: bool) -> Seq<char> {
    squeeze(trim_leading(split_join(s, s.len() as int, joiner, upper), joiner), joiner)
}

/// Every character is an ASCII upper-case letter, `_` or `-`.
pub open spec fn is_upper_snake_or_kebab(s: Seq<char>) -> bool {
    forall|i: int| 0 <= i < s.len() ==> is_ascii_upper(s[i]) || s[i] == '_' || s[i] == '-'
}

/// Every character is an ASCII upper-case letter or `_`, and there is at least one `_`.
pub open spec fn is_screaming_snake(s: Seq<char>) -> bool {
    &&& forall|i: int| 0 <= i < s.len() ==> is_ascii_upper(s[i]) || s[i] == '_'
    &&& s.contains('_')
}

pub open spec fn spec_to_upper_case(s: Seq<char>) -> Seq<char> {
    if is_upper_snake_or_kebab(s) {
        replace_char(s, '-', '_')
    } else {
        joined_case(s, '_', true)
    }
}

pub open spec fn spec_to_kebab_case(s: Seq<char>) -> Seq<char> {
    if is_screaming_snake(s) {
        replace_char(s, '_', '-').map_values(|c: char| ascii_lower(c))
    } else {
        joined_case(s, '-', false)
    }
}

pub open spec fn spec_to_snake_case(s: Seq<char>) -> Seq<char> {
    if is_screaming_snake(s) {
        s.map_values(|c: char| ascii_lower(c))
    } else {
        joined_case(s, '_', false)
    }
}

/// `word_piece` for ASCII text, where a capital is an ASCII capital.
pub open spec fn word_piece_ascii(s: Seq<char>, i: int, joiner: char, upper: bool) -> Seq<char> {
    let c = s[i];
    let lead: Seq<char> = if is_ascii_upper(c) && i > 0 { seq![joiner] } else { seq![] };
    let body: Seq<char> = if c == '-' || c == ' ' || c == '_' {
        seq![joiner]
    } else if upper {
        seq![ascii_upper(c)]
    } else {
        seq![ascii_lower(c)]
    };
    lead + body
}

/// `split_join` for ASCII text.
pub open spec fn split_join_ascii(s: Seq<char>, n: int, joiner: char, upper: bool) -> Seq<char>
    decreases n,
{
    if n <= 0 {
        seq![]
    } else {
        split_join_ascii(s, n - 1, joiner, upper) + word_piece_ascii(s, n - 1, joiner, upper)
    }
}

/// `joined_case` for ASCII text.
pub open spec fn joined_case_ascii(s: Seq<char>, joiner: char, upper: bool) -> Seq<char> {
    squeeze(trim_leading(split_join_ascii(s, s.len() as int, joiner, upper), joiner), joiner)
}

/// UPPER_CASE of an ASCII text.
pub open spec fn spec_ascii_upper_case(s: Seq<char>) -> Seq<char> {
    if is_upper_snake_or_kebab(s) {
        replace_char(s, '-', '_')
    } else {
        joined_case_ascii(s, '_', true)
    }
}

/// kebab-case of an ASCII text.
pub open spec fn spec_ascii_kebab_case(s: Seq<char>) -> Seq<char> {
    if is_screaming_snake(s) {
        replace_char(s, '_', '-').map_values(|c: char| ascii_lower(c))
    } else {
        joined_case_ascii(s, '-', false)
    }
}

/// snake_case of an ASCII text.
pub open spec fn spec_ascii_snake_case(s: Seq<char>) -> Seq<char> {
    if is_screaming_snake(s) {
        s.map_values(|c: char| ascii_lower(c))
    } else {
        joined_case_ascii(s, '_', false)
    }
}

/// On the first `n` characters, the Unicode capital test agrees with the ASCII one for
/// ASCII characters.
pub open spec fn capitals_known(s: Seq<char>, n: int) -> bool {
    forall|j: int|
        0 <= j < n && (s[j] as u32) < 128 ==> unicode_is_uppercase(#[trigger] s[j]) == is_ascii_upper(
            s[j],
        )
}

proof fn lemma_split_join_ascii(s: Seq<char>, n: int, joiner: char, upper: bool)
    requires
        0 <= n <= s.len(),
        all_ascii(s),
        capitals_known(s, n),
    ensures
        split_join(s, n, joiner, upper) == split_join_ascii(s, n, joiner, upper),
    decreases n,
{
    if n > 0 {
        lemma_split_join_ascii(s, n - 1, joiner, upper);
        assert((s[n - 1] as u32) < 128);
        assert(word_piece(s, n - 1, joiner, upper) == word_piece_ascii(s, n - 1, joiner, upper));
    }
}

/// Capitalising scan used by camelCase and PascalCase over the first `n` characters:
/// separators are dropped and the character after a separator is ASCII upper-cased.
/// Returns the text and whether the next character is to be capitalised.
pub open spec fn capitalize_scan(s: Seq<char>, n: int, cap_first: bool) -> (Seq<char>, bool)
    decreases n,
{
    if n <= 0 {
        (seq![], cap_first)
    } else {
        let (r, cap) = capitalize_scan(s, n - 1, cap_first);
        let c = s[n - 1];
        if is_separator(c) {
            (r, true)
        } else if cap {
            (r.push(ascii_upper(c)), false)
        } else {
            (r.push(c), false)
        }
    }
}

pub open spec fn spec_to_camel_case(s: Seq<char>) -> Seq<char> {
    let lower = unicode_lowercase(s);
    let r = capitalize_scan(lower, lower.len() as int, false).0;
    if r.len() > 0 && unicode_is_uppercase(r[0]) {
        unicode_char_lowercase(r[0]) + r.drop_first()
    } else {
        r
    }
}

pub open spec fn spec_to_pascal_case(s: Seq<char>) -> Seq<char> {
    let lower = unicode_lowercase(s);
    capitalize_scan(lower, lower.len() as int, true).0
}

proof fn lemma_split_join_step(s: Seq<char>, n: int, joiner: char, upper: bool)
    requires
        n > 0,
    ensures
        split_join(s, n, joiner, upper) == split_join(s, n - 1, joiner, upper) + word_piece(
            s,
            n - 1,
            joiner,
            upper,
        ),
{
}

/// Splits `chars` into words joined by `joiner` (without trimming or squeezing).
fn split_join_exec(chars: &Vec<char>, joiner: char, upper: bool) -> (out: Vec<char>)
    ensures
        out@ == split_join(chars@, chars@.len() as int, joiner, upper),
        capitals_known(chars@, chars@.len() as int),
{
    let mut out: Vec<char> = Vec::new();
    let mut i: usize = 0;
    while i < chars.len()
        invariant
            i <= chars.len(),
            out@ == split_join(chars@, i as int, joiner, upper),
            capitals_known(chars@, i as int),
        decreases chars.len() - i,
    {
        let c = chars[i];
        let ghost before = out@;
        if is_uppercase(c) && i > 0 {
            out.push(joiner);
        }
        if c == '-' || c == ' ' || c == '_' {
            out.push(joiner);
        } else if upper {
            out.push(to_ascii_upper(c));
        } else {
            out.push(to_ascii_lower(c));
        }
        proof {
            lemma_split_join_step(chars@, i + 1, joiner, upper);
            assert(out@ =~= before + word_piece(chars@, i as int, joiner, upper));
        }
        i = i + 1;
    }
    out
}

proof fn lemma_trim_leading_skip(s: Seq<char>, c: char, k: int)
    requires
        0 <= k <= s.len(),
        forall|j: int| 0 <= j < k ==> s[j] == c,
    ensures
        trim_leading(s, c) == trim_leading(s.subrange(k, s.len() as int), c),
    decreases k,
{
    if k > 0 {
        assert(s.drop_first() =~= s.subrange(1, s.len() as int));
        lemma_trim_leading_skip(s.drop_first(), c, k - 1);
        assert(s.drop_first().subrange(k - 1, s.drop_first().len() as int) =~= s.subrange(
            k,
            s.len() as int,
        ));
    } else {
        assert(s.subrange(0, s.len() as int) =~= s);
    }
}

/// Drops leading occurrences of `c`.
fn trim_leading_exec(v: &Vec<char>, c: char) -> (out: Vec<char>)
    ensures
        out@ == trim_leading(v@, c),
{
    let mut k: usize = 0;
    while k < v.len() && v[k] == c
        invariant
            k <= v.len(),
            forall|j: int| 0 <= j < k ==> v@[j] == c,
        decreases v.len() - k,
    {
        k = k + 1;
    }
    proof {
        lemma_trim_leading_skip(v@, c, k as int);
    }
    let mut out: Vec<char> = Vec::new();
    let mut i: usize = k;
    while i < v.len()
        invariant
            k <= i <= v.len(),
            out@ == v@.subrange(k as int, i as int),
        decreases v.len() - i,
    {
        out.push(v[i]);
        i = i + 1;
        assert(out@ =~= v@.subrange(k as int, i as int));
    }
    assert(v@.subrange(k as int, v@.len() as int).len() == 0 || v@.subrange(
        k as int,
        v@.len() as int,
    )[0] != c);
    out
}

proof fn lemma_squeeze_prefix(s: Seq<char>, c: char, i: int)
    requires
        0 < i <= s.len(),
    ensures
        squeeze(s.take(i), c) == if i >= 2 && s[i - 1] == c && s[i - 2] == c {
            squeeze(s.take(i - 1), c)
        } else {
            squeeze(s.take(i - 1), c).push(s[i - 1])
        },
{
    assert(s.take(i).drop_last() =~= s.take(i - 1));
}

/// Replaces every run of `c` by a single `c`.
fn squeeze_exec(v: &Vec<char>, c: char) -> (out: Vec<char>)
    ensures
        out@ == squeeze(v@, c),
{
    let mut out: Vec<char> = Vec::new();
    let mut i: usize = 0;
    assert(v@.take(0) =~= seq![]);
    while i < v.len()
        invariant
            i <= v.len(),
            out@ == squeeze(v@.take(i as int), c),
        decreases v.len() - i,
    {
        proof {
            lemma_squeeze_prefix(v@, c, i + 1);
        }
        if !(i >= 1 && v[i] == c && v[i - 1] == c) {
            out.push(v[i]);
        }
        i = i + 1;
    }
    assert(v@.take(v.len() as int) =~= v@);
    out
}

/// Split, join, trim and squeeze: the general path of the joined conversions.
fn joined_case_exec(s: &str, joiner: char, upper: bool) -> (r: String)
    ensures
        r@ == joined_case(s@, joiner, upper),
        all_ascii(s@) ==> r@ == joined_case_ascii(s@, joiner, upper),
{
    let chars = chars_of(s);
    let joined = split_join_exec(&chars, joiner, upper);
    proof {
        if all_ascii(s@) {
            lemma_split_join_ascii(chars@, chars@.len() as int, joiner, upper);
        }
    }
    let trimmed = trim_leading_exec(&joined, joiner);
    let squeezed = squeeze_exec(&trimmed, joiner);
    string_of(&squeezed)
}

/// Maps each character: `from` becomes `to`, and, when `lower` is set, every character is
/// then ASCII lower-cased.
fn map_chars(s: &str, from: char, to: char, lower: bool) -> (r: String)
    ensures
        lower ==> r@ == replace_char(s@, from, to).map_values(|c: char| ascii_lower(c)),
        !lower ==> r@ == replace_char(s@, from, to),
{
    let chars = chars_of(s);
    let mut out: Vec<char> = Vec::new();
    let mut i: usize = 0;
    while i < chars.len()
        invariant
            i <= chars.len(),
            chars@ == s@,
            out@.len() == i,
            forall|j: int|
                0 <= j < i ==> {
                    let m = if chars@[j] == from { to } else { chars@[j] };
                    #[trigger] out@[j] == if lower { ascii_lower(m) } else { m }
                },
        decreases chars.len() - i,
    {
        let mut c = chars[i];
        if c == from {
            c = to;
        }
        if lower {
            c = to_ascii_lower(c);
        }
        out.push(c);
        i = i + 1;
    }
    let r = string_of(&out);
    if lower {
        assert(r@ =~= replace_char(s@, from, to).map_values(|c: char| ascii_lower(c)));
    } else {
        assert(r@ =~= replace_char(s@, from, to));
    }
    r
}

/// Whether every character is an ASCII upper-case letter, `_` or (when `allow_dash`) `-`.
fn all_upper_or(chars: &Vec<char>, allow_dash: bool) -> (b: bool)
    ensures
        b == forall|i: int|
            0 <= i < chars@.len() ==> is_ascii_upper(chars@[i]) || chars@[i] == '_' || (
            allow_dash && chars@[i] == '-'),
{
    let mut i: usize = 0;
    while i < chars.len()
        invariant
            i <= chars.len(),
            forall|j: int|
                0 <= j < i ==> is_ascii_upper(chars@[j]) || chars@[j] == '_' || (allow_dash
                    && chars@[j] == '-'),
        decreases chars.len() - i,
    {
        let c = chars[i];
        if !(('A' <= c && c <= 'Z') || c == '_' || (allow_dash && c == '-')) {
            return false;
        }
        i = i + 1;
    }
    true
}

/// Whether `c` occurs in `chars`.
fn contains_char(chars: &Vec<char>, c: char) -> (b: bool)
    ensures
        b == chars@.contains(c),
{
    let mut i: usize = 0;
    while i < chars.len()
        invariant
            i <= chars.len(),
            forall|j: int| 0 <= j < i ==> chars@[j] != c,
        decreases chars.len() - i,
    {
        if chars[i] == c {
            assert(chars@[i as int] == c);
            return true;
        }
        i = i + 1;
    }
    false
}

fn is_screaming_snake_exec(chars: &Vec<char>) -> (b: bool)
    ensures
        b == is_screaming_snake(chars@),
{
    let all = all_upper_or(chars, false);
    let has = contains_char(chars, '_');
    all && has
}

/// `c` does not occur in `x`.
pub open spec fn lacks(x: Seq<char>, c: char) -> bool {
    forall|i: int| 0 <= i < x.len() ==> x[i] != c
}

/// The kebab-case split, with `-` turned into `_`, is the snake-case split; it holds no `_`.
proof fn lemma_split_join_kebab_snake(s: Seq<char>, n: int)
    requires
        0 <= n <= s.len(),
    ensures
        replace_char(split_join(s, n, '-', false), '-', '_') == split_join(s, n, '_', false),
        lacks(split_join(s, n, '-', false), '_'),
    decreases n,
{
    if n > 0 {
        lemma_split_join_kebab_snake(s, n - 1);
        let a = split_join(s, n - 1, '-', false);
        let pa = word_piece(s, n - 1, '-', false);
        let pb = word_piece(s, n - 1, '_', false);
        assert(replace_char(pa, '-', '_') =~= pb);
        assert(replace_char(a + pa, '-', '_') =~= replace_char(a, '-', '_') + replace_char(pa, '-', '_'));
        let x = a + pa;
        assert forall|i: int| 0 <= i < x.len() implies x[i] != '_' by {
            if i >= a.len() {
                assert(x[i] == pa[i - a.len()]);
            }
        }
    }
}

/// Dropping leading `-` then renaming `-` to `_` is renaming then dropping leading `_`.
proof fn lemma_trim_rename(x: Seq<char>)
    requires
        lacks(x, '_'),
    ensures
        trim_leading(replace_char(x, '-', '_'), '_') == replace_char(trim_leading(x, '-'), '-', '_'),
        lacks(trim_leading(x, '-'), '_'),
    decreases x.len(),
{
    let rx = replace_char(x, '-', '_');
    if x.len() > 0 && x[0] == '-' {
        assert(rx[0] == '_');
        assert(rx.drop_first() =~= replace_char(x.drop_first(), '-', '_'));
        assert(lacks(x.drop_first(), '_')) by {
            assert forall|i: int| 0 <= i < x.drop_first().len() implies x.drop_first()[i] != '_' by {
                assert(x.drop_first()[i] == x[i + 1]);
            }
        }
        lemma_trim_rename(x.drop_first());
    } else if x.len() > 0 {
        assert(rx[0] == x[0]);
        assert(x[0] != '_');
    }
}

/// Collapsing runs of `-` then renaming `-` to `_` is renaming then collapsing runs of `_`.
proof fn lemma_squeeze_rename(x: Seq<char>)
    requires
        lacks(x, '_'),
    ensures
        squeeze(replace_char(x, '-', '_'), '_') == replace_char(squeeze(x, '-'), '-', '_'),
    decreases x.len(),
{
    if x.len() > 0 {
        let d = x.drop_last();
        assert(lacks(d, '_')) by {
            assert forall|i: int| 0 <= i < d.len() implies d[i] != '_' by {
                assert(d[i] == x[i]);
            }
        }
        lemma_squeeze_rename(d);
        let rx = replace_char(x, '-', '_');
        assert(rx.drop_last() =~= replace_char(d, '-', '_'));
        assert(rx.last() == '_' <==> x.last() == '-');
        if x.len() >= 2 {
            assert(rx[rx.len() - 2] == '_' <==> x[x.len() - 2] == '-');
        }
        let sq = squeeze(d, '-');
        assert(replace_char(sq.push(x.last()), '-', '_') =~= replace_char(sq, '-', '_').push(
            rx.last(),
        ));
    }
}

/// Snake case is kebab case with every `-` replaced by `_`.
pub proof fn lemma_snake_is_kebab_with_underscores(s: Seq<char>)
    ensures
        spec_to_snake_case(s) == replace_char(spec_to_kebab_case(s), '-', '_'),
{
    if is_screaming_snake(s) {
        let k = replace_char(s, '_', '-').map_values(|c: char| ascii_lower(c));
        assert(replace_char(k, '-', '_') =~= s.map_values(|c: char| ascii_lower(c)));
    } else {
        let x = split_join(s, s.len() as int, '-', false);
        lemma_split_join_kebab_snake(s, s.len() as int);
        lemma_trim_rename(x);
        lemma_squeeze_rename(trim_leading(x, '-'));
    }
}

/// Every character ASCII lower-cased.
pub open spec fn ascii_lowered(s: Seq<char>) -> Seq<char> {
    s.map_values(|c: char| ascii_lower(c))
}

/// PascalCase of an ASCII text.
pub open spec fn spec_ascii_pascal(s: Seq<char>) -> Seq<char> {
    capitalize_scan(ascii_lowered(s), s.len() as int, true).0
}

/// camelCase of an ASCII text: the scan without a leading capital, its first character
/// lower-cased when it is a capital.
pub open spec fn spec_ascii_camel(s: Seq<char>) -> Seq<char> {
    let r = capitalize_scan(ascii_lowered(s), s.len() as int, false).0;
    if r.len() > 0 && is_ascii_upper(r[0]) {
        seq![ascii_lower(r[0])] + r.drop_first()
    } else {
        r
    }
}

/// The text with only its first character ASCII lower-cased (empty stays empty).
pub open spec fn lower_first(p: Seq<char>) -> Seq<char> {
    if p.len() > 0 {
        seq![ascii_lower(p[0])] + p.drop_first()
    } else {
        p
    }
}

/// Lower-casing an ASCII text keeps it ASCII and its length.
proof fn lemma_lowered_ascii(s: Seq<char>)
    requires
        all_ascii(s),
    ensures
        all_ascii(ascii_lowered(s)),
        ascii_lowered(s).len() == s.len(),
{
    assert forall|i: int| 0 <= i < s.len() implies (ascii_lowered(s)[i] as u32) < 128 by {
        let c = s[i];
        if is_ascii_upper(c) {
            assert((c as u32) + 32 <= 'z' as u32);
        }
    }
}

/// The capitalising scan of an ASCII text is ASCII.
proof fn lemma_scan_ascii(s: Seq<char>, n: int, cap: bool)
    requires
        0 <= n <= s.len(),
        all_ascii(s),
    ensures
        all_ascii(capitalize_scan(s, n, cap).0),
    decreases n,
{
    if n > 0 {
        lemma_scan_ascii(s, n - 1, cap);
    }
}

/// The scans with and without a leading capital differ at most in their first character,
/// which lower-cases to the same character, over a text with no ASCII capital.
proof fn lemma_scan_caps(l: Seq<char>, n: int)
    requires
        0 <= n <= l.len(),
        forall|i: int| 0 <= i < l.len() ==> !is_ascii_upper(#[trigger] l[i]),
    ensures
        ({
            let (a, ca) = capitalize_scan(l, n, false);
            let (b, cb) = capitalize_scan(l, n, true);
            &&& a.len() == b.len()
            &&& a.len() == 0 ==> cb
            &&& a.len() > 0 ==> {
                &&& ca == cb
                &&& a.drop_first() == b.drop_first()
                &&& (if is_ascii_upper(a[0]) { ascii_lower(a[0]) } else { a[0] }) == ascii_lower(b[0])
            }
        }),
    decreases n,
{
    if n > 0 {
        lemma_scan_caps(l, n - 1);
        let (a, ca) = capitalize_scan(l, n - 1, false);
        let (b, cb) = capitalize_scan(l, n - 1, true);
        let c = l[n - 1];
        assert(!is_ascii_upper(c));
        if !is_separator(c) && a.len() > 0 {
            let x = if ca { ascii_upper(c) } else { c };
            assert(a.push(x).drop_first() =~= a.drop_first().push(x));
            assert(b.push(x).drop_first() =~= b.drop_first().push(x));
        }
    }
}

/// For ASCII text, camelCase is PascalCase with its first character lower-cased.
pub proof fn lemma_camel_is_lower_first_pascal(s: Seq<char>)
    ensures
        spec_ascii_camel(s) == lower_first(spec_ascii_pascal(s)),
{
    let l = ascii_lowered(s);
    assert forall|i: int| 0 <= i < l.len() implies !is_ascii_upper(#[trigger] l[i]) by {
        assert(l[i] == ascii_lower(s[i]));
    }
    lemma_scan_caps(l, l.len() as int);
    let a = capitalize_scan(l, s.len() as int, false).0;
    let b = capitalize_scan(l, s.len() as int, true).0;
    if a.len() > 0 {
        if is_ascii_upper(a[0]) {
            assert(seq![ascii_lower(a[0])] + a.drop_first() =~= seq![ascii_lower(b[0])] + b.drop_first());
        } else {
            assert(a =~= seq![a[0]] + a.drop_first());
            assert(a =~= seq![ascii_lower(b[0])] + b.drop_first());
        }
    }
}

/// Converts a string to UPPER_CASE (SCREAMING_SNAKE_CASE).
///
/// A string made only of ASCII capitals, `_` and `-` just has its `-` turned into `_`.
pub fn to_upper_case(s: &str) -> (r: String)
    ensures
        r@ == spec_to_upper_case(s@),
        all_ascii(s@) ==> r@ == spec_ascii_upper_case(s@),
{
    let chars = chars_of(s);
    if all_upper_or(&chars, true) {
        return map_chars(s, '-', '_', false);
    }
    joined_case_exec(s, '_', true)
}

/// Converts a string to kebab-case.
pub fn to_kebab_case(s: &str) -> (r: String)
    ensures
        r@ == spec_to_kebab_case(s@),
        all_ascii(s@) ==> r@ == spec_ascii_kebab_case(s@),
{
    let chars = chars_of(s);
    if is_screaming_snake_exec(&chars) {
        return map_chars(s, '_', '-', true);
    }
    joined_case_exec(s, '-', false)
}

/// Converts a string to snake_case.
pub fn to_snake_case(s: &str) -> (r: String)
    ensures
        r@ == spec_to_snake_case(s@),
        all_ascii(s@) ==> r@ == spec_ascii_snake_case(s@),
{
    let chars = chars_of(s);
    if is_screaming_snake_exec(&chars) {
        let r = map_chars(s, '_', '_', true);
        assert(replace_char(s@, '_', '_') =~= s@);
        return r;
    }
    joined_case_exec(s, '_', false)
}

/// The capitalising scan over a character vector.
fn capitalize_scan_exec(chars: &Vec<char>, cap_first: bool) -> (out: Vec<char>)
    ensures
        out@ == capitalize_scan(chars@, chars@.len() as int, cap_first).0,
{
    let mut out: Vec<char> = Vec::new();
    let mut cap = cap_first;
    let mut i: usize = 0;
    while i < chars.len()
        invariant
            i <= chars.len(),
            (out@, cap) == capitalize_scan(chars@, i as int, cap_first),
        decreases chars.len() - i,
    {
        let c = chars[i];
        if c == '-' || c == '_' || c == ' ' {
            cap = true;
        } else if cap {
            out.push(to_ascii_upper(c));
            cap = false;
        } else {
            out.push(c);
        }
        i = i + 1;
    }
    out
}

/// Converts a string to camelCase.
pub fn to_camel_case(s: &str) -> (r: String)
    ensures
        r@ == spec_to_camel_case(s@),
        all_ascii(s@) ==> r@ == spec_ascii_camel(s@),
{
    let lower = lowercase(s);
    let lower_chars = chars_of(lower.as_str());
    let out = capitalize_scan_exec(&lower_chars, false);
    proof {
        if all_ascii(s@) {
            lemma_lowered_ascii(s@);
            lemma_scan_ascii(lower_chars@, lower_chars@.len() as int, false);
        }
    }
    if out.len() > 0 && is_uppercase(out[0]) {
        let mut first = char_lowercase(out[0]);
        let mut i: usize = 1;
        let ghost head = first@;
        while i < out.len()
            invariant
                1 <= i <= out.len(),
                first@ == head + out@.subrange(1, i as int),
            decreases out.len() - i,
        {
            first.push(out[i]);
            i = i + 1;
            assert(first@ =~= head + out@.subrange(1, i as int));
        }
        assert(out@.subrange(1, out@.len() as int) =~= out@.drop_first());
        return string_of(&first);
    }
    string_of(&out)
}

/// Converts a string to PascalCase.
pub fn to_pascal_case(s: &str) -> (r: String)
    ensures
        r@ == spec_to_pascal_case(s@),
        all_ascii(s@) ==> r@ == spec_ascii_pascal(s@),
{
    let lower = lowercase(s);
    let lower_chars = chars_of(lower.as_str());
    let out = capitalize_scan_exec(&lower_chars, true);
    string_of(&out)
}

} // verus!
