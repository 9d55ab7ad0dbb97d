//! Links Notation: indented `key value` lines forming nested objects, with `( ... )` list
//! items and `#` comments.

use vstd::prelude::*;
use crate::text::{all_ascii, ascii_lower};
use crate::lino_args::case::ascii_lowered;
use crate::numparse::{is_float_text, is_float_text_exec};
use crate::numparse::decimal_text as nat_text;
use crate::text::{
    unicode_uppercase, chars_eq, chars_of, find_char, find_char_exec, find_pair, find_pair_exec, is_whitespace,
    is_whitespace_exec, lines, lowercase, slice_vec, split_lines, string_of, trim, trim_range,
    trim_start, unicode_lowercase,
};

verus! {

/// A parsed Links Notation value.
#[derive(Debug, PartialEq)]
pub enum LinoValue {
    /// A simple string value.
    String(String),
    /// A list of values (from parentheses syntax).
    List(Vec<LinoNode>),
    /// A nested object: keys with their values, each key once, in first-insertion order.
    Object(Vec<(String, LinoValue)>),
    /// A numeric value, kept as the literal text (which `str::parse::<f64>` accepts).
    Number(String),
    /// A boolean value.
    Bool(bool),
    /// Null/empty value.
    Null,
}

/// A node in the Links Notation structure.
#[derive(Debug, PartialEq)]
pub struct LinoNode {
    /// The key/name of this node (empty for list items).
    pub key: String,
    /// The value of this node.
    pub value: LinoValue,
}

/// Error type for Links Notation parsing.
#[derive(Debug, Clone)]
pub struct LinoParseError {
    /// Line number where the error occurred.
    pub line: usize,
    /// Description of the error.
    pub message: String,
}

/// The mathematical form of a Links Notation value; objects and lists are sequences of
/// (key, value) pairs.
pub enum LinoView {
    Str(Seq<char>),
    List(Seq<(Seq<char>, LinoView)>),
    Object(Seq<(Seq<char>, LinoView)>),
    Number(Seq<char>),
    Bool(bool),
    Null,
}

pub open spec fn lv(v: LinoValue) -> LinoView
    decreases v,
{
    match v {
        LinoValue::String(s) => LinoView::Str(s@),
        LinoValue::List(ns) => LinoView::List(lv_nodes(ns@)),
        LinoValue::Object(es) => LinoView::Object(lv_entries(es@)),
        LinoValue::Number(t) => LinoView::Number(t@),
        LinoValue::Bool(b) => LinoView::Bool(b),
        LinoValue::Null => LinoView::Null,
    }
}

pub open spec fn lv_entries(s: Seq<(String, LinoValue)>) -> Seq<(Seq<char>, LinoView)>
    decreases s,
{
    if s.len() == 0 {
        seq![]
    } else {
        lv_entries(s.subrange(0, s.len() - 1)).push((s[s.len() - 1].0@, lv(s[s.len() - 1].1)))
    }
}

pub open spec fn lv_nodes(s: Seq<LinoNode>) -> Seq<(Seq<char>, LinoView)>
    decreases s,
{
    if s.len() == 0 {
        seq![]
    } else {
        lv_nodes(s.subrange(0, s.len() - 1)).push((s[s.len() - 1].key@, lv(s[s.len() - 1].value)))
    }
}

proof fn lemma_lv_entries(s: Seq<(String, LinoValue)>)
    ensures
        lv_entries(s).len() == s.len(),
        forall|i: int| 0 <= i < s.len() ==> #[trigger] lv_entries(s)[i] == (s[i].0@, lv(s[i].1)),
    decreases s.len(),
{
    if s.len() > 0 {
        lemma_lv_entries(s.subrange(0, s.len() - 1));
    }
}

proof fn lemma_lv_nodes(s: Seq<LinoNode>)
    ensures
        lv_nodes(s).len() == s.len(),
        forall|i: int| 0 <= i < s.len() ==> #[trigger] lv_nodes(s)[i] == (s[i].key@, lv(s[i].value)),
    decreases s.len(),
{
    if s.len() > 0 {
        lemma_lv_nodes(s.subrange(0, s.len() - 1));
    }
}

/// Index of the first pair whose key is `k`.
pub open spec fn index_of_key<V>(es: Seq<(Seq<char>, V)>, k: Seq<char>, from: int) -> Option<int>
    decreases es.len() - from,
{
    if from < 0 || from >= es.len() {
        None
    } else if es[from].0 == k {
        Some(from)
    } else {
        index_of_key(es, k, from + 1)
    }
}

/// Map insertion on a pair sequence: the value of an existing key is replaced in place,
/// a new key is appended.
pub open spec fn obj_insert(es: Seq<(Seq<char>, LinoView)>, k: Seq<char>, v: LinoView) -> Seq<
    (Seq<char>, LinoView),
> {
    match index_of_key(es, k, 0) {
        Some(i) => es.update(i, (k, v)),
        None => es.push((k, v)),
    }
}

proof fn lemma_index_of_key_none(es: Seq<(Seq<char>, LinoView)>, k: Seq<char>, from: int)
    requires
        0 <= from <= es.len(),
        forall|j: int| from <= j < es.len() ==> es[j].0 != k,
    ensures
        index_of_key(es, k, from) is None,
    decreases es.len() - from,
{
    if from < es.len() {
        lemma_index_of_key_none(es, k, from + 1);
    }
}

proof fn lemma_index_of_key_found(es: Seq<(Seq<char>, LinoView)>, k: Seq<char>, from: int, i: int)
    requires
        0 <= from <= i < es.len(),
        forall|j: int| from <= j < i ==> es[j].0 != k,
        es[i].0 == k,
    ensures
        index_of_key(es, k, from) == Some(i),
    decreases i - from,
{
    if from < i {
        lemma_index_of_key_found(es, k, from + 1, i);
    }
}

/// Inserts into an object's pair vector.
fn insert_entry(obj: &mut Vec<(String, LinoValue)>, key: String, value: LinoValue)
    ensures
        lv_entries(final(obj)@) == obj_insert(lv_entries(old(obj)@), key@, lv(value)),
{
    proof {
        lemma_lv_entries(obj@);
    }
    let ghost ev = lv_entries(obj@);
    let mut i: usize = 0;
    while i < obj.len()
        invariant
            i <= obj.len(),
            obj@ == old(obj)@,
            ev == lv_entries(obj@),
            ev.len() == obj@.len(),
            forall|j: int| 0 <= j < obj@.len() ==> #[trigger] ev[j] == (obj@[j].0@, lv(obj@[j].1)),
            forall|j: int| 0 <= j < i ==> ev[j].0 != key@,
        decreases obj.len() - i,
    {
        if chars_eq(obj[i].0.as_str(), key.as_str()) {
            proof {
                lemma_index_of_key_found(ev, key@, 0, i as int);
            }
            let ghost kv = key@;
            let ghost vv = lv(value);
            obj.set(i, (key, value));
            proof {
                lemma_lv_entries(obj@);
                assert(lv_entries(obj@) =~= ev.update(i as int, (kv, vv)));
            }
            return;
        }
        i = i + 1;
    }
    proof {
        lemma_index_of_key_none(ev, key@, 0);
    }
    let ghost kv = key@;
    let ghost vv = lv(value);
    obj.push((key, value));
    proof {
        lemma_lv_entries(obj@);
        assert(lv_entries(obj@) =~= ev.push((kv, vv)));
    }
}

/// A non-blank, non-comment line: its indentation in bytes, its trimmed text, and its
/// 1-based number in the source.
pub struct PLine {
    pub indent: int,
    pub content: Seq<char>,
    pub line_num: int,
}

/// UTF-8 width of a character.
pub open spec fn utf8_width(c: char) -> int {
    let u = c as u32;
    if u < 0x80 {
        1
    } else if u < 0x800 {
        2
    } else if u < 0x10000 {
        3
    } else {
        4
    }
}

/// UTF-8 length of a character sequence.
pub open spec fn utf8_len(s: Seq<char>) -> int
    decreases s.len(),
{
    if s.len() == 0 {
        0
    } else {
        utf8_len(s.drop_last()) + utf8_width(s.last())
    }
}

/// Indentation of a line: the UTF-8 length of its leading whitespace.
pub open spec fn indent_of(line: Seq<char>) -> int {
    utf8_len(line.take(line.len() - trim_start(line).len()))
}

/// The lines that carry content, among the first `n` lines.
pub open spec fn plines_prefix(ls: Seq<Seq<char>>, n: int) -> Seq<PLine>
    decreases n,
{
    if n <= 0 {
        seq![]
    } else {
        let prev = plines_prefix(ls, n - 1);
        let t = trim(ls[n - 1]);
        if t.len() == 0 || t[0] == '#' {
            prev
        } else {
            prev.push(PLine { indent: indent_of(ls[n - 1]), content: t, line_num: n })
        }
    }
}

/// The content lines of a text.
pub open spec fn spec_parse_lines(content: Seq<char>) -> Seq<PLine> {
    plines_prefix(lines(content), lines(content).len() as int)
}

/// A line of content with its indentation (in bytes) and 1-based line number.
pub struct ParsedLine {
    pub indent: usize,
    pub content: Vec<char>,
    pub line_num: usize,
}

pub open spec fn pline_view(p: ParsedLine) -> PLine {
    PLine { indent: p.indent as int, content: p.content@, line_num: p.line_num as int }
}

proof fn lemma_trim_start_count(s: Seq<char>, k: int)
    requires
        0 <= k <= s.len(),
        forall|j: int| 0 <= j < k ==> is_whitespace(s[j]),
        k == s.len() || !is_whitespace(s[k]),
    ensures
        s.len() - trim_start(s).len() == k,
    decreases k,
{
    if k > 0 {
        lemma_trim_start_count(s.drop_first(), k - 1);
    }
}

/// Indentation of a line in bytes.
fn indent_exec(line: &Vec<char>) -> (r: usize)
    requires
        line.len() <= usize::MAX / 8,
    ensures
        r == indent_of(line@),
        r <= 4 * line.len(),
{
    let mut k: usize = 0;
    let mut w: usize = 0;
    while k < line.len() && is_whitespace_exec(line[k])
        invariant
            k <= line.len(),
            line.len() <= usize::MAX / 8,
            forall|j: int| 0 <= j < k ==> is_whitespace(line@[j]),
            w == utf8_len(line@.take(k as int)),
            w <= 4 * k,
        decreases line.len() - k,
    {
        let u: u32 = line[k] as u32;
        let width: usize = if u < 0x80 {
            1
        } else if u < 0x800 {
            2
        } else if u < 0x10000 {
            3
        } else {
            4
        };
        assert(line@.take(k + 1).drop_last() =~= line@.take(k as int));
        w = w + width;
        k = k + 1;
    }
    proof {
        lemma_trim_start_count(line@, k as int);
    }
    w
}

/// Splits text into its content lines.
fn parse_lines(content: &str) -> (r: Vec<ParsedLine>)
    requires
        content@.len() <= usize::MAX / 8,
    ensures
        r@.map_values(|p: ParsedLine| pline_view(p)) == spec_parse_lines(content@),
        forall|i: int| 0 <= i < r@.len() ==> (#[trigger] r@[i]).indent <= usize::MAX / 2,
{
    let ls = split_lines(content);
    let ghost lv_ = ls@.map_values(|l: Vec<char>| l@);
    proof {
        lemma_lines_short(content@);
    }
    let mut out: Vec<ParsedLine> = Vec::new();
    let mut n: usize = 0;
    while n < ls.len()
        invariant
            n <= ls.len(),
            lv_ == ls@.map_values(|l: Vec<char>| l@),
            lv_ == lines(content@),
            forall|i: int| 0 <= i < lv_.len() ==> (#[trigger] lv_[i]).len() <= content@.len(),
            content@.len() <= usize::MAX / 8,
            out@.map_values(|p: ParsedLine| pline_view(p)) == plines_prefix(lv_, n as int),
            forall|i: int| 0 <= i < out@.len() ==> (#[trigger] out@[i]).indent <= usize::MAX / 2,
        decreases ls.len() - n,
    {
        assert(lv_[n as int] == ls@[n as int]@);
        let line = &ls[n];
        let t = trim_range(line, 0, line.len());
        assert(line@.subrange(0, line@.len() as int) =~= line@);
        if !(t.len() == 0 || t[0] == '#') {
            let indent = indent_exec(line);
            let ghost before = out@.map_values(|p: ParsedLine| pline_view(p));
            proof {
                lemma_trim_len(line@);
            }
            out.push(ParsedLine { indent, content: t, line_num: n + 1 });
            assert(out@.map_values(|p: ParsedLine| pline_view(p)) =~= before.push(
                PLine { indent: indent_of(line@), content: trim(line@), line_num: n + 1 },
            ));
        }
        n = n + 1;
    }
    out
}

proof fn lemma_trim_len(s: Seq<char>)
    ensures
        trim(s).len() <= s.len(),
{
    lemma_trim_start_len(s);
    lemma_trim_end_len(trim_start(s));
}

proof fn lemma_trim_start_len(s: Seq<char>)
    ensures
        trim_start(s).len() <= s.len(),
    decreases s.len(),
{
    if s.len() > 0 && is_whitespace(s[0]) {
        lemma_trim_start_len(s.drop_first());
    }
}

proof fn lemma_trim_end_len(s: Seq<char>)
    ensures
        crate::text::trim_end(s).len() <= s.len(),
    decreases s.len(),
{
    if s.len() > 0 && is_whitespace(s.last()) {
        lemma_trim_end_len(s.drop_last());
    }
}

proof fn lemma_lines_short(s: Seq<char>)
    ensures
        forall|i: int| 0 <= i < lines(s).len() ==> (#[trigger] lines(s)[i]).len() <= s.len(),
{
    lemma_lines_state_short(s, s.len() as int);
    let (done, cur) = crate::text::lines_state(s, s.len() as int);
}

proof fn lemma_lines_state_short(s: Seq<char>, n: int)
    requires
        0 <= n <= s.len(),
    ensures
        ({
            let (done, cur) = crate::text::lines_state(s, n);
            &&& cur.len() <= n
            &&& forall|i: int| 0 <= i < done.len() ==> (#[trigger] done[i]).len() <= n
        }),
    decreases n,
{
    if n > 0 {
        lemma_lines_state_short(s, n - 1);
    }
}

/// `key.replace(' ', "_")` after dropping surrounding double quotes (when the key is longer
/// than the two quotes).
pub open spec fn spec_normalize_key(key: Seq<char>) -> Seq<char> {
    let k = if key.len() > 2 && key[0] == '"' && key.last() == '"' {
        key.subrange(1, key.len() - 1)
    } else {
        key
    };
    k.map_values(|c: char| if c == ' ' { '_' } else { c })
}

fn normalize_key(key: &Vec<char>) -> (r: String)
    ensures
        r@ == spec_normalize_key(key@),
{
    let n = key.len();
    let k = if n > 2 && key[0] == '"' && key[n - 1] == '"' {
        slice_vec(key, 1, n - 1)
    } else {
        slice_vec(key, 0, n)
    };
    assert(key@.subrange(0, n as int) =~= key@);
    let mut out: Vec<char> = Vec::new();
    let mut i: usize = 0;
    while i < k.len()
        invariant
            i <= k.len(),
            out@ == k@.take(i as int).map_values(|c: char| if c == ' ' { '_' } else { c }),
        decreases k.len() - i,
    {
        let c = k[i];
        out.push(if c == ' ' { '_' } else { c });
        i = i + 1;
        assert(k@.take(i as int).map_values(|c: char| if c == ' ' { '_' } else { c }) =~= k@.take(
            (i - 1) as int,
        ).map_values(|c: char| if c == ' ' { '_' } else { c }).push(
            if c == ' ' { '_' } else { c },
        ));
    }
    assert(k@.take(k.len() as int) =~= k@);
    string_of(&out)
}

/// Splits a (trimmed) line into its key and optional value:
/// a `"quoted key"` followed by the rest (an optional `: ` is dropped), or `key: value`, or
/// `key value` (a `:` ending the key is dropped), or `key:`, or just `key`.
pub open spec fn spec_key_value(line: Seq<char>) -> (Seq<char>, Option<Seq<char>>) {
    let quoted: Option<(Seq<char>, Option<Seq<char>>)> = if line.len() > 0 && line[0] == '"' {
        match find_char(line.drop_first(), '"', 0) {
            Some(q) => {
                let key = line.subrange(1, q + 1);
                let rest = trim(line.subrange(q + 2, line.len() as int));
                if rest.len() == 0 {
                    Some((spec_normalize_key(key), None))
                } else if rest.len() >= 2 && rest[0] == ':' && rest[1] == ' ' {
                    Some((spec_normalize_key(key), Some(trim(rest.subrange(2, rest.len() as int)))))
                } else {
                    Some((spec_normalize_key(key), Some(rest)))
                }
            },
            None => None,
        }
    } else {
        None
    };
    match quoted {
        Some(r) => r,
        None => match find_pair(line, ':', ' ', 0) {
            Some(p) => (
                spec_normalize_key(trim(line.subrange(0, p))),
                Some(trim(line.subrange(p + 2, line.len() as int))),
            ),
            None => match find_char(line, ' ', 0) {
                Some(p) => {
                    let key = trim(line.subrange(0, p));
                    let value = trim(line.subrange(p + 1, line.len() as int));
                    if key.len() > 0 && key.last() == ':' {
                        if value.len() == 0 {
                            (spec_normalize_key(key.drop_last()), None)
                        } else {
                            (spec_normalize_key(key.drop_last()), Some(value))
                        }
                    } else {
                        (spec_normalize_key(key), Some(value))
                    }
                },
                None => if line.len() > 0 && line.last() == ':' {
                    (spec_normalize_key(line.drop_last()), None)
                } else {
                    (spec_normalize_key(line), None)
                },
            },
        },
    }
}

pub open spec fn opt_chars(o: Option<Vec<char>>) -> Option<Seq<char>> {
    match o {
        Some(v) => Some(v@),
        None => None,
    }
}

fn parse_key_value(line: &Vec<char>) -> (r: (String, Option<Vec<char>>))
    ensures
        (r.0@, opt_chars(r.1)) == spec_key_value(line@),
{
    let n = line.len();
    if n > 0 && line[0] == '"' {
        let tail = slice_vec(line, 1, n);
        assert(tail@ =~= line@.drop_first());
        match find_char_exec(&tail, '"') {
            Some(q) => {
                let key = slice_vec(line, 1, q + 1);
                let rest = trim_range(line, q + 2, n);
                if rest.len() == 0 {
                    return (normalize_key(&key), None);
                } else if rest.len() >= 2 && rest[0] == ':' && rest[1] == ' ' {
                    let v = trim_range(&rest, 2, rest.len());
                    return (normalize_key(&key), Some(v));
                } else {
                    return (normalize_key(&key), Some(rest));
                }
            },
            None => {},
        }
    }
    match find_pair_exec(line, ':', ' ') {
        Some(p) => {
            let k = trim_range(line, 0, p);
            let v = trim_range(line, p + 2, n);
            return (normalize_key(&k), Some(v));
        },
        None => {},
    }
    match find_char_exec(line, ' ') {
        Some(p) => {
            let key = trim_range(line, 0, p);
            let value = trim_range(line, p + 1, n);
            let kn = key.len();
            if kn > 0 && key[kn - 1] == ':' {
                let stripped = slice_vec(&key, 0, kn - 1);
                assert(stripped@ =~= key@.drop_last());
                if value.len() == 0 {
                    return (normalize_key(&stripped), None);
                } else {
                    return (normalize_key(&stripped), Some(value));
                }
            }
            return (normalize_key(&key), Some(value));
        },
        None => {},
    }
    if n > 0 && line[n - 1] == ':' {
        let stripped = slice_vec(line, 0, n - 1);
        assert(stripped@ =~= line@.drop_last());
        return (normalize_key(&stripped), None);
    }
    (normalize_key(line), None)
}

/// The value a text denotes: quoted text without its quotes; `true`/`yes`/`on` and
/// `false`/`no`/`off` (any case) as booleans; `null`/`nil`/`none` as null; text accepted as
/// a float as a number; anything else as a string. Surrounding whitespace is ignored.
pub open spec fn spec_value(s: Seq<char>) -> LinoView {
    let t = trim(s);
    if t.len() >= 2 && ((t[0] == '"' && t.last() == '"') || (t[0] == '\'' && t.last() == '\'')) {
        LinoView::Str(t.subrange(1, t.len() - 1))
    } else {
        let l = unicode_lowercase(t);
        if l == "true"@ || l == "yes"@ || l == "on"@ {
            LinoView::Bool(true)
        } else if l == "false"@ || l == "no"@ || l == "off"@ {
            LinoView::Bool(false)
        } else if l == "null"@ || l == "nil"@ || l == "none"@ {
            LinoView::Null
        } else if is_float_text(t) {
            LinoView::Number(t)
        } else {
            LinoView::Str(t)
        }
    }
}

fn parse_value_string(s: &Vec<char>) -> (r: LinoValue)
    ensures
        lv(r) == spec_value(s@),
        all_ascii(trim(s@)) ==> {
            let w = ascii_lowered(trim(s@));
            &&& (w == "true"@ || w == "yes"@ || w == "on"@) ==> lv(r) == LinoView::Bool(true)
            &&& (w == "false"@ || w == "no"@ || w == "off"@) ==> lv(r) == LinoView::Bool(false)
            &&& (w == "null"@ || w == "nil"@ || w == "none"@) ==> lv(r) == LinoView::Null
        },
{
    proof {
        reveal_strlit("true");
        reveal_strlit("yes");
        reveal_strlit("on");
        reveal_strlit("false");
        reveal_strlit("no");
        reveal_strlit("off");
        reveal_strlit("null");
        reveal_strlit("nil");
        reveal_strlit("none");
    }
    let t = trim_range(s, 0, s.len());
    assert(s@.subrange(0, s@.len() as int) =~= s@);
    let ghost w = ascii_lowered(t@);
    let n = t.len();
    if n >= 2 && ((t[0] == '"' && t[n - 1] == '"') || (t[0] == '\'' && t[n - 1] == '\'')) {
        proof {
            if all_ascii(t@) {
                assert(w[0] == ascii_lower(t@[0]));
                assert(w[0] == t@[0]);
            }
        }
        let inner = slice_vec(&t, 1, n - 1);
        return LinoValue::String(string_of(&inner));
    }
    let ts = string_of(&t);
    let l = lowercase(ts.as_str());
    let l = l.as_str();
    proof {
        if all_ascii(t@) {
            assert(l@ =~= w);
        }
        let words = seq!["true"@, "yes"@, "on"@, "false"@, "no"@, "off"@, "null"@, "nil"@, "none"@];
        assert forall|i: int, j: int| 0 <= i < j < 9 implies words[i] != words[j] by {
            if words[i].len() == words[j].len() {
                assert(words[i][0] != words[j][0] || words[i][1] != words[j][1] || words[i][2] != words[j][2]);
            }
        }
    }
    if chars_eq(l, "true") || chars_eq(l, "yes") || chars_eq(l, "on") {
        LinoValue::Bool(true)
    } else if chars_eq(l, "false") || chars_eq(l, "no") || chars_eq(l, "off") {
        LinoValue::Bool(false)
    } else if chars_eq(l, "null") || chars_eq(l, "nil") || chars_eq(l, "none") {
        LinoValue::Null
    } else if is_float_text_exec(&t) {
        LinoValue::Number(ts)
    } else {
        LinoValue::String(ts)
    }
}

/// The node for a single-line `(key value)` tuple.
pub open spec fn spec_tuple(content: Seq<char>) -> (Seq<char>, LinoView) {
    let t = trim(content);
    if t.len() == 0 {
        (Seq::empty(), LinoView::Null)
    } else {
        let (k, v) = spec_key_value(t);
        (k, match v {
            Some(x) => spec_value(x),
            None => LinoView::Null,
        })
    }
}

fn parse_tuple_content(content: &Vec<char>) -> (r: LinoNode)
    ensures
        (r.key@, lv(r.value)) == spec_tuple(content@),
{
    let t = trim_range(content, 0, content.len());
    assert(content@.subrange(0, content@.len() as int) =~= content@);
    if t.len() == 0 {
        return LinoNode { key: String::new(), value: LinoValue::Null };
    }
    let (k, v) = parse_key_value(&t);
    let value = match v {
        Some(x) => parse_value_string(&x),
        None => LinoValue::Null,
    };
    LinoNode { key: k, value }
}

/// Index just past the next line that is a lone `)` at or after `j` (or the end).
pub open spec fn skip_to_close(ls: Seq<PLine>, j: int) -> int
    decreases ls.len() - j,
{
    if j < 0 || j >= ls.len() {
        j
    } else if ls[j].content == ")"@ {
        j + 1
    } else {
        skip_to_close(ls, j + 1)
    }
}

/// The value a block ends with: a list when a list item was seen, else an object.
pub open spec fn block_finish(
    i: int,
    obj: Seq<(Seq<char>, LinoView)>,
    items: Seq<(Seq<char>, LinoView)>,
    is_list: bool,
) -> (LinoView, int) {
    if is_list {
        (LinoView::List(items), i)
    } else {
        (LinoView::Object(obj), i)
    }
}

/// The block of lines starting at `start` whose entries sit at indentation `base`, and the
/// index of the first line after it.
pub open spec fn spec_block(ls: Seq<PLine>, start: int, base: int) -> (LinoView, int)
    decreases ls.len() - start, 1int,
{
    block_loop(ls, start, base, start, seq![], seq![], false)
}

/// Reading a block from line `i` on, with the entries, list items and list flag gathered so
/// far.
pub open spec fn block_loop(
    ls: Seq<PLine>,
    start: int,
    base: int,
    i: int,
    obj: Seq<(Seq<char>, LinoView)>,
    items: Seq<(Seq<char>, LinoView)>,
    is_list: bool,
) -> (LinoView, int)
    decreases ls.len() - i, 0int,
{
    if i >= ls.len() || i < start {
        block_finish(i, obj, items, is_list)
    } else {
        let line = ls[i];
        let c = line.content;
        if line.indent < base && i > start {
            block_finish(i, obj, items, is_list)
        } else if line.indent > base && i == start {
            block_loop(ls, start, base, i + 1, obj, items, is_list)
        } else if line.indent == base || (i == start && line.indent >= base) {
            if c.len() > 0 && c[0] == '(' {
                if c.last() == ')' && c.len() >= 3 {
                    block_loop(
                        ls,
                        start,
                        base,
                        i + 1,
                        obj,
                        items.push(spec_tuple(c.subrange(1, c.len() - 1))),
                        true,
                    )
                } else if c == "("@ {
                    let child_indent = if i + 1 < ls.len() {
                        ls[i + 1].indent
                    } else {
                        line.indent + 2
                    };
                    let (child, next) = spec_block(ls, i + 1, child_indent);
                    let j = skip_to_close(ls, if next > i { next } else { i + 1 });
                    block_loop(
                        ls,
                        start,
                        base,
                        if i < j <= ls.len() { j } else { i + 1 },
                        obj,
                        items.push((Seq::empty(), child)),
                        true,
                    )
                } else {
                    block_loop(ls, start, base, i + 1, obj, items, true)
                }
            } else if c == ")"@ {
                block_finish(i + 1, obj, items, is_list)
            } else {
                let (key, vs) = spec_key_value(c);
                if i + 1 < ls.len() && ls[i + 1].indent > line.indent {
                    let (child, next) = spec_block(ls, i + 1, ls[i + 1].indent);
                    let val = match vs {
                        Some(v) => match child {
                            LinoView::Object(o) => LinoView::Object(
                                obj_insert(o, "_value"@, spec_value(v)),
                            ),
                            _ => child,
                        },
                        None => child,
                    };
                    block_loop(
                        ls,
                        start,
                        base,
                        if i < next <= ls.len() { next } else { i + 1 },
                        obj_insert(obj, key, val),
                        items,
                        is_list,
                    )
                } else {
                    let val = match vs {
                        Some(v) => spec_value(v),
                        None => LinoView::Null,
                    };
                    block_loop(ls, start, base, i + 1, obj_insert(obj, key, val), items, is_list)
                }
            }
        } else {
            block_loop(ls, start, base, i + 1, obj, items, is_list)
        }
    }
}

proof fn lemma_skip_to_close_bounds(ls: Seq<PLine>, j: int)
    requires
        0 <= j <= ls.len(),
    ensures
        j <= skip_to_close(ls, j) <= ls.len(),
    decreases ls.len() - j,
{
    if j < ls.len() && ls[j].content != ")"@ {
        lemma_skip_to_close_bounds(ls, j + 1);
    }
}

pub open spec fn plines_view(ls: Seq<ParsedLine>) -> Seq<PLine> {
    ls.map_values(|p: ParsedLine| pline_view(p))
}

fn push_node(items: &mut Vec<LinoNode>, node: LinoNode)
    ensures
        lv_nodes(final(items)@) == lv_nodes(old(items)@).push((node.key@, lv(node.value))),
{
    proof {
        lemma_lv_nodes(items@);
    }
    let ghost before = lv_nodes(items@);
    let ghost nv = (node.key@, lv(node.value));
    items.push(node);
    proof {
        lemma_lv_nodes(items@);
        assert(lv_nodes(items@) =~= before.push(nv));
    }
}

/// Parses the block of lines starting at `start` at indentation `base`; returns its value
/// and the index of the first line after it.
fn parse_block(lines: &Vec<ParsedLine>, start: usize, base: usize) -> (r: (LinoValue, usize))
    requires
        start <= lines.len(),
        forall|i: int| 0 <= i < lines@.len() ==> (#[trigger] lines@[i]).indent <= usize::MAX / 2,
    ensures
        (lv(r.0), r.1 as int) == spec_block(plines_view(lines@), start as int, base as int),
        start < lines.len() ==> start < r.1,
        r.1 <= lines.len(),
    decreases lines.len() - start,
{
    let ghost lsv = plines_view(lines@);
    let mut obj: Vec<(String, LinoValue)> = Vec::new();
    let mut items: Vec<LinoNode> = Vec::new();
    let mut is_list = false;
    let mut i: usize = start;
    while i < lines.len()
        invariant
            start <= i <= lines.len(),
            lsv == plines_view(lines@),
            lsv.len() == lines@.len(),
            forall|k: int| 0 <= k < lines@.len() ==> (#[trigger] lines@[k]).indent <= usize::MAX / 2,
            spec_block(lsv, start as int, base as int) == block_loop(
                lsv,
                start as int,
                base as int,
                i as int,
                lv_entries(obj@),
                lv_nodes(items@),
                is_list,
            ),
        decreases lines.len() - i,
    {
        let line = &lines[i];
        assert(lsv[i as int] == pline_view(*line));
        let ghost ov = lv_entries(obj@);
        let ghost iv = lv_nodes(items@);
        if line.indent < base && i > start {
            if is_list {
                return (LinoValue::List(items), i);
            } else {
                return (LinoValue::Object(obj), i);
            }
        }
        if line.indent > base && i == start {
            i = i + 1;
        } else if line.indent == base || (i == start && line.indent >= base) {
            let current_indent = line.indent;
            let c = &line.content;
            let n = c.len();
            if n > 0 && c[0] == '(' {
                is_list = true;
                if c[n - 1] == ')' && n >= 3 {
                    let inner = slice_vec(c, 1, n - 1);
                    let node = parse_tuple_content(&inner);
                    push_node(&mut items, node);
                    i = i + 1;
                } else if n == 1 {
                    assert(c@ =~= "("@) by {
                        reveal_strlit("(");
                    }
                    let child_indent = if i + 1 < lines.len() {
                        lines[i + 1].indent
                    } else {
                        current_indent + 2
                    };
                    let (child_value, next_i) = parse_block(lines, i + 1, child_indent);
                    push_node(&mut items, LinoNode { key: String::new(), value: child_value });
                    let ghost j0 = next_i as int;
                    i = next_i;
                    proof {
                        lemma_skip_to_close_bounds(lsv, j0);
                    }
                    while i < lines.len() && !chars_eq_vec_str(&lines[i].content, ")")
                        invariant
                            j0 <= i <= lines.len(),
                            lsv == plines_view(lines@),
                            lsv.len() == lines@.len(),
                            skip_to_close(lsv, j0) == skip_to_close(lsv, i as int),
                        decreases lines.len() - i,
                    {
                        assert(lsv[i as int] == pline_view(lines@[i as int]));
                        i = i + 1;
                    }
                    if i < lines.len() && chars_eq_vec_str(&lines[i].content, ")") {
                        assert(lsv[i as int] == pline_view(lines@[i as int]));
                        i = i + 1;
                    } else if i < lines.len() {
                        assert(lsv[i as int] == pline_view(lines@[i as int]));
                    }
                } else {
                    proof {
                        if c@ == "("@ {
                            reveal_strlit("(");
                        }
                    }
                    i = i + 1;
                }
            } else if chars_eq_vec_str(c, ")") {
                i = i + 1;
                if is_list {
                    return (LinoValue::List(items), i);
                } else {
                    return (LinoValue::Object(obj), i);
                }
            } else {
                let (key, value_str) = parse_key_value(c);
                let has_children = i + 1 < lines.len() && lines[i + 1].indent > current_indent;
                if has_children {
                    assert(lsv[i + 1] == pline_view(lines@[i + 1]));
                    let child_indent = lines[i + 1].indent;
                    let (child_value, next_i) = parse_block(lines, i + 1, child_indent);
                    let val = match value_str {
                        Some(v) => {
                            match child_value {
                                LinoValue::Object(mut o) => {
                                    let pv = parse_value_string(&v);
                                    let vk = String::from_str("_value");
                                    proof {
                                        reveal_strlit("_value");
                                    }
                                    insert_entry(&mut o, vk, pv);
                                    LinoValue::Object(o)
                                },
                                other => other,
                            }
                        },
                        None => child_value,
                    };
                    insert_entry(&mut obj, key, val);
                    i = next_i;
                } else {
                    if i + 1 < lines.len() {
                        assert(lsv[i + 1] == pline_view(lines@[i + 1]));
                    }
                    let val = match value_str {
                        Some(v) => parse_value_string(&v),
                        None => LinoValue::Null,
                    };
                    insert_entry(&mut obj, key, val);
                    i = i + 1;
                }
            }
        } else {
            i = i + 1;
        }
    }
    if is_list {
        (LinoValue::List(items), i)
    } else {
        (LinoValue::Object(obj), i)
    }
}

/// Whether a character vector spells out `s`.
fn chars_eq_vec_str(v: &Vec<char>, s: &str) -> (b: bool)
    ensures
        b == (v@ == s@),
{
    let t = string_of(v);
    chars_eq(t.as_str(), s)
}

/// The entries an object gets from list items: each item's key and value inserted in
/// order (a later item with the same key replaces the earlier one's value).
pub open spec fn items_object(items: Seq<(Seq<char>, LinoView)>) -> Seq<(Seq<char>, LinoView)>
    decreases items.len(),
{
    if items.len() == 0 {
        seq![]
    } else {
        obj_insert(items_object(items.drop_last()), items.last().0, items.last().1)
    }
}

/// The entries of a top-level block as an object: an object block's own entries, a list
/// block's items as entries (a block is always one of these two).
pub open spec fn block_entries(v: LinoView) -> Seq<(Seq<char>, LinoView)> {
    match v {
        LinoView::Object(es) => es,
        LinoView::List(items) => items_object(items),
        _ => seq![],
    }
}

/// The value a whole Links Notation text parses to: always an object, holding the entries
/// of the block of its content lines at indentation 0 (the items of a top-level list become
/// entries), and empty when it has no content line.
pub open spec fn spec_parse_lino(content: Seq<char>) -> LinoView {
    let ls = spec_parse_lines(content);
    if ls.len() == 0 {
        LinoView::Object(seq![])
    } else {
        LinoView::Object(block_entries(spec_block(ls, 0, 0).0))
    }
}

/// Inserts list items into an object, in order.
fn object_of_items(items: Vec<LinoNode>) -> (r: Vec<(String, LinoValue)>)
    ensures
        lv_entries(r@) == items_object(lv_nodes(items@)),
{
    let mut obj: Vec<(String, LinoValue)> = Vec::new();
    let ghost all = items@;
    let ghost iv = lv_nodes(items@);
    proof {
        lemma_lv_nodes(items@);
    }
    let mut rest = items;
    let n = rest.len();
    let mut i: usize = 0;
    assert(lv_entries(obj@) =~= items_object(iv.take(0)));
    assert(rest@ =~= all.subrange(0, n as int));
    while i < n
        invariant
            i <= n,
            n == all.len(),
            iv == lv_nodes(all),
            iv.len() == all.len(),
            forall|j: int| 0 <= j < all.len() ==> #[trigger] iv[j] == (all[j].key@, lv(all[j].value)),
            rest@ == all.subrange(i as int, n as int),
            lv_entries(obj@) == items_object(iv.take(i as int)),
        decreases n - i,
    {
        let node = rest.remove(0);
        assert(node == all[i as int]);
        assert(iv.take(i + 1).drop_last() =~= iv.take(i as int));
        assert(rest@ =~= all.subrange(i + 1, n as int));
        insert_entry(&mut obj, node.key, node.value);
        i = i + 1;
    }
    assert(iv.take(n as int) =~= iv);
    obj
}

/// Parses Links Notation content into a structured value: always an object (the items of a
/// top-level list become its entries). Parsing never fails.
pub fn parse_lino(content: &str) -> (r: Result<LinoValue, LinoParseError>)
    requires
        content@.len() <= usize::MAX / 8,
    ensures
        r matches Ok(LinoValue::Object(_)),
        lv(r->Ok_0) == spec_parse_lino(content@),
{
    let lines = parse_lines(content);
    if lines.len() == 0 {
        proof {
            assert(plines_view(lines@).len() == 0);
        }
        return Ok(LinoValue::Object(Vec::new()));
    }
    let (value, _) = parse_block(&lines, 0, 0);
    match value {
        LinoValue::Object(es) => Ok(LinoValue::Object(es)),
        LinoValue::List(items) => Ok(LinoValue::Object(object_of_items(items))),
        _ => Ok(LinoValue::Object(Vec::new())),
    }
}

/// Whether `c` separates the parts of a lookup path.
pub open spec fn is_path_sep(c: char) -> bool {
    c == '.' || c == '/'
}

/// The parts of a path split at every `.` and `/` (empty parts kept, as `str::split` does).
pub open spec fn split_path(p: Seq<char>) -> Seq<Seq<char>>
    decreases p.len(),
{
    if p.len() == 0 {
        seq![seq![]]
    } else {
        let prev = split_path(p.drop_last());
        if is_path_sep(p.last()) {
            prev.push(seq![])
        } else {
            prev.update(prev.len() - 1, prev.last().push(p.last()))
        }
    }
}

proof fn lemma_split_path_nonempty(p: Seq<char>)
    ensures
        split_path(p).len() >= 1,
    decreases p.len(),
{
    if p.len() > 0 {
        lemma_split_path_nonempty(p.drop_last());
    }
}

/// The value stored under key `k` among object entries.
pub open spec fn lookup(es: Seq<(Seq<char>, LinoView)>, k: Seq<char>) -> Option<LinoView> {
    match index_of_key(es, k, 0) {
        Some(i) => Some(es[i].1),
        None => None,
    }
}

/// Following path parts from `v` through nested objects.
pub open spec fn get_parts(v: LinoView, parts: Seq<Seq<char>>) -> Option<LinoView>
    decreases parts.len(),
{
    if parts.len() == 0 {
        Some(v)
    } else {
        match v {
            LinoView::Object(es) => match lookup(es, parts[0]) {
                Some(c) => get_parts(c, parts.drop_first()),
                None => None,
            },
            _ => None,
        }
    }
}

pub open spec fn opt_lv(o: Option<&LinoValue>) -> Option<LinoView> {
    match o {
        Some(v) => Some(lv(*v)),
        None => None,
    }
}

fn split_path_exec(path: &str) -> (r: Vec<Vec<char>>)
    ensures
        r@.map_values(|v: Vec<char>| v@) == split_path(path@),
{
    let cs = chars_of(path);
    let mut parts: Vec<Vec<char>> = Vec::new();
    let mut cur: Vec<char> = Vec::new();
    let mut i: usize = 0;
    while i < cs.len()
        invariant
            i <= cs.len(),
            cs@ == path@,
            parts@.map_values(|v: Vec<char>| v@).push(cur@) == split_path(cs@.take(i as int)),
        decreases cs.len() - i,
    {
        let c = cs[i];
        let ghost before = parts@.map_values(|v: Vec<char>| v@);
        assert(cs@.take(i + 1).drop_last() =~= cs@.take(i as int));
        if c == '.' || c == '/' {
            let done = cur;
            parts.push(done);
            cur = Vec::new();
            assert(parts@.map_values(|v: Vec<char>| v@).push(cur@) =~= before.push(done@).push(
                seq![],
            ));
        } else {
            cur.push(c);
            assert(parts@.map_values(|v: Vec<char>| v@).push(cur@) =~= split_path(
                cs@.take(i as int),
            ).update(before.len() as int, cur@));
        }
        i = i + 1;
    }
    assert(cs@.take(cs.len() as int) =~= cs@);
    let ghost before = parts@.map_values(|v: Vec<char>| v@);
    let last = cur;
    parts.push(last);
    assert(parts@.map_values(|v: Vec<char>| v@) =~= before.push(last@));
    parts
}

/// The value stored under `key` in an object's entries.
fn object_lookup<'a>(obj: &'a Vec<(String, LinoValue)>, key: &Vec<char>) -> (r: Option<
    &'a LinoValue,
>)
    ensures
        opt_lv(r) == lookup(lv_entries(obj@), key@),
{
    proof {
        lemma_lv_entries(obj@);
    }
    let ghost ev = lv_entries(obj@);
    let k = string_of(key);
    let mut i: usize = 0;
    while i < obj.len()
        invariant
            i <= obj.len(),
            k@ == key@,
            ev == lv_entries(obj@),
            ev.len() == obj@.len(),
            forall|j: int| 0 <= j < obj@.len() ==> #[trigger] ev[j] == (obj@[j].0@, lv(obj@[j].1)),
            forall|j: int| 0 <= j < i ==> ev[j].0 != key@,
        decreases obj.len() - i,
    {
        if chars_eq(obj[i].0.as_str(), k.as_str()) {
            proof {
                lemma_index_of_key_found(ev, key@, 0, i as int);
            }
            return Some(&obj[i].1);
        }
        i = i + 1;
    }
    proof {
        lemma_index_of_key_none(ev, key@, 0);
    }
    None
}

impl LinoValue {
    /// Gets a nested value by key path; the parts of the path are separated by `.` or `/`,
    /// and each names a key of an object.
    pub fn get(&self, path: &str) -> (r: Option<&LinoValue>)
        ensures
            opt_lv(r) == get_parts(lv(*self), split_path(path@)),
    {
        let parts = split_path_exec(path);
        let ghost pv = parts@.map_values(|v: Vec<char>| v@);
        let mut current: &LinoValue = self;
        let mut k: usize = 0;
        assert(pv.skip(0) =~= pv);
        while k < parts.len()
            invariant
                k <= parts.len(),
                pv == parts@.map_values(|v: Vec<char>| v@),
                pv == split_path(path@),
                get_parts(lv(*self), pv) == get_parts(lv(*current), pv.skip(k as int)),
            decreases parts.len() - k,
        {
            assert(pv.skip(k as int).drop_first() =~= pv.skip(k + 1));
            assert(pv.skip(k as int)[0] == parts@[k as int]@);
            match current {
                LinoValue::Object(obj) => {
                    match object_lookup(obj, &parts[k]) {
                        Some(c) => {
                            current = c;
                        },
                        None => {
                            return None;
                        },
                    }
                },
                _ => {
                    return None;
                },
            }
            k = k + 1;
        }
        assert(pv.skip(k as int).len() == 0);
        Some(current)
    }

    /// Returns the value as a string, if it is one.
    pub fn as_str(&self) -> (r: Option<&str>)
        ensures
            match lv(*self) {
                LinoView::Str(s) => r is Some && r->Some_0@ == s,
                _ => r is None,
            },
    {
        match self {
            LinoValue::String(s) => Some(s.as_str()),
            _ => None,
        }
    }

    /// Gets a string value by path.
    pub fn get_str(&self, path: &str) -> (r: Option<&str>)
        ensures
            match get_parts(lv(*self), split_path(path@)) {
                Some(LinoView::Str(s)) => r is Some && r->Some_0@ == s,
                _ => r is None,
            },
    {
        match self.get(path) {
            Some(v) => v.as_str(),
            None => None,
        }
    }
}

/// The boolean a value reads as: a boolean itself, or a string that is, in lower case, one
/// of `true`/`yes`/`on`/`1` or `false`/`no`/`off`/`0`.
pub open spec fn spec_as_bool(v: LinoView) -> Option<bool> {
    match v {
        LinoView::Bool(b) => Some(b),
        LinoView::Str(s) => {
            let l = unicode_lowercase(s);
            if l == "true"@ || l == "yes"@ || l == "on"@ || l == "1"@ {
                Some(true)
            } else if l == "false"@ || l == "no"@ || l == "off"@ || l == "0"@ {
                Some(false)
            } else {
                None
            }
        },
        _ => None,
    }
}

impl LinoValue {
    /// Returns the value as a bool.
    pub fn as_bool(&self) -> (r: Option<bool>)
        ensures
            r == spec_as_bool(lv(*self)),
    {
        match self {
            LinoValue::Bool(b) => Some(*b),
            LinoValue::String(s) => {
                let l = lowercase(s.as_str());
                let l = l.as_str();
                if chars_eq(l, "true") || chars_eq(l, "yes") || chars_eq(l, "on") || chars_eq(
                    l,
                    "1",
                ) {
                    Some(true)
                } else if chars_eq(l, "false") || chars_eq(l, "no") || chars_eq(l, "off")
                    || chars_eq(l, "0") {
                    Some(false)
                } else {
                    None
                }
            },
            _ => None,
        }
    }

    /// Gets a bool value by path.
    pub fn get_bool(&self, path: &str) -> (r: Option<bool>)
        ensures
            r == match get_parts(lv(*self), split_path(path@)) {
                Some(v) => spec_as_bool(v),
                None => None,
            },
    {
        match self.get(path) {
            Some(v) => v.as_bool(),
            None => None,
        }
    }

    /// Returns the value as an object (its entries), if it is one.
    pub fn as_object(&self) -> (r: Option<&Vec<(String, LinoValue)>>)
        ensures
            match lv(*self) {
                LinoView::Object(es) => r is Some && lv_entries(r->Some_0@) == es,
                _ => r is None,
            },
    {
        match self {
            LinoValue::Object(obj) => Some(obj),
            _ => None,
        }
    }

    /// Returns the value as a list, if it is one.
    pub fn as_list(&self) -> (r: Option<&[LinoNode]>)
        ensures
            match lv(*self) {
                LinoView::List(ns) => r is Some && lv_nodes(r->Some_0@) == ns,
                _ => r is None,
            },
    {
        match self {
            LinoValue::List(list) => Some(list.as_slice()),
            _ => None,
        }
    }

    /// The literal text of a number, if the value is one.
    pub fn as_number_text(&self) -> (r: Option<&str>)
        ensures
            match lv(*self) {
                LinoView::Number(t) => r is Some && r->Some_0@ == t,
                _ => r is None,
            },
    {
        match self {
            LinoValue::Number(t) => Some(t.as_str()),
            _ => None,
        }
    }
}

impl Default for LinoValue {
    fn default() -> (r: LinoValue)
        ensures
            r == LinoValue::Null,
    {
        LinoValue::Null
    }
}

impl LinoNode {
    /// Creates a new node with a key and value.
    pub fn new(key: &str, value: LinoValue) -> (r: LinoNode)
        ensures
            r.key@ == key@,
            r.value == value,
    {
        LinoNode { key: String::from_str(key), value }
    }

    /// Creates a new string node.
    pub fn string(key: &str, value: &str) -> (r: LinoNode)
        ensures
            r.key@ == key@,
            lv(r.value) == LinoView::Str(value@),
    {
        LinoNode { key: String::from_str(key), value: LinoValue::String(String::from_str(value)) }
    }
}

/// The prefix of an object entry's leaves: the key in upper case, after the parent's
/// prefix and `_` when there is one.
pub open spec fn key_prefix(prefix: Seq<char>, key: Seq<char>) -> Seq<char> {
    if prefix.len() == 0 {
        unicode_uppercase(key)
    } else {
        prefix + "_"@ + unicode_uppercase(key)
    }
}

/// The prefix of a list item's leaves: the parent's prefix, `_` and the item's index.
pub open spec fn index_prefix(prefix: Seq<char>, i: nat) -> Seq<char> {
    prefix + "_"@ + nat_text(i)
}

/// The leaves of a value, each with the prefix naming it: strings, numbers and booleans
/// under a non-empty prefix; objects and lists contribute their entries' and items'
/// leaves in order; null contributes nothing.
pub open spec fn flat_leaves(v: LinoView, prefix: Seq<char>) -> Seq<(Seq<char>, LinoView)>
    decreases v, 0int,
{
    match v {
        LinoView::Object(es) => flat_entries(es, prefix, 0),
        LinoView::List(ns) => flat_items(ns, prefix, 0),
        LinoView::Null => Seq::empty(),
        _ => if prefix.len() > 0 {
            seq![(prefix, v)]
        } else {
            Seq::empty()
        },
    }
}

/// The leaves of object entries from `i` on.
pub open spec fn flat_entries(es: Seq<(Seq<char>, LinoView)>, prefix: Seq<char>, i: int) -> Seq<
    (Seq<char>, LinoView),
>
    decreases es, es.len() - i,
{
    if i < 0 || i >= es.len() {
        Seq::empty()
    } else {
        flat_leaves(es[i].1, key_prefix(prefix, es[i].0)) + flat_entries(es, prefix, i + 1)
    }
}

/// The leaves of list items from `i` on.
pub open spec fn flat_items(ns: Seq<(Seq<char>, LinoView)>, prefix: Seq<char>, i: int) -> Seq<
    (Seq<char>, LinoView),
>
    decreases ns, ns.len() - i,
{
    if i < 0 || i >= ns.len() {
        Seq::empty()
    } else {
        flat_leaves(ns[i].1, index_prefix(prefix, i as nat)) + flat_items(ns, prefix, i + 1)
    }
}

pub open spec fn leaves_view(s: Seq<(String, &LinoValue)>) -> Seq<(Seq<char>, LinoView)> {
    s.map_values(|p: (String, &LinoValue)| (p.0@, lv(*p.1)))
}

fn push_leaf<'a>(out: &mut Vec<(String, &'a LinoValue)>, name: String, v: &'a LinoValue)
    ensures
        leaves_view(final(out)@) == leaves_view(old(out)@).push((name@, lv(*v))),
{
    let ghost before = leaves_view(out@);
    let ghost nv = name@;
    out.push((name, v));
    assert(leaves_view(out@) =~= before.push((nv, lv(*v))));
}

fn flatten_into<'a>(value: &'a LinoValue, prefix: &str, out: &mut Vec<(String, &'a LinoValue)>)
    ensures
        leaves_view(final(out)@) == leaves_view(old(out)@) + flat_leaves(lv(*value), prefix@),
    decreases *value,
{
    let ghost start = leaves_view(out@);
    match value {
        LinoValue::Object(obj) => {
            proof {
                lemma_lv_entries(obj@);
            }
            let ghost es = lv_entries(obj@);
            let mut i: usize = 0;
            assert(start + Seq::<(Seq<char>, LinoView)>::empty() =~= start);
            while i < obj.len()
                invariant
                    i <= obj.len(),
                    *value == LinoValue::Object(*obj),
                    es == lv_entries(obj@),
                    es.len() == obj@.len(),
                    forall|j: int| 0 <= j < obj@.len() ==> #[trigger] es[j] == (obj@[j].0@, lv(obj@[j].1)),
                    start + flat_entries(es, prefix@, 0) == leaves_view(out@) + flat_entries(
                        es,
                        prefix@,
                        i as int,
                    ),
                decreases obj.len() - i,
            {
                let key = crate::text::uppercase(obj[i].0.as_str());
                let mut p: String = String::new();
                if !prefix.is_empty() {
                    p = String::from_str(prefix);
                    crate::text::append_str(&mut p, "_");
                }
                crate::text::append_str(&mut p, key.as_str());
                proof {
                    assert(es[i as int] == (obj@[i as int].0@, lv(obj@[i as int].1)));
                    if prefix@.len() == 0 {
                        assert(p@ =~= key_prefix(prefix@, es[i as int].0));
                    }
                }
                let ghost before = leaves_view(out@);
                assert(decreases_to!(*value => (*value)->Object_0));
                assert((*value)->Object_0 == *obj);
                assert(decreases_to!(*obj => obj@));
                assert(decreases_to!(obj@ => obj@[i as int]));
                assert(decreases_to!(obj@[i as int] => obj@[i as int].1));
                flatten_into(&obj[i].1, p.as_str(), out);
                assert(before + flat_entries(es, prefix@, i as int) =~= leaves_view(out@)
                    + flat_entries(es, prefix@, i + 1));
                i = i + 1;
            }
            assert(leaves_view(out@) + flat_entries(es, prefix@, obj.len() as int) =~= leaves_view(out@));
        },
        LinoValue::List(list) => {
            proof {
                lemma_lv_nodes(list@);
            }
            let ghost ns = lv_nodes(list@);
            let mut i: usize = 0;
            while i < list.len()
                invariant
                    i <= list.len(),
                    *value == LinoValue::List(*list),
                    ns == lv_nodes(list@),
                    ns.len() == list@.len(),
                    forall|j: int| 0 <= j < list@.len() ==> #[trigger] ns[j] == (list@[j].key@, lv(list@[j].value)),
                    start + flat_items(ns, prefix@, 0) == leaves_view(out@) + flat_items(
                        ns,
                        prefix@,
                        i as int,
                    ),
                decreases list.len() - i,
            {
                let mut p = String::from_str(prefix);
                crate::text::append_str(&mut p, "_");
                let idx = crate::strategy::rebalance::count_string(i);
                crate::text::append_str(&mut p, idx.as_str());
                let ghost before = leaves_view(out@);
                assert(ns[i as int] == (list@[i as int].key@, lv(list@[i as int].value)));
                assert(decreases_to!(*value => (*value)->List_0));
                assert((*value)->List_0 == *list);
                assert(decreases_to!(*list => list@));
                assert(decreases_to!(list@ => list@[i as int]));
                assert(decreases_to!(list@[i as int] => list@[i as int].value));
                flatten_into(&list[i].value, p.as_str(), out);
                assert(before + flat_items(ns, prefix@, i as int) =~= leaves_view(out@) + flat_items(
                    ns,
                    prefix@,
                    i + 1,
                ));
                i = i + 1;
            }
            assert(leaves_view(out@) + flat_items(ns, prefix@, list.len() as int) =~= leaves_view(out@));
        },
        LinoValue::Null => {
            assert(start + Seq::<(Seq<char>, LinoView)>::empty() =~= start);
        },
        _ => {
            if !prefix.is_empty() {
                push_leaf(out, String::from_str(prefix), value);
                assert(leaves_view(out@) =~= start + seq![(prefix@, lv(*value))]);
            } else {
                assert(start + Seq::<(Seq<char>, LinoView)>::empty() =~= start);
            }
        },
    }
}

/// The leaves of a value under a prefix, each named by the upper-cased keys and list
/// indices that lead to it, joined by `_` (environment-variable style names); turning each
/// leaf into text is left to the caller.
pub fn flatten_leaves<'a>(value: &'a LinoValue, prefix: &str) -> (r: Vec<(String, &'a LinoValue)>)
    ensures
        leaves_view(r@) == flat_leaves(lv(*value), prefix@),
{
    let mut out: Vec<(String, &'a LinoValue)> = Vec::new();
    assert(leaves_view(out@) =~= Seq::<(Seq<char>, LinoView)>::empty());
    flatten_into(value, prefix, &mut out);
    assert(Seq::<(Seq<char>, LinoView)>::empty() + flat_leaves(lv(*value), prefix@) =~= flat_leaves(
        lv(*value),
        prefix@,
    ));
    out
}

} // verus!
