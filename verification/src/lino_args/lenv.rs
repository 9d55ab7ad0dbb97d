//! Parsing of `.lenv` files: `KEY: value` (or `KEY=value`) lines, `#` comments, optional
//! quotes around values.

use vstd::prelude::*;
use crate::numparse::{decimal_text, u128_to_text};
use crate::text::{
    append_str, find_char, find_char_exec, find_pair, find_pair_exec, lines, slice_vec,
    split_lines, string_of, trim, trim_range,
};

verus! {

#[verifier::external_type_specification]
#[verifier::external_body]
pub struct ExIoError(std::io::Error);

/// Error type for lenv file operations.
#[derive(Debug)]
pub enum LenvError {
    /// IO error when reading the file.
    Io(std::io::Error),
    /// Parse error with line number and description.
    Parse {
        /// Line number (1-based) where the error occurred.
        line: usize,
        /// Description of the parse error.
        message: String,
    },
}

/// `Display` of `std::io::Error`: the description the operating system gives, of which
/// nothing is promised.
#[verifier::external_body]
fn io_error_text(e: &std::io::Error) -> (s: String) {
    format!("{e}")
}

impl LenvError {
    /// The message of the error: `IO error: <description>` or
    /// `Parse error on line <line>: <message>`.
    pub fn to_string(&self) -> (s: String)
        ensures
            match self {
                LenvError::Io(_) => s@.len() >= 10 && s@.subrange(0, 10) == "IO error: "@,
                LenvError::Parse { line, message } => s@ == "Parse error on line "@ + decimal_text(
                    *line as nat,
                ) + ": "@ + message@,
            },
    {
        match self {
            LenvError::Io(e) => {
                let mut s = String::from_str("IO error: ");
                let d = io_error_text(e);
                let ghost head = s@;
                append_str(&mut s, d.as_str());
                proof {
                    reveal_strlit("IO error: ");
                    assert(s@.subrange(0, 10) =~= head);
                }
                s
            },
            LenvError::Parse { line, message } => {
                let mut s = String::from_str("Parse error on line ");
                let digits = u128_to_text(*line as u128);
                let t = string_of(&digits);
                append_str(&mut s, t.as_str());
                append_str(&mut s, ": ");
                append_str(&mut s, message.as_str());
                s
            },
        }
    }
}

/// A set of variables read from a lenv file; each key occurs once.
#[derive(Debug)]
pub struct LenvVars {
    entries: Vec<(String, String)>,
}

/// Keys of an entry list.
pub open spec fn entry_keys(es: Seq<(String, String)>) -> Seq<Seq<char>> {
    es.map_values(|e: (String, String)| e.0@)
}

/// The map described by an entry list with distinct keys.
pub open spec fn entries_map(es: Seq<(String, String)>) -> Map<Seq<char>, Seq<char>>
    decreases es.len(),
{
    if es.len() == 0 {
        Map::empty()
    } else {
        entries_map(es.drop_last()).insert(es.last().0@, es.last().1@)
    }
}

proof fn lemma_entries_map_dom(es: Seq<(String, String)>, k: Seq<char>)
    ensures
        entries_map(es).contains_key(k) <==> entry_keys(es).contains(k),
    decreases es.len(),
{
    if es.len() > 0 {
        lemma_entries_map_dom(es.drop_last(), k);
        let ks = entry_keys(es);
        let ps = entry_keys(es.drop_last());
        assert(ks =~= ps.push(es.last().0@));
        if ps.contains(k) {
            let j = choose|j: int| 0 <= j < ps.len() && ps[j] == k;
            assert(ks[j] == k);
        }
        if ks.contains(k) && k != es.last().0@ {
            let j = choose|j: int| 0 <= j < ks.len() && ks[j] == k;
            assert(j < ps.len());
            assert(ps[j] == k);
        }
        if k == es.last().0@ {
            assert(ks[ks.len() - 1] == k);
        }
    }
}

proof fn lemma_entries_map_index(es: Seq<(String, String)>, i: int)
    requires
        0 <= i < es.len(),
        entry_keys(es).no_duplicates(),
    ensures
        entries_map(es).contains_key(es[i].0@),
        entries_map(es)[es[i].0@] == es[i].1@,
    decreases es.len(),
{
    let last = es.len() - 1;
    if i < last {
        assert(entry_keys(es.drop_last()) =~= entry_keys(es).drop_last());
        lemma_entries_map_index(es.drop_last(), i);
        assert(entry_keys(es)[i] != entry_keys(es)[last]);
    }
}

proof fn lemma_entries_map_update(es: Seq<(String, String)>, i: int, e: (String, String))
    requires
        0 <= i < es.len(),
        entry_keys(es).no_duplicates(),
        e.0@ == es[i].0@,
    ensures
        entries_map(es.update(i, e)) == entries_map(es).insert(e.0@, e.1@),
        entry_keys(es.update(i, e)) == entry_keys(es),
    decreases es.len(),
{
    let last = es.len() - 1;
    assert(entry_keys(es.update(i, e)) =~= entry_keys(es));
    if i == last {
        assert(es.update(i, e).drop_last() =~= es.drop_last());
    } else {
        assert(es.update(i, e).drop_last() =~= es.drop_last().update(i, e));
        assert(entry_keys(es.drop_last()) =~= entry_keys(es).drop_last());
        lemma_entries_map_update(es.drop_last(), i, e);
        assert(entry_keys(es)[i] != entry_keys(es)[last]);
        assert(entries_map(es.update(i, e)) =~= entries_map(es).insert(e.0@, e.1@));
    }
}

impl LenvVars {
    pub closed spec fn wf(&self) -> bool {
        entry_keys(self.entries@).no_duplicates()
    }

    /// The (name, value) pairs in the order in which names were first set.
    pub closed spec fn entry_seq(&self) -> Seq<(String, String)> {
        self.entries@
    }

    /// The variables as a map from name to value.
    pub open spec fn view(&self) -> Map<Seq<char>, Seq<char>> {
        entries_map(self.entry_seq())
    }

    /// An empty set of variables.
    pub fn new() -> (r: Self)
        ensures
            r.wf(),
            r.view() == Map::<Seq<char>, Seq<char>>::empty(),
    {
        LenvVars { entries: Vec::new() }
    }

    /// Sets `key` to `value`, replacing an earlier value of the same key.
    pub fn insert(&mut self, key: String, value: String)
        requires
            old(self).wf(),
        ensures
            final(self).wf(),
            final(self).view() == old(self).view().insert(key@, value@),
    {
        let mut i: usize = 0;
        while i < self.entries.len()
            invariant
                i <= self.entries.len(),
                self.entries@ == old(self).entries@,
                entry_keys(self.entries@).no_duplicates(),
                forall|j: int| 0 <= j < i ==> self.entries@[j].0@ != key@,
            decreases self.entries.len() - i,
        {
            if crate::text::chars_eq(self.entries[i].0.as_str(), key.as_str()) {
                let ghost es = self.entries@;
                let e = (key, value);
                proof {
                    lemma_entries_map_update(es, i as int, e);
                }
                self.entries.set(i, e);
                assert(self.entries@ == es.update(i as int, e));
                return;
            }
            i = i + 1;
        }
        let ghost es = self.entries@;
        assert(!entry_keys(es).contains(key@)) by {
            if entry_keys(es).contains(key@) {
                let j = choose|j: int| 0 <= j < entry_keys(es).len() && entry_keys(es)[j] == key@;
                assert(es[j].0@ == key@);
            }
        }
        self.entries.push((key, value));
        assert(self.entries@.drop_last() =~= es);
        assert(entry_keys(self.entries@) =~= entry_keys(es).push(key@));
    }

    /// The value of `key`, if it was set.
    pub fn get(&self, key: &str) -> (r: Option<&String>)
        requires
            self.wf(),
        ensures
            r is Some <==> self.view().contains_key(key@),
            r matches Some(v) ==> v@ == self.view()[key@],
    {
        let mut i: usize = 0;
        while i < self.entries.len()
            invariant
                i <= self.entries.len(),
                entry_keys(self.entries@).no_duplicates(),
                forall|j: int| 0 <= j < i ==> self.entries@[j].0@ != key@,
            decreases self.entries.len() - i,
        {
            if crate::text::chars_eq(self.entries[i].0.as_str(), key) {
                proof {
                    lemma_entries_map_index(self.entries@, i as int);
                }
                return Some(&self.entries[i].1);
            }
            i = i + 1;
        }
        proof {
            lemma_entries_map_dom(self.entries@, key@);
            if entry_keys(self.entries@).contains(key@) {
                let j = choose|j: int|
                    0 <= j < entry_keys(self.entries@).len() && entry_keys(self.entries@)[j]
                        == key@;
                assert(self.entries@[j].0@ == key@);
            }
        }
        None
    }

    /// Number of variables.
    pub fn len(&self) -> (n: usize)
        requires
            self.wf(),
        ensures
            n == self.view().len(),
    {
        proof {
            lemma_entries_map_len(self.entries@);
        }
        self.entries.len()
    }

    /// The (name, value) pairs, each name once.
    pub fn entries(&self) -> (r: &Vec<(String, String)>)
        ensures
            r@ == self.entry_seq(),
    {
        &self.entries
    }
}

proof fn lemma_entries_map_len(es: Seq<(String, String)>)
    requires
        entry_keys(es).no_duplicates(),
    ensures
        entries_map(es).dom().finite(),
        entries_map(es).len() == es.len(),
    decreases es.len(),
{
    if es.len() > 0 {
        assert(entry_keys(es.drop_last()) =~= entry_keys(es).drop_last());
        lemma_entries_map_len(es.drop_last());
        lemma_entries_map_dom(es.drop_last(), es.last().0@);
        assert(!entry_keys(es.drop_last()).contains(es.last().0@)) by {
            if entry_keys(es.drop_last()).contains(es.last().0@) {
                let j = choose|j: int|
                    0 <= j < entry_keys(es.drop_last()).len() && entry_keys(es.drop_last())[j]
                        == es.last().0@;
                assert(entry_keys(es)[j] == entry_keys(es)[es.len() - 1]);
            }
        }
    }
}

/// What one lenv line holds.
pub enum LenvLine {
    /// Blank line or comment.
    Skip,
    /// A variable assignment.
    Entry(Seq<char>, Seq<char>),
    /// Neither `: ` nor `=` occurs.
    MissingSeparator,
    /// The name before the separator is empty.
    EmptyKey,
}

/// A value with one pair of surrounding double or single quotes removed.
pub open spec fn unquote(v: Seq<char>) -> Seq<char> {
    if v.len() >= 2 && ((v[0] == '"' && v.last() == '"') || (v[0] == '\'' && v.last() == '\'')) {
        v.subrange(1, v.len() - 1)
    } else {
        v
    }
}

/// The reading of one line of a lenv file.
pub open spec fn lenv_line(line: Seq<char>) -> LenvLine {
    let t = trim(line);
    if t.len() == 0 || t[0] == '#' {
        LenvLine::Skip
    } else {
        let kv: Option<(Seq<char>, Seq<char>)> = match find_pair(t, ':', ' ', 0) {
            Some(p) => Some((trim(t.subrange(0, p)), trim(t.subrange(p + 2, t.len() as int)))),
            None => match find_char(t, '=', 0) {
                Some(p) => Some((trim(t.subrange(0, p)), trim(t.subrange(p + 1, t.len() as int)))),
                None => None,
            },
        };
        match kv {
            None => LenvLine::MissingSeparator,
            Some((k, v)) => if k.len() == 0 {
                LenvLine::EmptyKey
            } else {
                LenvLine::Entry(k, unquote(v))
            },
        }
    }
}

/// Outcome of reading the first `n` lines: the variables so far, or the first error as
/// (1-based line number, message).
pub open spec fn lenv_prefix(ls: Seq<Seq<char>>, n: int) -> Result<
    Map<Seq<char>, Seq<char>>,
    (int, Seq<char>),
>
    decreases n,
{
    if n <= 0 {
        Ok(Map::empty())
    } else {
        match lenv_prefix(ls, n - 1) {
            Err(e) => Err(e),
            Ok(m) => match lenv_line(ls[n - 1]) {
                LenvLine::Skip => Ok(m),
                LenvLine::Entry(k, v) => Ok(m.insert(k, v)),
                LenvLine::MissingSeparator => Err((n, "Missing ': ' or '=' separator"@)),
                LenvLine::EmptyKey => Err((n, "Empty key"@)),
            },
        }
    }
}

/// The result of parsing a whole lenv text.
pub open spec fn spec_parse_lenv(content: Seq<char>) -> Result<
    Map<Seq<char>, Seq<char>>,
    (int, Seq<char>),
> {
    lenv_prefix(lines(content), lines(content).len() as int)
}

/// The value text with quotes removed.
fn unquote_exec(v: Vec<char>) -> (r: Vec<char>)
    ensures
        r@ == unquote(v@),
{
    let n = v.len();
    if n >= 2 && ((v[0] == '"' && v[n - 1] == '"') || (v[0] == '\'' && v[n - 1] == '\'')) {
        slice_vec(&v, 1, n - 1)
    } else {
        v
    }
}

/// Reads one line.
fn lenv_line_exec(line: &Vec<char>) -> (r: Result<Option<(Vec<char>, Vec<char>)>, bool>)
    ensures
        lenv_line(line@) is Skip ==> r == Ok::<Option<(Vec<char>, Vec<char>)>, bool>(None),
        lenv_line(line@) matches LenvLine::Entry(k, v) ==> (r matches Ok(Some((k2, v2))) && k2@
            == k && v2@ == v),
        lenv_line(line@) is MissingSeparator ==> r == Err::<Option<(Vec<char>, Vec<char>)>, bool>(
            true,
        ),
        lenv_line(line@) is EmptyKey ==> r == Err::<Option<(Vec<char>, Vec<char>)>, bool>(false),
{
    let t = trim_range(line, 0, line.len());
    assert(line@.subrange(0, line@.len() as int) =~= line@);
    if t.len() == 0 || t[0] == '#' {
        return Ok(None);
    }
    let (k, v) = match find_pair_exec(&t, ':', ' ') {
        Some(p) => (trim_range(&t, 0, p), trim_range(&t, p + 2, t.len())),
        None => match find_char_exec(&t, '=') {
            Some(p) => (trim_range(&t, 0, p), trim_range(&t, p + 1, t.len())),
            None => {
                return Err(true);
            },
        },
    };
    if k.len() == 0 {
        return Err(false);
    }
    let v = unquote_exec(v);
    Ok(Some((k, v)))
}

/// Parses lenv file content into its variables.
///
/// Each non-blank line not starting with `#` is `KEY: value` or, failing that, `KEY=value`;
/// key and value are trimmed and one pair of quotes around the value is removed. A later
/// line for the same key replaces the earlier value. The first line with no separator or
/// with an empty key is reported with its 1-based number.
pub fn parse_lenv(content: &str) -> (r: Result<LenvVars, LenvError>)
    ensures
        r matches Ok(vars) ==> vars.wf() && spec_parse_lenv(content@) == Ok::<
            Map<Seq<char>, Seq<char>>,
            (int, Seq<char>),
        >(vars.view()),
        r matches Err(e) ==> (e matches LenvError::Parse { line, message } && spec_parse_lenv(
            content@,
        ) == Err::<Map<Seq<char>, Seq<char>>, (int, Seq<char>)>((line as int, message@))),
        r is Ok <==> spec_parse_lenv(content@) is Ok,
{
    let ls = split_lines(content);
    let ghost lv = ls@.map_values(|l: Vec<char>| l@);
    let mut vars = LenvVars::new();
    let mut i: usize = 0;
    while i < ls.len()
        invariant
            i <= ls.len(),
            lv == ls@.map_values(|l: Vec<char>| l@),
            lv == lines(content@),
            vars.wf(),
            lenv_prefix(lv, i as int) == Ok::<Map<Seq<char>, Seq<char>>, (int, Seq<char>)>(
                vars.view(),
            ),
        decreases ls.len() - i,
    {
        assert(lv[i as int] == ls@[i as int]@);
        match lenv_line_exec(&ls[i]) {
            Ok(None) => {},
            Ok(Some((k, v))) => {
                vars.insert(string_of(&k), string_of(&v));
            },
            Err(missing) => {
                let message = if missing {
                    "Missing ': ' or '=' separator".to_string()
                } else {
                    "Empty key".to_string()
                };
                proof {
                    lemma_lenv_prefix_err_stays(lv, i as int + 1, lv.len() as int);
                }
                return Err(LenvError::Parse { line: i + 1, message });
            },
        }
        i = i + 1;
    }
    Ok(vars)
}

proof fn lemma_lenv_prefix_err_stays(ls: Seq<Seq<char>>, i: int, n: int)
    requires
        0 <= i <= n,
        lenv_prefix(ls, i) is Err,
    ensures
        lenv_prefix(ls, n) == lenv_prefix(ls, i),
    decreases n - i,
{
    if n > i {
        lemma_lenv_prefix_err_stays(ls, i, n - 1);
    }
}


/// The lenv file a command line names: scanning the arguments in order, the one after the
/// first `--lenv` or `-l` that has a successor, or what follows `--lenv=` in an argument.
pub open spec fn lenv_arg_from(args: Seq<Seq<char>>, i: int) -> Option<Seq<char>>
    decreases args.len() - i,
{
    if i < 0 || i >= args.len() {
        None
    } else if (args[i] == "--lenv"@ || args[i] == "-l"@) && i + 1 < args.len() {
        Some(args[i + 1])
    } else if args[i].len() >= 7 && args[i].take(7) == "--lenv="@ {
        Some(args[i].skip(7))
    } else {
        lenv_arg_from(args, i + 1)
    }
}

/// The text of an optional string.
pub open spec fn opt_text(o: Option<String>) -> Option<Seq<char>> {
    match o {
        Some(t) => Some(t@),
        None => None,
    }
}

/// The lenv file to load, in the order searched: the one named on the command line, the one
/// in `LENV_FILE`, `.lenv` in the current directory, then `.lenv` in the home directory; each
/// only when it exists. `None` when none of them does.
pub open spec fn spec_lenv_path(
    arg: Option<Seq<char>>,
    arg_exists: bool,
    env_file: Option<Seq<char>>,
    env_exists: bool,
    local_exists: bool,
    home_lenv: Option<Seq<char>>,
    home_exists: bool,
) -> Option<Seq<char>> {
    if arg is Some && arg_exists {
        arg
    } else if env_file is Some && env_exists {
        env_file
    } else if local_exists {
        Some(".lenv"@)
    } else if home_lenv is Some && home_exists {
        home_lenv
    } else {
        None
    }
}

/// Chooses the lenv file to load from the candidates and whether each exists (see
/// `spec_lenv_path`).
pub fn choose_lenv_path(
    arg: Option<String>,
    arg_exists: bool,
    env_file: Option<String>,
    env_exists: bool,
    local_exists: bool,
    home_lenv: Option<String>,
    home_exists: bool,
) -> (r: Option<String>)
    ensures
        opt_text(r) == spec_lenv_path(
            opt_text(arg),
            arg_exists,
            opt_text(env_file),
            env_exists,
            local_exists,
            opt_text(home_lenv),
            home_exists,
        ),
{
    match arg {
        Some(p) => {
            if arg_exists {
                return Some(p);
            }
        },
        None => {},
    }
    match env_file {
        Some(p) => {
            if env_exists {
                return Some(p);
            }
        },
        None => {},
    }
    if local_exists {
        return Some(String::from_str(".lenv"));
    }
    match home_lenv {
        Some(p) => {
            if home_exists {
                return Some(p);
            }
        },
        None => {},
    }
    None
}

/// The lenv file named on a command line (see `lenv_arg_from`).
pub fn lenv_arg(args: &Vec<String>) -> (r: Option<String>)
    ensures
        match (r, lenv_arg_from(args@.map_values(|a: String| a@), 0)) {
            (Some(p), Some(q)) => p@ == q,
            (None, None) => true,
            _ => false,
        },
{
    let ghost all = args@.map_values(|a: String| a@);
    let prefix = crate::text::chars_of("--lenv=");
    proof {
        reveal_strlit("--lenv=");
    }
    assert(prefix@.len() == 7);
    let mut i: usize = 0;
    while i < args.len()
        invariant
            i <= args.len(),
            all == args@.map_values(|a: String| a@),
            prefix@ == "--lenv="@,
            prefix@.len() == 7,
            lenv_arg_from(all, 0) == lenv_arg_from(all, i as int),
        decreases args.len() - i,
    {
        let a = args[i].as_str();
        assert(all[i as int] == a@);
        if (crate::text::chars_eq(a, "--lenv") || crate::text::chars_eq(a, "-l")) && i + 1 < args.len() {
            assert(all[i + 1] == args@[i + 1]@);
            return Some(args[i + 1].clone());
        }
        let cs = crate::text::chars_of(a);
        if cs.len() >= 7 {
            let mut same = true;
            let mut k: usize = 0;
            while k < 7
                invariant
                    k <= 7,
                    cs.len() >= 7,
                    prefix@ == "--lenv="@,
                    prefix@.len() == 7,
                    same == (forall|j: int| 0 <= j < k ==> cs@[j] == prefix@[j]),
                decreases 7 - k,
            {
                if cs[k] != prefix[k] {
                    same = false;
                }
                k = k + 1;
            }
            assert(same == (cs@.take(7) == "--lenv="@)) by {
                if same {
                    assert(cs@.take(7) =~= prefix@);
                }
            }
            if same {
                let rest = crate::text::slice_vec(&cs, 7, cs.len());
                assert(rest@ =~= a@.skip(7));
                return Some(crate::text::string_of(&rest));
            }
        }
        i = i + 1;
    }
    None
}

} // verus!
