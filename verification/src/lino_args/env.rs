//! Environment-variable helpers: the names tried for a key, and how a found value is read
//! as an integer or a boolean. Reading the process environment itself is left to callers.

use vstd::prelude::*;
use crate::domain::decimal::{decimal_parse, Decimal, DecimalView};
use crate::lino_args::case::{
    spec_to_camel_case, spec_to_kebab_case, spec_to_pascal_case, spec_to_snake_case,
    spec_to_upper_case, to_camel_case, to_kebab_case, to_pascal_case, to_snake_case,
    to_upper_case,
};
use crate::numparse::{parse_i64, parse_u64, spec_parse_i64, spec_parse_u64};
use crate::text::{chars_eq, lowercase, unicode_lowercase};

verus! {

/// The names looked up for `key`, in order: the key itself, then its UPPER_CASE, camelCase,
/// kebab-case, snake_case and PascalCase forms.
pub open spec fn spec_key_variants(key: Seq<char>) -> Seq<Seq<char>> {
    seq![
        key,
        spec_to_upper_case(key),
        spec_to_camel_case(key),
        spec_to_kebab_case(key),
        spec_to_snake_case(key),
        spec_to_pascal_case(key),
    ]
}

/// The names to look up for `key`, in the order in which they are tried.
pub fn env_key_variants(key: &str) -> (v: Vec<String>)
    ensures
        v@.map_values(|s: String| s@) == spec_key_variants(key@),
{
    let mut v: Vec<String> = Vec::new();
    v.push(key.to_string());
    v.push(to_upper_case(key));
    v.push(to_camel_case(key));
    v.push(to_kebab_case(key));
    v.push(to_snake_case(key));
    v.push(to_pascal_case(key));
    assert(v@.map_values(|s: String| s@) =~= spec_key_variants(key@));
    v
}

/// The first value that was found, or `default` when none was.
pub open spec fn spec_pick_env_value(found: Seq<Option<Seq<char>>>, default: Seq<char>) -> Seq<char>
    decreases found.len(),
{
    if found.len() == 0 {
        default
    } else {
        match found[0] {
            Some(v) => v,
            None => spec_pick_env_value(found.drop_first(), default),
        }
    }
}

pub open spec fn option_view(o: Option<String>) -> Option<Seq<char>> {
    match o {
        Some(s) => Some(s@),
        None => None,
    }
}

/// Chooses among the values found for the variants of a key (in the order of
/// `env_key_variants`): the first one present wins, else `default`.
pub fn pick_env_value(found: &Vec<Option<String>>, default: &str) -> (r: String)
    ensures
        r@ == spec_pick_env_value(found@.map_values(|o: Option<String>| option_view(o)), default@),
{
    let ghost all = found@.map_values(|o: Option<String>| option_view(o));
    let mut i: usize = 0;
    assert(all.skip(0) =~= all);
    while i < found.len()
        invariant
            i <= found.len(),
            all == found@.map_values(|o: Option<String>| option_view(o)),
            spec_pick_env_value(all, default@) == spec_pick_env_value(all.skip(i as int), default@),
        decreases found.len() - i,
    {
        assert(all.skip(i as int).drop_first() =~= all.skip(i + 1));
        match &found[i] {
            Some(v) => {
                return v.clone();
            },
            None => {},
        }
        i = i + 1;
    }
    assert(all.skip(i as int).len() == 0);
    default.to_string()
}

/// The integer read from a found value: `default` when the value is empty or is not an
/// `i64`.
pub open spec fn spec_getenv_int(value: Seq<char>, default: i64) -> i64 {
    if value.len() == 0 {
        default
    } else {
        match spec_parse_i64(value) {
            Some(v) => v,
            None => default,
        }
    }
}

/// Reads the value found for an environment variable as an `i64` (`value` is empty when
/// the variable is not set).
pub fn getenv_int(value: &str, default: i64) -> (r: i64)
    ensures
        r == spec_getenv_int(value@, default),
{
    if value.is_empty() {
        return default;
    }
    match parse_i64(value) {
        Some(v) => v,
        None => default,
    }
}

/// The unsigned integer read from a found value.
pub open spec fn spec_getenv_u64(value: Seq<char>, default: u64) -> u64 {
    if value.len() == 0 {
        default
    } else {
        match spec_parse_u64(value) {
            Some(v) => v,
            None => default,
        }
    }
}

/// Reads the value found for an environment variable as a `u64`.
pub fn getenv_u64(value: &str, default: u64) -> (r: u64)
    ensures
        r == spec_getenv_u64(value@, default),
{
    if value.is_empty() {
        return default;
    }
    match parse_u64(value) {
        Some(v) => v,
        None => default,
    }
}

/// Word recognised as a true boolean: `true`, `1`, `yes`, `on`.
pub open spec fn is_true_word(s: Seq<char>) -> bool {
    s == "true"@ || s == "1"@ || s == "yes"@ || s == "on"@
}

/// Word recognised as a false boolean: `false`, `0`, `no`, `off`.
pub open spec fn is_false_word(s: Seq<char>) -> bool {
    s == "false"@ || s == "0"@ || s == "no"@ || s == "off"@
}

/// The boolean read from a found value: its lower-case form is matched against the true and
/// false words; anything else (or an empty value) gives `default`.
pub open spec fn spec_getenv_bool(value: Seq<char>, default: bool) -> bool {
    if value.len() == 0 {
        default
    } else if is_true_word(unicode_lowercase(value)) {
        true
    } else if is_false_word(unicode_lowercase(value)) {
        false
    } else {
        default
    }
}

/// Reads the value found for an environment variable as a boolean (case-insensitive
/// `true`/`1`/`yes`/`on` and `false`/`0`/`no`/`off`).
pub fn getenv_bool(value: &str, default: bool) -> (r: bool)
    ensures
        r == spec_getenv_bool(value@, default),
{
    if value.is_empty() {
        return default;
    }
    let l = lowercase(value);
    let l = l.as_str();
    if chars_eq(l, "true") || chars_eq(l, "1") || chars_eq(l, "yes") || chars_eq(l, "on") {
        true
    } else if chars_eq(l, "false") || chars_eq(l, "0") || chars_eq(l, "no") || chars_eq(l, "off") {
        false
    } else {
        default
    }
}

/// The decimal read from a found value: `default` when empty or not a decimal.
pub open spec fn spec_getenv_decimal(value: Seq<char>, default: DecimalView) -> DecimalView {
    if value.len() == 0 {
        default
    } else {
        match decimal_parse(value) {
            Some(d) => d,
            None => default,
        }
    }
}

/// Reads the value found for an environment variable as a decimal.
pub fn getenv_decimal(value: &str, default: Decimal) -> (r: Decimal)
    ensures
        r@ == spec_getenv_decimal(value@, default@),
{
    if value.is_empty() {
        return default;
    }
    match Decimal::parse(value) {
        Some(d) => d,
        None => default,
    }
}

} // verus!
