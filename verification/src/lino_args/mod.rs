//! Unified configuration helpers: naming-convention conversion, environment values,
//! lenv files and Links Notation.

pub mod case;
pub mod env;
pub mod lenv;

pub use case::{to_camel_case, to_kebab_case, to_pascal_case, to_snake_case, to_upper_case};
pub use env::{env_key_variants, getenv_bool, getenv_decimal, getenv_int, getenv_u64, pick_env_value};
pub use lenv::{choose_lenv_path, lenv_arg, parse_lenv, LenvError, LenvVars};
pub mod lino;
