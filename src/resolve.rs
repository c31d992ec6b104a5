//! Resolution of a named value to a text or boolean input.
//!
//! Resolution never fails: a name that is not set, or a boolean that does not
//! parse, gives the type's default.

use vstd::prelude::*;
use crate::environment::Environment;

verus! {

/// The text that stands for a text or list input that is not set.
pub open spec fn text_default() -> Seq<char> {
    "none"@
}

/// What parsing `s` as a boolean gives: only the exact words `true` and
/// `false` are booleans.
pub open spec fn parsed_bool(s: Seq<char>) -> Option<bool> {
    if s == "true"@ {
        Some(true)
    } else if s == "false"@ {
        Some(false)
    } else {
        None
    }
}

/// The text input that a looked-up value gives.
pub open spec fn text_of(value: Option<Seq<char>>) -> Seq<char> {
    match value {
        Some(v) => v,
        None => text_default(),
    }
}

/// The boolean input that a looked-up value gives.
pub open spec fn bool_of(value: Option<Seq<char>>) -> bool {
    match value {
        Some(v) => match parsed_bool(v) {
            Some(b) => b,
            None => false,
        },
        None => false,
    }
}

/// The text of a looked-up value, if there is one.
pub open spec fn value_view(value: Option<String>) -> Option<Seq<char>> {
    match value {
        Some(v) => Some(v@),
        None => None,
    }
}

/// What `name` is set to in `env`, if anything.
pub open spec fn lookup(env: Map<Seq<char>, Seq<char>>, name: Seq<char>) -> Option<Seq<char>> {
    if env.dom().contains(name) {
        Some(env[name])
    } else {
        None
    }
}

/// Relies on `str::parse::<bool>`, that is `<bool as FromStr>::from_str`:
/// `"true"` gives `true`, `"false"` gives `false`, and every other string an
/// error.
#[verifier::external_body]
fn parse_bool(s: &str) -> (r: Option<bool>)
    ensures
        r == parsed_bool(s@),
{
    s.parse::<bool>().ok()
}

/// The text input for a looked-up value: the value itself, unchanged, or
/// `"none"` where there is none.
pub fn text_or_default(value: Option<String>) -> (r: String)
    ensures
        r@ == text_of(value_view(value)),
{
    match value {
        Some(v) => v,
        None => String::from_str("none"),
    }
}

/// The boolean input for a looked-up value: `true` only for the exact word
/// `true`; `false` where there is no value or it is not a boolean.
pub fn bool_or_default(value: Option<String>) -> (r: bool)
    ensures
        r == bool_of(value_view(value)),
{
    match value {
        Some(v) => match parse_bool(v.as_str()) {
            Some(b) => b,
            None => false,
        },
        None => false,
    }
}

/// Resolves `name` as a text input.
pub fn resolve_text(env: &Environment, name: &str) -> (r: String)
    ensures
        r@ == text_of(lookup(env@, name@)),
        !env@.dom().contains(name@) ==> r@ == "none"@,
        env@.dom().contains(name@) ==> r@ == env@[name@],
{
    text_or_default(env.get(name))
}

/// Resolves `name` as a list input. The list is carried as the text it is
/// written in, so this resolves exactly as a text input does.
pub fn resolve_list(env: &Environment, name: &str) -> (r: String)
    ensures
        r@ == text_of(lookup(env@, name@)),
        !env@.dom().contains(name@) ==> r@ == "none"@,
        env@.dom().contains(name@) ==> r@ == env@[name@],
{
    resolve_text(env, name)
}

/// Resolves `name` as a boolean input: `true` exactly where it is set to the
/// word `true`.
pub fn resolve_boolean(env: &Environment, name: &str) -> (r: bool)
    ensures
        r == bool_of(lookup(env@, name@)),
        r == (env@.dom().contains(name@) && env@[name@] == "true"@),
{
    bool_or_default(env.get(name))
}

} // verus!
