//! The formula's four inputs, and the names they are read under.
//!
//! A generated formula reads its inputs under one of two naming conventions;
//! both go through the same resolution.

use vstd::prelude::*;
use crate::environment::Environment;
use crate::resolve::{
    bool_of, lookup, resolve_boolean, resolve_list, resolve_text, text_default, text_of,
    text_or_default,
};

verus! {

/// The names under which the formula's inputs are read. A convention without
/// a name for the password leaves that input at its default.
pub struct VariableNames {
    pub text: String,
    pub boolean: String,
    pub list: String,
    pub password: Option<String>,
}

/// The formula's inputs once resolved.
#[derive(Clone, Debug)]
pub struct Inputs {
    pub text: String,
    pub flag: bool,
    pub list: String,
    pub password: String,
}

impl VariableNames {
    /// The sample convention: `SAMPLE_TEXT`, `SAMPLE_BOOL`, `SAMPLE_LIST`, and
    /// no password.
    pub fn sample() -> (names: VariableNames)
        ensures
            names.text@ == "SAMPLE_TEXT"@,
            names.boolean@ == "SAMPLE_BOOL"@,
            names.list@ == "SAMPLE_LIST"@,
            names.password is None,
    {
        VariableNames {
            text: String::from_str("SAMPLE_TEXT"),
            boolean: String::from_str("SAMPLE_BOOL"),
            list: String::from_str("SAMPLE_LIST"),
            password: None,
        }
    }

    /// The Ritchie convention: `RIT_INPUT_TEXT`, `RIT_INPUT_BOOLEAN`,
    /// `RIT_INPUT_LIST` and `RIT_INPUT_PASSWORD`.
    pub fn ritchie() -> (names: VariableNames)
        ensures
            names.text@ == "RIT_INPUT_TEXT"@,
            names.boolean@ == "RIT_INPUT_BOOLEAN"@,
            names.list@ == "RIT_INPUT_LIST"@,
            names.password is Some,
            names.password->0@ == "RIT_INPUT_PASSWORD"@,
    {
        VariableNames {
            text: String::from_str("RIT_INPUT_TEXT"),
            boolean: String::from_str("RIT_INPUT_BOOLEAN"),
            list: String::from_str("RIT_INPUT_LIST"),
            password: Some(String::from_str("RIT_INPUT_PASSWORD")),
        }
    }
}

/// The password input under `names`: resolved as text where the convention
/// names it, else the text default.
pub open spec fn password_of(env: Map<Seq<char>, Seq<char>>, names: VariableNames) -> Seq<char> {
    match names.password {
        Some(p) => text_of(lookup(env, p@)),
        None => text_default(),
    }
}

/// Reads the four inputs from `env` under `names`.
pub fn read_inputs(env: &Environment, names: &VariableNames) -> (r: Inputs)
    ensures
        r.text@ == text_of(lookup(env@, names.text@)),
        r.flag == bool_of(lookup(env@, names.boolean@)),
        r.list@ == text_of(lookup(env@, names.list@)),
        r.password@ == password_of(env@, *names),
{
    let text = resolve_text(env, names.text.as_str());
    let flag = resolve_boolean(env, names.boolean.as_str());
    let list = resolve_list(env, names.list.as_str());
    let password = match &names.password {
        Some(p) => resolve_text(env, p.as_str()),
        None => text_or_default(None),
    };
    Inputs { text, flag, list, password }
}

} // verus!
