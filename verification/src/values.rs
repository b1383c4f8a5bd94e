//! Reading the values of `.set` lines and offering values to complete them.

use crate::error::{ConfigError, ConfigErrorView};
use crate::text::same_text;
use vstd::prelude::*;
use vstd::string::*;

verus! {

/// `true` and `false` as text.
pub open spec fn bool_text(value: bool) -> Seq<char> {
    if value {
        "true"@
    } else {
        "false"@
    }
}

/// The truth value that `s` spells: `true` or `false`, and nothing else.
pub open spec fn bool_of(s: Seq<char>) -> Option<bool> {
    if s == "true"@ {
        Some(true)
    } else if s == "false"@ {
        Some(false)
    } else {
        None
    }
}

/// Writes a truth value.
pub fn bool_to_text(value: bool) -> (r: String)
    ensures
        r@ == bool_text(value),
{
    if value {
        "true".to_owned()
    } else {
        "false".to_owned()
    }
}

/// Reads a truth value, as `bool`'s `from_str` does.
pub fn parse_bool(value: &str) -> (r: Option<bool>)
    ensures
        r == bool_of(value@),
{
    if same_text(value, "true") {
        Some(true)
    } else if same_text(value, "false") {
        Some(false)
    } else {
        None
    }
}

/// What a value token stands for, given what it reads as in the setting's
/// type: `null` clears the setting, a token that reads as a value sets it, and
/// any other token is refused.
pub open spec fn value_of<T>(value: Seq<char>, parsed: Option<T>) -> Result<
    Option<T>,
    ConfigErrorView,
> {
    if value == "null"@ {
        Ok(None)
    } else {
        match parsed {
            Some(v) => Ok(Some(v)),
            None => Err(ConfigErrorView::InvalidValue(value)),
        }
    }
}

/// Decides what the token `value` stands for. `parsed` is what the token
/// reads as in the setting's type, `None` where it does not read as one.
pub fn parse_value<T>(value: &str, parsed: Option<T>) -> (r: Result<Option<T>, ConfigError>)
    ensures
        match value_of(value@, parsed) {
            Ok(v) => r == Ok::<Option<T>, ConfigError>(v),
            Err(e) => r is Err && r->Err_0@ == e,
        },
{
    if same_text(value, "null") {
        Ok(None)
    } else {
        match parsed {
            Some(v) => Ok(Some(v)),
            None => Err(ConfigError::InvalidValue(value.to_owned())),
        }
    }
}

/// What a switch is after it was given `value`: on for `1` and `true`, off
/// for `0` and `false`, and as before for anything else.
pub open spec fn switched(before: bool, value: Seq<char>) -> bool {
    if value == "1"@ || value == "true"@ {
        true
    } else if value == "0"@ || value == "false"@ {
        false
    } else {
        before
    }
}

/// Sets `target` from `value`, where `value` spells a truth value.
pub fn set_bool(target: &mut bool, value: &str)
    ensures
        *final(target) == switched(*old(target), value@),
{
    if same_text(value, "1") || same_text(value, "true") {
        *target = true;
    } else if same_text(value, "0") || same_text(value, "false") {
        *target = false;
    }
}

/// The values to offer for a switch that is at `value`: the other one.
pub fn complete_bool(value: bool) -> (r: Vec<String>)
    ensures
        r.deep_view() == seq![bool_text(!value)],
{
    let mut r: Vec<String> = Vec::new();
    r.push(bool_to_text(!value));
    assert(r.deep_view() =~= seq![bool_text(!value)]);
    r
}

/// The values to offer for a setting that is on, off or unset: the two that
/// it is not at, with `null` for unset.
pub open spec fn option_bool_choices(value: Option<bool>) -> Seq<Seq<char>> {
    match value {
        Some(true) => seq!["false"@, "null"@],
        Some(false) => seq!["true"@, "null"@],
        None => seq!["true"@, "false"@],
    }
}

/// The values to offer for a setting that is on, off or unset.
pub fn complete_option_bool(value: Option<bool>) -> (r: Vec<String>)
    ensures
        r.deep_view() == option_bool_choices(value),
{
    let (first, second) = match value {
        Some(true) => ("false", "null"),
        Some(false) => ("true", "null"),
        None => ("true", "false"),
    };
    let mut r: Vec<String> = Vec::new();
    r.push(first.to_owned());
    r.push(second.to_owned());
    assert(r.deep_view() =~= seq![first@, second@]);
    r
}

} // verus!
