//! Stored settings values.

use vstd::prelude::*;

use crate::text::{ascii_lower, is_ascii_text, lowercase, str_eq, str_to_lowercase, str_trim, trim};

verus! {

/// A stored flag is on when its text, trimmed and lower-cased, is `1`, `true` or `yes`.
pub open spec fn parse_bool_spec(value: Seq<char>) -> bool {
    is_true_word_spec(lowercase(trim(value)))
}

/// The words that turn a stored flag on, once trimmed and lower-cased.
pub open spec fn is_true_word_spec(v: Seq<char>) -> bool {
    v == "1"@ || v == "true"@ || v == "yes"@
}

/// Whether a trimmed, lower-cased flag text turns the flag on.
pub fn is_true_word(lowered: &str) -> (b: bool)
    ensures
        b == is_true_word_spec(lowered@),
{
    str_eq(lowered, "1") || str_eq(lowered, "true") || str_eq(lowered, "yes")
}

/// Reads a stored flag.
pub fn parse_bool(value: &str) -> (b: bool)
    ensures
        b == parse_bool_spec(value@),
        is_ascii_text(trim(value@)) ==> b == is_true_word_spec(ascii_lower(trim(value@))),
{
    let lowered = str_to_lowercase(str_trim(value));
    is_true_word(lowered.as_str())
}

/// Reads and writes the `app_settings` table.
pub struct SettingsRepository;

} // verus!
