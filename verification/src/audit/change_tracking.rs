//! The list of fields an update changed, as recorded in audit details.

use vstd::prelude::*;

use crate::error::opt_string_view;
use crate::text::{str_eq, string_views};

verus! {

/// `fields` with `field` appended when it changed.
pub open spec fn note_change(fields: Seq<Seq<char>>, field: Seq<char>, changed: bool) -> Seq<Seq<char>> {
    if changed {
        fields.push(field)
    } else {
        fields
    }
}

/// Appends `field` to the changed fields when its old and new values differ.
pub fn push_changed(changed: &mut Vec<String>, field: &str, differs: bool)
    ensures
        string_views(final(changed)@) == note_change(string_views(old(changed)@), field@, differs),
{
    if differs {
        changed.push(field.to_owned());
        proof {
            assert(string_views(changed@) =~= string_views(old(changed)@).push(field@));
        }
    }
}

/// Whether two optional texts differ.
pub fn opt_differs(a: &Option<String>, b: &Option<String>) -> (r: bool)
    ensures
        r == (opt_string_view(*a) != opt_string_view(*b)),
{
    match (a, b) {
        (Some(x), Some(y)) => !str_eq(x.as_str(), y.as_str()),
        (None, None) => false,
        _ => true,
    }
}

/// Whether two texts differ.
pub fn text_differs(a: &str, b: &str) -> (r: bool)
    ensures
        r == (a@ != b@),
{
    !str_eq(a, b)
}

} // verus!
