//! The two access-policy switches kept among the application settings.

use vstd::prelude::*;

use crate::models::settings_catalog::{KEY_ACCESS_ANALYST_CAN_CREATE_BACKUP, KEY_ACCESS_VIEWER_CAN_EXPORT_DOCX};
use crate::text::str_eq;

verus! {

#[derive(Debug, Clone, Copy)]
pub struct SettingsAccessPolicy {
    pub viewer_can_export_docx: bool,
    pub analyst_can_create_backup: bool,
}

/// The value stored under `key` in a list of (key, value) settings rows:
/// the first row with that key.
pub open spec fn lookup(rows: Seq<(String, String)>, key: Seq<char>) -> Option<Seq<char>>
    decreases rows.len(),
{
    if rows.len() == 0 {
        None
    } else if rows[0].0@ == key {
        Some(rows[0].1@)
    } else {
        lookup(rows.drop_first(), key)
    }
}

/// A boolean setting: `true` exactly when the stored value is the text `true`;
/// `default_value` when the key is absent.
pub open spec fn read_bool_spec(rows: Seq<(String, String)>, key: Seq<char>, default_value: bool) -> bool {
    match lookup(rows, key) {
        Some(v) => v == "true"@,
        None => default_value,
    }
}

pub open spec fn policy_from_rows(rows: Seq<(String, String)>) -> SettingsAccessPolicy {
    SettingsAccessPolicy {
        viewer_can_export_docx: read_bool_spec(rows, KEY_ACCESS_VIEWER_CAN_EXPORT_DOCX@, false),
        analyst_can_create_backup: read_bool_spec(rows, KEY_ACCESS_ANALYST_CAN_CREATE_BACKUP@, false),
    }
}

/// Looks a key up in a list of settings rows.
pub fn lookup_setting<'a>(rows: &'a Vec<(String, String)>, key: &str) -> (r: Option<&'a String>)
    ensures
        match r {
            Some(v) => lookup(rows@, key@) == Some(v@),
            None => lookup(rows@, key@) is None,
        },
{
    let mut i: usize = 0;
    assert(rows@.subrange(0, rows@.len() as int) =~= rows@);
    while i < rows.len()
        invariant
            i <= rows.len(),
            lookup(rows@, key@) == lookup(rows@.subrange(i as int, rows@.len() as int), key@),
        decreases rows.len() - i,
    {
        proof {
            let rest = rows@.subrange(i as int, rows@.len() as int);
            assert(rest.drop_first() =~= rows@.subrange(i + 1, rows@.len() as int));
            assert(rest[0] == rows@[i as int]);
        }
        if str_eq(rows[i].0.as_str(), key) {
            return Some(&rows[i].1);
        }
        i = i + 1;
    }
    proof {
        assert(rows@.subrange(i as int, rows@.len() as int).len() == 0);
    }
    None
}

/// Reads a boolean setting; absent keys give `default_value`.
pub fn read_bool(rows: &Vec<(String, String)>, key: &str, default_value: bool) -> (b: bool)
    ensures
        b == read_bool_spec(rows@, key@, default_value),
{
    match lookup_setting(rows, key) {
        Some(v) => str_eq(v.as_str(), "true"),
        None => default_value,
    }
}

impl SettingsAccessPolicy {
    /// The access policy from the rows of the settings table; both switches are
    /// off unless stored as `true`.
    pub fn from_settings(rows: &Vec<(String, String)>) -> (p: Self)
        ensures
            p == policy_from_rows(rows@),
    {
        SettingsAccessPolicy {
            viewer_can_export_docx: read_bool(rows, KEY_ACCESS_VIEWER_CAN_EXPORT_DOCX, false),
            analyst_can_create_backup: read_bool(rows, KEY_ACCESS_ANALYST_CAN_CREATE_BACKUP, false),
        }
    }
}

} // verus!
