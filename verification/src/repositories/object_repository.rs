//! Rows of the object table.

use vstd::prelude::*;

verus! {

/// A new object of a case.
#[derive(Debug)]
pub struct CreateObjectRecord {
    pub id: String,
    pub case_id: String,
    pub object_code: String,
    pub object_type: String,
    pub title: String,
    pub value: Option<String>,
    pub description: String,
    pub is_key: bool,
    pub confidence_note: String,
    pub include_in_report: bool,
    pub created_by_user_id: String,
}

/// Reads and writes objects.
pub struct ObjectRepository;

} // verus!
