//! Rows of the cases table.

use vstd::prelude::*;

verus! {

/// A stored case.
#[derive(Debug)]
pub struct CaseRow {
    pub id: String,
    pub case_code: String,
    pub title: String,
    pub subject: String,
    pub description: String,
    pub status: String,
    pub period_start: Option<String>,
    pub period_end: Option<String>,
    pub created_by_user_id: String,
    pub created_at: String,
    pub updated_at: String,
}

/// A new case; it is stored with the status `draft`.
#[derive(Debug)]
pub struct CreateCaseRecord {
    pub id: String,
    pub case_code: String,
    pub title: String,
    pub subject: String,
    pub description: String,
    pub period_start: Option<String>,
    pub period_end: Option<String>,
    pub created_by_user_id: String,
}

/// New values of an existing case.
#[derive(Debug)]
pub struct UpdateCaseRecord {
    pub case_id: String,
    pub title: String,
    pub subject: String,
    pub description: String,
    pub period_start: Option<String>,
    pub period_end: Option<String>,
}

/// Reads and writes cases.
pub struct CaseRepository;

} // verus!
