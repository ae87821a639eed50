//! Rows of the materials table.

use vstd::prelude::*;

verus! {

/// A stored material; `include_in_report` is stored as 0 or 1.
#[derive(Debug)]
pub struct MaterialRow {
    pub id: String,
    pub case_id: String,
    pub material_code: String,
    pub title: String,
    pub material_type: String,
    pub source_name: String,
    pub description: String,
    pub captured_at: Option<String>,
    pub include_in_report: i64,
    pub original_file_name: Option<String>,
    pub original_path: Option<String>,
    pub stored_file_path: Option<String>,
    pub file_size: Option<i64>,
    pub mime_type: Option<String>,
    pub sha256: Option<String>,
    pub integrity_status: String,
    pub created_by_user_id: String,
    pub created_at: String,
    pub updated_at: String,
}

/// A new material.
#[derive(Debug)]
pub struct CreateMaterialRecord {
    pub id: String,
    pub case_id: String,
    pub material_code: String,
    pub title: String,
    pub material_type: String,
    pub source_name: String,
    pub description: String,
    pub captured_at: Option<String>,
    pub include_in_report: bool,
    pub created_by_user_id: String,
}

/// Reads and writes materials.
pub struct MaterialRepository;

} // verus!
