//! Rows and filters of the audit-log table.

use vstd::prelude::*;

verus! {

/// A new audit entry, ready to insert.
#[derive(Debug, Clone)]
pub struct CreateAuditLogRecord {
    pub user_id: Option<String>,
    pub username: String,
    pub user_role: String,
    pub action: String,
    pub entity_type: String,
    pub entity_id: Option<String>,
    pub case_id: Option<String>,
    pub result: String,
    pub severity: String,
    pub old_value: Option<String>,
    pub new_value: Option<String>,
    pub technical_details: Option<String>,
    pub app_version: String,
}

/// Stores and queries audit entries.
pub struct AuditRepository;

/// The filters and page of an audit-log query.
#[derive(Debug, Clone)]
pub struct AuditLogFilters {
    pub action: Option<String>,
    pub result: Option<String>,
    pub severity: Option<String>,
    pub case_id: Option<String>,
    pub entity_type: Option<String>,
    pub date_from: Option<String>,
    pub date_to: Option<String>,
    pub user_id: Option<String>,
    pub limit: i64,
    pub offset: i64,
}

} // verus!
