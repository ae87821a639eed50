//! Requests and rows of the audit-log screens.

use vstd::prelude::*;

verus! {

/// One stored audit entry as listed and exported.
#[derive(Debug, Clone)]
pub struct AuditLogDto {
    pub id: String,
    pub created_at: String,
    pub user_id: Option<String>,
    pub username: String,
    pub user_role: String,
    pub action: String,
    pub entity_type: String,
    pub entity_id: Option<String>,
    pub case_id: Option<String>,
    pub result: String,
    pub severity: String,
    pub old_value: Option<String>,
    pub new_value: Option<String>,
    pub technical_details: Option<String>,
    pub app_version: String,
}

/// Filters and paging of the audit-log list.
#[derive(Debug, Clone)]
pub struct GetAuditLogsPayload {
    pub page: Option<i64>,
    pub page_size: Option<i64>,
    pub user_id: Option<String>,
    pub action: Option<String>,
    pub result: Option<String>,
    pub severity: Option<String>,
    pub case_id: Option<String>,
    pub entity_type: Option<String>,
    pub date_from: Option<String>,
    pub date_to: Option<String>,
}

/// Filters of an audit-log export.
#[derive(Debug, Clone)]
pub struct ExportAuditLogPayload {
    pub user_id: Option<String>,
    pub action: Option<String>,
    pub result: Option<String>,
    pub severity: Option<String>,
    pub case_id: Option<String>,
    pub entity_type: Option<String>,
    pub date_from: Option<String>,
    pub date_to: Option<String>,
}

} // verus!
