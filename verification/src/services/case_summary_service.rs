//! The summary counters and overview card of a case.

use vstd::prelude::*;

use crate::error::{string_result_view, AppErrorDto};
use crate::security::protected_operation::ProtectedOperation;
use crate::services::case_service::{case_id_spec, normalize_case_id};

verus! {

/// How many key objects the overview card lists.
pub const OVERVIEW_KEY_OBJECTS_LIMIT: i64 = 10;

/// How many days of recent activity the overview card shows.
pub const OVERVIEW_RECENT_ACTIVITY_DAYS: i64 = 7;

pub struct CaseSummaryService;

impl CaseSummaryService {
    /// The case whose summary is asked for, trimmed; blank is a validation error.
    pub fn summary_case_id(case_id: &str) -> (r: Result<String, AppErrorDto>)
        ensures
            string_result_view(r) == case_id_spec(case_id@),
    {
        normalize_case_id(case_id)
    }

    /// Reading a summary needs the case-read permission.
    pub fn required_operation() -> (op: ProtectedOperation)
        ensures
            op == ProtectedOperation::CaseRead,
    {
        ProtectedOperation::CaseRead
    }
}

} // verus!
