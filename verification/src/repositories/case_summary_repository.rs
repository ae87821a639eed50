//! The counts and lists of a case's summary screen.

use vstd::prelude::*;

verus! {

/// Reads the counts and lists of a case's summary screen.
pub struct CaseSummaryRepository;

/// Objects of a case that are not deleted.
pub const COUNT_OBJECTS_SQL: &'static str = "SELECT COUNT(*) FROM objects WHERE case_id = ?1 AND is_deleted = 0";

/// Key objects of a case that are not deleted.
pub const COUNT_KEY_OBJECTS_SQL: &'static str = "SELECT COUNT(*) FROM objects WHERE case_id = ?1 AND is_deleted = 0 AND is_key = 1";

/// Materials of a case that are not deleted.
pub const COUNT_MATERIALS_SQL: &'static str = "SELECT COUNT(*) FROM materials WHERE case_id = ?1 AND is_deleted = 0";

/// Materials whose check found a problem: a digest that differs, a file
/// that is gone or that could not be read. Unchecked files are no problem.
pub const COUNT_INTEGRITY_ISSUES_SQL: &'static str = "SELECT COUNT(*) FROM materials WHERE case_id = ?1 AND is_deleted = 0 AND integrity_status IN ('mismatch', 'missing', 'read_error')";

/// Relations of a case that are not deleted.
pub const COUNT_RELATIONS_SQL: &'static str = "SELECT COUNT(*) FROM relations WHERE case_id = ?1 AND is_deleted = 0";

/// Timeline events of a case that are not deleted.
pub const COUNT_EVENTS_SQL: &'static str = "SELECT COUNT(*) FROM timeline_events WHERE case_id = ?1 AND is_deleted = 0";

/// Timeline events of a case that go into the report.
pub const COUNT_REPORT_EVENTS_SQL: &'static str = "SELECT COUNT(*) FROM timeline_events WHERE case_id = ?1 AND is_deleted = 0 AND include_in_report = 1";

/// The latest change among a case's objects, materials, relations and events.
pub const MAX_UPDATED_AT_SQL: &'static str = "\n            SELECT MAX(ts) FROM (\n                SELECT updated_at AS ts FROM objects WHERE case_id = ?1 AND is_deleted = 0\n                UNION ALL\n                SELECT updated_at AS ts FROM materials WHERE case_id = ?1 AND is_deleted = 0\n                UNION ALL\n                SELECT updated_at AS ts FROM relations WHERE case_id = ?1 AND is_deleted = 0\n                UNION ALL\n                SELECT updated_at AS ts FROM timeline_events WHERE case_id = ?1 AND is_deleted = 0\n            )\n        ";

} // verus!
