//! The relation graph of a case.

use vstd::prelude::*;

use crate::error::{string_result_view, AppErrorDto};
use crate::services::object_validation::{normalize_required_id, required_id_spec};

verus! {

pub struct GraphService;

impl GraphService {
    /// The case whose graph is asked for; blank is `ERR_CASE_REQUIRED`.
    pub fn graph_case_id(case_id: &str) -> (r: Result<String, AppErrorDto>)
        ensures
            string_result_view(r) == required_id_spec(case_id@, "ERR_CASE_REQUIRED"@, "Не выбрано дело."@),
    {
        normalize_required_id(case_id, "ERR_CASE_REQUIRED", "Не выбрано дело.")
    }
}

} // verus!
