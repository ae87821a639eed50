//! What the user interface is told the current user may do.

use vstd::prelude::*;

verus! {

/// Effective permissions of the current user: one entry per operation key.
#[derive(Debug, Clone)]
pub struct EffectivePermissionsDto {
    pub role: String,
    pub must_change_password: bool,
    pub operations: Vec<(String, bool)>,
    pub policy_flags: EffectivePolicyFlagsDto,
}

#[derive(Debug, Clone, Copy)]
pub struct EffectivePolicyFlagsDto {
    pub viewer_can_export_docx: bool,
    pub analyst_can_create_backup: bool,
}

} // verus!
