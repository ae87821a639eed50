//! The table of operations the current user may perform.

use vstd::prelude::*;

use crate::error::AppErrorDto;
use crate::security::effective_permissions::{EffectivePermissionsDto, EffectivePolicyFlagsDto};
use crate::security::policy_aware_permission_service::{decide_spec, PolicyAwarePermissionService};
use crate::security::protected_operation::{action_name_spec, all_operations, ProtectedOperation};
use crate::security::session::CurrentUserDto;
use crate::services::settings_access_policy::SettingsAccessPolicy;

verus! {

pub struct EffectivePermissionService;

impl EffectivePermissionService {
    /// For every operation (in the order of `ProtectedOperation::all`), its key and
    /// whether it is allowed: never while a password change is pending, otherwise
    /// as the permission decision says. A policy that could not be read is the
    /// error returned.
    pub fn get_effective_permissions(
        policy: Result<SettingsAccessPolicy, AppErrorDto>,
        current_user: &CurrentUserDto,
        must_change_password: bool,
    ) -> (r: Result<EffectivePermissionsDto, AppErrorDto>)
        ensures
            match policy {
                Err(e) => r matches Err(e2) && e2@ == e@,
                Ok(p) => r matches Ok(dto) && {
                    &&& dto.role == current_user.role
                    &&& dto.must_change_password == must_change_password
                    &&& dto.policy_flags.viewer_can_export_docx == p.viewer_can_export_docx
                    &&& dto.policy_flags.analyst_can_create_backup == p.analyst_can_create_backup
                    &&& dto.operations@.len() == all_operations().len()
                    &&& forall|i: int|
                        0 <= i < all_operations().len() ==> (#[trigger] dto.operations@[i]).0@
                            == action_name_spec(all_operations()[i])@ && dto.operations@[i].1 == (
                        !must_change_password && decide_spec(Some(p), current_user.role@, all_operations()[i]) is Allow)
                },
            },
    {
        let access_policy = match policy {
            Ok(p) => p,
            Err(e) => return Err(e),
        };
        let all = ProtectedOperation::all();
        let mut operations: Vec<(String, bool)> = Vec::new();
        let mut i: usize = 0;
        while i < all.len()
            invariant
                all@ == all_operations(),
                i <= all.len(),
                operations@.len() == i,
                forall|j: int|
                    0 <= j < i ==> (#[trigger] operations@[j]).0@ == action_name_spec(all_operations()[j])@
                        && operations@[j].1 == (!must_change_password && decide_spec(
                        Some(access_policy),
                        current_user.role@,
                        all_operations()[j],
                    ) is Allow),
            decreases all.len() - i,
        {
            let operation = all[i];
            let allowed = if must_change_password {
                false
            } else {
                PolicyAwarePermissionService::decide(Some(access_policy), current_user, operation).allowed()
            };
            operations.push((operation.key().to_owned(), allowed));
            i = i + 1;
        }
        Ok(EffectivePermissionsDto {
            role: current_user.role.clone(),
            must_change_password,
            operations,
            policy_flags: EffectivePolicyFlagsDto {
                viewer_can_export_docx: access_policy.viewer_can_export_docx,
                analyst_can_create_backup: access_policy.analyst_can_create_backup,
            },
        })
    }
}

} // verus!
