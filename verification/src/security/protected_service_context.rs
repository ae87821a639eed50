//! The checks every protected command passes before it runs: the application
//! is not recovering from a restore (unless the operation is allowed then),
//! the stored user is active, has no pending password change, and may perform
//! the operation.

use vstd::prelude::*;

use crate::audit::audit_metadata::opt_str_view;
use crate::error::{
    access_denied_code, err_view, password_change_required_code, password_change_required_message,
    restore_in_progress_code, AppErrorDto, AppErrorView,
};
use crate::repositories::user_access_repository::UserAccessFlags;
use crate::security::policy_aware_permission_guard::{
    denial, denial_audit_ok, deny_reason_text, AccessDenial, PolicyAwarePermissionGuard,
};
use crate::security::permission_decision::PermissionDecision;
use crate::security::policy_aware_permission_service::decide_spec;
use crate::security::protected_operation::{recovery_allowed_spec, ProtectedOperation};
use crate::security::session::CurrentUserDto;
use crate::services::settings_access_policy::SettingsAccessPolicy;

verus! {

pub open spec fn blocked_account_message() -> Seq<char> {
    "Учётная запись заблокирована."@
}

pub open spec fn restore_message() -> Seq<char> {
    "Приложение находится в режиме восстановления после restore"@
}

/// The checks of a protected command, over plain values.
pub struct ProtectedServiceContext;

impl ProtectedServiceContext {
    /// While a restore is being recovered from, only the operations allowed
    /// during recovery may run.
    pub fn require_restore_not_blocking(operation: ProtectedOperation, recovery_required: bool) -> (r: Result<(), AppErrorDto>)
        ensures
            r is Ok <==> (recovery_allowed_spec(operation) || !recovery_required),
            r matches Err(e) ==> e@ == err_view(restore_in_progress_code(), restore_message()),
    {
        if operation.is_restore_recovery_allowed() {
            return Ok(());
        }
        if recovery_required {
            return Err(AppErrorDto::restore_in_progress("Приложение находится в режиме восстановления после restore"));
        }
        Ok(())
    }

    /// The user as stored: identity, role and flags from the users table, the
    /// display name from the session.
    pub fn current_user_from_access(flags: UserAccessFlags, session_user: &CurrentUserDto) -> (u: CurrentUserDto)
        ensures
            u.user_id == flags.id,
            u.username == flags.username,
            u.display_name == session_user.display_name,
            u.role == flags.role_code,
            u.is_active == flags.is_active,
            u.must_change_password == flags.must_change_password,
    {
        CurrentUserDto {
            user_id: flags.id,
            username: flags.username,
            display_name: session_user.display_name.clone(),
            role: flags.role_code,
            is_active: flags.is_active,
            must_change_password: flags.must_change_password,
        }
    }

    /// A blocked user is refused (audit reason `inactive_user`).
    pub fn require_active_user(current_user: &CurrentUserDto, operation: ProtectedOperation) -> (r: Result<(), AccessDenial>)
        ensures
            r is Ok <==> current_user.is_active,
            r matches Err(d) ==> d.error@ == err_view(access_denied_code(), blocked_account_message())
                && denial_audit_ok(d, operation, "inactive_user"@, None),
    {
        if current_user.is_active {
            return Ok(());
        }
        Err(denial(operation, AppErrorDto::access_denied("Учётная запись заблокирована."), "inactive_user", None))
    }

    /// A user who must still change a temporary password is refused (audit
    /// reason `password_change_required`).
    pub fn require_password_change_resolved(current_user: &CurrentUserDto, operation: ProtectedOperation) -> (r: Result<(), AccessDenial>)
        ensures
            r is Ok <==> !current_user.must_change_password,
            r matches Err(d) ==> d.error@ == err_view(password_change_required_code(), password_change_required_message())
                && denial_audit_ok(d, operation, "password_change_required"@, None),
    {
        if !current_user.must_change_password {
            return Ok(());
        }
        Err(denial(operation, AppErrorDto::password_change_required(), "password_change_required", None))
    }

    /// The checks of a protected operation after the user has been loaded, in
    /// order: active account, no pending password change, permission.
    pub fn check_operation(
        policy: Option<SettingsAccessPolicy>,
        current_user: &CurrentUserDto,
        operation: ProtectedOperation,
    ) -> (r: Result<(), AccessDenial>)
        ensures
            r is Ok <==> (current_user.is_active && !current_user.must_change_password && decide_spec(
                policy,
                current_user.role@,
                operation,
            ) is Allow),
            !current_user.is_active ==> (r matches Err(d) && d.error@ == err_view(access_denied_code(), blocked_account_message())
                && denial_audit_ok(d, operation, "inactive_user"@, None)),
            current_user.is_active && current_user.must_change_password ==> (r matches Err(d) && d.error@ == err_view(
                password_change_required_code(),
                password_change_required_message(),
            ) && denial_audit_ok(d, operation, "password_change_required"@, None)),
            current_user.is_active && !current_user.must_change_password ==> match decide_spec(policy, current_user.role@, operation) {
                PermissionDecision::Allow => r is Ok,
                PermissionDecision::Deny { reason, message } => r matches Err(d) && d.error@ == err_view(
                    access_denied_code(),
                    message@,
                ) && denial_audit_ok(d, operation, deny_reason_text(reason).0, deny_reason_text(reason).1),
            },
    {
        Self::require_active_user(current_user, operation)?;
        Self::require_password_change_resolved(current_user, operation)?;
        PolicyAwarePermissionGuard::require(policy, current_user, operation)
    }

    /// The check of a command open to any signed-in user: the account is active.
    pub fn check_authenticated(current_user: &CurrentUserDto) -> (r: Result<(), AccessDenial>)
        ensures
            r is Ok <==> current_user.is_active,
            r matches Err(d) ==> d.error@ == err_view(access_denied_code(), blocked_account_message())
                && denial_audit_ok(d, ProtectedOperation::CaseRead, "inactive_user"@, None),
    {
        Self::require_active_user(current_user, ProtectedOperation::CaseRead)
    }
}

} // verus!
