//! Turns a permission decision into a result, with the audit details of a refusal.

use vstd::prelude::*;

use crate::audit::audit_metadata::{access_denied_details, access_denied_json, AuditDetails};
use crate::error::{access_denied_code, err_view, AppErrorDto, AppErrorView};
use crate::security::permission_decision::{PermissionDecision, PermissionDenyReason};
use crate::security::policy_aware_permission_service::{decide_spec, PolicyAwarePermissionService};
use crate::security::protected_operation::{action_name_spec, ProtectedOperation};
use crate::security::session::CurrentUserDto;
use crate::services::settings_access_policy::SettingsAccessPolicy;

verus! {

/// A refused access: the error for the caller and, when they could be built,
/// the details of the `access_denied` audit entry to write.
pub struct AccessDenial {
    pub error: AppErrorDto,
    pub audit_details: Option<AuditDetails>,
}

/// The refusal carries audit details, and they are those of `reason` (and `policy_key`) for `operation`.
pub open spec fn denial_audit_ok(
    d: AccessDenial,
    operation: ProtectedOperation,
    reason: Seq<char>,
    policy_key: Option<Seq<char>>,
) -> bool {
    d.audit_details matches Some(a) && a@ == access_denied_json(action_name_spec(operation)@, reason, policy_key)
}

/// The audit reason and policy key recorded for a denial reason.
pub open spec fn deny_reason_text(reason: PermissionDenyReason) -> (Seq<char>, Option<Seq<char>>) {
    match reason {
        PermissionDenyReason::RoleDenied => ("role_denied"@, None),
        PermissionDenyReason::PolicyDenied { policy_key } => ("policy_denied"@, Some(policy_key@)),
    }
}

/// Builds a denial for `operation` with the given error and audit reason.
pub fn denial(operation: ProtectedOperation, error: AppErrorDto, reason: &str, policy_key: Option<&str>) -> (d: AccessDenial)
    ensures
        d.error@ == error@,
        d.audit_details is Some,
        denial_audit_ok(d, operation, reason@, crate::audit::audit_metadata::opt_str_view(policy_key)),
{
    let details = match access_denied_details(operation.action_name(), reason, policy_key) {
        Ok(details) => Some(details),
        Err(_) => None,
    };
    AccessDenial { error, audit_details: details }
}

pub struct PolicyAwarePermissionGuard;

impl PolicyAwarePermissionGuard {
    /// Allows the operation when the permission decision allows it; otherwise
    /// refuses with `ERR_ACCESS_DENIED` and the decision's message, and the audit
    /// details name the reason (`role_denied`, or `policy_denied` with the key).
    pub fn require(
        policy: Option<SettingsAccessPolicy>,
        user: &CurrentUserDto,
        operation: ProtectedOperation,
    ) -> (r: Result<(), AccessDenial>)
        ensures
            match decide_spec(policy, user.role@, operation) {
                PermissionDecision::Allow => r is Ok,
                PermissionDecision::Deny { reason, message } => r matches Err(d) && d.error@ == err_view(
                    access_denied_code(),
                    message@,
                ) && denial_audit_ok(d, operation, deny_reason_text(reason).0, deny_reason_text(reason).1),
            },
    {
        let decision = PolicyAwarePermissionService::decide(policy, user, operation);
        match decision {
            PermissionDecision::Allow => Ok(()),
            PermissionDecision::Deny { reason, message } => {
                let error = AppErrorDto::access_denied(message);
                match reason {
                    PermissionDenyReason::RoleDenied => Err(denial(operation, error, "role_denied", None)),
                    PermissionDenyReason::PolicyDenied { policy_key } => Err(
                        denial(operation, error, "policy_denied", Some(policy_key)),
                    ),
                }
            },
        }
    }
}

} // verus!
