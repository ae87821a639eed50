//! The two settings-driven permissions: DOCX export for viewers and backup
//! creation for analysts.

use vstd::prelude::*;

use crate::audit::audit_metadata::{policy_denied_details, policy_denied_json};
use crate::error::{access_denied_code, err_view, AppErrorDto, AppErrorView};
use crate::repositories::audit_repository::CreateAuditLogRecord;
use crate::services::audit_service::{AuditService, ACCESS_DENIED_ACTION, AUDIT_RESULT_DENIED, AUDIT_SEVERITY_WARNING};
use crate::security::session::{role_administrator, role_analyst, role_viewer, CurrentUserDto};
use crate::security::permission_decision::PermissionDecision;
use crate::security::policy_aware_permission_service::{decide_spec, lemma_roles_distinct};
use crate::security::protected_operation::ProtectedOperation;
use crate::services::settings_access_policy::SettingsAccessPolicy;

verus! {

/// A refusal by policy: the error for the caller and what the `access_denied`
/// audit entry records (the refused command and the policy key).
pub struct PolicyDenial {
    pub error: AppErrorDto,
    pub command: String,
    pub policy: String,
}

pub open spec fn docx_denied_message() -> Seq<char> {
    "Экспорт DOCX недоступен для роли наблюдателя."@
}

pub open spec fn backup_denied_message() -> Seq<char> {
    "Недостаточно прав для создания резервной копии."@
}

/// Administrators and analysts always export; viewers when the policy lets them.
pub open spec fn docx_export_allowed(role: Seq<char>, policy: SettingsAccessPolicy) -> bool {
    role == role_administrator() || role == role_analyst() || (role == role_viewer() && policy.viewer_can_export_docx)
}

/// Administrators always create backups; analysts when the policy lets them.
pub open spec fn backup_create_allowed(role: Seq<char>, policy: SettingsAccessPolicy) -> bool {
    role == role_administrator() || (role == role_analyst() && policy.analyst_can_create_backup)
}

pub open spec fn denial_is(d: PolicyDenial, message: Seq<char>, command: Seq<char>, policy: Seq<char>) -> bool {
    &&& d.error@ == err_view(access_denied_code(), message)
    &&& d.command@ == command
    &&& d.policy@ == policy
}

/// Applies the access policy stored among the settings.
pub struct ProtectedPolicyGuard;

impl ProtectedPolicyGuard {
    /// DOCX export: refused with command `export_docx` and policy
    /// `access.viewerCanExportDocx` when not allowed.
    pub fn require_docx_export_allowed(current_user: &CurrentUserDto, policy: &SettingsAccessPolicy) -> (r: Result<(), PolicyDenial>)
        ensures
            r is Ok <==> docx_export_allowed(current_user.role@, *policy),
            r matches Err(d) ==> denial_is(d, docx_denied_message(), "export_docx"@, "access.viewerCanExportDocx"@),
    {
        if current_user.is_administrator() || current_user.is_analyst() {
            return Ok(());
        }
        if current_user.is_viewer() && policy.viewer_can_export_docx {
            return Ok(());
        }
        Err(PolicyDenial {
            error: AppErrorDto::access_denied("Экспорт DOCX недоступен для роли наблюдателя."),
            command: "export_docx".to_owned(),
            policy: "access.viewerCanExportDocx".to_owned(),
        })
    }

    /// The `ACCESS_DENIED` audit record of a refusal by policy: entity type
    /// `settings_policy`, result `denied`, severity `warning`, and details
    /// naming the command, the user's role and the policy key.
    pub fn denial_record(current_user: &CurrentUserDto, denial: &PolicyDenial, app_version: &str) -> (r: CreateAuditLogRecord)
        ensures
            r.user_id == Some(current_user.user_id),
            r.username == current_user.username,
            r.user_role == current_user.role,
            r.action@ == ACCESS_DENIED_ACTION@,
            r.entity_type@ == "settings_policy"@,
            r.entity_id is None,
            r.case_id is None,
            r.result@ == AUDIT_RESULT_DENIED@,
            r.severity@ == AUDIT_SEVERITY_WARNING@,
            r.old_value is None,
            r.new_value is None,
            r.technical_details matches Some(t) && t@ == policy_denied_json(denial.command@, current_user.role@, denial.policy@),
            r.app_version@ == app_version@,
    {
        let details = policy_denied_details(denial.command.as_str(), current_user.role.as_str(), denial.policy.as_str());
        AuditService::build_denied_record(current_user, "settings_policy", Some(details.as_json().to_owned()), app_version)
    }

    /// Backup creation: refused with command `create_backup` and policy
    /// `access.analystCanCreateBackup` when not allowed.
    pub fn require_backup_create_allowed(current_user: &CurrentUserDto, policy: &SettingsAccessPolicy) -> (r: Result<(), PolicyDenial>)
        ensures
            r is Ok <==> backup_create_allowed(current_user.role@, *policy),
            r matches Err(d) ==> denial_is(d, backup_denied_message(), "create_backup"@, "access.analystCanCreateBackup"@),
    {
        if current_user.is_administrator() {
            return Ok(());
        }
        if current_user.is_analyst() && policy.analyst_can_create_backup {
            return Ok(());
        }
        Err(PolicyDenial {
            error: AppErrorDto::access_denied("Недостаточно прав для создания резервной копии."),
            command: "create_backup".to_owned(),
            policy: "access.analystCanCreateBackup".to_owned(),
        })
    }
}

/// A viewer never creates a backup, whatever the policy says.
pub proof fn lemma_viewer_never_creates_backup(policy: SettingsAccessPolicy)
    ensures
        !backup_create_allowed(role_viewer(), policy),
{
    lemma_roles_distinct();
}

/// Granting a permission in the policy never takes an allowed action away.
pub proof fn lemma_policy_guard_monotone(role: Seq<char>, p: SettingsAccessPolicy, q: SettingsAccessPolicy)
    requires
        p.viewer_can_export_docx ==> q.viewer_can_export_docx,
        p.analyst_can_create_backup ==> q.analyst_can_create_backup,
    ensures
        docx_export_allowed(role, p) ==> docx_export_allowed(role, q),
        backup_create_allowed(role, p) ==> backup_create_allowed(role, q),
{
}

/// The policy guard and the permission decision agree: with the policy read
/// from the settings, DOCX export and backup creation are allowed by one
/// exactly when they are allowed by the other.
pub proof fn lemma_guard_agrees_with_permission_decision(role: Seq<char>, policy: SettingsAccessPolicy)
    ensures
        docx_export_allowed(role, policy) <==> decide_spec(Some(policy), role, ProtectedOperation::DocxExport) == PermissionDecision::Allow,
        backup_create_allowed(role, policy) <==> decide_spec(Some(policy), role, ProtectedOperation::BackupCreate) == PermissionDecision::Allow,
{
    lemma_roles_distinct();
}

} // verus!
