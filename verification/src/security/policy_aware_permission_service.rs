//! Role- and policy-aware permission decisions for protected operations.

use vstd::prelude::*;

use crate::models::settings_catalog::{KEY_ACCESS_ANALYST_CAN_CREATE_BACKUP, KEY_ACCESS_VIEWER_CAN_EXPORT_DOCX};
use crate::security::permission_decision::{PermissionDecision, PermissionDenyReason};
use crate::security::protected_operation::ProtectedOperation;
use crate::security::session::{role_administrator, role_analyst, role_viewer, CurrentUserDto};
use crate::services::settings_access_policy::SettingsAccessPolicy;

verus! {

pub open spec fn role_denied_spec(message: &'static str) -> PermissionDecision {
    PermissionDecision::Deny { reason: PermissionDenyReason::RoleDenied, message }
}

pub open spec fn policy_denied_spec(policy_key: &'static str, message: &'static str) -> PermissionDecision {
    PermissionDecision::Deny { reason: PermissionDenyReason::PolicyDenied { policy_key }, message }
}

pub open spec fn is_admin_or_analyst(role: Seq<char>) -> bool {
    role == role_administrator() || role == role_analyst()
}

pub open spec fn docx_export_spec(policy: Option<SettingsAccessPolicy>, role: Seq<char>) -> PermissionDecision {
    if is_admin_or_analyst(role) {
        PermissionDecision::Allow
    } else if role == role_viewer() {
        match policy {
            Some(p) => if p.viewer_can_export_docx {
                PermissionDecision::Allow
            } else {
                policy_denied_spec(KEY_ACCESS_VIEWER_CAN_EXPORT_DOCX, "Экспорт DOCX запрещён текущей политикой доступа.")
            },
            None => policy_denied_spec(KEY_ACCESS_VIEWER_CAN_EXPORT_DOCX, "Не удалось проверить политику доступа к DOCX export."),
        }
    } else {
        role_denied_spec("Недостаточно прав для экспорта DOCX.")
    }
}

pub open spec fn backup_create_spec(policy: Option<SettingsAccessPolicy>, role: Seq<char>) -> PermissionDecision {
    if role == role_administrator() {
        PermissionDecision::Allow
    } else if role == role_analyst() {
        match policy {
            Some(p) => if p.analyst_can_create_backup {
                PermissionDecision::Allow
            } else {
                policy_denied_spec(KEY_ACCESS_ANALYST_CAN_CREATE_BACKUP, "Создание backup запрещено текущей политикой доступа.")
            },
            None => policy_denied_spec(KEY_ACCESS_ANALYST_CAN_CREATE_BACKUP, "Не удалось проверить политику доступа к backup."),
        }
    } else {
        role_denied_spec("Недостаточно прав для создания backup.")
    }
}

pub open spec fn administrator_only_spec(role: Seq<char>) -> PermissionDecision {
    if role == role_administrator() {
        PermissionDecision::Allow
    } else {
        role_denied_spec("Действие доступно только администратору.")
    }
}

pub open spec fn analyst_or_admin_spec(role: Seq<char>) -> PermissionDecision {
    if is_admin_or_analyst(role) {
        PermissionDecision::Allow
    } else {
        role_denied_spec("Недостаточно прав для выполнения действия.")
    }
}

pub open spec fn audit_log_read_spec(role: Seq<char>) -> PermissionDecision {
    if is_admin_or_analyst(role) {
        PermissionDecision::Allow
    } else {
        role_denied_spec("Недостаточно прав для просмотра журнала.")
    }
}

/// Read operations, open to every signed-in user.
pub open spec fn is_read_operation(op: ProtectedOperation) -> bool {
    match op {
        ProtectedOperation::CaseRead | ProtectedOperation::MaterialRead | ProtectedOperation::ObjectRead
        | ProtectedOperation::RelationRead | ProtectedOperation::TimelineRead
        | ProtectedOperation::ReportDraftRead | ProtectedOperation::BackupRead
        | ProtectedOperation::IntegrityCheckRead => true,
        _ => false,
    }
}

/// The permission decision for a role; `policy` is the access policy as read
/// from the settings, or `None` when it could not be read.
pub open spec fn decide_spec(policy: Option<SettingsAccessPolicy>, role: Seq<char>, op: ProtectedOperation) -> PermissionDecision {
    match op {
        ProtectedOperation::DocxExport => docx_export_spec(policy, role),
        ProtectedOperation::BackupCreate => backup_create_spec(policy, role),
        ProtectedOperation::BackupRestore | ProtectedOperation::SettingsRead | ProtectedOperation::SettingsUpdate
        | ProtectedOperation::UserManage => administrator_only_spec(role),
        ProtectedOperation::AuditLogRead => audit_log_read_spec(role),
        ProtectedOperation::CaseRead | ProtectedOperation::MaterialRead | ProtectedOperation::ObjectRead
        | ProtectedOperation::RelationRead | ProtectedOperation::TimelineRead
        | ProtectedOperation::ReportDraftRead | ProtectedOperation::BackupRead
        | ProtectedOperation::IntegrityCheckRead => PermissionDecision::Allow,
        _ => analyst_or_admin_spec(role),
    }
}

pub struct PolicyAwarePermissionService;

impl PolicyAwarePermissionService {
    /// Decides whether `user` may perform `operation`. Only the user's role and,
    /// for DOCX export by viewers and backup creation by analysts, the access
    /// policy are consulted; `policy` is `None` when the policy could not be read.
    pub fn decide(
        policy: Option<SettingsAccessPolicy>,
        user: &CurrentUserDto,
        operation: ProtectedOperation,
    ) -> (d: PermissionDecision)
        ensures
            d == decide_spec(policy, user.role@, operation),
    {
        match operation {
            ProtectedOperation::DocxExport => Self::decide_docx_export(policy, user),
            ProtectedOperation::BackupCreate => Self::decide_backup_create(policy, user),
            ProtectedOperation::BackupRestore => Self::administrator_only(user),
            ProtectedOperation::SettingsRead => Self::administrator_only(user),
            ProtectedOperation::SettingsUpdate => Self::administrator_only(user),
            ProtectedOperation::UserManage => Self::administrator_only(user),
            ProtectedOperation::AuditLogRead => Self::audit_log_read(user),
            ProtectedOperation::CaseRead | ProtectedOperation::MaterialRead | ProtectedOperation::ObjectRead
            | ProtectedOperation::RelationRead | ProtectedOperation::TimelineRead
            | ProtectedOperation::ReportDraftRead | ProtectedOperation::BackupRead
            | ProtectedOperation::IntegrityCheckRead => PermissionDecision::Allow,
            ProtectedOperation::CaseCreate | ProtectedOperation::CaseUpdate | ProtectedOperation::MaterialImport
            | ProtectedOperation::MaterialUpdate | ProtectedOperation::ObjectCreate
            | ProtectedOperation::ObjectUpdate | ProtectedOperation::RelationCreate
            | ProtectedOperation::RelationUpdate | ProtectedOperation::TimelineCreate
            | ProtectedOperation::TimelineUpdate | ProtectedOperation::ReportDraftGenerate
            | ProtectedOperation::ReportDraftUpdate | ProtectedOperation::IntegrityCheckRun
            | ProtectedOperation::BackupVerify => Self::analyst_or_admin(user),
        }
    }

    fn decide_docx_export(policy: Option<SettingsAccessPolicy>, user: &CurrentUserDto) -> (d: PermissionDecision)
        ensures
            d == docx_export_spec(policy, user.role@),
    {
        if user.is_administrator() || user.is_analyst() {
            return PermissionDecision::Allow;
        }
        if user.is_viewer() {
            match policy {
                Some(p) => {
                    if p.viewer_can_export_docx {
                        return PermissionDecision::Allow;
                    }
                    return PermissionDecision::Deny {
                        reason: PermissionDenyReason::PolicyDenied { policy_key: KEY_ACCESS_VIEWER_CAN_EXPORT_DOCX },
                        message: "Экспорт DOCX запрещён текущей политикой доступа.",
                    };
                },
                None => {
                    return PermissionDecision::Deny {
                        reason: PermissionDenyReason::PolicyDenied { policy_key: KEY_ACCESS_VIEWER_CAN_EXPORT_DOCX },
                        message: "Не удалось проверить политику доступа к DOCX export.",
                    };
                },
            }
        }
        Self::role_denied("Недостаточно прав для экспорта DOCX.")
    }

    fn decide_backup_create(policy: Option<SettingsAccessPolicy>, user: &CurrentUserDto) -> (d: PermissionDecision)
        ensures
            d == backup_create_spec(policy, user.role@),
    {
        if user.is_administrator() {
            return PermissionDecision::Allow;
        }
        if user.is_analyst() {
            match policy {
                Some(p) => {
                    if p.analyst_can_create_backup {
                        return PermissionDecision::Allow;
                    }
                    return PermissionDecision::Deny {
                        reason: PermissionDenyReason::PolicyDenied { policy_key: KEY_ACCESS_ANALYST_CAN_CREATE_BACKUP },
                        message: "Создание backup запрещено текущей политикой доступа.",
                    };
                },
                None => {
                    return PermissionDecision::Deny {
                        reason: PermissionDenyReason::PolicyDenied { policy_key: KEY_ACCESS_ANALYST_CAN_CREATE_BACKUP },
                        message: "Не удалось проверить политику доступа к backup.",
                    };
                },
            }
        }
        Self::role_denied("Недостаточно прав для создания backup.")
    }

    fn administrator_only(user: &CurrentUserDto) -> (d: PermissionDecision)
        ensures
            d == administrator_only_spec(user.role@),
    {
        if user.is_administrator() {
            PermissionDecision::Allow
        } else {
            Self::role_denied("Действие доступно только администратору.")
        }
    }

    fn analyst_or_admin(user: &CurrentUserDto) -> (d: PermissionDecision)
        ensures
            d == analyst_or_admin_spec(user.role@),
    {
        if user.is_administrator() || user.is_analyst() {
            PermissionDecision::Allow
        } else {
            Self::role_denied("Недостаточно прав для выполнения действия.")
        }
    }

    fn audit_log_read(user: &CurrentUserDto) -> (d: PermissionDecision)
        ensures
            d == audit_log_read_spec(user.role@),
    {
        if user.is_administrator() || user.is_analyst() {
            PermissionDecision::Allow
        } else {
            Self::role_denied("Недостаточно прав для просмотра журнала.")
        }
    }

    fn role_denied(message: &'static str) -> (d: PermissionDecision)
        ensures
            d == role_denied_spec(message),
    {
        PermissionDecision::Deny { reason: PermissionDenyReason::RoleDenied, message }
    }
}

/// The three role names are distinct.
pub proof fn lemma_roles_distinct()
    ensures
        role_administrator() != role_analyst(),
        role_administrator() != role_viewer(),
        role_analyst() != role_viewer(),
{
    reveal_strlit("administrator");
    reveal_strlit("analyst");
    reveal_strlit("viewer");
    assert(role_administrator().len() != role_analyst().len());
    assert(role_administrator().len() != role_viewer().len());
    assert(role_analyst().len() != role_viewer().len());
}

/// An administrator may perform every operation, whatever the policy.
pub proof fn lemma_administrator_allowed_everything(policy: Option<SettingsAccessPolicy>, op: ProtectedOperation)
    ensures
        decide_spec(policy, role_administrator(), op) is Allow,
{
}

/// Every signed-in user may perform read operations, whatever the role or policy.
pub proof fn lemma_reads_open_to_everyone(policy: Option<SettingsAccessPolicy>, role: Seq<char>, op: ProtectedOperation)
    requires
        is_read_operation(op),
    ensures
        decide_spec(policy, role, op) is Allow,
{
}

/// Roles are ordered: whatever a viewer may do an analyst may do, and whatever
/// an analyst may do an administrator may do.
pub proof fn lemma_role_hierarchy(policy: Option<SettingsAccessPolicy>, op: ProtectedOperation)
    ensures
        decide_spec(policy, role_viewer(), op) is Allow ==> decide_spec(policy, role_analyst(), op) is Allow,
        decide_spec(policy, role_analyst(), op) is Allow ==> decide_spec(policy, role_administrator(), op) is Allow,
{
    lemma_roles_distinct();
}

/// The access policy matters only for DOCX export by a viewer and for backup
/// creation by an analyst; every other decision is the same under any policy.
pub proof fn lemma_policy_scope(
    p1: Option<SettingsAccessPolicy>,
    p2: Option<SettingsAccessPolicy>,
    role: Seq<char>,
    op: ProtectedOperation,
)
    requires
        !(op == ProtectedOperation::DocxExport && role == role_viewer()),
        !(op == ProtectedOperation::BackupCreate && role == role_analyst()),
    ensures
        decide_spec(p1, role, op) == decide_spec(p2, role, op),
{
    lemma_roles_distinct();
}

/// A policy denial names the switch that caused it: the viewer DOCX switch for
/// DOCX export, the analyst backup switch for backup creation.
pub proof fn lemma_policy_denials(policy: Option<SettingsAccessPolicy>, role: Seq<char>, op: ProtectedOperation)
    ensures
        decide_spec(policy, role, op) matches PermissionDecision::Deny {
            reason: PermissionDenyReason::PolicyDenied { policy_key },
            ..
        } ==> (op == ProtectedOperation::DocxExport && role == role_viewer() && policy_key
            == KEY_ACCESS_VIEWER_CAN_EXPORT_DOCX) || (op == ProtectedOperation::BackupCreate && role
            == role_analyst() && policy_key == KEY_ACCESS_ANALYST_CAN_CREATE_BACKUP),
{
    lemma_roles_distinct();
}

/// Turning a policy switch on never takes a permission away.
pub proof fn lemma_policy_monotone(
    p1: SettingsAccessPolicy,
    p2: SettingsAccessPolicy,
    role: Seq<char>,
    op: ProtectedOperation,
)
    requires
        p1.viewer_can_export_docx ==> p2.viewer_can_export_docx,
        p1.analyst_can_create_backup ==> p2.analyst_can_create_backup,
    ensures
        decide_spec(Some(p1), role, op) is Allow ==> decide_spec(Some(p2), role, op) is Allow,
{
}

} // verus!
