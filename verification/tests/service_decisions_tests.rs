use casefile::repositories::case_repository::CaseRow;
use casefile::repositories::material_repository::MaterialRow;
use casefile::repositories::relation_repository::{MaterialCaseInfo, ObjectCaseInfo};
use casefile::repositories::user_access_repository::UserAccessFlags;
use casefile::security::protected_operation::ProtectedOperation;
use casefile::security::protected_service_context::ProtectedServiceContext;
use casefile::security::session::{CurrentUserDto, SessionState};
use casefile::services::backup_service::{BackupKind, BackupService};
use casefile::services::case_service::CaseService;
use casefile::services::material_service::{MaterialHashAction, MaterialService, MaterialUpdateAction};
use casefile::services::object_service::{ObjectAuditFields, ObjectService, ObjectUpdateAction};
use casefile::services::protected_policy_guard::ProtectedPolicyGuard;
use casefile::services::protected_service_guard::ProtectedServiceGuard;
use casefile::services::relation_service::RelationService;
use casefile::services::report_draft_service::{report_draft_metrics_from_content, ReportDraftService, ReportRepository};
use casefile::services::settings_access_policy::SettingsAccessPolicy;
use casefile::services::timeline_service::TimelineService;
use casefile::services::user_management_service::UserManagementService;

fn user(role: &str) -> CurrentUserDto {
    CurrentUserDto {
        user_id: format!("user-{role}"),
        username: role.to_string(),
        display_name: role.to_string(),
        role: role.to_string(),
        is_active: true,
        must_change_password: false,
    }
}

fn no_policy() -> SettingsAccessPolicy {
    SettingsAccessPolicy::from_settings(&vec![])
}

fn material(title: &str, in_report: i64, captured_at: Option<&str>) -> MaterialRow {
    MaterialRow {
        id: "m1".into(),
        case_id: "c1".into(),
        material_code: "MAT-001".into(),
        title: title.into(),
        material_type: "document".into(),
        source_name: "src".into(),
        description: "d".into(),
        captured_at: captured_at.map(|s| s.to_string()),
        include_in_report: in_report,
        original_file_name: None,
        original_path: None,
        stored_file_path: None,
        file_size: None,
        mime_type: None,
        sha256: None,
        integrity_status: "ok".into(),
        created_by_user_id: "u".into(),
        created_at: "t".into(),
        updated_at: "t".into(),
    }
}

fn case_row(title: &str, period_end: Option<&str>) -> CaseRow {
    CaseRow {
        id: "c1".into(),
        case_code: "CASE-001".into(),
        title: title.into(),
        subject: "subject".into(),
        description: "".into(),
        status: "draft".into(),
        period_start: None,
        period_end: period_end.map(|s| s.to_string()),
        created_by_user_id: "u".into(),
        created_at: "t".into(),
        updated_at: "t".into(),
    }
}

fn object_fields(title: &str, is_key: bool) -> ObjectAuditFields {
    ObjectAuditFields {
        object_code: "PER-001".into(),
        object_type: "person".into(),
        title: title.into(),
        description: "".into(),
        is_key,
        include_in_report: true,
    }
}

#[test]
fn account_check_refuses_blocked_before_password_change() {
    let flags = |active: bool, must_change: bool| UserAccessFlags {
        id: "u".into(),
        username: "u".into(),
        role_code: "analyst".into(),
        is_active: active,
        must_change_password: must_change,
    };
    let blocked = ProtectedServiceGuard::require_password_change_resolved(&flags(false, true)).err().unwrap();
    assert_eq!(blocked.code, "ERR_ACCESS_DENIED");
    assert_eq!(blocked.message, "Пользователь заблокирован");
    let pending = ProtectedServiceGuard::require_password_change_resolved(&flags(true, true)).err().unwrap();
    assert_eq!(pending.code, "ERR_PASSWORD_CHANGE_REQUIRED");
    assert!(ProtectedServiceGuard::require_password_change_resolved(&flags(true, false)).is_ok());
}

#[test]
fn context_check_refuses_inactive_then_password_change_then_permission() {
    let mut u = user("viewer");
    u.is_active = false;
    let d = ProtectedServiceContext::check_operation(Some(no_policy()), &u, ProtectedOperation::CaseRead).err().unwrap();
    assert_eq!(d.error.message, "Учётная запись заблокирована.");
    let mut u = user("analyst");
    u.must_change_password = true;
    let d = ProtectedServiceContext::check_operation(Some(no_policy()), &u, ProtectedOperation::CaseRead).err().unwrap();
    assert_eq!(d.error.code, "ERR_PASSWORD_CHANGE_REQUIRED");
    let d = ProtectedServiceContext::check_operation(Some(no_policy()), &user("viewer"), ProtectedOperation::CaseCreate)
        .err()
        .unwrap();
    assert_eq!(d.error.code, "ERR_ACCESS_DENIED");
    let details: serde_json::Value = serde_json::from_str(d.audit_details.unwrap().as_json()).unwrap();
    assert_eq!(details["reason"], "role_denied");
    assert!(ProtectedServiceContext::check_operation(Some(no_policy()), &user("analyst"), ProtectedOperation::CaseCreate).is_ok());
}

#[test]
fn restore_recovery_blocks_ordinary_operations_only() {
    assert!(ProtectedServiceContext::require_restore_not_blocking(ProtectedOperation::CaseRead, true).is_err());
    assert!(ProtectedServiceContext::require_restore_not_blocking(ProtectedOperation::BackupRestore, true).is_ok());
    assert!(ProtectedServiceContext::require_restore_not_blocking(ProtectedOperation::CaseRead, false).is_ok());
}

#[test]
fn policy_guard_denial_names_command_and_policy() {
    let d = ProtectedPolicyGuard::require_docx_export_allowed(&user("viewer"), &no_policy()).err().unwrap();
    assert_eq!(d.command, "export_docx");
    assert_eq!(d.policy, "access.viewerCanExportDocx");
    assert_eq!(d.error.message, "Экспорт DOCX недоступен для роли наблюдателя.");
    let d = ProtectedPolicyGuard::require_backup_create_allowed(&user("analyst"), &no_policy()).err().unwrap();
    assert_eq!(d.command, "create_backup");
    assert_eq!(d.policy, "access.analystCanCreateBackup");
    assert!(ProtectedPolicyGuard::require_backup_create_allowed(&user("administrator"), &no_policy()).is_ok());
}

#[test]
fn material_fields_are_trimmed_and_checked_in_order() {
    let f = MaterialService::prepare_create(" c1 ", "  Протокол ", " document ", Some("  ист ".into()), None, Some("   ".into()))
        .ok()
        .unwrap();
    assert_eq!(f.case_id, "c1");
    assert_eq!(f.title, "Протокол");
    assert_eq!(f.source_name, "ист");
    assert_eq!(f.description, "");
    assert_eq!(f.captured_at, None);
    let e = MaterialService::prepare_create("  ", "x", "bogus", None, None, None).err().unwrap();
    assert_eq!(e.message, "Не указан идентификатор дела.");
    let e = MaterialService::prepare_create("c1", "x", "document", None, None, None).err().unwrap();
    assert_eq!(e.message, "Название материала должно содержать минимум 2 символа.");
    let e = MaterialService::prepare_create("c1", "xy", "bogus", None, None, None).err().unwrap();
    assert_eq!(e.message, "Недопустимый тип материала.");
    let e = MaterialService::prepare_update("c1", " ", "xy", "document", None, None, None).err().unwrap();
    assert_eq!(e.message, "Не указан идентификатор материала.");
}

#[test]
fn material_update_audit_distinguishes_report_flag_toggle() {
    let old = material("A", 0, None);
    let toggled = material("A", 1, None);
    let changed = MaterialService::material_changed_fields(&old, &toggled);
    assert_eq!(changed, vec!["includeInReport"]);
    assert_eq!(MaterialService::material_update_action(&changed), Some(MaterialUpdateAction::ReportIncludeChanged));
    let edited = material("B", 1, Some("2024-01-01"));
    let changed = MaterialService::material_changed_fields(&old, &edited);
    assert_eq!(changed, vec!["title", "capturedAt", "includeInReport"]);
    assert_eq!(MaterialService::material_update_action(&changed), Some(MaterialUpdateAction::Updated));
    let same = MaterialService::material_changed_fields(&old, &material("A", 0, None));
    assert_eq!(MaterialService::material_update_action(&same), None);
    assert_eq!(MaterialService::hash_check_action("ok"), MaterialHashAction::Verified);
    assert_eq!(MaterialService::hash_check_action("mismatch"), MaterialHashAction::Mismatch);
}

#[test]
fn object_defaults_and_update_audit() {
    let f = ObjectService::prepare_create(" c1 ", "person", " Иванов ", None, None, None, None, None).ok().unwrap();
    assert_eq!(f.case_id, "c1");
    assert_eq!(f.title, "Иванов");
    assert!(!f.is_key);
    assert!(f.include_in_report);
    let e = ObjectService::prepare_create("", "person", "x", None, None, None, None, None).err().unwrap();
    assert_eq!(e.code, "ERR_CASE_REQUIRED");
    let changed = ObjectService::object_changed_fields(&object_fields("A", false), &object_fields("A", true));
    assert_eq!(changed, vec!["isKeyObject"]);
    assert_eq!(ObjectService::object_update_action(&changed), Some(ObjectUpdateAction::KeyFlagChanged));
    let changed = ObjectService::object_changed_fields(&object_fields("A", false), &object_fields("B", true));
    assert_eq!(changed, vec!["title", "isKeyObject"]);
    assert_eq!(ObjectService::object_update_action(&changed), Some(ObjectUpdateAction::Updated));
}

#[test]
fn relation_ids_and_scope_checks() {
    let e = RelationService::prepare_create_ids("c1", " o1 ", "o1").err().unwrap();
    assert_eq!(e.code, "ERR_RELATION_SELF_LINK");
    let e = RelationService::prepare_create_ids("c1", " ", "o1").err().unwrap();
    assert_eq!(e.code, "ERR_SOURCE_OBJECT_REQUIRED");
    let (c, s, t) = RelationService::prepare_create_ids(" c1", "o1 ", " o2").ok().unwrap();
    assert_eq!((c.as_str(), s.as_str(), t.as_str()), ("c1", "o1", "o2"));
    let info = |case_id: &str| Some(ObjectCaseInfo { id: "o".into(), case_id: case_id.into() });
    assert_eq!(RelationService::check_endpoints_in_case("c1", &None, &info("c1")).err().unwrap().message, "Первый объект не найден.");
    assert_eq!(RelationService::check_endpoints_in_case("c1", &info("c1"), &None).err().unwrap().message, "Второй объект не найден.");
    assert_eq!(
        RelationService::check_endpoints_in_case("c1", &info("c1"), &info("c2")).err().unwrap().code,
        "ERR_RELATION_OBJECT_CASE_MISMATCH"
    );
    assert!(RelationService::check_endpoints_in_case("c1", &info("c1"), &info("c1")).is_ok());
    let mat = Some(MaterialCaseInfo { id: "m".into(), case_id: "c2".into() });
    assert!(RelationService::check_supporting_material("c1", &None, &mat).is_ok());
    assert_eq!(
        RelationService::check_supporting_material("c1", &Some("m".into()), &mat).err().unwrap().code,
        "ERR_RELATION_MATERIAL_CASE_MISMATCH"
    );
    assert_eq!(RelationService::check_supporting_material("c1", &Some("m".into()), &None).err().unwrap().code, "ERR_MATERIAL_NOT_FOUND");
    assert!(RelationService::include_in_report_or_default(None));
    assert!(!RelationService::include_in_report_or_default(Some(false)));
}

#[test]
fn case_updates_normalize_and_list_changes() {
    let f = CaseService::prepare_create(" Дело о краже ", " Иванов ", Some(" описание ".into()), Some(" 2024-01-01".into()), None)
        .ok()
        .unwrap();
    assert_eq!(f.title, "Дело о краже");
    assert_eq!(f.description, "описание");
    assert_eq!(f.period_start.as_deref(), Some(" 2024-01-01"));
    let rec = CaseService::prepare_update(" c1 ", "Дело", "Суб", None, Some(" 2024-01-01 ".into()), Some("".into())).ok().unwrap();
    assert_eq!(rec.case_id, "c1");
    assert_eq!(rec.period_start.as_deref(), Some("2024-01-01"));
    assert_eq!(rec.period_end, None);
    let e = CaseService::prepare_update("  ", "Дело", "Суб", None, None, None).err().unwrap();
    assert_eq!(e.message, "Не указан идентификатор дела.");
    let e = CaseService::prepare_create("Дело", "Суб", None, Some("2024-02-01".into()), Some("2024-01-01".into())).err().unwrap();
    assert_eq!(e.message, "Дата начала периода не может быть позже даты окончания.");
    let changed = CaseService::case_changed_fields(&case_row("A", None), &case_row("B", Some("2024-12-31")));
    assert_eq!(changed, vec!["title", "periodEnd"]);
    assert_eq!(CaseService::require_case_found(false).err().unwrap().code, "ERR_CASE_NOT_FOUND");
}

#[test]
fn timeline_link_checks_report_first_foreign_object_then_material() {
    let e = TimelineService::check_event_links(&vec![true, false], &vec![false], false).err().unwrap();
    assert_eq!(e.code, "ERR_EVENT_OBJECT_NOT_IN_CASE");
    let e = TimelineService::check_event_links(&vec![true], &vec![true, false], true).err().unwrap();
    assert_eq!(e.code, "ERR_EVENT_MATERIAL_CASE_MISMATCH");
    assert!(TimelineService::check_event_links(&vec![], &vec![], false).is_ok());
}

#[test]
fn timeline_editors_exclude_viewers() {
    let e = TimelineService::require_event_editor(None, "нет").err().unwrap();
    assert_eq!(e.code, "ERR_UNAUTHORIZED");
    let e = TimelineService::require_event_editor(Some(user("viewer")), "Недостаточно прав для изменения события").err().unwrap();
    assert_eq!(e.message, "Недостаточно прав для изменения события");
    assert!(TimelineService::require_event_editor(Some(user("analyst")), "x").is_ok());
    assert!(TimelineService::require_report_flag_editor(Some(user("viewer"))).is_err());
    assert_eq!(TimelineService::require_report_flag_editor(None).err().unwrap().message, "Пользователь не авторизован");
}

#[test]
fn timeline_audit_values_are_json_objects() {
    let v: serde_json::Value =
        serde_json::from_str(&TimelineService::created_event_value("EVT-001", "Встреча \"A\"", "meeting", "2024-05-01", true)).unwrap();
    assert_eq!(v["eventCode"], "EVT-001");
    assert_eq!(v["title"], "Встреча \"A\"");
    assert_eq!(v["includeInReport"], true);
    assert_eq!(v.as_object().unwrap().len(), 5);
    assert_eq!(TimelineService::archived_value(), "{\"archived\":true}");
    assert_eq!(TimelineService::report_flag_value(false), "{\"includeInReport\":false}");
    let v: serde_json::Value = serde_json::from_str(&TimelineService::deleted_event_value("EVT-2", "t", "d")).unwrap();
    assert_eq!(v.as_object().unwrap().len(), 3);
}

#[test]
fn report_draft_metrics_and_changes() {
    let old = ReportRepository::get_report_draft_by_id("d1").ok().unwrap();
    assert_eq!(old.id, "d1");
    assert_eq!(old.case_id, "case-stub-id");
    let m = report_draft_metrics_from_content(&old.content);
    assert_eq!((m.section_count, m.character_count, m.included_materials_count), (1, 8, 1));
    let mut new = old.clone();
    new.title = "Новая".into();
    new.content.sections[0].content.push_str("!!");
    assert_eq!(ReportDraftService::changed_fields(&old, &new), vec!["title", "characterCount"]);
    assert_eq!(ReportRepository::generate_draft("c", "t", "r").ok().unwrap(), "mock-draft-id");
}

#[test]
fn docx_validation_needs_export_permission() {
    let draft = ReportRepository::get_report_draft_by_id("d1").ok().unwrap();
    assert!(ReportDraftService::validate_report_draft_for_docx(Some(no_policy()), &user("viewer"), &draft).is_err());
    let ok = ReportDraftService::validate_report_draft_for_docx(Some(no_policy()), &user("analyst"), &draft).ok().unwrap();
    assert!(ok.is_valid && ok.warnings.is_empty() && ok.errors.is_empty());
}

#[test]
fn backup_file_names_and_permissions() {
    assert_eq!(BackupService::backup_file_name(&BackupKind::Full, "b1", ""), "casegraph-backup-b1.sqlite");
    assert_eq!(BackupService::backup_file_name(&BackupKind::Case, "b1", "c9"), "casegraph-case-backup-c9-b1.sqlite");
    assert_eq!(BackupService::backup_file_name(&BackupKind::Safety, "b1", ""), "casegraph-safety-b1.sqlite");
    assert_eq!(BackupService::required_operation(BackupKind::Safety, false), ProtectedOperation::BackupRestore);
    assert_eq!(BackupService::required_operation(BackupKind::Full, false), ProtectedOperation::BackupCreate);
    let r = BackupService::backup_response(&BackupKind::Full, "b1", "", "1700000000");
    assert_eq!(r.file_size_bytes, 0);
    assert_eq!(r.created_at, "1700000000");
}

#[test]
fn user_listing_is_admin_only_with_clamped_paging() {
    let mut session = SessionState::new();
    assert_eq!(UserManagementService::require_user_management_admin(&session).err().unwrap().code, "ERR_UNAUTHORIZED");
    session.set_current_user(user("analyst"));
    assert_eq!(UserManagementService::require_user_management_admin(&session).err().unwrap().code, "ERR_ACCESS_DENIED");
    session.set_current_user(user("administrator"));
    assert!(UserManagementService::require_user_management_admin(&session).is_ok());
    assert_eq!(UserManagementService::normalize_limit(None), 50);
    assert_eq!(UserManagementService::normalize_limit(Some(0)), 1);
    assert_eq!(UserManagementService::normalize_limit(Some(500)), 200);
    assert_eq!(UserManagementService::normalize_offset(Some(-3)), 0);
    assert!(UserManagementService::validate_role_filter(Some("viewer")).is_ok());
    assert!(UserManagementService::validate_role_filter(Some("root")).is_err());
    assert!(UserManagementService::validate_status_filter(Some("blocked")).is_ok());
    assert!(UserManagementService::validate_status_filter(Some("deleted")).is_err());
}

#[test]
fn command_identifiers_are_trimmed_and_required_in_order() {
    assert_eq!(ObjectService::object_ids(" ", "o1").err().unwrap().code, "ERR_CASE_REQUIRED");
    assert_eq!(ObjectService::object_ids("c1", " ").err().unwrap().code, "ERR_OBJECT_REQUIRED");
    assert_eq!(ObjectService::object_ids(" c1 ", " o1 ").ok().unwrap(), ("c1".to_string(), "o1".to_string()));
    assert_eq!(RelationService::relation_ids("c1", "").err().unwrap().message, "Не выбрана связь.");
    assert_eq!(TimelineService::event_ids("", "e1").err().unwrap().code, "ERR_INVALID_CASE_ID");
    assert_eq!(TimelineService::event_ids("c1", "  ").err().unwrap().code, "ERR_INVALID_EVENT_ID");
    assert_eq!(MaterialService::prepare_delete(" c1", " m1 ").ok().unwrap(), ("c1".to_string(), "m1".to_string()));
    assert_eq!(MaterialService::prepare_delete("c1", " ").err().unwrap().message, "Не указан идентификатор материала.");
}

#[test]
fn object_links_are_deduplicated_and_reason_trimmed() {
    let (ids, reason) =
        ObjectService::prepare_material_links(vec![" m2".into(), "m1".into(), "m2 ".into(), " ".into()], Some("  по протоколу ".into()))
            .ok()
            .unwrap();
    assert_eq!(ids, vec!["m1", "m2"]);
    assert_eq!(reason, "по протоколу");
    let f = ObjectService::prepare_update(" Новое имя ", None, None, None).ok().unwrap();
    assert_eq!(f.title, "Новое имя");
    assert_eq!(f.value, None);
}
