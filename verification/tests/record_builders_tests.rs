use casefile::audit::audit_metadata::{draft_validated_details, exported_count_details};
use casefile::repositories::relation_repository::{MaterialCaseInfo, ObjectCaseInfo};
use casefile::repositories::settings_repository::parse_bool;
use casefile::security::session::CurrentUserDto;
use casefile::services::audit_service::AuditService;
use casefile::services::material_service::MaterialService;
use casefile::services::object_validation::normalize_object_type;
use casefile::services::protected_policy_guard::ProtectedPolicyGuard;
use casefile::services::relation_service::RelationService;
use casefile::services::settings_access_policy::SettingsAccessPolicy;
use casefile::services::settings_path_validator::{validate_chosen_directory, validate_selected_settings_path};
use casefile::services::settings_service::SettingsService;
use casefile::services::settings_validator::{validate_path, web_url};
use casefile::storage::material_file_storage::ImportedMaterialFile;

fn user(role: &str) -> CurrentUserDto {
    CurrentUserDto {
        user_id: format!("user-{role}"),
        username: role.to_string(),
        display_name: role.to_string(),
        role: role.to_string(),
        is_active: true,
        must_change_password: false,
    }
}

fn ok<T, E>(r: Result<T, E>) -> T {
    match r {
        Ok(v) => v,
        Err(_) => panic!("expected success"),
    }
}

fn err<T, E>(r: Result<T, E>) -> E {
    match r {
        Ok(_) => panic!("expected an error"),
        Err(e) => e,
    }
}

fn pair(k: &str, v: &str) -> (String, String) {
    (k.to_string(), v.to_string())
}

#[test]
fn valid_settings_are_returned_in_order() {
    let pairs = vec![pair("backup.verify_after_create", "false"), pair("docx.default_template", "extended-report")];
    let rows = ok(SettingsService::validated_settings_rows(&pairs));
    assert_eq!(rows, pairs);
}

#[test]
fn first_invalid_setting_is_reported() {
    let pairs = vec![
        pair("backup.verify_after_create", "true"),
        pair("backup.default_dir", "https://example.com"),
        pair("unknown.key", "x"),
    ];
    let e = err(SettingsService::validated_settings_rows(&pairs));
    assert_eq!(e.code, "ERR_VALIDATION");
    assert!(validate_path("https://example.com").is_err());
    let err2 = err(SettingsService::validated_settings_rows(&vec![pair("unknown.key", "x")]));
    assert_eq!(err2.message, "Неизвестный ключ настройки: unknown.key");
}

#[test]
fn empty_settings_list_is_valid() {
    assert_eq!(ok(SettingsService::validated_settings_rows(&Vec::new())), Vec::<(String, String)>::new());
}

#[test]
fn imported_file_fields_are_ok() {
    let file = ImportedMaterialFile {
        original_file_name: "a.pdf".into(),
        original_path: "/in/a.pdf".into(),
        stored_file_path: "/store/a.pdf".into(),
        file_size: 42,
        mime_type: Some("application/pdf".into()),
        sha256: "ab".repeat(32),
    };
    let f = MaterialService::file_fields(Some(file));
    assert_eq!(f.original_file_name.as_deref(), Some("a.pdf"));
    assert_eq!(f.stored_file_path.as_deref(), Some("/store/a.pdf"));
    assert_eq!(f.file_size, Some(42));
    assert_eq!(f.integrity_status, "ok");
    let none = MaterialService::file_fields(None);
    assert!(none.sha256.is_none() && none.original_path.is_none());
    assert_eq!(none.integrity_status, "not_checked");
}

fn obj(id: &str, case_id: &str) -> Option<ObjectCaseInfo> {
    Some(ObjectCaseInfo { id: id.into(), case_id: case_id.into() })
}

#[allow(clippy::too_many_arguments)]
fn relation(
    source: &str,
    target: &str,
    material_id: Option<String>,
    case_found: bool,
    s: Option<ObjectCaseInfo>,
    t: Option<ObjectCaseInfo>,
    m: Option<MaterialCaseInfo>,
) -> Result<casefile::repositories::relation_repository::CreateRelationRecord, casefile::error::AppErrorDto> {
    RelationService::create_relation_record(
        " c1 ",
        source,
        target,
        "related_to",
        &Some(" Title ".into()),
        "Witness statement",
        "confirmed",
        &material_id,
        &None,
        None,
        case_found,
        &s,
        &t,
        &m,
        "r1".into(),
        "REL-001".into(),
        "u1".into(),
    )
}

#[test]
fn relation_record_is_built_from_checked_parts() {
    let rec = ok(relation(" o1", "o2 ", None, true, obj("o1", "c1"), obj("o2", "c1"), None));
    assert_eq!(rec.case_id, "c1");
    assert_eq!(rec.source_object_id, "o1");
    assert_eq!(rec.target_object_id, "o2");
    assert!(rec.include_in_report);
    assert_eq!(rec.relation_code, "REL-001");
    assert!(rec.supporting_material_id.is_none());
}

#[test]
fn relation_to_itself_is_refused() {
    let e = err(relation("o1", " o1 ", None, true, obj("o1", "c1"), obj("o1", "c1"), None));
    assert_eq!(e.code, "ERR_RELATION_SELF_LINK");
}

#[test]
fn relation_in_missing_case_or_other_case_is_refused() {
    let e = err(relation("o1", "o2", None, false, obj("o1", "c1"), obj("o2", "c1"), None));
    assert_eq!(e.code, "ERR_CASE_NOT_FOUND");
    assert!(relation("o1", "o2", None, true, obj("o1", "c1"), obj("o2", "c2"), None).is_err());
    let m = Some(MaterialCaseInfo { id: "m1".into(), case_id: "c2".into() });
    assert!(relation("o1", "o2", Some("m1".into()), true, obj("o1", "c1"), obj("o2", "c1"), m).is_err());
    let m_ok = Some(MaterialCaseInfo { id: "m1".into(), case_id: "c1".into() });
    let rec = ok(relation("o1", "o2", Some("m1".into()), true, obj("o1", "c1"), obj("o2", "c1"), m_ok));
    assert_eq!(rec.supporting_material_id.as_deref(), Some("m1"));
}

#[test]
fn denied_record_is_a_warning() {
    let r = AuditService::build_denied_record(&user("viewer"), "operation", Some("{}".into()), "1.0.0");
    assert_eq!(r.action, "ACCESS_DENIED");
    assert_eq!(r.result, "denied");
    assert_eq!(r.severity, "warning");
    assert_eq!(r.entity_type, "operation");
    assert_eq!(r.user_id.as_deref(), Some("user-viewer"));
    assert_eq!(r.technical_details.as_deref(), Some("{}"));
    assert_eq!(r.app_version, "1.0.0");
}

#[test]
fn backup_policy_denial_is_recorded() {
    let policy = SettingsAccessPolicy::from_settings(&vec![pair("access.analyst_can_create_backup", "false")]);
    let analyst = user("analyst");
    let denial = err(ProtectedPolicyGuard::require_backup_create_allowed(&analyst, &policy));
    let r = ProtectedPolicyGuard::denial_record(&analyst, &denial, "2.0");
    assert_eq!(r.action, "ACCESS_DENIED");
    assert_eq!(r.result, "denied");
    assert_eq!(r.severity, "warning");
    assert_eq!(r.entity_type, "settings_policy");
    assert_eq!(
        r.technical_details.as_deref(),
        Some("{\"command\":\"create_backup\",\"role\":\"analyst\",\"policy\":\"access.analystCanCreateBackup\"}")
    );
    assert!(ProtectedPolicyGuard::require_backup_create_allowed(&user("viewer"), &SettingsAccessPolicy::from_settings(&vec![pair("access.analyst_can_create_backup", "true")])).is_err());
}

#[test]
fn page_offset_fits_its_bound() {
    assert!(AuditService::page_offset_fits(None, None));
    assert!(AuditService::page_offset_fits(Some(3), Some(20)));
    assert!(!AuditService::page_offset_fits(Some(i64::MAX), Some(200)));
    assert!(AuditService::page_offset_fits(Some(i64::MAX / 200), Some(200)));
    assert!(AuditService::page_offset_fits(Some(i64::MAX / 10 + 1), Some(5)));
    assert!(!AuditService::page_offset_fits(Some(i64::MAX / 10 + 2), Some(5)));
}

#[test]
fn ascii_case_is_folded() {
    assert_eq!(ok(normalize_object_type("  Person ")), "person");
    assert!(parse_bool("TRUE"));
    assert!(parse_bool(" Yes "));
    assert!(!parse_bool("no"));
    assert!(web_url("HTTP://example.com"));
    assert!(web_url("HttpS://x"));
    assert!(!web_url("C:\\http"));
}

#[test]
fn audit_detail_texts() {
    assert_eq!(
        draft_validated_details("d1", "c1", true, 0, 2).as_json(),
        "{\"draftId\":\"d1\",\"caseId\":\"c1\",\"isValid\":true,\"warningsCount\":0,\"errorsCount\":2}"
    );
    assert_eq!(exported_count_details(17).as_json(), "{\"exported_count\":17}");
}

#[test]
fn picked_directory_meets_the_setting_rules() {
    assert!(validate_chosen_directory("backup.default_dir", "C:\\Users\\admin\\backups").is_ok());
    assert!(validate_selected_settings_path("C:\\a\u{7}b").is_ok());
    assert!(validate_chosen_directory("backup.default_dir", "C:\\a\u{7}b").is_err());
    assert_eq!(err(validate_chosen_directory("backup.default_dir", "   ")).message, "Путь не может быть пустым.");
    assert!(validate_chosen_directory("unknown.key", "C:\\x").is_err());
}

#[test]
fn settings_are_audited_only_when_a_key_changed() {
    let admin = user("administrator");
    let old = vec![pair("viewer_can_export_docx", "false"), pair("storage_path", "\"C:\\\\data\"")];
    assert!(SettingsService::settings_audit_input(&admin, "SETTINGS_UPDATED", &old, &old.clone()).is_none());
    let new = vec![pair("viewer_can_export_docx", "true"), pair("storage_path", "\"C:\\\\data\"")];
    let input = ok(SettingsService::settings_audit_input(&admin, "SETTINGS_UPDATED", &old, &new).ok_or(()));
    assert_eq!(input.action, "SETTINGS_UPDATED");
    assert_eq!(input.entity_type, "settings");
    assert_eq!(input.user_id, "user-administrator");
    assert!(input.entity_id.is_none() && input.old_value.is_none());
    assert_eq!(
        input.technical_details.as_deref(),
        Some("{\"changedKeys\":[\"viewer_can_export_docx\"],\"categories\":[\"access\"]}")
    );
}
