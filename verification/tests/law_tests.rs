use casefile::audit::audit_metadata::{change_details, settings_change_details};
use casefile::security::password::{hash_password, verify_password};
use casefile::security::permission_decision::PermissionDecision;
use casefile::security::policy_aware_permission_service::PolicyAwarePermissionService;
use casefile::security::protected_operation::ProtectedOperation;
use casefile::security::session::{CurrentUserDto, SessionState};
use casefile::services::auth_service::AuthService;
use casefile::services::object_validation::normalize_unique_ids;
use casefile::services::settings_access_policy::SettingsAccessPolicy;
use casefile::text::str_lt;

fn user(role: &str) -> CurrentUserDto {
    CurrentUserDto {
        user_id: format!("user-{role}"),
        username: role.to_string(),
        display_name: role.to_string(),
        role: role.to_string(),
        is_active: true,
        must_change_password: false,
    }
}

fn policies() -> Vec<Option<SettingsAccessPolicy>> {
    let mut out = vec![None];
    for viewer in [false, true] {
        for analyst in [false, true] {
            out.push(Some(SettingsAccessPolicy { viewer_can_export_docx: viewer, analyst_can_create_backup: analyst }));
        }
    }
    out
}

fn allowed(policy: Option<SettingsAccessPolicy>, role: &str, op: ProtectedOperation) -> bool {
    PolicyAwarePermissionService::decide(policy, &user(role), op) == PermissionDecision::Allow
}

#[test]
fn administrator_is_allowed_every_operation() {
    for policy in policies() {
        for op in ProtectedOperation::all() {
            assert!(allowed(policy, "administrator", op), "{:?}", op);
        }
    }
}

#[test]
fn more_privileged_roles_keep_every_permission() {
    for policy in policies() {
        for op in ProtectedOperation::all() {
            if allowed(policy, "viewer", op) {
                assert!(allowed(policy, "analyst", op), "{:?}", op);
            }
            if allowed(policy, "analyst", op) {
                assert!(allowed(policy, "administrator", op), "{:?}", op);
            }
        }
    }
}

#[test]
fn only_docx_export_and_backup_creation_depend_on_the_policy() {
    for op in ProtectedOperation::all() {
        if op == ProtectedOperation::DocxExport || op == ProtectedOperation::BackupCreate {
            continue;
        }
        for role in ["administrator", "analyst", "viewer", "guest"] {
            let first = PolicyAwarePermissionService::decide(None, &user(role), op);
            for policy in policies() {
                assert_eq!(PolicyAwarePermissionService::decide(policy, &user(role), op), first);
            }
        }
    }
}

#[test]
fn granting_a_policy_never_removes_a_permission() {
    let off = Some(SettingsAccessPolicy { viewer_can_export_docx: false, analyst_can_create_backup: false });
    let on = Some(SettingsAccessPolicy { viewer_can_export_docx: true, analyst_can_create_backup: true });
    for role in ["administrator", "analyst", "viewer"] {
        for op in ProtectedOperation::all() {
            if allowed(off, role, op) {
                assert!(allowed(on, role, op));
            }
        }
    }
}

#[test]
fn unknown_roles_may_only_read() {
    for op in ProtectedOperation::all() {
        let read_allowed = allowed(None, "viewer", op) && allowed(None, "guest", op);
        assert_eq!(allowed(None, "guest", op), read_allowed);
    }
    assert!(allowed(None, "guest", ProtectedOperation::CaseRead));
    assert!(!allowed(None, "guest", ProtectedOperation::CaseCreate));
}

#[test]
fn every_action_name_is_distinct() {
    let names: Vec<&str> = ProtectedOperation::all().into_iter().map(|op| op.action_name()).collect();
    for (i, a) in names.iter().enumerate() {
        for b in &names[i + 1..] {
            assert_ne!(a, b);
        }
    }
    assert_eq!(ProtectedOperation::CaseRead.key(), ProtectedOperation::CaseRead.action_name());
}

#[test]
fn signing_in_then_out_leaves_no_user() {
    let mut session = SessionState::new();
    assert!(session.get_current_user().is_none());
    session.set_current_user(user("analyst"));
    assert_eq!(session.get_current_user().map(|u| u.role), Some("analyst".to_string()));
    assert!(AuthService::logout(&mut session));
    assert!(session.get_current_user().is_none());
    assert_eq!(session.require_current_user().err().unwrap().code, "ERR_UNAUTHORIZED");
}

#[test]
fn unique_ids_are_trimmed_sorted_and_distinct() {
    let ids = normalize_unique_ids(vec![" b ".into(), "a".into(), "".into(), "b".into(), "  ".into(), "c".into()]);
    assert_eq!(ids, vec!["a", "b", "c"]);
}

#[test]
fn text_order_is_strict_and_total() {
    assert!(str_lt("2024-01-01", "2024-01-02"));
    assert!(!str_lt("2024-01-02", "2024-01-01"));
    assert!(!str_lt("abc", "abc"));
    assert!(str_lt("ab", "abc"));
}

#[test]
fn a_fresh_hash_accepts_its_password_only() {
    let hash = hash_password("correct horse").ok().expect("hash");
    assert!(hash.starts_with("$argon2"));
    assert_eq!(verify_password("correct horse", &hash).ok(), Some(true));
}

#[test]
fn a_fresh_hash_rejects_another_password() {
    let hash = hash_password("correct horse").ok().expect("hash");
    assert_eq!(verify_password("wrong horse", &hash).ok(), Some(false));
}

#[test]
fn an_unparsable_hash_is_reported() {
    let e = verify_password("x", "not a hash").err().unwrap();
    assert_eq!(e.code, "ERR_PASSWORD_HASH_PARSE");
}

#[test]
fn audit_details_escape_texts_as_json_strings() {
    let d = casefile::audit::audit_metadata::access_denied_details("a\"b\\c", "x\ny\u{1}\tЖ", Some("k"))
        .ok()
        .unwrap();
    assert_eq!(d.as_json(), "{\"operation\":\"a\\\"b\\\\c\",\"reason\":\"x\\ny\\u0001\\tЖ\",\"policyKey\":\"k\"}");
}

#[test]
fn update_details_list_changed_fields_as_a_json_array() {
    let d = change_details("caseId", "c1", "caseCode", "CASE-001", &vec!["title".to_string(), "periodEnd".to_string()]);
    assert_eq!(d.as_json(), "{\"caseId\":\"c1\",\"caseCode\":\"CASE-001\",\"changedFields\":[\"title\",\"periodEnd\"]}");
    let d = change_details("materialId", "m", "materialCode", "MAT-001", &vec![]);
    assert_eq!(d.as_json(), "{\"materialId\":\"m\",\"materialCode\":\"MAT-001\",\"changedFields\":[]}");
    let d = settings_change_details(&vec!["storage_path".to_string()], &vec!["storage".to_string()]);
    let v: serde_json::Value = serde_json::from_str(d.as_json()).unwrap();
    assert_eq!(v["changedKeys"][0], "storage_path");
    assert_eq!(v["categories"][0], "storage");
}
