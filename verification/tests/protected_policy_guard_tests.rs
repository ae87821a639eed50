use casefile::models::settings_catalog::{KEY_ACCESS_ANALYST_CAN_CREATE_BACKUP, KEY_ACCESS_VIEWER_CAN_EXPORT_DOCX};
use casefile::security::session::CurrentUserDto;
use casefile::services::protected_policy_guard::ProtectedPolicyGuard;
use casefile::services::settings_access_policy::SettingsAccessPolicy;
use rusqlite::Connection;

fn setup_conn_with_settings(pairs: &[(&str, &str)]) -> Connection {
    let conn = Connection::open_in_memory().unwrap();
    conn.execute_batch("CREATE TABLE app_settings (key TEXT PRIMARY KEY, value TEXT NOT NULL);").unwrap();
    for (k, v) in pairs {
        conn.execute("INSERT INTO app_settings (key, value) VALUES (?1, ?2)", (k, v)).unwrap();
    }
    conn
}

/// The policy as the application reads it: every row of the settings table.
fn policy_from_connection(conn: &Connection) -> SettingsAccessPolicy {
    let mut stmt = conn.prepare("SELECT key, value FROM app_settings").unwrap();
    let rows: Vec<(String, String)> = stmt
        .query_map([], |row| Ok((row.get(0)?, row.get(1)?)))
        .unwrap()
        .map(|r| r.unwrap())
        .collect();
    SettingsAccessPolicy::from_settings(&rows)
}

fn test_user(role: &str) -> CurrentUserDto {
    CurrentUserDto {
        user_id: format!("user-{role}"),
        username: role.to_string(),
        display_name: role.to_string(),
        role: role.to_string(),
        is_active: true,
        must_change_password: false,
    }
}

// ─── DOCX export policy tests ─────────────────────────────────────────

#[test]
fn administrator_can_export_docx_regardless_of_policy() {
    let conn = setup_conn_with_settings(&[(KEY_ACCESS_VIEWER_CAN_EXPORT_DOCX, "false")]);
    let user = test_user("administrator");
    // conn-only check — app is not available in unit test context
    let policy = policy_from_connection(&conn);
    assert!(policy.viewer_can_export_docx == false);
    assert!(user.is_administrator());
    assert!(ProtectedPolicyGuard::require_docx_export_allowed(&user, &policy).is_ok());
}

#[test]
fn protected_policy_guard_analyst_can_export_docx_regardless_of_viewer_policy() {
    let conn = setup_conn_with_settings(&[(KEY_ACCESS_VIEWER_CAN_EXPORT_DOCX, "false")]);
    let user = test_user("analyst");
    assert!(user.is_analyst());
    // Analyst is always allowed — no policy check needed
    let _policy = policy_from_connection(&conn);
    assert!(ProtectedPolicyGuard::require_docx_export_allowed(&user, &_policy).is_ok());
}

#[test]
fn viewer_cannot_export_docx_when_policy_is_false() {
    let conn = setup_conn_with_settings(&[(KEY_ACCESS_VIEWER_CAN_EXPORT_DOCX, "false")]);
    let policy = policy_from_connection(&conn);
    assert!(!policy.viewer_can_export_docx);
    assert!(ProtectedPolicyGuard::require_docx_export_allowed(&test_user("viewer"), &policy).is_err());
}

#[test]
fn viewer_can_export_docx_when_policy_is_true() {
    let conn = setup_conn_with_settings(&[(KEY_ACCESS_VIEWER_CAN_EXPORT_DOCX, "true")]);
    let policy = policy_from_connection(&conn);
    assert!(policy.viewer_can_export_docx);
    assert!(ProtectedPolicyGuard::require_docx_export_allowed(&test_user("viewer"), &policy).is_ok());
}

// ─── Backup create policy tests ─────────────────────────────────────

#[test]
fn administrator_can_create_backup_regardless_of_policy() {
    let conn = setup_conn_with_settings(&[(KEY_ACCESS_ANALYST_CAN_CREATE_BACKUP, "false")]);
    let user = test_user("administrator");
    let policy = policy_from_connection(&conn);
    assert!(!policy.analyst_can_create_backup);
    assert!(user.is_administrator());
    assert!(ProtectedPolicyGuard::require_backup_create_allowed(&user, &policy).is_ok());
}

#[test]
fn analyst_cannot_create_backup_when_policy_is_false() {
    let conn = setup_conn_with_settings(&[(KEY_ACCESS_ANALYST_CAN_CREATE_BACKUP, "false")]);
    let policy = policy_from_connection(&conn);
    assert!(!policy.analyst_can_create_backup);
    assert!(ProtectedPolicyGuard::require_backup_create_allowed(&test_user("analyst"), &policy).is_err());
}

#[test]
fn analyst_can_create_backup_when_policy_is_true() {
    let conn = setup_conn_with_settings(&[(KEY_ACCESS_ANALYST_CAN_CREATE_BACKUP, "true")]);
    let policy = policy_from_connection(&conn);
    assert!(policy.analyst_can_create_backup);
    assert!(ProtectedPolicyGuard::require_backup_create_allowed(&test_user("analyst"), &policy).is_ok());
}

#[test]
fn viewer_cannot_create_backup() {
    let conn = setup_conn_with_settings(&[(KEY_ACCESS_ANALYST_CAN_CREATE_BACKUP, "true")]);
    let policy = policy_from_connection(&conn);
    assert!(policy.analyst_can_create_backup);
    // Viewer always denied — role check happens first
    assert!(ProtectedPolicyGuard::require_backup_create_allowed(&test_user("viewer"), &policy).is_err());
}

// ─── Defaults tests ────────────────────────────────────────────────

#[test]
fn default_policy_blocks_viewer_docx_export() {
    let conn = setup_conn_with_settings(&[]);
    let policy = policy_from_connection(&conn);
    // No rows = defaults used — viewer_can_export_docx defaults to false
    assert!(!policy.viewer_can_export_docx);
    assert!(ProtectedPolicyGuard::require_docx_export_allowed(&test_user("viewer"), &policy).is_err());
}

#[test]
fn default_policy_blocks_analyst_backup_create() {
    let conn = setup_conn_with_settings(&[]);
    let policy = policy_from_connection(&conn);
    // No rows = defaults used — analyst_can_create_backup defaults to false
    assert!(!policy.analyst_can_create_backup);
    assert!(ProtectedPolicyGuard::require_backup_create_allowed(&test_user("analyst"), &policy).is_err());
}
