use casefile::models::settings_catalog::{KEY_ACCESS_ANALYST_CAN_CREATE_BACKUP, KEY_ACCESS_VIEWER_CAN_EXPORT_DOCX};
use casefile::services::settings_access_policy::SettingsAccessPolicy;
use rusqlite::Connection;

fn setup_conn_with_settings(pairs: &[(&str, &str)]) -> Connection {
    let conn = Connection::open_in_memory().unwrap();
    conn.execute_batch("CREATE TABLE app_settings (key TEXT PRIMARY KEY, value TEXT NOT NULL);").unwrap();
    for (k, v) in pairs {
        conn.execute("INSERT INTO app_settings (key, value) VALUES (?1, ?2)", (k, v)).unwrap();
    }
    conn
}

/// The policy as the application reads it: every row of the settings table.
fn policy_from_connection(conn: &Connection) -> SettingsAccessPolicy {
    let mut stmt = conn.prepare("SELECT key, value FROM app_settings").unwrap();
    let rows: Vec<(String, String)> = stmt
        .query_map([], |row| Ok((row.get(0)?, row.get(1)?)))
        .unwrap()
        .map(|r| r.unwrap())
        .collect();
    SettingsAccessPolicy::from_settings(&rows)
}


#[test]
fn defaults_when_no_rows() {
    let conn = setup_conn_with_settings(&[]);
    let policy = policy_from_connection(&conn);
    assert!(!policy.viewer_can_export_docx);
    assert!(!policy.analyst_can_create_backup);
}

#[test]
fn reads_bool_values() {
    let conn = setup_conn_with_settings(&[
        (KEY_ACCESS_VIEWER_CAN_EXPORT_DOCX, "true"),
        (KEY_ACCESS_ANALYST_CAN_CREATE_BACKUP, "false"),
    ]);
    let policy = policy_from_connection(&conn);
    assert!(policy.viewer_can_export_docx);
    assert!(!policy.analyst_can_create_backup);
}

#[test]
fn missing_key_uses_default() {
    let conn = setup_conn_with_settings(&[("some.other_key", "true")]);
    let policy = policy_from_connection(&conn);
    assert!(!policy.viewer_can_export_docx);
    assert!(!policy.analyst_can_create_backup);
}
