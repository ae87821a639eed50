use casefile::repositories::timeline_repository::{SqlParam, TimelineFiltersRecord, TimelineRepository, TIMELINE_ORDER_SQL, TIMELINE_SELECT_SQL};
use casefile::repositories::sequential_code::format_sequential_code;
use casefile::repositories::settings_repository::parse_bool;
use casefile::services::audit_service::{csv_cell, csv_optional_cell};
use casefile::services::settings_service::{settings_category_for_key, SettingsService};
use casefile::storage::material_file_storage::{
    file_extension, guess_mime_type, lower_hex, material_storage_segments, sha256_hex, ImportedMaterialFile,
};

fn rows(pairs: &[(&str, &str)]) -> Vec<(String, String)> {
    pairs.iter().map(|(k, v)| (k.to_string(), v.to_string())).collect()
}

#[test]
fn sequential_codes_are_zero_padded_to_three_digits() {
    assert_eq!(format_sequential_code("CASE", 7), "CASE-007");
    assert_eq!(format_sequential_code("MAT", 42), "MAT-042");
    assert_eq!(format_sequential_code("EVT", 1234), "EVT-1234");
}

#[test]
fn csv_cells_are_quoted_with_inner_quotes_doubled() {
    assert_eq!(csv_cell("plain"), "\"plain\"");
    assert_eq!(csv_cell("say \"hi\""), "\"say \"\"hi\"\"\"");
    assert_eq!(csv_optional_cell(None), "\"\"");
}

#[test]
fn stored_flags_accept_one_true_and_yes() {
    assert!(parse_bool("1"));
    assert!(parse_bool(" TRUE "));
    assert!(parse_bool("Yes"));
    assert!(!parse_bool("0"));
    assert!(!parse_bool("no"));
    assert!(!parse_bool(""));
}

#[test]
fn file_extension_follows_path_rules() {
    assert_eq!(file_extension("report.pdf").as_deref(), Some("pdf"));
    assert_eq!(file_extension("archive.tar.gz").as_deref(), Some("gz"));
    assert_eq!(file_extension(".hidden"), None);
    assert_eq!(file_extension("noext"), None);
    assert_eq!(file_extension("name.").as_deref(), Some(""));
}

#[test]
fn mime_type_is_guessed_from_lowercased_extension() {
    assert_eq!(guess_mime_type("Report.PDF").as_deref(), Some("application/pdf"));
    assert_eq!(guess_mime_type("photo.JPeG").as_deref(), Some("image/jpeg"));
    assert_eq!(guess_mime_type("page.htm").as_deref(), Some("text/html"));
    assert_eq!(
        guess_mime_type("table.xlsx").as_deref(),
        Some("application/vnd.openxmlformats-officedocument.spreadsheetml.sheet")
    );
    assert_eq!(guess_mime_type("data.csv").as_deref(), Some("text/csv"));
    assert_eq!(guess_mime_type("notes"), None);
    assert_eq!(guess_mime_type("image.gif"), None);
}

#[test]
fn hex_writes_two_lowercase_digits_per_byte() {
    assert_eq!(lower_hex(&vec![0x00, 0xff, 0x1a, 0x09]), "00ff1a09");
    assert_eq!(lower_hex(&vec![]), "");
}

#[test]
fn sha256_fingerprints_match_known_digests() {
    assert_eq!(sha256_hex(b"abc"), "ba7816bf8f01cfea414140de5dae2223b00361a396177a9cb410ff61f20015ad");
    assert_eq!(sha256_hex(b""), "e3b0c44298fc1c149afbf4c8996fb92427ae41e4649b934ca495991b7852b855");
}

#[test]
fn imported_file_record_carries_fingerprint_and_mime_type() {
    let f = ImportedMaterialFile::describe(
        "scan.PNG".to_string(),
        "C:\\in\\scan.PNG".to_string(),
        "/data/storage/scan.PNG".to_string(),
        3,
        b"abc",
    );
    assert_eq!(f.original_file_name, "scan.PNG");
    assert_eq!(f.file_size, 3);
    assert_eq!(f.mime_type.as_deref(), Some("image/png"));
    assert_eq!(f.sha256, "ba7816bf8f01cfea414140de5dae2223b00361a396177a9cb410ff61f20015ad");
}

#[test]
fn material_files_are_kept_per_case_and_material() {
    assert_eq!(material_storage_segments("c1", "m1"), vec!["storage", "cases", "c1", "materials", "m1"]);
}

#[test]
fn setting_keys_map_to_audit_categories() {
    assert_eq!(settings_category_for_key("viewer_can_export_docx"), "access");
    assert_eq!(settings_category_for_key("backup_path"), "storage");
    assert_eq!(settings_category_for_key("default_report_type"), "docx");
    assert_eq!(settings_category_for_key("integrity_check_before_export"), "integrity");
    assert_eq!(settings_category_for_key("audit_strict_mode"), "audit");
    assert_eq!(settings_category_for_key("theme"), "general");
}

#[test]
fn settings_changes_list_changed_keys_and_distinct_categories() {
    let old = rows(&[("storage_path", "\"C:\\\\a\""), ("viewer_can_export_docx", "false"), ("theme", "\"dark\"")]);
    let new = rows(&[
        ("storage_path", "\"C:\\\\b\""),
        ("viewer_can_export_docx", "false"),
        ("backup_path", "\"D:\\\\bk\""),
        ("theme", "\"light\""),
    ]);
    let set = SettingsService::settings_changes(&old, &new);
    assert_eq!(set.changed_keys, vec!["storage_path", "backup_path", "theme"]);
    assert_eq!(set.categories, vec!["storage", "general"]);
    assert_eq!(set.changes.len(), 3);
    assert_eq!(set.changes[0].old_value.as_deref(), Some("\"C:\\\\a\""));
    assert_eq!(set.changes[0].new_value, "\"C:\\\\b\"");
    assert_eq!(set.changes[1].old_value, None);
    assert_eq!(set.changes[1].category, "storage");
}

#[test]
fn unchanged_settings_produce_no_change() {
    let old = rows(&[("storage_path", "\"x\""), ("audit_strict_mode", "true")]);
    let set = SettingsService::settings_changes(&old, &old);
    assert!(set.changed_keys.is_empty());
    assert!(set.categories.is_empty());
}

#[test]
fn timeline_statement_binds_one_parameter_per_placeholder() {
    let none = TimelineFiltersRecord::unfiltered();
    let q = TimelineRepository::timeline_query("c1", &none);
    assert_eq!(q.sql.matches('?').count(), q.params.len());
    assert_eq!(q.params, vec![SqlParam::Text("c1".into())]);
    assert!(q.sql.starts_with(TIMELINE_SELECT_SQL));
    assert!(q.sql.ends_with(TIMELINE_ORDER_SQL));

    let all = TimelineFiltersRecord {
        query: Some("кража".into()),
        event_type: Some("meeting".into()),
        object_id: Some("o1".into()),
        material_id: Some("m1".into()),
        date_from: Some("2024-01-01".into()),
        date_to: Some("2024-12-31".into()),
        include_in_report: Some(true),
    };
    let q = TimelineRepository::timeline_query("c1", &all);
    assert_eq!(q.sql.matches('?').count(), q.params.len());
    assert_eq!(q.params.len(), 12);
    assert_eq!(q.params[1], SqlParam::Text("%кража%".into()));
    assert_eq!(q.params[11], SqlParam::Integer(1));

    let mut some = TimelineFiltersRecord::unfiltered();
    some.date_to = Some("2024-06-30".into());
    some.include_in_report = Some(false);
    let q = TimelineRepository::timeline_query("c2", &some);
    assert_eq!(q.sql.matches('?').count(), q.params.len());
    assert_eq!(q.params, vec![SqlParam::Text("c2".into()), SqlParam::Text("2024-06-30".into()), SqlParam::Integer(0)]);
}
