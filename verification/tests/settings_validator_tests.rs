use casefile::services::settings_validator::{validate_bool, validate_path, validate_template};

#[test]
fn bool_accepts_true_false() {
    assert!(validate_bool("true").is_ok());
    assert!(validate_bool("false").is_ok());
    assert!(validate_bool("1").is_err());
    assert!(validate_bool("yes").is_err());
}

#[test]
fn template_accepts_known_values() {
    assert!(validate_template("analytical-report").is_ok());
    assert!(validate_template("operational-summary").is_ok());
    assert!(validate_template("extended-report").is_ok());
    assert!(validate_template("custom-template").is_err());
}

#[test]
fn path_accepts_empty_string() {
    assert!(validate_path("").is_ok());
}

#[test]
fn path_rejects_http_url() {
    assert!(validate_path("http://example.com/backups").is_err());
    assert!(validate_path("https://example.com/backups").is_err());
}

#[test]
fn path_rejects_unc_paths() {
    assert!(validate_path("\\\\server\\share").is_err());
}

#[test]
fn path_rejects_over_512_chars() {
    let long = "a".repeat(513);
    assert!(validate_path(&long).is_err());
}

#[test]
fn path_accepts_windows_absolute_path() {
    assert!(validate_path("C:\\Users\\admin\\backups").is_ok());
}
