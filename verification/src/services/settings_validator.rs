//! Strict per-key validation of setting values, driven by the settings catalog.
//!
//! Both the settings update and the folder picker go through
//! [`validate_setting_pair`] or [`validate_path`], so that the allowed values are
//! the same whichever way a value arrives.

use vstd::prelude::*;
use vstd::string::*;

use crate::error::{err_view, unit_result_view, validation_code, AppErrorDto, AppErrorView};
use crate::models::settings_catalog::{
    catalog, definition_of, lemma_definition_of_catalog_key, setting_definition, SettingKind,
};
use crate::text::{
    ascii_lower, byte_len, is_ascii_text, char_count, contains_control, has_control, has_prefix, lowercase, starts_with,
    str_eq, str_to_lowercase, str_trim, trim, utf8_len,
};

verus! {

pub open spec fn bool_message() -> Seq<char> {
    "Значение булевого параметра должно быть 'true' или 'false'."@
}

pub open spec fn str_too_long_message() -> Seq<char> {
    "Значение параметра слишком длинное."@
}

pub open spec fn str_bad_chars_message() -> Seq<char> {
    "Значение параметра содержит недопустимые символы."@
}

pub open spec fn template_message(value: Seq<char>) -> Seq<char> {
    "Недопустимый шаблон DOCX: '"@ + value + "'. Разрешены: analytical-report, operational-summary, extended-report."@
}

pub open spec fn path_too_long_message() -> Seq<char> {
    "Путь слишком длинный."@
}

pub open spec fn path_bad_chars_message() -> Seq<char> {
    "Путь содержит недопустимые символы."@
}

pub open spec fn path_url_message() -> Seq<char> {
    "Сетевые URL не допускаются в настройках локального приложения."@
}

pub open spec fn path_unc_message() -> Seq<char> {
    "UNC-сетевые пути не допускаются в MVP."@
}

pub open spec fn unknown_key_message(key: Seq<char>) -> Seq<char> {
    "Неизвестный ключ настройки: "@ + key
}

/// The document templates a report may be exported with.
pub open spec fn allowed_templates() -> Seq<Seq<char>> {
    seq!["analytical-report"@, "operational-summary"@, "extended-report"@]
}

pub open spec fn validate_bool_spec(value: Seq<char>) -> Result<(), AppErrorView> {
    if value == "true"@ || value == "false"@ {
        Ok(())
    } else {
        Err(err_view(validation_code(), bool_message()))
    }
}

pub open spec fn validate_str_spec(value: Seq<char>) -> Result<(), AppErrorView> {
    if byte_len(value) > 512 {
        Err(err_view(validation_code(), str_too_long_message()))
    } else if has_control(value) {
        Err(err_view(validation_code(), str_bad_chars_message()))
    } else {
        Ok(())
    }
}

pub open spec fn validate_template_spec(value: Seq<char>) -> Result<(), AppErrorView> {
    if allowed_templates().contains(value) {
        Ok(())
    } else {
        Err(err_view(validation_code(), template_message(value)))
    }
}

/// Whether a (trimmed) path names a web URL, compared case-insensitively.
pub open spec fn is_web_url(trimmed: Seq<char>) -> bool {
    has_prefix(lowercase(trimmed), "http://"@) || has_prefix(lowercase(trimmed), "https://"@)
}

pub open spec fn validate_path_spec(value: Seq<char>) -> Result<(), AppErrorView> {
    let t = trim(value);
    if t.len() == 0 {
        Ok(())
    } else if byte_len(t) > 512 {
        Err(err_view(validation_code(), path_too_long_message()))
    } else if has_control(t) {
        Err(err_view(validation_code(), path_bad_chars_message()))
    } else if is_web_url(t) {
        Err(err_view(validation_code(), path_url_message()))
    } else if has_prefix(t, "\\\\"@) {
        Err(err_view(validation_code(), path_unc_message()))
    } else {
        Ok(())
    }
}

pub open spec fn validate_kind_spec(kind: SettingKind, value: Seq<char>) -> Result<(), AppErrorView> {
    match kind {
        SettingKind::Bool => validate_bool_spec(value),
        SettingKind::Str => validate_str_spec(value),
        SettingKind::Path => validate_path_spec(value),
        SettingKind::Template => validate_template_spec(value),
    }
}

pub open spec fn validate_setting_pair_spec(key: Seq<char>, value: Seq<char>) -> Result<(), AppErrorView> {
    match definition_of(key) {
        None => Err(err_view(validation_code(), unknown_key_message(key))),
        Some(d) => validate_kind_spec(d.kind, value),
    }
}

/// Validates a single (key, value) pair against its catalog definition; an
/// unknown key or an invalid value is an `ERR_VALIDATION` error.
pub fn validate_setting_pair(key: &str, value: &str) -> (r: Result<(), AppErrorDto>)
    ensures
        unit_result_view(r) == validate_setting_pair_spec(key@, value@),
{
    match setting_definition(key) {
        None => {
            let mut msg = "Неизвестный ключ настройки: ".to_owned();
            msg.append(key);
            let e = AppErrorDto::validation(msg.as_str());
            Err(e)
        },
        Some(d) => match d.kind {
            SettingKind::Bool => validate_bool(value),
            SettingKind::Str => validate_str(value),
            SettingKind::Path => validate_path(value),
            SettingKind::Template => validate_template(value),
        },
    }
}

/// Accepts exactly `"true"` and `"false"`.
pub fn validate_bool(value: &str) -> (r: Result<(), AppErrorDto>)
    ensures
        unit_result_view(r) == validate_bool_spec(value@),
{
    if str_eq(value, "true") || str_eq(value, "false") {
        Ok(())
    } else {
        Err(AppErrorDto::validation("Значение булевого параметра должно быть 'true' или 'false'."))
    }
}

/// A free-form value: at most 512 bytes and no control characters.
pub fn validate_str(value: &str) -> (r: Result<(), AppErrorDto>)
    ensures
        unit_result_view(r) == validate_str_spec(value@),
{
    if utf8_len(value) > 512 {
        return Err(AppErrorDto::validation("Значение параметра слишком длинное."));
    }
    if contains_control(value) {
        return Err(AppErrorDto::validation("Значение параметра содержит недопустимые символы."));
    }
    Ok(())
}

/// One of the known report templates.
pub fn validate_template(value: &str) -> (r: Result<(), AppErrorDto>)
    ensures
        unit_result_view(r) == validate_template_spec(value@),
{
    let a = str_eq(value, "analytical-report");
    let b = str_eq(value, "operational-summary");
    let c = str_eq(value, "extended-report");
    proof {
        assert(allowed_templates()[0] == "analytical-report"@);
        assert(allowed_templates()[1] == "operational-summary"@);
        assert(allowed_templates()[2] == "extended-report"@);
        if allowed_templates().contains(value@) {
            let k = choose|k: int| 0 <= k < 3 && allowed_templates()[k] == value@;
            assert(k == 0 || k == 1 || k == 2);
        }
    }
    if a || b || c {
        return Ok(());
    }
    let mut msg = "Недопустимый шаблон DOCX: '".to_owned();
    msg.append(value);
    msg.append("'. Разрешены: analytical-report, operational-summary, extended-report.");
    Err(AppErrorDto::validation(msg.as_str()))
}

/// Whether a trimmed path is a web URL (compared after lowercasing).
pub fn web_url(trimmed: &str) -> (b: bool)
    ensures
        b == is_web_url(trimmed@),
        is_ascii_text(trimmed@) ==> b == (has_prefix(ascii_lower(trimmed@), "http://"@) || has_prefix(
            ascii_lower(trimmed@),
            "https://"@,
        )),
{
    let lower = str_to_lowercase(trimmed);
    starts_with(lower.as_str(), "http://") || starts_with(lower.as_str(), "https://")
}

/// A filesystem path setting. The empty string (after trimming) means "unset"
/// and is accepted; otherwise at most 512 bytes, no control characters, no
/// web URL and no UNC network path.
pub fn validate_path(value: &str) -> (r: Result<(), AppErrorDto>)
    ensures
        unit_result_view(r) == validate_path_spec(value@),
{
    let t = str_trim(value);
    if char_count(t) == 0 {
        return Ok(());
    }
    if utf8_len(t) > 512 {
        return Err(AppErrorDto::validation("Путь слишком длинный."));
    }
    if contains_control(t) {
        return Err(AppErrorDto::validation("Путь содержит недопустимые символы."));
    }
    if web_url(t) {
        return Err(AppErrorDto::validation("Сетевые URL не допускаются в настройках локального приложения."));
    }
    if starts_with(t, "\\\\") {
        return Err(AppErrorDto::validation("UNC-сетевые пути не допускаются в MVP."));
    }
    Ok(())
}

/// Every catalog default passes validation for its own key.
pub proof fn lemma_catalog_defaults_are_valid()
    ensures
        forall|i: int|
            0 <= i < catalog().len() ==> validate_setting_pair_spec(
                #[trigger] catalog()[i].key@,
                catalog()[i].default_value@,
            ) == Ok::<(), AppErrorView>(()),
{
    reveal_strlit("");
    assert(trim(""@) == ""@);
    assert(allowed_templates()[0] == "analytical-report"@);
    assert forall|i: int| 0 <= i < catalog().len() implies validate_setting_pair_spec(
        #[trigger] catalog()[i].key@,
        catalog()[i].default_value@,
    ) == Ok::<(), AppErrorView>(()) by {
        lemma_definition_of_catalog_key(i);
        assert(i == 0 || i == 1 || i == 2 || i == 3 || i == 4 || i == 5 || i == 6 || i == 7 || i == 8
            || i == 9 || i == 10);
    }
}

} // verus!
