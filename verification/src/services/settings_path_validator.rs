//! Validation of a directory chosen with the folder picker.

use vstd::prelude::*;

use crate::error::{err_view, unit_result_view, validation_code, AppErrorDto, AppErrorView};
use crate::services::settings_validator::{
    is_web_url, validate_setting_pair, validate_setting_pair_spec, path_too_long_message, path_unc_message, path_url_message, web_url,
};
use crate::text::{byte_len, char_count, has_prefix, starts_with, str_trim, trim, utf8_len};

verus! {

pub open spec fn empty_path_message() -> Seq<char> {
    "Путь не может быть пустым."@
}

pub open spec fn validate_selected_settings_path_spec(path: Seq<char>) -> Result<(), AppErrorView> {
    let t = trim(path);
    if t.len() == 0 {
        Err(err_view(validation_code(), empty_path_message()))
    } else if byte_len(t) > 512 {
        Err(err_view(validation_code(), path_too_long_message()))
    } else if is_web_url(t) {
        Err(err_view(validation_code(), path_url_message()))
    } else if has_prefix(t, "\\\\"@) {
        Err(err_view(validation_code(), path_unc_message()))
    } else {
        Ok(())
    }
}

/// A picked directory must be non-empty, at most 512 bytes, and neither a web
/// URL nor a UNC network path.
pub fn validate_selected_settings_path(path: &str) -> (r: Result<(), AppErrorDto>)
    ensures
        unit_result_view(r) == validate_selected_settings_path_spec(path@),
{
    let t = str_trim(path);
    if char_count(t) == 0 {
        return Err(AppErrorDto::validation("Путь не может быть пустым."));
    }
    if utf8_len(t) > 512 {
        return Err(AppErrorDto::validation("Путь слишком длинный."));
    }
    if web_url(t) {
        return Err(AppErrorDto::validation("Сетевые URL не допускаются в настройках локального приложения."));
    }
    if starts_with(t, "\\\\") {
        return Err(AppErrorDto::validation("UNC-сетевые пути не допускаются в MVP."));
    }
    Ok(())
}

/// A directory chosen with the folder picker for the setting `key`: the
/// picker's own checks first, then the setting's validation, so that a
/// picked directory is held to the same rules as a typed one.
pub fn validate_chosen_directory(key: &str, path: &str) -> (r: Result<(), AppErrorDto>)
    ensures
        unit_result_view(r) == match validate_selected_settings_path_spec(path@) {
            Err(e) => Err(e),
            Ok(_) => validate_setting_pair_spec(key@, path@),
        },
        r is Ok ==> validate_setting_pair_spec(key@, path@) is Ok,
{
    validate_selected_settings_path(path)?;
    validate_setting_pair(key, path)
}

} // verus!
