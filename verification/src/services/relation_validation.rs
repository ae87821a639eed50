//! Normalization of the fields of relations between analytical objects.

use vstd::prelude::*;

use crate::domain::vocabulary::{confidence_levels, is_valid_confidence_level, is_valid_relation_type, relation_types, views};
use crate::error::{
    err_view, opt_string_result_view, opt_string_view, string_result_view, unit_result_view, AppErrorDto,
    AppErrorView,
};
use crate::services::object_validation::required_id_spec;
use crate::text::{char_count, str_eq, trim, trimmed};

verus! {

pub const MAX_RELATION_TITLE_LEN: usize = 200;
pub const MAX_RELATION_BASIS_LEN: usize = 5000;
pub const MAX_RELATION_COMMENT_LEN: usize = 2000;

/// Trims a required identifier; an empty one is the error `code`/`message`.
pub fn normalize_required_id(value: &str, code: &str, message: &str) -> (r: Result<String, AppErrorDto>)
    ensures
        string_result_view(r) == required_id_spec(value@, code@, message@),
{
    crate::services::object_validation::normalize_required_id(value, code, message)
}

/// The trimmed identifier, absent when blank.
pub open spec fn optional_id_spec(value: Option<Seq<char>>) -> Option<Seq<char>> {
    match value {
        Some(v) => if trim(v).len() == 0 {
            None
        } else {
            Some(trim(v))
        },
        None => None,
    }
}

/// Trims an optional identifier; a blank one is absent.
pub fn normalize_optional_id(value: &Option<String>) -> (r: Option<String>)
    ensures
        opt_string_view(r) == optional_id_spec(opt_string_view(*value)),
{
    match value {
        Some(v) => {
            let t = trimmed(v.as_str());
            if char_count(t.as_str()) == 0 {
                None
            } else {
                Some(t)
            }
        },
        None => None,
    }
}

/// A trimmed value from a vocabulary: empty and unknown values are distinct
/// errors, and an unknown value is repeated in the error's details.
pub open spec fn vocabulary_value_spec(
    value: Seq<char>,
    options: Seq<Seq<char>>,
    required_code: Seq<char>,
    required_message: Seq<char>,
    invalid_code: Seq<char>,
    invalid_message: Seq<char>,
) -> Result<Seq<char>, AppErrorView> {
    let n = trim(value);
    if n.len() == 0 {
        Err(err_view(required_code, required_message))
    } else if !options.contains(n) {
        Err(AppErrorView { code: invalid_code, message: invalid_message, details: Some(n) })
    } else {
        Ok(n)
    }
}

pub open spec fn normalize_relation_type_spec(value: Seq<char>) -> Result<Seq<char>, AppErrorView> {
    vocabulary_value_spec(
        value,
        views(relation_types()),
        "ERR_RELATION_TYPE_REQUIRED"@,
        "Не выбран тип связи."@,
        "ERR_RELATION_TYPE_INVALID"@,
        "Недопустимый тип связи."@,
    )
}

/// A required relation type from the relation vocabulary, trimmed.
pub fn normalize_relation_type(value: &str) -> (r: Result<String, AppErrorDto>)
    ensures
        string_result_view(r) == normalize_relation_type_spec(value@),
{
    let normalized = trimmed(value);
    if char_count(normalized.as_str()) == 0 {
        return Err(AppErrorDto::new("ERR_RELATION_TYPE_REQUIRED", "Не выбран тип связи.", None));
    }
    if !is_valid_relation_type(normalized.as_str()) {
        return Err(AppErrorDto::new("ERR_RELATION_TYPE_INVALID", "Недопустимый тип связи.", Some(normalized)));
    }
    Ok(normalized)
}

pub open spec fn normalize_confidence_level_spec(value: Seq<char>) -> Result<Seq<char>, AppErrorView> {
    vocabulary_value_spec(
        value,
        views(confidence_levels()),
        "ERR_RELATION_CONFIDENCE_REQUIRED"@,
        "Не выбран уровень достоверности связи."@,
        "ERR_RELATION_CONFIDENCE_INVALID"@,
        "Недопустимый уровень достоверности связи."@,
    )
}

/// A required confidence level from the confidence vocabulary, trimmed.
pub fn normalize_confidence_level(value: &str) -> (r: Result<String, AppErrorDto>)
    ensures
        string_result_view(r) == normalize_confidence_level_spec(value@),
{
    let normalized = trimmed(value);
    if char_count(normalized.as_str()) == 0 {
        return Err(AppErrorDto::new("ERR_RELATION_CONFIDENCE_REQUIRED", "Не выбран уровень достоверности связи.", None));
    }
    if !is_valid_confidence_level(normalized.as_str()) {
        return Err(
            AppErrorDto::new("ERR_RELATION_CONFIDENCE_INVALID", "Недопустимый уровень достоверности связи.", Some(normalized)),
        );
    }
    Ok(normalized)
}

/// An optional text, trimmed, blank meaning absent, at most `max` characters.
pub open spec fn optional_text_spec(value: Option<Seq<char>>, max: usize, code: Seq<char>, message: Seq<char>) -> Result<Option<Seq<char>>, AppErrorView> {
    match value {
        None => Ok(None),
        Some(v) => {
            let n = trim(v);
            if n.len() == 0 {
                Ok(None)
            } else if n.len() > max {
                Err(err_view(code, message))
            } else {
                Ok(Some(n))
            }
        },
    }
}

fn normalize_optional_text(value: &Option<String>, max_len: usize, code: &str, message: &str) -> (r: Result<Option<String>, AppErrorDto>)
    ensures
        opt_string_result_view(r) == optional_text_spec(opt_string_view(*value), max_len, code@, message@),
{
    let raw_value = match value {
        Some(v) => v,
        None => return Ok(None),
    };
    let normalized = trimmed(raw_value.as_str());
    if char_count(normalized.as_str()) == 0 {
        return Ok(None);
    }
    if char_count(normalized.as_str()) > max_len {
        return Err(AppErrorDto::new(code, message, None));
    }
    Ok(Some(normalized))
}

pub open spec fn normalize_relation_title_spec(value: Option<Seq<char>>) -> Result<Option<Seq<char>>, AppErrorView> {
    optional_text_spec(value, MAX_RELATION_TITLE_LEN, "ERR_RELATION_TITLE_TOO_LONG"@, "Название связи слишком длинное."@)
}

/// An optional title of at most 200 characters, trimmed; blank means absent.
pub fn normalize_relation_title(value: &Option<String>) -> (r: Result<Option<String>, AppErrorDto>)
    ensures
        opt_string_result_view(r) == normalize_relation_title_spec(opt_string_view(*value)),
{
    normalize_optional_text(value, MAX_RELATION_TITLE_LEN, "ERR_RELATION_TITLE_TOO_LONG", "Название связи слишком длинное.")
}

pub open spec fn normalize_relation_basis_spec(value: Seq<char>) -> Result<Seq<char>, AppErrorView> {
    let n = trim(value);
    if n.len() == 0 {
        Err(err_view("ERR_RELATION_BASIS_REQUIRED"@, "Укажите основание связи."@))
    } else if n.len() > MAX_RELATION_BASIS_LEN {
        Err(err_view("ERR_RELATION_BASIS_TOO_LONG"@, "Основание связи слишком длинное."@))
    } else {
        Ok(n)
    }
}

/// The required basis of a relation, at most 5000 characters, trimmed.
pub fn normalize_relation_basis(value: &str) -> (r: Result<String, AppErrorDto>)
    ensures
        string_result_view(r) == normalize_relation_basis_spec(value@),
{
    let normalized = trimmed(value);
    if char_count(normalized.as_str()) == 0 {
        return Err(AppErrorDto::new("ERR_RELATION_BASIS_REQUIRED", "Укажите основание связи.", None));
    }
    if char_count(normalized.as_str()) > MAX_RELATION_BASIS_LEN {
        return Err(AppErrorDto::new("ERR_RELATION_BASIS_TOO_LONG", "Основание связи слишком длинное.", None));
    }
    Ok(normalized)
}

pub open spec fn normalize_analyst_comment_spec(value: Option<Seq<char>>) -> Result<Option<Seq<char>>, AppErrorView> {
    optional_text_spec(value, MAX_RELATION_COMMENT_LEN, "ERR_RELATION_COMMENT_TOO_LONG"@, "Комментарий аналитика слишком длинный."@)
}

/// An optional analyst comment of at most 2000 characters, trimmed; blank means absent.
pub fn normalize_analyst_comment(value: &Option<String>) -> (r: Result<Option<String>, AppErrorDto>)
    ensures
        opt_string_result_view(r) == normalize_analyst_comment_spec(opt_string_view(*value)),
{
    normalize_optional_text(value, MAX_RELATION_COMMENT_LEN, "ERR_RELATION_COMMENT_TOO_LONG", "Комментарий аналитика слишком длинный.")
}

/// A relation may not link an object to itself.
pub fn validate_relation_endpoints(source_object_id: &str, target_object_id: &str) -> (r: Result<(), AppErrorDto>)
    ensures
        unit_result_view(r) == (if source_object_id@ == target_object_id@ {
            Err(err_view("ERR_RELATION_SELF_LINK"@, "Нельзя создать связь объекта с самим собой."@))
        } else {
            Ok(())
        }),
{
    if str_eq(source_object_id, target_object_id) {
        return Err(AppErrorDto::new("ERR_RELATION_SELF_LINK", "Нельзя создать связь объекта с самим собой.", None));
    }
    Ok(())
}

} // verus!
