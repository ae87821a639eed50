//! Normalization of timeline events: type, date precision, texts and periods.

use vstd::prelude::*;

use crate::domain::vocabulary::{
    date_precisions, event_types, is_valid_date_precision, is_valid_event_type, views, DATE_PRECISION_PERIOD,
};
use crate::error::{err_view, opt_string_view, string_result_view, unit_result_view, AppErrorDto, AppErrorView};
use crate::services::object_validation::required_id_spec;
use crate::text::{char_count, seq_lt, str_eq, str_lt, str_trim, trim, trimmed};

verus! {

pub const MAX_EVENT_TITLE_LEN: usize = 200;
pub const MAX_EVENT_DESCRIPTION_LEN: usize = 5000;
pub const MAX_EVENT_SOURCE_NOTE_LEN: usize = 2000;
pub const MAX_EVENT_ANALYST_COMMENT_LEN: usize = 2000;
pub const MAX_EVENT_LINK_NOTE_LEN: usize = 2000;

/// Trims a required identifier; an empty one is the error `code`/`message`.
pub fn normalize_required_id(value: &str, code: &str, message: &str) -> (r: Result<String, AppErrorDto>)
    ensures
        string_result_view(r) == required_id_spec(value@, code@, message@),
{
    crate::services::object_validation::normalize_required_id(value, code, message)
}

pub open spec fn normalize_event_type_spec(value: Seq<char>) -> Result<Seq<char>, AppErrorView> {
    if views(event_types()).contains(trim(value)) {
        Ok(trim(value))
    } else {
        Err(err_view("ERR_INVALID_EVENT_TYPE"@, "Недопустимый тип события"@))
    }
}

/// A trimmed event type from the event vocabulary.
pub fn normalize_event_type(value: &str) -> (r: Result<String, AppErrorDto>)
    ensures
        string_result_view(r) == normalize_event_type_spec(value@),
{
    let normalized = trimmed(value);
    if !is_valid_event_type(normalized.as_str()) {
        return Err(AppErrorDto::new("ERR_INVALID_EVENT_TYPE", "Недопустимый тип события", None));
    }
    Ok(normalized)
}

pub open spec fn normalize_date_precision_spec(value: Seq<char>) -> Result<Seq<char>, AppErrorView> {
    if views(date_precisions()).contains(trim(value)) {
        Ok(trim(value))
    } else {
        Err(err_view("ERR_INVALID_DATE_PRECISION"@, "Недопустимая точность даты события"@))
    }
}

/// A trimmed date precision from the precision vocabulary.
pub fn normalize_date_precision(value: &str) -> (r: Result<String, AppErrorDto>)
    ensures
        string_result_view(r) == normalize_date_precision_spec(value@),
{
    let normalized = trimmed(value);
    if !is_valid_date_precision(normalized.as_str()) {
        return Err(AppErrorDto::new("ERR_INVALID_DATE_PRECISION", "Недопустимая точность даты события", None));
    }
    Ok(normalized)
}

pub open spec fn required_text_spec(
    value: Seq<char>,
    max_len: usize,
    code: Seq<char>,
    empty_message: Seq<char>,
    length_message: Seq<char>,
) -> Result<Seq<char>, AppErrorView> {
    let n = trim(value);
    if n.len() == 0 {
        Err(err_view(code, empty_message))
    } else if n.len() > max_len {
        Err(err_view(code, length_message))
    } else {
        Ok(n)
    }
}

/// A required text, trimmed, of at most `max_len` characters; both failures use `code`.
pub fn normalize_required_text(
    value: &str,
    max_len: usize,
    code: &str,
    empty_message: &str,
    length_message: &str,
) -> (r: Result<String, AppErrorDto>)
    ensures
        string_result_view(r) == required_text_spec(value@, max_len, code@, empty_message@, length_message@),
{
    let normalized = trimmed(value);
    if char_count(normalized.as_str()) == 0 {
        return Err(AppErrorDto::new(code, empty_message, None));
    }
    if char_count(normalized.as_str()) > max_len {
        return Err(AppErrorDto::new(code, length_message, None));
    }
    Ok(normalized)
}

pub open spec fn optional_text_spec(value: Seq<char>, max_len: usize, code: Seq<char>, length_message: Seq<char>) -> Result<Seq<char>, AppErrorView> {
    let n = trim(value);
    if n.len() > max_len {
        Err(err_view(code, length_message))
    } else {
        Ok(n)
    }
}

/// An optional text (possibly empty), trimmed, of at most `max_len` characters.
pub fn normalize_optional_text(value: &str, max_len: usize, code: &str, length_message: &str) -> (r: Result<String, AppErrorDto>)
    ensures
        string_result_view(r) == optional_text_spec(value@, max_len, code@, length_message@),
{
    let normalized = trimmed(value);
    if char_count(normalized.as_str()) > max_len {
        return Err(AppErrorDto::new(code, length_message, None));
    }
    Ok(normalized)
}

pub open spec fn normalize_event_title_spec(value: Seq<char>) -> Result<Seq<char>, AppErrorView> {
    required_text_spec(value, MAX_EVENT_TITLE_LEN, "ERR_INVALID_EVENT_TITLE"@, "Название события обязательно"@, "Название события слишком длинное"@)
}

/// The required event title, at most 200 characters.
pub fn normalize_event_title(value: &str) -> (r: Result<String, AppErrorDto>)
    ensures
        string_result_view(r) == normalize_event_title_spec(value@),
{
    normalize_required_text(value, MAX_EVENT_TITLE_LEN, "ERR_INVALID_EVENT_TITLE", "Название события обязательно", "Название события слишком длинное")
}

pub open spec fn normalize_event_description_spec(value: Seq<char>) -> Result<Seq<char>, AppErrorView> {
    optional_text_spec(value, MAX_EVENT_DESCRIPTION_LEN, "ERR_INVALID_EVENT_DESCRIPTION"@, "Описание события слишком длинное"@)
}

/// The event description, at most 5000 characters.
pub fn normalize_event_description(value: &str) -> (r: Result<String, AppErrorDto>)
    ensures
        string_result_view(r) == normalize_event_description_spec(value@),
{
    normalize_optional_text(value, MAX_EVENT_DESCRIPTION_LEN, "ERR_INVALID_EVENT_DESCRIPTION", "Описание события слишком длинное")
}

pub open spec fn normalize_event_source_note_spec(value: Seq<char>) -> Result<Seq<char>, AppErrorView> {
    optional_text_spec(value, MAX_EVENT_SOURCE_NOTE_LEN, "ERR_INVALID_EVENT_SOURCE_NOTE"@, "Основание события слишком длинное"@)
}

/// The source note of an event, at most 2000 characters.
pub fn normalize_event_source_note(value: &str) -> (r: Result<String, AppErrorDto>)
    ensures
        string_result_view(r) == normalize_event_source_note_spec(value@),
{
    normalize_optional_text(value, MAX_EVENT_SOURCE_NOTE_LEN, "ERR_INVALID_EVENT_SOURCE_NOTE", "Основание события слишком длинное")
}

pub open spec fn normalize_event_analyst_comment_spec(value: Seq<char>) -> Result<Seq<char>, AppErrorView> {
    optional_text_spec(value, MAX_EVENT_ANALYST_COMMENT_LEN, "ERR_INVALID_EVENT_ANALYST_COMMENT"@, "Комментарий аналитика слишком длинный"@)
}

/// The analyst comment of an event, at most 2000 characters.
pub fn normalize_event_analyst_comment(value: &str) -> (r: Result<String, AppErrorDto>)
    ensures
        string_result_view(r) == normalize_event_analyst_comment_spec(value@),
{
    normalize_optional_text(value, MAX_EVENT_ANALYST_COMMENT_LEN, "ERR_INVALID_EVENT_ANALYST_COMMENT", "Комментарий аналитика слишком длинный")
}

pub open spec fn normalize_event_link_note_spec(value: Seq<char>) -> Result<Seq<char>, AppErrorView> {
    optional_text_spec(value, MAX_EVENT_LINK_NOTE_LEN, "ERR_INVALID_EVENT_LINK_NOTE"@, "Комментарий связи события слишком длинный"@)
}

/// The note on an event's links, at most 2000 characters.
pub fn normalize_event_link_note(value: &str) -> (r: Result<String, AppErrorDto>)
    ensures
        string_result_view(r) == normalize_event_link_note_spec(value@),
{
    normalize_optional_text(value, MAX_EVENT_LINK_NOTE_LEN, "ERR_INVALID_EVENT_LINK_NOTE", "Комментарий связи события слишком длинный")
}

pub open spec fn normalize_event_date_spec(value: Seq<char>) -> Result<Seq<char>, AppErrorView> {
    if trim(value).len() == 0 {
        Err(err_view("ERR_INVALID_EVENT_DATE"@, "Дата события обязательна"@))
    } else {
        Ok(trim(value))
    }
}

/// The required event date, trimmed.
pub fn normalize_event_date(value: &str) -> (r: Result<String, AppErrorDto>)
    ensures
        string_result_view(r) == normalize_event_date_spec(value@),
{
    let normalized = trimmed(value);
    if char_count(normalized.as_str()) == 0 {
        return Err(AppErrorDto::new("ERR_INVALID_EVENT_DATE", "Дата события обязательна", None));
    }
    Ok(normalized)
}

pub open spec fn trimmed_or_empty(value: Option<Seq<char>>) -> Seq<char> {
    match value {
        Some(v) => trim(v),
        None => Seq::<char>::empty(),
    }
}

pub open spec fn validate_period_spec(date_precision: Seq<char>, start: Option<Seq<char>>, end: Option<Seq<char>>) -> Result<(), AppErrorView> {
    if date_precision != DATE_PRECISION_PERIOD@ {
        Ok(())
    } else if trimmed_or_empty(start).len() == 0 || trimmed_or_empty(end).len() == 0 {
        Err(err_view("ERR_INVALID_EVENT_PERIOD"@, "Для периода нужно указать начало и конец"@))
    } else if seq_lt(trimmed_or_empty(end), trimmed_or_empty(start)) {
        Err(err_view("ERR_INVALID_EVENT_PERIOD"@, "Начало периода не может быть позже конца периода"@))
    } else {
        Ok(())
    }
}

fn trimmed_option<'a>(value: &'a Option<String>) -> (r: &'a str)
    ensures
        r@ == trimmed_or_empty(opt_string_view(*value)),
{
    match value {
        Some(v) => str_trim(v.as_str()),
        None => {
            let e = "";
            proof {
                reveal_strlit("");
            }
            str_trim(e)
        },
    }
}

/// An event dated by a period needs both ends, and the start not after the end
/// (compared as text, which orders ISO dates chronologically).
pub fn validate_period(date_precision: &str, period_start: &Option<String>, period_end: &Option<String>) -> (r: Result<(), AppErrorDto>)
    ensures
        unit_result_view(r) == validate_period_spec(date_precision@, opt_string_view(*period_start), opt_string_view(*period_end)),
{
    if !str_eq(date_precision, DATE_PRECISION_PERIOD) {
        return Ok(());
    }
    let start = trimmed_option(period_start);
    let end = trimmed_option(period_end);
    if char_count(start) == 0 || char_count(end) == 0 {
        return Err(AppErrorDto::new("ERR_INVALID_EVENT_PERIOD", "Для периода нужно указать начало и конец", None));
    }
    if str_lt(end, start) {
        return Err(AppErrorDto::new("ERR_INVALID_EVENT_PERIOD", "Начало периода не может быть позже конца периода", None));
    }
    Ok(())
}

/// No text comes before itself.
pub proof fn lemma_seq_lt_irreflexive(a: Seq<char>)
    ensures
        !seq_lt(a, a),
    decreases a.len(),
{
    if a.len() > 0 {
        lemma_seq_lt_irreflexive(a.drop_first());
    }
}

/// Of two texts, at most one comes before the other.
pub proof fn lemma_seq_lt_asymmetric(a: Seq<char>, b: Seq<char>)
    ensures
        seq_lt(a, b) ==> !seq_lt(b, a),
    decreases a.len(),
{
    if a.len() > 0 && b.len() > 0 && a[0] == b[0] {
        lemma_seq_lt_asymmetric(a.drop_first(), b.drop_first());
    }
}

/// A period with both ends given is accepted exactly when its (trimmed)
/// start does not come after its end in text order, which for ISO dates is
/// the calendar order: a start before the end, or equal to it, is accepted,
/// and a start after the end is refused as a reversed period.
pub proof fn lemma_period_order(start: Seq<char>, end: Seq<char>)
    requires
        trim(start).len() > 0,
        trim(end).len() > 0,
    ensures
        validate_period_spec("period"@, Some(start), Some(end)) is Ok <==> !seq_lt(trim(end), trim(start)),
        seq_lt(trim(start), trim(end)) ==> validate_period_spec("period"@, Some(start), Some(end)) is Ok,
        trim(start) == trim(end) ==> validate_period_spec("period"@, Some(start), Some(end)) is Ok,
        seq_lt(trim(end), trim(start)) ==> validate_period_spec("period"@, Some(start), Some(end)) == Err::<(), AppErrorView>(
            err_view("ERR_INVALID_EVENT_PERIOD"@, "Начало периода не может быть позже конца периода"@),
        ),
{
    lemma_seq_lt_asymmetric(trim(start), trim(end));
    lemma_seq_lt_irreflexive(trim(start));
}

/// Only an event dated by a period is checked for its ends; such an event
/// needs both ends, and a missing or blank one is refused.
pub proof fn lemma_period_needs_both_ends(date_precision: Seq<char>, start: Option<Seq<char>>, end: Option<Seq<char>>)
    ensures
        date_precision != "period"@ ==> validate_period_spec(date_precision, start, end) is Ok,
        date_precision == "period"@ && (start is None || end is None) ==> validate_period_spec(date_precision, start, end)
            == Err::<(), AppErrorView>(err_view("ERR_INVALID_EVENT_PERIOD"@, "Для периода нужно указать начало и конец"@)),
        date_precision == "period"@ && (start matches Some(s) && trim(s).len() == 0) ==> validate_period_spec(date_precision, start, end)
            == Err::<(), AppErrorView>(err_view("ERR_INVALID_EVENT_PERIOD"@, "Для периода нужно указать начало и конец"@)),
        date_precision == "period"@ && (end matches Some(e) && trim(e).len() == 0) ==> validate_period_spec(date_precision, start, end)
            == Err::<(), AppErrorView>(err_view("ERR_INVALID_EVENT_PERIOD"@, "Для периода нужно указать начало и конец"@)),
{
}

} // verus!
