//! Rules for cases: required fields, period order and editable statuses.

use vstd::prelude::*;

use crate::audit::change_tracking::{note_change, opt_differs, push_changed, text_differs};
use crate::domain::vocabulary::{editable_case_statuses, is_editable_case_status, views};
use crate::repositories::case_repository::{CaseRow, UpdateCaseRecord};
use crate::error::{err_view, opt_string_view, string_result_view, unit_result_view, validation_code, AppErrorDto, AppErrorView};
use crate::services::relation_validation::{normalize_optional_id, optional_id_spec};
use crate::text::{byte_len, char_count, seq_lt, str_lt, string_views, trim, trimmed, utf8_len};

verus! {

pub open spec fn opt_ref_view(o: Option<&str>) -> Option<Seq<char>> {
    match o {
        Some(s) => Some(s@),
        None => None,
    }
}

pub open spec fn validate_case_fields_spec(
    title: Seq<char>,
    subject: Seq<char>,
    period_start: Option<Seq<char>>,
    period_end: Option<Seq<char>>,
) -> Result<(), AppErrorView> {
    if byte_len(title) < 3 {
        Err(err_view(validation_code(), "Название дела должно содержать минимум 3 символа."@))
    } else if byte_len(subject) < 2 {
        Err(err_view(validation_code(), "Объект анализа должен содержать минимум 2 символа."@))
    } else if period_start matches Some(s) && period_end matches Some(e) && s.len() > 0 && e.len() > 0 && seq_lt(e, s) {
        Err(err_view(validation_code(), "Дата начала периода не может быть позже даты окончания."@))
    } else {
        Ok(())
    }
}

/// A case needs a title of at least 3 bytes and a subject of at least 2; a
/// period given at both ends must not start after it ends.
pub fn validate_create_case_payload(
    title: &str,
    subject: &str,
    period_start: Option<&str>,
    period_end: Option<&str>,
) -> (r: Result<(), AppErrorDto>)
    ensures
        unit_result_view(r) == validate_case_fields_spec(title@, subject@, opt_ref_view(period_start), opt_ref_view(period_end)),
{
    if utf8_len(title) < 3 {
        return Err(AppErrorDto::new("ERR_VALIDATION", "Название дела должно содержать минимум 3 символа.", None));
    }
    if utf8_len(subject) < 2 {
        return Err(AppErrorDto::new("ERR_VALIDATION", "Объект анализа должен содержать минимум 2 символа.", None));
    }
    match (period_start, period_end) {
        (Some(start), Some(end)) => {
            if char_count(start) > 0 && char_count(end) > 0 && str_lt(end, start) {
                return Err(AppErrorDto::new("ERR_VALIDATION", "Дата начала периода не может быть позже даты окончания.", None));
            }
        },
        _ => {},
    }
    Ok(())
}

/// The trimmed text, absent when blank.
pub fn normalize_optional_string(value: Option<String>) -> (r: Option<String>)
    ensures
        opt_string_view(r) == optional_id_spec(opt_string_view(value)),
{
    normalize_optional_id(&value)
}

pub open spec fn validate_case_status_spec(status: Seq<char>) -> Result<(), AppErrorView> {
    if views(editable_case_statuses()).contains(status) {
        Ok(())
    } else {
        Err(err_view(validation_code(), "Недопустимый статус дела."@))
    }
}

/// A case may only be set to an editable status.
pub fn validate_case_status(status: &str) -> (r: Result<(), AppErrorDto>)
    ensures
        unit_result_view(r) == validate_case_status_spec(status@),
{
    if is_editable_case_status(status) {
        return Ok(());
    }
    Err(AppErrorDto::new("ERR_VALIDATION", "Недопустимый статус дела.", None))
}

pub open spec fn case_id_spec(case_id: Seq<char>) -> Result<Seq<char>, AppErrorView> {
    if trim(case_id).len() == 0 {
        Err(err_view(validation_code(), "Не указан идентификатор дела."@))
    } else {
        Ok(trim(case_id))
    }
}

/// The trimmed case identifier; blank is an error.
pub fn normalize_case_id(case_id: &str) -> (r: Result<String, AppErrorDto>)
    ensures
        string_result_view(r) == case_id_spec(case_id@),
{
    let id = trimmed(case_id);
    if char_count(id.as_str()) == 0 {
        return Err(AppErrorDto::new("ERR_VALIDATION", "Не указан идентификатор дела.", None));
    }
    Ok(id)
}

pub open spec fn opt_string_ref_view(o: &Option<String>) -> Option<Seq<char>> {
    opt_string_view(*o)
}

fn as_opt_str(o: &Option<String>) -> (r: Option<&str>)
    ensures
        opt_ref_view(r) == opt_string_view(*o),
{
    match o {
        Some(s) => Some(s.as_str()),
        None => None,
    }
}

/// The text of an optional field, trimmed; empty when absent.
pub open spec fn description_spec(value: Option<Seq<char>>) -> Seq<char> {
    match value {
        Some(v) => trim(v),
        None => Seq::empty(),
    }
}

/// The fields of a new case: title, subject and description trimmed; the
/// period stored as entered.
pub struct CaseFields {
    pub title: String,
    pub subject: String,
    pub description: String,
    pub period_start: Option<String>,
    pub period_end: Option<String>,
}

/// The case-not-found error.
pub open spec fn case_not_found() -> AppErrorView {
    err_view("ERR_CASE_NOT_FOUND"@, "Дело не найдено."@)
}

/// The fields a case update changed, in the order title, subject, period
/// start, period end, description.
pub open spec fn case_changes_spec(old: CaseRow, new: CaseRow) -> Seq<Seq<char>> {
    let f0 = note_change(Seq::empty(), "title"@, old.title@ != new.title@);
    let f1 = note_change(f0, "subject"@, old.subject@ != new.subject@);
    let f2 = note_change(f1, "periodStart"@, opt_string_view(old.period_start) != opt_string_view(new.period_start));
    let f3 = note_change(f2, "periodEnd"@, opt_string_view(old.period_end) != opt_string_view(new.period_end));
    note_change(f3, "description"@, old.description@ != new.description@)
}

/// The decisions of the case commands.
pub struct CaseService;

impl CaseService {
    /// Normalizes and checks the fields of a new case.
    pub fn prepare_create(
        title: &str,
        subject: &str,
        description: Option<String>,
        period_start: Option<String>,
        period_end: Option<String>,
    ) -> (r: Result<CaseFields, AppErrorDto>)
        ensures
            match validate_case_fields_spec(trim(title@), trim(subject@), opt_string_view(period_start), opt_string_view(period_end)) {
                Err(v) => r matches Err(e) && e@ == v,
                Ok(_) => r matches Ok(f) && {
                    &&& f.title@ == trim(title@)
                    &&& f.subject@ == trim(subject@)
                    &&& f.description@ == description_spec(opt_string_view(description))
                    &&& f.period_start == period_start
                    &&& f.period_end == period_end
                },
            },
    {
        let title = trimmed(title);
        let subject = trimmed(subject);
        let description = match description {
            Some(d) => trimmed(d.as_str()),
            None => String::new(),
        };
        validate_create_case_payload(title.as_str(), subject.as_str(), as_opt_str(&period_start), as_opt_str(&period_end))?;
        Ok(CaseFields { title, subject, description, period_start, period_end })
    }

    /// Normalizes and checks a case update: the identifier, then the fields;
    /// the period is stored trimmed, blank ends dropped.
    pub fn prepare_update(
        case_id: &str,
        title: &str,
        subject: &str,
        description: Option<String>,
        period_start: Option<String>,
        period_end: Option<String>,
    ) -> (r: Result<UpdateCaseRecord, AppErrorDto>)
        ensures
            trim(case_id@).len() == 0 ==> (r matches Err(e) && e@ == err_view(validation_code(), "Не указан идентификатор дела."@)),
            trim(case_id@).len() > 0 ==> match validate_case_fields_spec(
                trim(title@),
                trim(subject@),
                opt_string_view(period_start),
                opt_string_view(period_end),
            ) {
                Err(v) => r matches Err(e) && e@ == v,
                Ok(_) => r matches Ok(rec) && {
                    &&& rec.case_id@ == trim(case_id@)
                    &&& rec.title@ == trim(title@)
                    &&& rec.subject@ == trim(subject@)
                    &&& rec.description@ == description_spec(opt_string_view(description))
                    &&& opt_string_view(rec.period_start) == optional_id_spec(opt_string_view(period_start))
                    &&& opt_string_view(rec.period_end) == optional_id_spec(opt_string_view(period_end))
                },
            },
    {
        let case_id = trimmed(case_id);
        let title = trimmed(title);
        let subject = trimmed(subject);
        let description = match description {
            Some(d) => trimmed(d.as_str()),
            None => String::new(),
        };
        if char_count(case_id.as_str()) == 0 {
            return Err(AppErrorDto::new("ERR_VALIDATION", "Не указан идентификатор дела.", None));
        }
        validate_create_case_payload(title.as_str(), subject.as_str(), as_opt_str(&period_start), as_opt_str(&period_end))?;
        Ok(UpdateCaseRecord {
            case_id,
            title,
            subject,
            description,
            period_start: normalize_optional_string(period_start),
            period_end: normalize_optional_string(period_end),
        })
    }

    /// Normalizes and checks a status change: the identifier, then the status.
    pub fn prepare_status_update(case_id: &str, status: &str) -> (r: Result<(String, String), AppErrorDto>)
        ensures
            trim(case_id@).len() == 0 ==> (r matches Err(e) && e@ == err_view(validation_code(), "Не указан идентификатор дела."@)),
            trim(case_id@).len() > 0 ==> match validate_case_status_spec(trim(status@)) {
                Err(v) => r matches Err(e) && e@ == v,
                Ok(_) => r matches Ok((id, st)) && id@ == trim(case_id@) && st@ == trim(status@),
            },
    {
        let case_id = trimmed(case_id);
        let status = trimmed(status);
        if char_count(case_id.as_str()) == 0 {
            return Err(AppErrorDto::new("ERR_VALIDATION", "Не указан идентификатор дела.", None));
        }
        validate_case_status(status.as_str())?;
        Ok((case_id, status))
    }

    /// The case must exist.
    pub fn require_case_found(found: bool) -> (r: Result<(), AppErrorDto>)
        ensures
            r is Ok <==> found,
            r matches Err(e) ==> e@ == case_not_found(),
    {
        if !found {
            return Err(AppErrorDto::new("ERR_CASE_NOT_FOUND", "Дело не найдено.", None));
        }
        Ok(())
    }

    /// The fields a case update changed.
    pub fn case_changed_fields(old: &CaseRow, new: &CaseRow) -> (v: Vec<String>)
        ensures
            string_views(v@) == case_changes_spec(*old, *new),
    {
        let mut v: Vec<String> = Vec::new();
        assert(string_views(v@) =~= Seq::<Seq<char>>::empty());
        push_changed(&mut v, "title", text_differs(old.title.as_str(), new.title.as_str()));
        push_changed(&mut v, "subject", text_differs(old.subject.as_str(), new.subject.as_str()));
        push_changed(&mut v, "periodStart", opt_differs(&old.period_start, &new.period_start));
        push_changed(&mut v, "periodEnd", opt_differs(&old.period_end, &new.period_end));
        push_changed(&mut v, "description", text_differs(old.description.as_str(), new.description.as_str()));
        v
    }
}

} // verus!
