//! The decisions of the timeline commands: who may change events, whether
//! the linked objects and materials belong to the case, and the JSON values
//! recorded in the audit log.

use vstd::prelude::*;

use crate::audit::audit_metadata::{bool_member, member, push_bool_member, push_raw, push_str_member};
use crate::error::{access_denied_code, err_view, unauthorized_code, AppErrorDto, AppErrorView};
use crate::security::session::{role_administrator, role_analyst, role_viewer, CurrentUserDto};
use crate::services::object_validation::required_id_spec;
use crate::services::timeline_validation::normalize_required_id;

verus! {

pub open spec fn login_required_text() -> Seq<char> {
    "Требуется вход в систему."@
}

pub open spec fn not_authorized_text() -> Seq<char> {
    "Пользователь не авторизован"@
}

pub open spec fn report_flag_denied_text() -> Seq<char> {
    "Недостаточно прав для изменения признака включения события в справку"@
}

pub open spec fn object_link_error(on_update: bool) -> AppErrorView {
    err_view(
        if on_update { "ERR_EVENT_OBJECT_CASE_MISMATCH"@ } else { "ERR_EVENT_OBJECT_NOT_IN_CASE"@ },
        "Один из объектов не принадлежит выбранному делу"@,
    )
}

pub open spec fn material_link_error(on_update: bool) -> AppErrorView {
    err_view(
        if on_update { "ERR_EVENT_MATERIAL_CASE_MISMATCH"@ } else { "ERR_EVENT_MATERIAL_NOT_IN_CASE"@ },
        "Один из материалов не принадлежит выбранному делу"@,
    )
}

/// The outcome of the link check: every linked object, then every linked
/// material, must belong to the event's case.
pub open spec fn links_spec(objects_in_case: Seq<bool>, materials_in_case: Seq<bool>, on_update: bool) -> Result<(), AppErrorView> {
    if objects_in_case.contains(false) {
        Err(object_link_error(on_update))
    } else if materials_in_case.contains(false) {
        Err(material_link_error(on_update))
    } else {
        Ok(())
    }
}

/// `{"eventCode":…,"eventDate":…,"eventType":…,"includeInReport":…,"title":…}`
pub open spec fn created_event_json(code: Seq<char>, title: Seq<char>, event_type: Seq<char>, event_date: Seq<char>, in_report: bool) -> Seq<char> {
    "{"@ + member("eventCode"@, code) + ","@ + member("eventDate"@, event_date) + ","@ + member("eventType"@, event_type) + ","@
        + bool_member("includeInReport"@, in_report) + ","@ + member("title"@, title) + "}"@
}

/// `{"eventDate":…,"eventType":…,"includeInReport":…,"title":…}`
pub open spec fn event_state_json(title: Seq<char>, event_type: Seq<char>, event_date: Seq<char>, in_report: bool) -> Seq<char> {
    "{"@ + member("eventDate"@, event_date) + ","@ + member("eventType"@, event_type) + ","@ + bool_member("includeInReport"@, in_report)
        + ","@ + member("title"@, title) + "}"@
}

/// `{"eventCode":…,"eventDate":…,"title":…}`
pub open spec fn deleted_event_json(code: Seq<char>, title: Seq<char>, event_date: Seq<char>) -> Seq<char> {
    "{"@ + member("eventCode"@, code) + ","@ + member("eventDate"@, event_date) + ","@ + member("title"@, title) + "}"@
}

/// `{"archived":true}`
pub open spec fn archived_json() -> Seq<char> {
    "{"@ + bool_member("archived"@, true) + "}"@
}

/// `{"includeInReport":…}`
pub open spec fn report_flag_json(in_report: bool) -> Seq<char> {
    "{"@ + bool_member("includeInReport"@, in_report) + "}"@
}

/// The decisions of the timeline commands.
pub struct TimelineService;

impl TimelineService {
    /// Reading the timeline needs a signed-in user.
    pub fn require_signed_in(user: Option<CurrentUserDto>) -> (r: Result<CurrentUserDto, AppErrorDto>)
        ensures
            match user {
                None => r matches Err(e) && e@ == err_view(unauthorized_code(), login_required_text()),
                Some(u) => r == Ok::<CurrentUserDto, AppErrorDto>(u),
            },
    {
        match user {
            None => Err(AppErrorDto::unauthorized("Требуется вход в систему.")),
            Some(u) => Ok(u),
        }
    }

    /// Creating, changing or deleting an event needs a signed-in user who is
    /// not a viewer; a viewer is refused with `denied_message`.
    pub fn require_event_editor(user: Option<CurrentUserDto>, denied_message: &str) -> (r: Result<CurrentUserDto, AppErrorDto>)
        ensures
            match user {
                None => r matches Err(e) && e@ == err_view(unauthorized_code(), login_required_text()),
                Some(u) => if u.role@ == role_viewer() {
                    r matches Err(e) && e@ == err_view(access_denied_code(), denied_message@)
                } else {
                    r == Ok::<CurrentUserDto, AppErrorDto>(u)
                },
            },
    {
        let u = Self::require_signed_in(user)?;
        if u.is_viewer() {
            return Err(AppErrorDto::access_denied(denied_message));
        }
        Ok(u)
    }

    /// Switching an event's report flag needs a signed-in administrator or analyst.
    pub fn require_report_flag_editor(user: Option<CurrentUserDto>) -> (r: Result<CurrentUserDto, AppErrorDto>)
        ensures
            match user {
                None => r matches Err(e) && e@ == err_view(unauthorized_code(), not_authorized_text()),
                Some(u) => if u.role@ == role_administrator() || u.role@ == role_analyst() {
                    r == Ok::<CurrentUserDto, AppErrorDto>(u)
                } else {
                    r matches Err(e) && e@ == err_view(access_denied_code(), report_flag_denied_text())
                },
            },
    {
        match user {
            None => Err(AppErrorDto::unauthorized("Пользователь не авторизован")),
            Some(u) => {
                if !u.is_administrator() && !u.is_analyst() {
                    return Err(AppErrorDto::access_denied("Недостаточно прав для изменения признака включения события в справку"));
                }
                Ok(u)
            },
        }
    }

    /// Normalizes the identifiers of a command on one event: case, then event.
    pub fn event_ids(case_id: &str, event_id: &str) -> (r: Result<(String, String), AppErrorDto>)
        ensures
            match required_id_spec(case_id@, "ERR_INVALID_CASE_ID"@, "ID дела обязателен"@) {
                Err(e) => r matches Err(e2) && e2@ == e,
                Ok(c) => match required_id_spec(event_id@, "ERR_INVALID_EVENT_ID"@, "ID события обязателен"@) {
                    Err(e) => r matches Err(e2) && e2@ == e,
                    Ok(id) => r matches Ok((c2, id2)) && c2@ == c && id2@ == id,
                },
            },
    {
        let c = normalize_required_id(case_id, "ERR_INVALID_CASE_ID", "ID дела обязателен")?;
        let id = normalize_required_id(event_id, "ERR_INVALID_EVENT_ID", "ID события обязателен")?;
        Ok((c, id))
    }

    /// The event to change must exist in the case.
    pub fn require_event_found(exists: bool) -> (r: Result<(), AppErrorDto>)
        ensures
            r is Ok <==> exists,
            r matches Err(e) ==> e@ == err_view("ERR_EVENT_NOT_FOUND"@, "Событие не найдено"@),
    {
        if !exists {
            return Err(AppErrorDto::new("ERR_EVENT_NOT_FOUND", "Событие не найдено", None));
        }
        Ok(())
    }

    /// Checks, in order, that every linked object and then every linked
    /// material belongs to the case; the error codes differ between creating
    /// (`on_update` false) and changing an event.
    pub fn check_event_links(objects_in_case: &Vec<bool>, materials_in_case: &Vec<bool>, on_update: bool) -> (r: Result<(), AppErrorDto>)
        ensures
            crate::error::unit_result_view(r) == links_spec(objects_in_case@, materials_in_case@, on_update),
    {
        let mut i: usize = 0;
        while i < objects_in_case.len()
            invariant
                i <= objects_in_case.len(),
                forall|j: int| 0 <= j < i ==> objects_in_case@[j],
            decreases objects_in_case.len() - i,
        {
            if !objects_in_case[i] {
                assert(objects_in_case@.contains(false)) by {
                    assert(objects_in_case@[i as int] == false);
                }
                let code = if on_update { "ERR_EVENT_OBJECT_CASE_MISMATCH" } else { "ERR_EVENT_OBJECT_NOT_IN_CASE" };
                return Err(AppErrorDto::new(code, "Один из объектов не принадлежит выбранному делу", None));
            }
            i = i + 1;
        }
        assert(!objects_in_case@.contains(false));
        let mut k: usize = 0;
        while k < materials_in_case.len()
            invariant
                k <= materials_in_case.len(),
                !objects_in_case@.contains(false),
                forall|j: int| 0 <= j < k ==> materials_in_case@[j],
            decreases materials_in_case.len() - k,
        {
            if !materials_in_case[k] {
                assert(materials_in_case@.contains(false)) by {
                    assert(materials_in_case@[k as int] == false);
                }
                let code = if on_update { "ERR_EVENT_MATERIAL_CASE_MISMATCH" } else { "ERR_EVENT_MATERIAL_NOT_IN_CASE" };
                return Err(AppErrorDto::new(code, "Один из материалов не принадлежит выбранному делу", None));
            }
            k = k + 1;
        }
        assert(!materials_in_case@.contains(false));
        Ok(())
    }

    /// The new value recorded when an event is created.
    pub fn created_event_value(code: &str, title: &str, event_type: &str, event_date: &str, include_in_report: bool) -> (s: String)
        ensures
            s@ == created_event_json(code@, title@, event_type@, event_date@, include_in_report),
    {
        let mut out = String::new();
        push_raw(&mut out, "{");
        push_str_member(&mut out, "eventCode", code);
        push_raw(&mut out, ",");
        push_str_member(&mut out, "eventDate", event_date);
        push_raw(&mut out, ",");
        push_str_member(&mut out, "eventType", event_type);
        push_raw(&mut out, ",");
        push_bool_member(&mut out, "includeInReport", include_in_report);
        push_raw(&mut out, ",");
        push_str_member(&mut out, "title", title);
        push_raw(&mut out, "}");
        proof {
            assert(out@ =~= created_event_json(code@, title@, event_type@, event_date@, include_in_report));
        }
        out
    }

    /// The old and new values recorded when an event is changed.
    pub fn event_state_value(title: &str, event_type: &str, event_date: &str, include_in_report: bool) -> (s: String)
        ensures
            s@ == event_state_json(title@, event_type@, event_date@, include_in_report),
    {
        let mut out = String::new();
        push_raw(&mut out, "{");
        push_str_member(&mut out, "eventDate", event_date);
        push_raw(&mut out, ",");
        push_str_member(&mut out, "eventType", event_type);
        push_raw(&mut out, ",");
        push_bool_member(&mut out, "includeInReport", include_in_report);
        push_raw(&mut out, ",");
        push_str_member(&mut out, "title", title);
        push_raw(&mut out, "}");
        proof {
            assert(out@ =~= event_state_json(title@, event_type@, event_date@, include_in_report));
        }
        out
    }

    /// The old value recorded when an event is deleted.
    pub fn deleted_event_value(code: &str, title: &str, event_date: &str) -> (s: String)
        ensures
            s@ == deleted_event_json(code@, title@, event_date@),
    {
        let mut out = String::new();
        push_raw(&mut out, "{");
        push_str_member(&mut out, "eventCode", code);
        push_raw(&mut out, ",");
        push_str_member(&mut out, "eventDate", event_date);
        push_raw(&mut out, ",");
        push_str_member(&mut out, "title", title);
        push_raw(&mut out, "}");
        proof {
            assert(out@ =~= deleted_event_json(code@, title@, event_date@));
        }
        out
    }

    /// The new value recorded when an event is deleted (it is archived).
    pub fn archived_value() -> (s: String)
        ensures
            s@ == archived_json(),
    {
        let mut out = String::new();
        push_raw(&mut out, "{");
        push_bool_member(&mut out, "archived", true);
        push_raw(&mut out, "}");
        proof {
            assert(out@ =~= archived_json());
        }
        out
    }

    /// The old and new values recorded when the report flag is switched.
    pub fn report_flag_value(include_in_report: bool) -> (s: String)
        ensures
            s@ == report_flag_json(include_in_report),
    {
        let mut out = String::new();
        push_raw(&mut out, "{");
        push_bool_member(&mut out, "includeInReport", include_in_report);
        push_raw(&mut out, "}");
        proof {
            assert(out@ =~= report_flag_json(include_in_report));
        }
        out
    }
}

} // verus!
