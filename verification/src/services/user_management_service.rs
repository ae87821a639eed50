//! The user listing of the administration screen: who may see it and how
//! its filters and paging are normalized.

use vstd::prelude::*;

use crate::error::{access_denied_code, err_view, unauthorized_code, unit_result_view, validation_code, AppErrorDto, AppErrorView};
use crate::security::session::{role_administrator, CurrentUserDto, SessionState};
use crate::text::str_eq;

verus! {

pub const DEFAULT_USERS_LIMIT: i64 = 50;

pub const MAX_USERS_LIMIT: i64 = 200;

/// The page size: 50 when absent, otherwise clamped to 1..=200.
pub open spec fn limit_spec(limit: Option<i64>) -> i64 {
    let l = match limit {
        Some(v) => v,
        None => DEFAULT_USERS_LIMIT,
    };
    if l < 1 {
        1
    } else if l > MAX_USERS_LIMIT {
        MAX_USERS_LIMIT
    } else {
        l
    }
}

pub open spec fn role_filter_spec(role: Option<Seq<char>>) -> Result<(), AppErrorView> {
    match role {
        Some(r) => if r == "administrator"@ || r == "analyst"@ || r == "viewer"@ {
            Ok(())
        } else {
            Err(err_view(validation_code(), "Некорректный фильтр роли"@))
        },
        None => Ok(()),
    }
}

pub open spec fn status_filter_spec(status: Option<Seq<char>>) -> Result<(), AppErrorView> {
    match status {
        Some(s) => if s == "all"@ || s == "active"@ || s == "blocked"@ {
            Ok(())
        } else {
            Err(err_view(validation_code(), "Некорректный фильтр статуса пользователя"@))
        },
        None => Ok(()),
    }
}

pub struct UserManagementService;

impl UserManagementService {
    /// The user listing is for administrators only.
    pub fn require_user_management_admin(session: &SessionState) -> (r: Result<CurrentUserDto, AppErrorDto>)
        ensures
            match session@ {
                None => r matches Err(e) && e@ == err_view(unauthorized_code(), "Требуется аутентификация"@),
                Some(u) => if u.role@ == role_administrator() {
                    r == Ok::<CurrentUserDto, AppErrorDto>(u)
                } else {
                    r matches Err(e) && e@ == err_view(access_denied_code(), "Доступ запрещён. Требуется роль администратора."@)
                },
            },
    {
        match session.get_current_user() {
            None => Err(AppErrorDto::unauthorized("Требуется аутентификация")),
            Some(u) => {
                if !u.is_administrator() {
                    return Err(AppErrorDto::access_denied("Доступ запрещён. Требуется роль администратора."));
                }
                Ok(u)
            },
        }
    }

    /// The page size of the listing.
    pub fn normalize_limit(limit: Option<i64>) -> (l: i64)
        ensures
            l == limit_spec(limit),
            1 <= l <= MAX_USERS_LIMIT,
    {
        let l = match limit {
            Some(v) => v,
            None => DEFAULT_USERS_LIMIT,
        };
        if l < 1 {
            1
        } else if l > MAX_USERS_LIMIT {
            MAX_USERS_LIMIT
        } else {
            l
        }
    }

    /// The page offset: 0 when absent or negative.
    pub fn normalize_offset(offset: Option<i64>) -> (o: i64)
        ensures
            o == match offset { Some(v) => if v < 0 { 0 } else { v }, None => 0 },
    {
        match offset {
            Some(v) => if v < 0 { 0 } else { v },
            None => 0,
        }
    }

    /// A role filter, when given, names one of the three roles.
    pub fn validate_role_filter(role: Option<&str>) -> (r: Result<(), AppErrorDto>)
        ensures
            unit_result_view(r) == role_filter_spec(crate::services::case_service::opt_ref_view(role)),
    {
        match role {
            Some(v) => {
                if str_eq(v, "administrator") || str_eq(v, "analyst") || str_eq(v, "viewer") {
                    Ok(())
                } else {
                    Err(AppErrorDto::validation("Некорректный фильтр роли"))
                }
            },
            None => Ok(()),
        }
    }

    /// A status filter, when given, is `all`, `active` or `blocked`.
    pub fn validate_status_filter(status: Option<&str>) -> (r: Result<(), AppErrorDto>)
        ensures
            unit_result_view(r) == status_filter_spec(crate::services::case_service::opt_ref_view(status)),
    {
        match status {
            Some(v) => {
                if str_eq(v, "all") || str_eq(v, "active") || str_eq(v, "blocked") {
                    Ok(())
                } else {
                    Err(AppErrorDto::validation("Некорректный фильтр статуса пользователя"))
                }
            },
            None => Ok(()),
        }
    }
}

} // verus!
