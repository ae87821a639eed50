//! The application error value handed back to the user interface.

use vstd::prelude::*;

verus! {

/// An error with a stable machine-readable code, a human-readable message
/// and optional technical details.
pub struct AppErrorDto {
    pub code: String,
    pub message: String,
    pub details: Option<String>,
}

/// Mathematical model of [`AppErrorDto`].
pub struct AppErrorView {
    pub code: Seq<char>,
    pub message: Seq<char>,
    pub details: Option<Seq<char>>,
}

pub open spec fn opt_string_view(o: Option<String>) -> Option<Seq<char>> {
    match o {
        Some(s) => Some(s@),
        None => None,
    }
}

impl View for AppErrorDto {
    type V = AppErrorView;

    open spec fn view(&self) -> AppErrorView {
        AppErrorView { code: self.code@, message: self.message@, details: opt_string_view(self.details) }
    }
}

/// An error view with the given code and message and no details.
pub open spec fn err_view(code: Seq<char>, message: Seq<char>) -> AppErrorView {
    AppErrorView { code, message, details: None }
}

/// The model of a `Result` whose error is an [`AppErrorDto`].
pub open spec fn unit_result_view(r: Result<(), AppErrorDto>) -> Result<(), AppErrorView> {
    match r {
        Ok(_) => Ok(()),
        Err(e) => Err(e@),
    }
}

/// The model of a `Result` carrying a string.
pub open spec fn string_result_view(r: Result<String, AppErrorDto>) -> Result<Seq<char>, AppErrorView> {
    match r {
        Ok(s) => Ok(s@),
        Err(e) => Err(e@),
    }
}

/// The model of a `Result` carrying an optional string.
pub open spec fn opt_string_result_view(r: Result<Option<String>, AppErrorDto>) -> Result<Option<Seq<char>>, AppErrorView> {
    match r {
        Ok(s) => Ok(opt_string_view(s)),
        Err(e) => Err(e@),
    }
}

pub open spec fn validation_code() -> Seq<char> {
    "ERR_VALIDATION"@
}

pub open spec fn access_denied_code() -> Seq<char> {
    "ERR_ACCESS_DENIED"@
}

pub open spec fn unauthorized_code() -> Seq<char> {
    "ERR_UNAUTHORIZED"@
}

pub open spec fn password_change_required_code() -> Seq<char> {
    "ERR_PASSWORD_CHANGE_REQUIRED"@
}

pub open spec fn restore_in_progress_code() -> Seq<char> {
    "ERR_RESTORE_IN_PROGRESS"@
}

pub open spec fn password_change_required_message() -> Seq<char> {
    "Требуется смена пароля."@
}

impl AppErrorDto {
    /// Builds an error from its parts.
    pub fn new(code: &str, message: &str, details: Option<String>) -> (e: Self)
        ensures
            e@ == (AppErrorView { code: code@, message: message@, details: opt_string_view(details) }),
    {
        AppErrorDto { code: code.to_owned(), message: message.to_owned(), details }
    }

    /// A validation error (`ERR_VALIDATION`).
    pub fn validation(message: &str) -> (e: Self)
        ensures
            e@ == err_view(validation_code(), message@),
    {
        Self::new("ERR_VALIDATION", message, None)
    }

    /// An access-denied error (`ERR_ACCESS_DENIED`).
    pub fn access_denied(message: &str) -> (e: Self)
        ensures
            e@ == err_view(access_denied_code(), message@),
    {
        Self::new("ERR_ACCESS_DENIED", message, None)
    }

    /// A missing-session error (`ERR_UNAUTHORIZED`).
    pub fn unauthorized(message: &str) -> (e: Self)
        ensures
            e@ == err_view(unauthorized_code(), message@),
    {
        Self::new("ERR_UNAUTHORIZED", message, None)
    }

    /// The error raised while the user still has to change a temporary password.
    pub fn password_change_required() -> (e: Self)
        ensures
            e@ == err_view(password_change_required_code(), password_change_required_message()),
    {
        Self::new("ERR_PASSWORD_CHANGE_REQUIRED", "Требуется смена пароля.", None)
    }

    /// The error raised while the application recovers from a restore.
    pub fn restore_in_progress(message: &str) -> (e: Self)
        ensures
            e@ == err_view(restore_in_progress_code(), message@),
    {
        Self::new("ERR_RESTORE_IN_PROGRESS", message, None)
    }
}

} // verus!
