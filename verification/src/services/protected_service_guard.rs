//! The account check that data commands pass before they touch a case.

use vstd::prelude::*;

use crate::error::{
    access_denied_code, err_view, password_change_required_code, password_change_required_message,
    AppErrorDto, AppErrorView,
};
use crate::repositories::user_access_repository::UserAccessFlags;

verus! {

pub open spec fn user_blocked_message() -> Seq<char> {
    "Пользователь заблокирован"@
}

/// What the account check answers for the stored access flags of a user.
pub open spec fn password_change_resolved_spec(is_active: bool, must_change_password: bool) -> Result<(), AppErrorView> {
    if !is_active {
        Err(err_view(access_denied_code(), user_blocked_message()))
    } else if must_change_password {
        Err(err_view(password_change_required_code(), password_change_required_message()))
    } else {
        Ok(())
    }
}

/// Checks the stored account of the signed-in user.
pub struct ProtectedServiceGuard;

impl ProtectedServiceGuard {
    /// A blocked account is refused first; then an account that must still
    /// change its temporary password.
    pub fn require_password_change_resolved(access: &UserAccessFlags) -> (r: Result<(), AppErrorDto>)
        ensures
            crate::error::unit_result_view(r) == password_change_resolved_spec(access.is_active, access.must_change_password),
    {
        if !access.is_active {
            return Err(AppErrorDto::access_denied("Пользователь заблокирован"));
        }
        if access.must_change_password {
            return Err(AppErrorDto::password_change_required());
        }
        Ok(())
    }
}

} // verus!
