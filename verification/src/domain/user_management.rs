//! Requests of the user-management screens.

use vstd::prelude::*;

verus! {

#[derive(Debug, Clone)]
pub struct CreateUserPayload {
    pub username: String,
    pub display_name: Option<String>,
    pub role_code: String,
    pub password: String,
    pub must_change_password: Option<bool>,
}

#[derive(Debug, Clone)]
pub struct UpdateUserPayload {
    pub user_id: String,
    pub display_name: Option<String>,
    pub role_code: String,
    pub must_change_password: bool,
}

#[derive(Debug, Clone)]
pub struct BlockUserPayload {
    pub user_id: String,
}

#[derive(Debug, Clone)]
pub struct UnblockUserPayload {
    pub user_id: String,
}

#[derive(Debug, Clone)]
pub struct ResetUserPasswordPayload {
    pub user_id: String,
    pub temporary_password: String,
}

#[derive(Debug, Clone)]
pub struct ChangeOwnPasswordPayload {
    pub current_password: String,
    pub new_password: String,
}

} // verus!
