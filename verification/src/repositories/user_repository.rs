//! Rows of the users table used for signing in and creating users.

use vstd::prelude::*;

verus! {

/// What signing in needs to know of a user.
#[derive(Debug, Clone)]
pub struct UserAuthRow {
    pub user_id: String,
    pub username: String,
    pub display_name: String,
    pub password_hash: String,
    pub is_active: i64,
    pub role: String,
    pub must_change_password: bool,
}

/// A new user, ready to insert.
#[derive(Debug, Clone)]
pub struct CreateUserRecord {
    pub user_id: String,
    pub username: String,
    pub display_name: String,
    pub password_hash: String,
    pub role_id: String,
}

/// Reads and writes the users table.
pub struct UserRepository;

} // verus!
