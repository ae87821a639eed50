//! What the users table says about a user's access.

use vstd::prelude::*;

verus! {

/// Identity, role and access flags of a user, as stored.
#[derive(Debug, Clone)]
pub struct UserAccessFlags {
    pub id: String,
    pub username: String,
    pub role_code: String,
    pub is_active: bool,
    pub must_change_password: bool,
}

/// Reads the access flags of users from the users table.
pub struct UserAccessRepository;

} // verus!
