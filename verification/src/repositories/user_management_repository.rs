//! The user listing of the administration screen.

use vstd::prelude::*;

verus! {

/// Reads the user listing of the administration screen.
pub struct UserManagementRepository;

} // verus!
