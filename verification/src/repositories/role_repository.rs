//! The roles table.

use vstd::prelude::*;

verus! {

/// Reads the roles table.
pub struct RoleRepository;

} // verus!
