//! The outcome of a permission check.

use vstd::prelude::*;

verus! {

/// Why an operation was refused.
#[derive(Debug, Clone, Copy, PartialEq, Eq)]
pub enum PermissionDenyReason {
    /// The user's role never allows the operation.
    RoleDenied,
    /// The role could be allowed, but the access policy setting `policy_key` forbids it.
    PolicyDenied { policy_key: &'static str },
}

#[derive(Debug, Clone, Copy, PartialEq, Eq)]
pub enum PermissionDecision {
    Allow,
    Deny { reason: PermissionDenyReason, message: &'static str },
}

impl PermissionDecision {
    pub fn allowed(&self) -> (b: bool)
        ensures
            b == (*self is Allow),
    {
        match self {
            PermissionDecision::Allow => true,
            PermissionDecision::Deny { .. } => false,
        }
    }
}

} // verus!
