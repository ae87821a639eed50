pub mod effective_permission_service;
pub mod effective_permissions;
pub mod password;
pub mod permission_decision;
pub mod policy_aware_permission_guard;
pub mod policy_aware_permission_service;
pub mod protected_operation;
pub mod protected_service_context;
pub mod session;
