pub mod audit_access_denied;
pub mod audit_guards;
pub mod audit_service;
pub mod auth_service;
pub mod backup_service;
pub mod case_service;
pub mod case_summary_service;
pub mod graph_service;
pub mod material_service;
pub mod object_service;
pub mod object_validation;
pub mod protected_access_audit;
pub mod protected_policy_guard;
pub mod protected_service_guard;
pub mod relation_service;
pub mod relation_validation;
pub mod report_draft_service;
pub mod settings_access_policy;
pub mod settings_path_validator;
pub mod settings_service;
pub mod settings_validator;
pub mod timeline_service;
pub mod timeline_validation;
pub mod user_management_service;
pub mod user_management_validation;
