pub mod audit_repository;
pub mod case_repository;
pub mod case_summary_repository;
pub mod graph_repository;
pub mod material_repository;
pub mod object_repository;
pub mod relation_repository;
pub mod role_repository;
pub mod sequential_code;
pub mod settings_repository;
pub mod timeline_repository;
pub mod user_access_repository;
pub mod user_management_repository;
pub mod user_repository;
