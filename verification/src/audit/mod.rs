pub mod audit_metadata;
pub mod change_tracking;
