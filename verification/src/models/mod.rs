pub mod settings;
pub mod settings_catalog;
pub mod settings_defaults;
