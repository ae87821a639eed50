//! The flat settings record shown to the user interface.

use vstd::prelude::*;

verus! {

/// Application settings in the shape the settings screen reads them.
#[derive(Debug, Clone)]
pub struct AppSettingsDto {
    pub storage_path: Option<String>,
    pub docx_default_template: String,
    pub backup_default_path: Option<String>,
    pub integrity_check_on_startup: bool,
    pub viewer_can_export_docx: bool,
    pub analyst_can_create_backup: bool,
    pub audit_strict_mode: bool,
}

impl Default for AppSettingsDto {
    fn default() -> (s: Self)
        ensures
            s.storage_path is None,
            s.docx_default_template@ == "analytical-report"@,
            s.backup_default_path is None,
            !s.integrity_check_on_startup,
            !s.viewer_can_export_docx,
            !s.analyst_can_create_backup,
            s.audit_strict_mode,
    {
        AppSettingsDto {
            storage_path: None,
            docx_default_template: "analytical-report".to_owned(),
            backup_default_path: None,
            integrity_check_on_startup: false,
            viewer_can_export_docx: false,
            analyst_can_create_backup: false,
            audit_strict_mode: true,
        }
    }
}

} // verus!
