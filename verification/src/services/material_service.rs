//! Rules for materials: required case, title and type.

use vstd::prelude::*;

use crate::audit::change_tracking::{note_change, opt_differs, push_changed, text_differs};
use crate::domain::vocabulary::{is_valid_material_type, material_types, views};
use crate::error::{err_view, opt_string_view, unit_result_view, validation_code, AppErrorDto, AppErrorView};
use crate::repositories::material_repository::MaterialRow;
use crate::storage::material_file_storage::ImportedMaterialFile;
use crate::services::case_service::normalize_optional_string;
use crate::services::relation_validation::optional_id_spec;
use crate::text::{byte_len, char_count, str_eq, string_views, trim, trimmed, utf8_len};

verus! {

pub open spec fn validate_case_id_spec(case_id: Seq<char>) -> Result<(), AppErrorView> {
    if case_id.len() == 0 {
        Err(err_view(validation_code(), "Не указан идентификатор дела."@))
    } else {
        Ok(())
    }
}

/// The (already trimmed) case identifier must not be empty.
pub fn validate_case_id(case_id: &str) -> (r: Result<(), AppErrorDto>)
    ensures
        unit_result_view(r) == validate_case_id_spec(case_id@),
{
    if char_count(case_id) == 0 {
        return Err(AppErrorDto::new("ERR_VALIDATION", "Не указан идентификатор дела.", None));
    }
    Ok(())
}

pub open spec fn validate_material_spec(title: Seq<char>, material_type: Seq<char>) -> Result<(), AppErrorView> {
    if byte_len(title) < 2 {
        Err(err_view(validation_code(), "Название материала должно содержать минимум 2 символа."@))
    } else if !views(material_types()).contains(material_type) {
        Err(err_view(validation_code(), "Недопустимый тип материала."@))
    } else {
        Ok(())
    }
}

/// A material needs a title of at least 2 bytes and a known material type.
pub fn validate_create_material_payload(title: &str, material_type: &str) -> (r: Result<(), AppErrorDto>)
    ensures
        unit_result_view(r) == validate_material_spec(title@, material_type@),
{
    if utf8_len(title) < 2 {
        return Err(AppErrorDto::new("ERR_VALIDATION", "Название материала должно содержать минимум 2 символа.", None));
    }
    if !is_valid_material_type(material_type) {
        return Err(AppErrorDto::new("ERR_VALIDATION", "Недопустимый тип материала.", None));
    }
    Ok(())
}

/// The text of an optional field, trimmed; empty when absent.
pub open spec fn text_or_empty(value: Option<Seq<char>>) -> Seq<char> {
    match value {
        Some(v) => trim(v),
        None => Seq::empty(),
    }
}

fn trimmed_or_empty(value: Option<String>) -> (r: String)
    ensures
        r@ == text_or_empty(opt_string_view(value)),
{
    match value {
        Some(v) => trimmed(v.as_str()),
        None => String::new(),
    }
}

/// The fields of a material as entered, normalized: texts trimmed, a blank
/// capture time dropped.
pub struct MaterialFields {
    pub case_id: String,
    pub title: String,
    pub material_type: String,
    pub source_name: String,
    pub description: String,
    pub captured_at: Option<String>,
}

pub open spec fn fields_normalized(
    f: MaterialFields,
    case_id: Seq<char>,
    title: Seq<char>,
    material_type: Seq<char>,
    source_name: Option<Seq<char>>,
    description: Option<Seq<char>>,
    captured_at: Option<Seq<char>>,
) -> bool {
    &&& f.case_id@ == trim(case_id)
    &&& f.title@ == trim(title)
    &&& f.material_type@ == trim(material_type)
    &&& f.source_name@ == text_or_empty(source_name)
    &&& f.description@ == text_or_empty(description)
    &&& opt_string_view(f.captured_at) == optional_id_spec(captured_at)
}

/// What checking the fields of a new material answers: the case, then the
/// title and type.
pub open spec fn check_material_spec(case_id: Seq<char>, title: Seq<char>, material_type: Seq<char>) -> Result<(), AppErrorView> {
    match validate_case_id_spec(trim(case_id)) {
        Err(e) => Err(e),
        Ok(_) => validate_material_spec(trim(title), trim(material_type)),
    }
}

pub open spec fn material_id_message() -> Seq<char> {
    "Не указан идентификатор материала."@
}

/// The kind of audit entry an update of a material produces.
#[derive(Debug, Clone, Copy, PartialEq, Eq, Structural)]
pub enum MaterialUpdateAction {
    /// Only the report flag changed.
    ReportIncludeChanged,
    /// Anything else changed.
    Updated,
}

/// The kind of audit entry a fingerprint check produces.
#[derive(Debug, Clone, Copy, PartialEq, Eq, Structural)]
pub enum MaterialHashAction {
    Verified,
    Mismatch,
}

/// The fields an update changed, in the order title, material type, source,
/// description, capture time, report flag.
pub open spec fn material_changes_spec(old: MaterialRow, new: MaterialRow) -> Seq<Seq<char>> {
    let f0 = note_change(Seq::empty(), "title"@, old.title@ != new.title@);
    let f1 = note_change(f0, "materialType"@, old.material_type@ != new.material_type@);
    let f2 = note_change(f1, "sourceName"@, old.source_name@ != new.source_name@);
    let f3 = note_change(f2, "description"@, old.description@ != new.description@);
    let f4 = note_change(f3, "capturedAt"@, opt_string_view(old.captured_at) != opt_string_view(new.captured_at));
    note_change(f4, "includeInReport"@, old.include_in_report != new.include_in_report)
}

/// No entry when nothing changed; a report-flag entry when only the flag did.
pub open spec fn material_update_action_spec(changed: Seq<Seq<char>>) -> Option<MaterialUpdateAction> {
    if changed.len() == 0 {
        None
    } else if changed.len() == 1 && changed[0] == "includeInReport"@ {
        Some(MaterialUpdateAction::ReportIncludeChanged)
    } else {
        Some(MaterialUpdateAction::Updated)
    }
}

/// The integrity status of a material whose file was fingerprinted on import.
pub const MATERIAL_INTEGRITY_OK: &'static str = "ok";

/// The integrity status of a material without a file.
pub const MATERIAL_INTEGRITY_NOT_CHECKED: &'static str = "not_checked";

/// What a new material records of its file.
pub struct MaterialFileFields {
    pub original_file_name: Option<String>,
    pub original_path: Option<String>,
    pub stored_file_path: Option<String>,
    pub file_size: Option<i64>,
    pub mime_type: Option<String>,
    pub sha256: Option<String>,
    pub integrity_status: String,
}

/// The decisions of the material commands.
pub struct MaterialService;

impl MaterialService {
    /// Normalizes and checks the fields of a new material.
    pub fn prepare_create(
        case_id: &str,
        title: &str,
        material_type: &str,
        source_name: Option<String>,
        description: Option<String>,
        captured_at: Option<String>,
    ) -> (r: Result<MaterialFields, AppErrorDto>)
        ensures
            unit_result_view(match r { Ok(_) => Ok(()), Err(e) => Err(e) }) == check_material_spec(case_id@, title@, material_type@),
            r matches Ok(f) ==> fields_normalized(
                f,
                case_id@,
                title@,
                material_type@,
                opt_string_view(source_name),
                opt_string_view(description),
                opt_string_view(captured_at),
            ),
    {
        let case_id = trimmed(case_id);
        let title = trimmed(title);
        let material_type = trimmed(material_type);
        let source_name = trimmed_or_empty(source_name);
        let description = trimmed_or_empty(description);
        let captured_at = normalize_optional_string(captured_at);
        validate_case_id(case_id.as_str())?;
        validate_create_material_payload(title.as_str(), material_type.as_str())?;
        Ok(MaterialFields { case_id, title, material_type, source_name, description, captured_at })
    }

    /// Normalizes and checks the fields of a material update: the case, then
    /// the material identifier, then title and type.
    pub fn prepare_update(
        case_id: &str,
        material_id: &str,
        title: &str,
        material_type: &str,
        source_name: Option<String>,
        description: Option<String>,
        captured_at: Option<String>,
    ) -> (r: Result<(String, MaterialFields), AppErrorDto>)
        ensures
            validate_case_id_spec(trim(case_id@)) is Err ==> (r matches Err(e) && Err::<(), AppErrorView>(e@) == validate_case_id_spec(trim(case_id@))),
            validate_case_id_spec(trim(case_id@)) is Ok && trim(material_id@).len() == 0 ==> (r matches Err(e) && e@ == err_view(validation_code(), material_id_message())),
            validate_case_id_spec(trim(case_id@)) is Ok && trim(material_id@).len() > 0 ==> match validate_material_spec(trim(title@), trim(material_type@)) {
                Err(v) => r matches Err(e) && e@ == v,
                Ok(_) => r matches Ok((id, f)) && id@ == trim(material_id@) && fields_normalized(
                    f,
                    case_id@,
                    title@,
                    material_type@,
                    opt_string_view(source_name),
                    opt_string_view(description),
                    opt_string_view(captured_at),
                ),
            },
    {
        let case_id = trimmed(case_id);
        let material_id = trimmed(material_id);
        let title = trimmed(title);
        let material_type = trimmed(material_type);
        let source_name = trimmed_or_empty(source_name);
        let description = trimmed_or_empty(description);
        let captured_at = normalize_optional_string(captured_at);
        validate_case_id(case_id.as_str())?;
        if char_count(material_id.as_str()) == 0 {
            return Err(AppErrorDto::new("ERR_VALIDATION", "Не указан идентификатор материала.", None));
        }
        validate_create_material_payload(title.as_str(), material_type.as_str())?;
        Ok((material_id, MaterialFields { case_id, title, material_type, source_name, description, captured_at }))
    }

    /// Normalizes the identifiers of a deletion: the case, then the material.
    pub fn prepare_delete(case_id: &str, material_id: &str) -> (r: Result<(String, String), AppErrorDto>)
        ensures
            validate_case_id_spec(trim(case_id@)) is Err ==> (r matches Err(e) && Err::<(), AppErrorView>(e@) == validate_case_id_spec(trim(case_id@))),
            validate_case_id_spec(trim(case_id@)) is Ok && trim(material_id@).len() == 0 ==> (r matches Err(e) && e@ == err_view(validation_code(), material_id_message())),
            validate_case_id_spec(trim(case_id@)) is Ok && trim(material_id@).len() > 0 ==> (r matches Ok((c, m)) && c@ == trim(case_id@) && m@ == trim(material_id@)),
    {
        let case_id = trimmed(case_id);
        let material_id = trimmed(material_id);
        validate_case_id(case_id.as_str())?;
        if char_count(material_id.as_str()) == 0 {
            return Err(AppErrorDto::new("ERR_VALIDATION", "Не указан идентификатор материала.", None));
        }
        Ok((case_id, material_id))
    }

    /// The file fields of a new material: those of the imported file, with the
    /// integrity status `ok`; without a file, none and `not_checked`.
    pub fn file_fields(imported: Option<ImportedMaterialFile>) -> (f: MaterialFileFields)
        ensures
            match imported {
                Some(file) => f.original_file_name == Some(file.original_file_name) && f.original_path == Some(file.original_path)
                    && f.stored_file_path == Some(file.stored_file_path) && f.file_size == Some(file.file_size)
                    && f.mime_type == file.mime_type && f.sha256 == Some(file.sha256)
                    && f.integrity_status@ == MATERIAL_INTEGRITY_OK@,
                None => f.original_file_name is None && f.original_path is None && f.stored_file_path is None
                    && f.file_size is None && f.mime_type is None && f.sha256 is None
                    && f.integrity_status@ == MATERIAL_INTEGRITY_NOT_CHECKED@,
            },
    {
        match imported {
            Some(file) => MaterialFileFields {
                original_file_name: Some(file.original_file_name),
                original_path: Some(file.original_path),
                stored_file_path: Some(file.stored_file_path),
                file_size: Some(file.file_size),
                mime_type: file.mime_type,
                sha256: Some(file.sha256),
                integrity_status: MATERIAL_INTEGRITY_OK.to_owned(),
            },
            None => MaterialFileFields {
                original_file_name: None,
                original_path: None,
                stored_file_path: None,
                file_size: None,
                mime_type: None,
                sha256: None,
                integrity_status: MATERIAL_INTEGRITY_NOT_CHECKED.to_owned(),
            },
        }
    }

    /// The fields an update of a material changed.
    pub fn material_changed_fields(old: &MaterialRow, new: &MaterialRow) -> (v: Vec<String>)
        ensures
            string_views(v@) == material_changes_spec(*old, *new),
    {
        let mut v: Vec<String> = Vec::new();
        assert(string_views(v@) =~= Seq::<Seq<char>>::empty());
        push_changed(&mut v, "title", text_differs(old.title.as_str(), new.title.as_str()));
        push_changed(&mut v, "materialType", text_differs(old.material_type.as_str(), new.material_type.as_str()));
        push_changed(&mut v, "sourceName", text_differs(old.source_name.as_str(), new.source_name.as_str()));
        push_changed(&mut v, "description", text_differs(old.description.as_str(), new.description.as_str()));
        push_changed(&mut v, "capturedAt", opt_differs(&old.captured_at, &new.captured_at));
        push_changed(&mut v, "includeInReport", old.include_in_report != new.include_in_report);
        v
    }

    /// The audit entry an update produces, if any.
    pub fn material_update_action(changed: &Vec<String>) -> (a: Option<MaterialUpdateAction>)
        ensures
            a == material_update_action_spec(string_views(changed@)),
    {
        if changed.len() == 0 {
            return None;
        }
        if changed.len() == 1 && str_eq(changed[0].as_str(), "includeInReport") {
            return Some(MaterialUpdateAction::ReportIncludeChanged);
        }
        Some(MaterialUpdateAction::Updated)
    }

    /// A fingerprint check is recorded as verified when the material's
    /// integrity status is `ok`, as a mismatch otherwise.
    pub fn hash_check_action(integrity_status: &str) -> (a: MaterialHashAction)
        ensures
            a == (if integrity_status@ == "ok"@ { MaterialHashAction::Verified } else { MaterialHashAction::Mismatch }),
    {
        if str_eq(integrity_status, "ok") {
            MaterialHashAction::Verified
        } else {
            MaterialHashAction::Mismatch
        }
    }
}

/// An update that only switched the report flag is recorded as such, and one
/// that changed nothing is not recorded.
pub proof fn lemma_flag_only_update(old: MaterialRow, new: MaterialRow)
    ensures
        (old.title@ == new.title@ && old.material_type@ == new.material_type@ && old.source_name@ == new.source_name@
            && old.description@ == new.description@ && opt_string_view(old.captured_at) == opt_string_view(new.captured_at))
            ==> material_update_action_spec(material_changes_spec(old, new)) == if old.include_in_report != new.include_in_report {
                Some(MaterialUpdateAction::ReportIncludeChanged)
            } else {
                None
            },
{
    if old.include_in_report != new.include_in_report {
        assert(Seq::<Seq<char>>::empty().push("includeInReport"@)[0] == "includeInReport"@);
    }
}

} // verus!
