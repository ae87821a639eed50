//! The decisions of the object commands: the normalized fields of a new
//! object, and what an update of an object records in the audit log.

use vstd::prelude::*;

use crate::audit::change_tracking::{note_change, push_changed, text_differs};
use crate::error::{opt_string_view, AppErrorDto, AppErrorView};
use crate::services::object_validation::{
    is_trimmed_input, normalize_link_reason, normalize_link_reason_spec, normalize_unique_ids, strictly_sorted,
    normalize_confidence_note, normalize_confidence_note_spec, normalize_object_description,
    normalize_object_description_spec, normalize_object_title, normalize_object_title_spec, normalize_object_type,
    normalize_object_type_spec, normalize_optional_value, normalize_optional_value_spec, normalize_required_id,
    required_id_spec,
};
use crate::text::{str_eq, string_views};

verus! {

/// The normalized fields of a new object.
pub struct ObjectFields {
    pub case_id: String,
    pub object_type: String,
    pub title: String,
    pub value: Option<String>,
    pub description: String,
    pub confidence_note: String,
    pub is_key: bool,
    pub include_in_report: bool,
}

/// The model of [`ObjectFields`].
pub struct ObjectFieldsView {
    pub case_id: Seq<char>,
    pub object_type: Seq<char>,
    pub title: Seq<char>,
    pub value: Option<Seq<char>>,
    pub description: Seq<char>,
    pub confidence_note: Seq<char>,
    pub is_key: bool,
    pub include_in_report: bool,
}

impl View for ObjectFields {
    type V = ObjectFieldsView;

    open spec fn view(&self) -> ObjectFieldsView {
        ObjectFieldsView {
            case_id: self.case_id@,
            object_type: self.object_type@,
            title: self.title@,
            value: opt_string_view(self.value),
            description: self.description@,
            confidence_note: self.confidence_note@,
            is_key: self.is_key,
            include_in_report: self.include_in_report,
        }
    }
}

/// The fields of a new object, checked in order: case, type, title, value,
/// description, confidence note. An object is not key unless marked so, and
/// goes into the report unless marked otherwise.
pub open spec fn prepare_object_spec(
    case_id: Seq<char>,
    object_type: Seq<char>,
    title: Seq<char>,
    value: Option<Seq<char>>,
    description: Option<Seq<char>>,
    confidence_note: Option<Seq<char>>,
    is_key: Option<bool>,
    include_in_report: Option<bool>,
) -> Result<ObjectFieldsView, AppErrorView> {
    match required_id_spec(case_id, "ERR_CASE_REQUIRED"@, "Не выбрано дело."@) {
        Err(e) => Err(e),
        Ok(c) => match normalize_object_type_spec(object_type) {
            Err(e) => Err(e),
            Ok(t) => match normalize_object_title_spec(title) {
                Err(e) => Err(e),
                Ok(ti) => match normalize_optional_value_spec(value) {
                    Err(e) => Err(e),
                    Ok(v) => match normalize_object_description_spec(description) {
                        Err(e) => Err(e),
                        Ok(d) => match normalize_confidence_note_spec(confidence_note) {
                            Err(e) => Err(e),
                            Ok(n) => Ok(ObjectFieldsView {
                                case_id: c,
                                object_type: t,
                                title: ti,
                                value: v,
                                description: d,
                                confidence_note: n,
                                is_key: match is_key { Some(b) => b, None => false },
                                include_in_report: match include_in_report { Some(b) => b, None => true },
                            }),
                        },
                    },
                },
            },
        },
    }
}

pub open spec fn object_fields_result_view(r: Result<ObjectFields, AppErrorDto>) -> Result<ObjectFieldsView, AppErrorView> {
    match r {
        Ok(f) => Ok(f@),
        Err(e) => Err(e@),
    }
}

/// The fields of an object's details that its audit entries compare.
pub struct ObjectAuditFields {
    pub object_code: String,
    pub object_type: String,
    pub title: String,
    pub description: String,
    pub is_key: bool,
    pub include_in_report: bool,
}

/// The kind of audit entry an update of an object produces.
#[derive(Debug, Clone, Copy, PartialEq, Eq, Structural)]
pub enum ObjectUpdateAction {
    /// Only the key-object flag changed.
    KeyFlagChanged,
    /// Anything else changed.
    Updated,
}

/// The fields an update changed, in the order type, title, description, key
/// flag, report flag.
pub open spec fn object_changes_spec(old: ObjectAuditFields, new: ObjectAuditFields) -> Seq<Seq<char>> {
    let f0 = note_change(Seq::empty(), "objectType"@, old.object_type@ != new.object_type@);
    let f1 = note_change(f0, "title"@, old.title@ != new.title@);
    let f2 = note_change(f1, "description"@, old.description@ != new.description@);
    let f3 = note_change(f2, "isKeyObject"@, old.is_key != new.is_key);
    note_change(f3, "includeInReport"@, old.include_in_report != new.include_in_report)
}

pub open spec fn object_update_action_spec(changed: Seq<Seq<char>>) -> Option<ObjectUpdateAction> {
    if changed.len() == 0 {
        None
    } else if changed.len() == 1 && changed[0] == "isKeyObject"@ {
        Some(ObjectUpdateAction::KeyFlagChanged)
    } else {
        Some(ObjectUpdateAction::Updated)
    }
}

/// The identifiers of an object command: case, then object.
pub open spec fn object_ids_spec(case_id: Seq<char>, object_id: Seq<char>) -> Result<(Seq<char>, Seq<char>), AppErrorView> {
    match required_id_spec(case_id, "ERR_CASE_REQUIRED"@, "Не выбрано дело."@) {
        Err(e) => Err(e),
        Ok(c) => match required_id_spec(object_id, "ERR_OBJECT_REQUIRED"@, "Не выбран объект."@) {
            Err(e) => Err(e),
            Ok(o) => Ok((c, o)),
        },
    }
}

pub open spec fn ids_result_view(r: Result<(String, String), AppErrorDto>) -> Result<(Seq<char>, Seq<char>), AppErrorView> {
    match r {
        Ok((a, b)) => Ok((a@, b@)),
        Err(e) => Err(e@),
    }
}

/// The new values of an object, normalized.
pub struct ObjectUpdateFields {
    pub title: String,
    pub value: Option<String>,
    pub description: String,
    pub confidence_note: String,
}

/// The decisions of the object commands.
pub struct ObjectService;

impl ObjectService {
    /// Normalizes and checks the fields of a new object.
    pub fn prepare_create(
        case_id: &str,
        object_type: &str,
        title: &str,
        value: Option<String>,
        description: Option<String>,
        confidence_note: Option<String>,
        is_key: Option<bool>,
        include_in_report: Option<bool>,
    ) -> (r: Result<ObjectFields, AppErrorDto>)
        ensures
            object_fields_result_view(r) == prepare_object_spec(
                case_id@,
                object_type@,
                title@,
                opt_string_view(value),
                opt_string_view(description),
                opt_string_view(confidence_note),
                is_key,
                include_in_report,
            ),
    {
        let case_id = normalize_required_id(case_id, "ERR_CASE_REQUIRED", "Не выбрано дело.")?;
        let object_type = normalize_object_type(object_type)?;
        let title = normalize_object_title(title)?;
        let value = normalize_optional_value(value)?;
        let description = normalize_object_description(description)?;
        let confidence_note = normalize_confidence_note(confidence_note)?;
        let is_key = match is_key {
            Some(b) => b,
            None => false,
        };
        let include_in_report = match include_in_report {
            Some(b) => b,
            None => true,
        };
        Ok(ObjectFields { case_id, object_type, title, value, description, confidence_note, is_key, include_in_report })
    }

    /// Normalizes the identifiers of a command on one object.
    pub fn object_ids(case_id: &str, object_id: &str) -> (r: Result<(String, String), AppErrorDto>)
        ensures
            ids_result_view(r) == object_ids_spec(case_id@, object_id@),
    {
        let c = normalize_required_id(case_id, "ERR_CASE_REQUIRED", "Не выбрано дело.")?;
        let o = normalize_required_id(object_id, "ERR_OBJECT_REQUIRED", "Не выбран объект.")?;
        Ok((c, o))
    }

    /// Normalizes and checks the new values of an object, in order: title,
    /// value, description, confidence note.
    pub fn prepare_update(
        title: &str,
        value: Option<String>,
        description: Option<String>,
        confidence_note: Option<String>,
    ) -> (r: Result<ObjectUpdateFields, AppErrorDto>)
        ensures
            match normalize_object_title_spec(title@) {
                Err(e) => r matches Err(e2) && e2@ == e,
                Ok(t) => match normalize_optional_value_spec(opt_string_view(value)) {
                    Err(e) => r matches Err(e2) && e2@ == e,
                    Ok(v) => match normalize_object_description_spec(opt_string_view(description)) {
                        Err(e) => r matches Err(e2) && e2@ == e,
                        Ok(d) => match normalize_confidence_note_spec(opt_string_view(confidence_note)) {
                            Err(e) => r matches Err(e2) && e2@ == e,
                            Ok(n) => r matches Ok(f) && f.title@ == t && opt_string_view(f.value) == v
                                && f.description@ == d && f.confidence_note@ == n,
                        },
                    },
                },
            },
    {
        let title = normalize_object_title(title)?;
        let value = normalize_optional_value(value)?;
        let description = normalize_object_description(description)?;
        let confidence_note = normalize_confidence_note(confidence_note)?;
        Ok(ObjectUpdateFields { title, value, description, confidence_note })
    }

    /// Normalizes the materials to link to an object (trimmed, blank dropped,
    /// sorted without repeats) and the reason of the link.
    pub fn prepare_material_links(material_ids: Vec<String>, link_reason: Option<String>) -> (r: Result<(Vec<String>, String), AppErrorDto>)
        ensures
            match normalize_link_reason_spec(opt_string_view(link_reason)) {
                Err(e) => r matches Err(e2) && e2@ == e,
                Ok(reason) => r matches Ok((ids, rs)) && rs@ == reason && strictly_sorted(string_views(ids@))
                    && forall|x: Seq<char>| string_views(ids@).contains(x) <==> is_trimmed_input(material_ids@, material_ids@.len() as int, x),
            },
    {
        let ids = normalize_unique_ids(material_ids);
        let reason = normalize_link_reason(link_reason)?;
        Ok((ids, reason))
    }

    /// The fields an update of an object changed.
    pub fn object_changed_fields(old: &ObjectAuditFields, new: &ObjectAuditFields) -> (v: Vec<String>)
        ensures
            string_views(v@) == object_changes_spec(*old, *new),
    {
        let mut v: Vec<String> = Vec::new();
        assert(string_views(v@) =~= Seq::<Seq<char>>::empty());
        push_changed(&mut v, "objectType", text_differs(old.object_type.as_str(), new.object_type.as_str()));
        push_changed(&mut v, "title", text_differs(old.title.as_str(), new.title.as_str()));
        push_changed(&mut v, "description", text_differs(old.description.as_str(), new.description.as_str()));
        push_changed(&mut v, "isKeyObject", old.is_key != new.is_key);
        push_changed(&mut v, "includeInReport", old.include_in_report != new.include_in_report);
        v
    }

    /// The audit entry an update produces, if any.
    pub fn object_update_action(changed: &Vec<String>) -> (a: Option<ObjectUpdateAction>)
        ensures
            a == object_update_action_spec(string_views(changed@)),
    {
        if changed.len() == 0 {
            return None;
        }
        if changed.len() == 1 && str_eq(changed[0].as_str(), "isKeyObject") {
            return Some(ObjectUpdateAction::KeyFlagChanged);
        }
        Some(ObjectUpdateAction::Updated)
    }
}

} // verus!
