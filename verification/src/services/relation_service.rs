//! The decisions of the relation commands: the normalized fields of a
//! relation, and whether its objects and supporting material belong to the
//! case.

use vstd::prelude::*;

use crate::error::{err_view, opt_string_view, unit_result_view, AppErrorDto, AppErrorView};
use crate::repositories::relation_repository::{CreateRelationRecord, MaterialCaseInfo, ObjectCaseInfo};
use crate::services::case_service::{case_not_found, CaseService};
use crate::services::object_validation::required_id_spec;
use crate::services::relation_validation::{
    normalize_analyst_comment, normalize_analyst_comment_spec, normalize_confidence_level,
    normalize_confidence_level_spec, normalize_optional_id, normalize_relation_basis, normalize_relation_basis_spec,
    normalize_relation_title, normalize_relation_title_spec, normalize_relation_type, normalize_relation_type_spec,
    normalize_required_id, optional_id_spec, validate_relation_endpoints,
};
use crate::text::str_eq;

verus! {

/// The normalized descriptive fields of a relation.
pub struct RelationFields {
    pub relation_type: String,
    pub title: Option<String>,
    pub basis: String,
    pub confidence_level: String,
    pub supporting_material_id: Option<String>,
    pub analyst_comment: Option<String>,
}

pub struct RelationFieldsView {
    pub relation_type: Seq<char>,
    pub title: Option<Seq<char>>,
    pub basis: Seq<char>,
    pub confidence_level: Seq<char>,
    pub supporting_material_id: Option<Seq<char>>,
    pub analyst_comment: Option<Seq<char>>,
}

impl View for RelationFields {
    type V = RelationFieldsView;

    open spec fn view(&self) -> RelationFieldsView {
        RelationFieldsView {
            relation_type: self.relation_type@,
            title: opt_string_view(self.title),
            basis: self.basis@,
            confidence_level: self.confidence_level@,
            supporting_material_id: opt_string_view(self.supporting_material_id),
            analyst_comment: opt_string_view(self.analyst_comment),
        }
    }
}

/// The descriptive fields, checked in order: type, title, basis, confidence,
/// comment (a blank supporting material is dropped).
pub open spec fn relation_fields_spec(
    relation_type: Seq<char>,
    title: Option<Seq<char>>,
    basis: Seq<char>,
    confidence_level: Seq<char>,
    supporting_material_id: Option<Seq<char>>,
    analyst_comment: Option<Seq<char>>,
) -> Result<RelationFieldsView, AppErrorView> {
    match normalize_relation_type_spec(relation_type) {
        Err(e) => Err(e),
        Ok(t) => match normalize_relation_title_spec(title) {
            Err(e) => Err(e),
            Ok(ti) => match normalize_relation_basis_spec(basis) {
                Err(e) => Err(e),
                Ok(b) => match normalize_confidence_level_spec(confidence_level) {
                    Err(e) => Err(e),
                    Ok(c) => match normalize_analyst_comment_spec(analyst_comment) {
                        Err(e) => Err(e),
                        Ok(a) => Ok(RelationFieldsView {
                            relation_type: t,
                            title: ti,
                            basis: b,
                            confidence_level: c,
                            supporting_material_id: optional_id_spec(supporting_material_id),
                            analyst_comment: a,
                        }),
                    },
                },
            },
        },
    }
}

pub open spec fn fields_result_view(r: Result<RelationFields, AppErrorDto>) -> Result<RelationFieldsView, AppErrorView> {
    match r {
        Ok(f) => Ok(f@),
        Err(e) => Err(e@),
    }
}

/// The identifiers of a new relation, checked in order: case, source,
/// target, and that the two ends differ.
pub open spec fn create_ids_spec(case_id: Seq<char>, source: Seq<char>, target: Seq<char>) -> Result<(Seq<char>, Seq<char>, Seq<char>), AppErrorView> {
    match required_id_spec(case_id, "ERR_CASE_REQUIRED"@, "Не выбрано дело."@) {
        Err(e) => Err(e),
        Ok(c) => match required_id_spec(source, "ERR_SOURCE_OBJECT_REQUIRED"@, "Не выбран исходный объект связи."@) {
            Err(e) => Err(e),
            Ok(s) => match required_id_spec(target, "ERR_TARGET_OBJECT_REQUIRED"@, "Не выбран целевой объект связи."@) {
                Err(e) => Err(e),
                Ok(t) => if s == t {
                    Err(err_view("ERR_RELATION_SELF_LINK"@, "Нельзя создать связь объекта с самим собой."@))
                } else {
                    Ok((c, s, t))
                },
            },
        },
    }
}

/// Where the two objects of a new relation were found: both must exist and
/// belong to the case.
pub open spec fn endpoints_spec(case_id: Seq<char>, source: Option<ObjectCaseInfo>, target: Option<ObjectCaseInfo>) -> Result<(), AppErrorView> {
    match source {
        None => Err(err_view("ERR_OBJECT_NOT_FOUND"@, "Первый объект не найден."@)),
        Some(s) => match target {
            None => Err(err_view("ERR_OBJECT_NOT_FOUND"@, "Второй объект не найден."@)),
            Some(t) => if s.case_id@ != case_id || t.case_id@ != case_id {
                Err(err_view("ERR_RELATION_OBJECT_CASE_MISMATCH"@, "Объекты не относятся к выбранному делу."@))
            } else {
                Ok(())
            },
        },
    }
}

/// A supporting material, when one is named, must exist and belong to the case.
pub open spec fn supporting_material_spec(case_id: Seq<char>, supporting_material_id: Option<Seq<char>>, found: Option<MaterialCaseInfo>) -> Result<(), AppErrorView> {
    match supporting_material_id {
        None => Ok(()),
        Some(_) => match found {
            None => Err(err_view("ERR_MATERIAL_NOT_FOUND"@, "Материал не найден."@)),
            Some(m) => if m.case_id@ != case_id {
                Err(err_view("ERR_RELATION_MATERIAL_CASE_MISMATCH"@, "Подтверждающий материал не относится к выбранному делу."@))
            } else {
                Ok(())
            },
        },
    }
}

/// The decisions of the relation commands.
pub struct RelationService;

impl RelationService {
    /// Normalizes and checks the identifiers of a new relation.
    pub fn prepare_create_ids(case_id: &str, source_object_id: &str, target_object_id: &str) -> (r: Result<(String, String, String), AppErrorDto>)
        ensures
            match r {
                Ok((c, s, t)) => create_ids_spec(case_id@, source_object_id@, target_object_id@) == Ok::<(Seq<char>, Seq<char>, Seq<char>), AppErrorView>((c@, s@, t@)),
                Err(e) => create_ids_spec(case_id@, source_object_id@, target_object_id@) == Err::<(Seq<char>, Seq<char>, Seq<char>), AppErrorView>(e@),
            },
    {
        let c = normalize_required_id(case_id, "ERR_CASE_REQUIRED", "Не выбрано дело.")?;
        let s = normalize_required_id(source_object_id, "ERR_SOURCE_OBJECT_REQUIRED", "Не выбран исходный объект связи.")?;
        let t = normalize_required_id(target_object_id, "ERR_TARGET_OBJECT_REQUIRED", "Не выбран целевой объект связи.")?;
        validate_relation_endpoints(s.as_str(), t.as_str())?;
        Ok((c, s, t))
    }

    /// Normalizes and checks the descriptive fields of a relation.
    pub fn prepare_fields(
        relation_type: &str,
        title: &Option<String>,
        basis: &str,
        confidence_level: &str,
        supporting_material_id: &Option<String>,
        analyst_comment: &Option<String>,
    ) -> (r: Result<RelationFields, AppErrorDto>)
        ensures
            fields_result_view(r) == relation_fields_spec(
                relation_type@,
                opt_string_view(*title),
                basis@,
                confidence_level@,
                opt_string_view(*supporting_material_id),
                opt_string_view(*analyst_comment),
            ),
    {
        let relation_type = normalize_relation_type(relation_type)?;
        let title = normalize_relation_title(title)?;
        let basis = normalize_relation_basis(basis)?;
        let confidence_level = normalize_confidence_level(confidence_level)?;
        let supporting_material_id = normalize_optional_id(supporting_material_id);
        let analyst_comment = normalize_analyst_comment(analyst_comment)?;
        Ok(RelationFields { relation_type, title, basis, confidence_level, supporting_material_id, analyst_comment })
    }

    /// Checks where the two objects of a new relation were found.
    pub fn check_endpoints_in_case(case_id: &str, source: &Option<ObjectCaseInfo>, target: &Option<ObjectCaseInfo>) -> (r: Result<(), AppErrorDto>)
        ensures
            unit_result_view(r) == endpoints_spec(case_id@, *source, *target),
    {
        match source {
            None => Err(AppErrorDto::new("ERR_OBJECT_NOT_FOUND", "Первый объект не найден.", None)),
            Some(s) => match target {
                None => Err(AppErrorDto::new("ERR_OBJECT_NOT_FOUND", "Второй объект не найден.", None)),
                Some(t) => {
                    if !str_eq(s.case_id.as_str(), case_id) || !str_eq(t.case_id.as_str(), case_id) {
                        return Err(AppErrorDto::new("ERR_RELATION_OBJECT_CASE_MISMATCH", "Объекты не относятся к выбранному делу.", None));
                    }
                    Ok(())
                },
            },
        }
    }

    /// Checks the supporting material of a relation, when one is named.
    pub fn check_supporting_material(
        case_id: &str,
        supporting_material_id: &Option<String>,
        found: &Option<MaterialCaseInfo>,
    ) -> (r: Result<(), AppErrorDto>)
        ensures
            unit_result_view(r) == supporting_material_spec(case_id@, opt_string_view(*supporting_material_id), *found),
    {
        match supporting_material_id {
            None => Ok(()),
            Some(_) => match found {
                None => Err(AppErrorDto::new("ERR_MATERIAL_NOT_FOUND", "Материал не найден.", None)),
                Some(m) => {
                    if !str_eq(m.case_id.as_str(), case_id) {
                        return Err(AppErrorDto::new(
                            "ERR_RELATION_MATERIAL_CASE_MISMATCH",
                            "Подтверждающий материал не относится к выбранному делу.",
                            None,
                        ));
                    }
                    Ok(())
                },
            },
        }
    }

    /// Normalizes the identifiers of a command on one relation: case, then relation.
    pub fn relation_ids(case_id: &str, relation_id: &str) -> (r: Result<(String, String), AppErrorDto>)
        ensures
            match required_id_spec(case_id@, "ERR_CASE_REQUIRED"@, "Не выбрано дело."@) {
                Err(e) => r matches Err(e2) && e2@ == e,
                Ok(c) => match required_id_spec(relation_id@, "ERR_RELATION_REQUIRED"@, "Не выбрана связь."@) {
                    Err(e) => r matches Err(e2) && e2@ == e,
                    Ok(id) => r matches Ok((c2, id2)) && c2@ == c && id2@ == id,
                },
            },
    {
        let c = normalize_required_id(case_id, "ERR_CASE_REQUIRED", "Не выбрано дело.")?;
        let id = normalize_required_id(relation_id, "ERR_RELATION_REQUIRED", "Не выбрана связь.")?;
        Ok((c, id))
    }

    /// The new relation, from the request and from what was found for its
    /// case, its two objects and its supporting material: the identifiers
    /// and fields are checked first, then the case must exist, both objects
    /// belong to it, and so must the supporting material, if one is named.
    pub fn create_relation_record(
        case_id: &str,
        source_object_id: &str,
        target_object_id: &str,
        relation_type: &str,
        title: &Option<String>,
        basis: &str,
        confidence_level: &str,
        supporting_material_id: &Option<String>,
        analyst_comment: &Option<String>,
        include_in_report: Option<bool>,
        case_found: bool,
        source: &Option<ObjectCaseInfo>,
        target: &Option<ObjectCaseInfo>,
        material: &Option<MaterialCaseInfo>,
        relation_id: String,
        relation_code: String,
        created_by_user_id: String,
    ) -> (r: Result<CreateRelationRecord, AppErrorDto>)
        ensures
            match create_ids_spec(case_id@, source_object_id@, target_object_id@) {
                Err(e) => r matches Err(e2) && e2@ == e,
                Ok((c, s, t)) => match relation_fields_spec(
                    relation_type@,
                    opt_string_view(*title),
                    basis@,
                    confidence_level@,
                    opt_string_view(*supporting_material_id),
                    opt_string_view(*analyst_comment),
                ) {
                    Err(e) => r matches Err(e2) && e2@ == e,
                    Ok(f) => if !case_found {
                        r matches Err(e2) && e2@ == case_not_found()
                    } else {
                        match endpoints_spec(c, *source, *target) {
                            Err(e) => r matches Err(e2) && e2@ == e,
                            Ok(_) => match supporting_material_spec(c, f.supporting_material_id, *material) {
                                Err(e) => r matches Err(e2) && e2@ == e,
                                Ok(_) => r matches Ok(rec) && {
                                    &&& rec.id == relation_id
                                    &&& rec.case_id@ == c
                                    &&& rec.relation_code == relation_code
                                    &&& rec.source_object_id@ == s
                                    &&& rec.target_object_id@ == t
                                    &&& rec.relation_type@ == f.relation_type
                                    &&& opt_string_view(rec.title) == f.title
                                    &&& rec.basis@ == f.basis
                                    &&& rec.confidence_level@ == f.confidence_level
                                    &&& opt_string_view(rec.supporting_material_id) == f.supporting_material_id
                                    &&& opt_string_view(rec.analyst_comment) == f.analyst_comment
                                    &&& rec.include_in_report == match include_in_report { Some(v) => v, None => true }
                                    &&& rec.created_by_user_id == created_by_user_id
                                },
                            },
                        }
                    },
                },
            },
            r matches Ok(rec) ==> {
                &&& rec.source_object_id@ != rec.target_object_id@
                &&& source matches Some(si) && si.case_id@ == rec.case_id@
                &&& target matches Some(ti) && ti.case_id@ == rec.case_id@
                &&& rec.supporting_material_id is Some ==> (material matches Some(m) && m.case_id@ == rec.case_id@)
            },
    {
        let (c, s, t) = Self::prepare_create_ids(case_id, source_object_id, target_object_id)?;
        let f = Self::prepare_fields(relation_type, title, basis, confidence_level, supporting_material_id, analyst_comment)?;
        CaseService::require_case_found(case_found)?;
        Self::check_endpoints_in_case(c.as_str(), source, target)?;
        Self::check_supporting_material(c.as_str(), &f.supporting_material_id, material)?;
        Ok(CreateRelationRecord {
            id: relation_id,
            case_id: c,
            relation_code,
            source_object_id: s,
            target_object_id: t,
            relation_type: f.relation_type,
            title: f.title,
            basis: f.basis,
            confidence_level: f.confidence_level,
            supporting_material_id: f.supporting_material_id,
            analyst_comment: f.analyst_comment,
            include_in_report: Self::include_in_report_or_default(include_in_report),
            created_by_user_id,
        })
    }

    /// The relation to read, change or delete must exist in the case.
    pub fn require_relation_found(found: bool) -> (r: Result<(), AppErrorDto>)
        ensures
            r is Ok <==> found,
            r matches Err(e) ==> e@ == err_view("ERR_RELATION_NOT_FOUND"@, "Связь не найдена."@),
    {
        if !found {
            return Err(AppErrorDto::new("ERR_RELATION_NOT_FOUND", "Связь не найдена.", None));
        }
        Ok(())
    }

    /// A new relation goes into the report unless marked otherwise.
    pub fn include_in_report_or_default(include_in_report: Option<bool>) -> (b: bool)
        ensures
            b == match include_in_report { Some(v) => v, None => true },
    {
        match include_in_report {
            Some(v) => v,
            None => true,
        }
    }
}

/// A relation never joins an object to itself.
pub proof fn lemma_created_relation_ends_differ(case_id: Seq<char>, source: Seq<char>, target: Seq<char>)
    ensures
        create_ids_spec(case_id, source, target) matches Ok((_, s, t)) ==> s != t,
{
}

} // verus!
