//! Rows of the relations table and the case membership of their ends.

use vstd::prelude::*;
use vstd::string::*;

verus! {

/// A new relation between two objects.
#[derive(Debug)]
pub struct CreateRelationRecord {
    pub id: String,
    pub case_id: String,
    pub relation_code: String,
    pub source_object_id: String,
    pub target_object_id: String,
    pub relation_type: String,
    pub title: Option<String>,
    pub basis: String,
    pub confidence_level: String,
    pub supporting_material_id: Option<String>,
    pub analyst_comment: Option<String>,
    pub include_in_report: bool,
    pub created_by_user_id: String,
}

/// New values of an existing relation.
#[derive(Debug)]
pub struct UpdateRelationRecord {
    pub case_id: String,
    pub relation_id: String,
    pub relation_type: String,
    pub title: Option<String>,
    pub basis: String,
    pub confidence_level: String,
    pub supporting_material_id: Option<String>,
    pub analyst_comment: Option<String>,
    pub include_in_report: bool,
}

/// The case an object belongs to.
#[derive(Debug, Clone)]
pub struct ObjectCaseInfo {
    pub id: String,
    pub case_id: String,
}

/// The case a material belongs to.
#[derive(Debug, Clone)]
pub struct MaterialCaseInfo {
    pub id: String,
    pub case_id: String,
}

/// Reads and writes relations.
pub struct RelationRepository;

/// The listing statement of relations with their two objects and their
/// supporting material: the head, a `WHERE` condition, then the tail.
pub const RELATION_SELECT_SQL_HEAD: &'static str = "\n        SELECT\n            relations.id,\n            relations.case_id,\n            relations.relation_code,\n            relations.relation_type,\n            relations.title,\n            relations.basis,\n            relations.confidence_level,\n            relations.include_in_report,\n            relations.created_at,\n            relations.updated_at,\n\n            source_object.id,\n            source_object.object_code,\n            source_object.object_type,\n            source_object.title,\n            source_object.value,\n            source_object.is_key,\n\n            target_object.id,\n            target_object.object_code,\n            target_object.object_type,\n            target_object.title,\n            target_object.value,\n            target_object.is_key,\n\n            materials.id,\n            materials.material_code,\n            materials.title,\n            materials.material_type,\n            materials.integrity_status\n        FROM relations\n        INNER JOIN object_nodes AS source_object\n            ON source_object.id = relations.source_object_id\n        INNER JOIN object_nodes AS target_object\n            ON target_object.id = relations.target_object_id\n        LEFT JOIN materials\n            ON materials.id = relations.supporting_material_id\n        WHERE ";

pub const RELATION_SELECT_SQL_TAIL: &'static str = "\n        ORDER BY relations.created_at DESC\n        ";

pub const RELATION_DETAILS_SELECT_SQL: &'static str = "\n    SELECT\n        relations.id,\n        relations.case_id,\n        relations.relation_code,\n        relations.relation_type,\n        relations.title,\n        relations.basis,\n        relations.confidence_level,\n        relations.analyst_comment,\n        relations.include_in_report,\n        relations.created_at,\n        relations.updated_at,\n\n        source_object.id,\n        source_object.object_code,\n        source_object.object_type,\n        source_object.title,\n        source_object.value,\n        source_object.is_key,\n\n        target_object.id,\n        target_object.object_code,\n        target_object.object_type,\n        target_object.title,\n        target_object.value,\n        target_object.is_key,\n\n        materials.id,\n        materials.material_code,\n        materials.title,\n        materials.material_type,\n        materials.integrity_status\n    FROM relations\n    INNER JOIN object_nodes AS source_object\n        ON source_object.id = relations.source_object_id\n    INNER JOIN object_nodes AS target_object\n        ON target_object.id = relations.target_object_id\n    LEFT JOIN materials\n        ON materials.id = relations.supporting_material_id\n    WHERE relations.case_id = ?1\n      AND relations.id = ?2\n      AND relations.archived_at IS NULL\n    LIMIT 1\n    ";

/// The listing statement of relations restricted by `where_sql`.
pub fn relation_select_sql_with_where(where_sql: &str) -> (sql: String)
    ensures
        sql@ == RELATION_SELECT_SQL_HEAD@ + where_sql@ + RELATION_SELECT_SQL_TAIL@,
{
    let mut sql = RELATION_SELECT_SQL_HEAD.to_owned();
    sql.append(where_sql);
    sql.append(RELATION_SELECT_SQL_TAIL);
    sql
}

/// The statement that reads one relation of a case with its details.
pub fn relation_details_select_sql() -> (sql: String)
    ensures
        sql@ == RELATION_DETAILS_SELECT_SQL@,
{
    RELATION_DETAILS_SELECT_SQL.to_owned()
}

} // verus!
