//! The closed vocabularies of the case model: object, relation, event and
//! material types, confidence levels, date precisions and case statuses.

use vstd::prelude::*;

use crate::text::str_eq;

verus! {

pub open spec fn views(options: Seq<&'static str>) -> Seq<Seq<char>> {
    options.map_values(|o: &'static str| o@)
}

/// Whether `value` is one of `options`.
pub fn one_of(value: &str, options: &Vec<&'static str>) -> (b: bool)
    ensures
        b == views(options@).contains(value@),
{
    let mut i: usize = 0;
    while i < options.len()
        invariant
            i <= options.len(),
            forall|j: int| 0 <= j < i ==> options@[j]@ != value@,
        decreases options.len() - i,
    {
        if str_eq(options[i], value) {
            assert(views(options@)[i as int] == value@);
            return true;
        }
        i = i + 1;
    }
    assert forall|j: int| 0 <= j < views(options@).len() implies views(options@)[j] != value@ by {
        assert(views(options@)[j] == options@[j]@);
    }
    false
}

pub open spec fn object_types() -> Seq<&'static str> {
    seq!["person", "organization", "phone", "email", "address", "vehicle", "account", "document", "website", "device", "location", "other"]
}

pub open spec fn relation_types() -> Seq<&'static str> {
    seq!["related_to", "knows", "family", "works_for", "member_of", "owns", "uses", "located_at", "communicated_with", "financial", "other"]
}

pub open spec fn confidence_levels() -> Seq<&'static str> {
    seq!["confirmed", "probable", "possible", "unverified"]
}

pub open spec fn event_types() -> Seq<&'static str> {
    seq!["meeting", "call", "message", "transaction", "travel", "publication", "incident", "document", "other"]
}

pub open spec fn date_precisions() -> Seq<&'static str> {
    seq!["exact", "day", "month", "year", "approximate", "period"]
}

pub open spec fn material_types() -> Seq<&'static str> {
    seq!["document", "image", "audio", "video", "spreadsheet", "web_page", "other"]
}

pub open spec fn editable_case_statuses() -> Seq<&'static str> {
    seq!["draft", "active", "on_hold", "completed"]
}

/// The date precision of an event that spans a period.
pub const DATE_PRECISION_PERIOD: &'static str = "period";

/// The status of a newly created case.
pub const CASE_STATUS_DRAFT: &'static str = "draft";

pub fn is_valid_object_type(value: &str) -> (b: bool)
    ensures
        b == views(object_types()).contains(value@),
{
    let v = vec!["person", "organization", "phone", "email", "address", "vehicle", "account", "document", "website", "device", "location", "other"];
    assert(v@ =~= object_types());
    one_of(value, &v)
}

pub fn is_valid_relation_type(value: &str) -> (b: bool)
    ensures
        b == views(relation_types()).contains(value@),
{
    let v = vec!["related_to", "knows", "family", "works_for", "member_of", "owns", "uses", "located_at", "communicated_with", "financial", "other"];
    assert(v@ =~= relation_types());
    one_of(value, &v)
}

pub fn is_valid_confidence_level(value: &str) -> (b: bool)
    ensures
        b == views(confidence_levels()).contains(value@),
{
    let v = vec!["confirmed", "probable", "possible", "unverified"];
    assert(v@ =~= confidence_levels());
    one_of(value, &v)
}

pub fn is_valid_event_type(value: &str) -> (b: bool)
    ensures
        b == views(event_types()).contains(value@),
{
    let v = vec!["meeting", "call", "message", "transaction", "travel", "publication", "incident", "document", "other"];
    assert(v@ =~= event_types());
    one_of(value, &v)
}

pub fn is_valid_date_precision(value: &str) -> (b: bool)
    ensures
        b == views(date_precisions()).contains(value@),
{
    let v = vec!["exact", "day", "month", "year", "approximate", "period"];
    assert(v@ =~= date_precisions());
    one_of(value, &v)
}

pub fn is_valid_material_type(value: &str) -> (b: bool)
    ensures
        b == views(material_types()).contains(value@),
{
    let v = vec!["document", "image", "audio", "video", "spreadsheet", "web_page", "other"];
    assert(v@ =~= material_types());
    one_of(value, &v)
}

pub fn is_editable_case_status(value: &str) -> (b: bool)
    ensures
        b == views(editable_case_statuses()).contains(value@),
{
    let v = vec!["draft", "active", "on_hold", "completed"];
    assert(v@ =~= editable_case_statuses());
    one_of(value, &v)
}

} // verus!
