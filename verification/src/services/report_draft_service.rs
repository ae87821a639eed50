//! Report drafts: their content, the metrics recorded about them in the
//! audit log, the fields an update changed, and the check before a DOCX
//! export.

use vstd::prelude::*;

use crate::audit::change_tracking::{note_change, opt_differs, push_changed, text_differs};
use crate::error::{opt_string_view, AppErrorDto};
use crate::security::permission_decision::PermissionDecision;
use crate::security::policy_aware_permission_guard::{AccessDenial, PolicyAwarePermissionGuard};
use crate::security::policy_aware_permission_service::decide_spec;
use crate::security::protected_operation::ProtectedOperation;
use crate::security::session::CurrentUserDto;
use crate::services::settings_access_policy::SettingsAccessPolicy;
use crate::text::{char_count, string_views};

verus! {

#[derive(Debug, Clone)]
pub struct ReportDraftSection {
    pub content: String,
}

/// The sections of a draft and the identifiers of what it includes.
#[derive(Debug, Clone)]
pub struct ReportDraftContent {
    pub sections: Vec<ReportDraftSection>,
    pub materials: Vec<String>,
    pub objects: Vec<String>,
    pub relations: Vec<String>,
    pub events: Vec<String>,
}

#[derive(Debug, Clone)]
pub struct ReportDraft {
    pub id: String,
    pub case_id: String,
    pub draft_code: Option<String>,
    pub title: String,
    pub report_type: String,
    pub status: Option<String>,
    pub content: ReportDraftContent,
    pub exported_at: Option<String>,
}

/// Stores report drafts. Drafts are not persisted yet: every draft read is
/// the same sample draft under the requested identifier.
pub struct ReportRepository;

impl ReportRepository {
    /// The sample draft, under the requested identifier.
    pub fn get_report_draft_by_id(draft_id: &str) -> (r: Result<ReportDraft, AppErrorDto>)
        ensures
            r matches Ok(d) && {
                &&& d.id@ == draft_id@
                &&& d.case_id@ == "case-stub-id"@
                &&& opt_string_view(d.draft_code) == Some("RPT-001"@)
                &&& d.title@ == "Черновик справки"@
                &&& d.report_type@ == "analytical_report"@
                &&& opt_string_view(d.status) == Some("draft"@)
                &&& d.content.sections@.len() == 1
                &&& d.content.sections@[0].content@ == "Секция 1"@
                &&& string_views(d.content.materials@) == seq!["mat-1"@]
                &&& string_views(d.content.objects@) == seq!["obj-1"@]
                &&& string_views(d.content.relations@) == seq!["rel-1"@]
                &&& string_views(d.content.events@) == seq!["evt-1"@]
                &&& d.exported_at is None
            },
    {
        let sections = vec![ReportDraftSection { content: "Секция 1".to_owned() }];
        let materials = vec!["mat-1".to_owned()];
        let objects = vec!["obj-1".to_owned()];
        let relations = vec!["rel-1".to_owned()];
        let events = vec!["evt-1".to_owned()];
        assert(string_views(materials@) =~= seq!["mat-1"@]);
        assert(string_views(objects@) =~= seq!["obj-1"@]);
        assert(string_views(relations@) =~= seq!["rel-1"@]);
        assert(string_views(events@) =~= seq!["evt-1"@]);
        Ok(ReportDraft {
            id: draft_id.to_owned(),
            case_id: "case-stub-id".to_owned(),
            draft_code: Some("RPT-001".to_owned()),
            title: "Черновик справки".to_owned(),
            report_type: "analytical_report".to_owned(),
            status: Some("draft".to_owned()),
            content: ReportDraftContent { sections, materials, objects, relations, events },
            exported_at: None,
        })
    }

    /// Generating a draft yields the identifier of the sample draft.
    pub fn generate_draft(case_id: &str, title: &str, report_type: &str) -> (r: Result<String, AppErrorDto>)
        ensures
            r matches Ok(id) && id@ == "mock-draft-id"@,
    {
        Ok("mock-draft-id".to_owned())
    }

    /// Updating a draft always succeeds.
    pub fn update_draft(draft_id: &str, title: &str, report_type: &str) -> (r: Result<(), AppErrorDto>)
        ensures
            r is Ok,
    {
        Ok(())
    }

    /// Deleting a draft always succeeds.
    pub fn delete_draft(draft_id: &str) -> (r: Result<(), AppErrorDto>)
        ensures
            r is Ok,
    {
        Ok(())
    }
}

pub struct GenerateReportDraftPayload {
    pub case_id: String,
    pub title: String,
    pub report_type: String,
}

pub struct UpdateReportDraftPayload {
    pub draft_id: String,
    pub title: String,
    pub report_type: String,
}

pub struct ReportDraftPayload {
    pub draft_id: String,
}

/// The outcome of checking a draft before a DOCX export.
pub struct ValidationResult {
    pub is_valid: bool,
    pub warnings: Vec<String>,
    pub errors: Vec<String>,
}

/// The sizes of a draft recorded in its audit snapshots.
pub struct ReportDraftMetrics {
    pub section_count: u64,
    pub character_count: u64,
    pub included_materials_count: u64,
    pub included_objects_count: u64,
    pub included_relations_count: u64,
    pub included_events_count: u64,
}

/// The number of characters of all sections together.
pub open spec fn section_chars(sections: Seq<ReportDraftSection>) -> int
    decreases sections.len(),
{
    if sections.len() == 0 {
        0
    } else {
        section_chars(sections.drop_last()) + sections.last().content@.len()
    }
}

pub proof fn lemma_section_chars_nonneg(sections: Seq<ReportDraftSection>)
    ensures
        section_chars(sections) >= 0,
    decreases sections.len(),
{
    if sections.len() > 0 {
        lemma_section_chars_nonneg(sections.drop_last());
    }
}

pub open spec fn saturate(n: int) -> u64 {
    if n > u64::MAX {
        u64::MAX
    } else {
        n as u64
    }
}

/// Counts the sections, their characters (saturating at `u64::MAX`) and the
/// included materials, objects, relations and events.
pub fn report_draft_metrics_from_content(content: &ReportDraftContent) -> (m: ReportDraftMetrics)
    ensures
        m.section_count == content.sections@.len(),
        m.character_count == saturate(section_chars(content.sections@)),
        m.included_materials_count == content.materials@.len(),
        m.included_objects_count == content.objects@.len(),
        m.included_relations_count == content.relations@.len(),
        m.included_events_count == content.events@.len(),
{
    let mut chars: u64 = 0;
    let mut i: usize = 0;
    while i < content.sections.len()
        invariant
            i <= content.sections.len(),
            chars == saturate(section_chars(content.sections@.take(i as int))),
        decreases content.sections.len() - i,
    {
        proof {
            assert(content.sections@.take(i + 1).drop_last() =~= content.sections@.take(i as int));
            assert(content.sections@.take(i + 1).last() == content.sections@[i as int]);
            lemma_section_chars_nonneg(content.sections@.take(i as int));
        }
        let n = char_count(content.sections[i].content.as_str());
        assert(section_chars(content.sections@.take(i + 1)) == section_chars(content.sections@.take(i as int)) + n);
        chars = chars.saturating_add(n as u64);
        i = i + 1;
    }
    proof {
        assert(content.sections@.take(content.sections.len() as int) =~= content.sections@);
    }
    ReportDraftMetrics {
        section_count: content.sections.len() as u64,
        character_count: chars,
        included_materials_count: content.materials.len() as u64,
        included_objects_count: content.objects.len() as u64,
        included_relations_count: content.relations.len() as u64,
        included_events_count: content.events.len() as u64,
    }
}

/// The fields an update of a draft changed, in the order title, report type,
/// status, section count, character count.
pub open spec fn draft_changes_spec(old: ReportDraft, new: ReportDraft) -> Seq<Seq<char>> {
    let f0 = note_change(Seq::empty(), "title"@, old.title@ != new.title@);
    let f1 = note_change(f0, "reportType"@, old.report_type@ != new.report_type@);
    let f2 = note_change(f1, "status"@, opt_string_view(old.status) != opt_string_view(new.status));
    let f3 = note_change(f2, "sectionCount"@, old.content.sections@.len() != new.content.sections@.len());
    note_change(
        f3,
        "characterCount"@,
        saturate(section_chars(old.content.sections@)) != saturate(section_chars(new.content.sections@)),
    )
}

pub struct ReportDraftService;

impl ReportDraftService {
    /// The fields to list in the audit details of a draft update.
    pub fn changed_fields(old: &ReportDraft, new: &ReportDraft) -> (v: Vec<String>)
        ensures
            string_views(v@) == draft_changes_spec(*old, *new),
    {
        let old_metrics = report_draft_metrics_from_content(&old.content);
        let new_metrics = report_draft_metrics_from_content(&new.content);
        let mut v: Vec<String> = Vec::new();
        assert(string_views(v@) =~= Seq::<Seq<char>>::empty());
        push_changed(&mut v, "title", text_differs(old.title.as_str(), new.title.as_str()));
        push_changed(&mut v, "reportType", text_differs(old.report_type.as_str(), new.report_type.as_str()));
        push_changed(&mut v, "status", opt_differs(&old.status, &new.status));
        push_changed(&mut v, "sectionCount", old_metrics.section_count != new_metrics.section_count);
        push_changed(&mut v, "characterCount", old_metrics.character_count != new_metrics.character_count);
        v
    }

    /// Checks a draft before a DOCX export: the user must be allowed to export
    /// (a refusal carries its audit details); the draft itself is then
    /// reported valid, with no warning and no error.
    pub fn validate_report_draft_for_docx(
        policy: Option<SettingsAccessPolicy>,
        current_user: &CurrentUserDto,
        draft: &ReportDraft,
    ) -> (r: Result<ValidationResult, AccessDenial>)
        ensures
            r is Ok <==> decide_spec(policy, current_user.role@, ProtectedOperation::DocxExport) is Allow,
            r matches Ok(v) ==> v.is_valid && v.warnings@.len() == 0 && v.errors@.len() == 0,
            r matches Err(d) ==> decide_spec(policy, current_user.role@, ProtectedOperation::DocxExport) matches
                PermissionDecision::Deny { message, .. } && d.error.message@ == message@,
    {
        PolicyAwarePermissionGuard::require(policy, current_user, ProtectedOperation::DocxExport)?;
        Ok(ValidationResult { is_valid: true, warnings: Vec::new(), errors: Vec::new() })
    }
}

} // verus!
