//! Audit entries for refused protected commands.

use vstd::prelude::*;
use vstd::string::*;

use crate::error::opt_string_view;
use crate::security::session::CurrentUserDto;

verus! {

/// What is known about a refused protected command.
#[derive(Debug, Clone)]
pub struct ProtectedAccessDeniedAudit<'a> {
    pub command_name: &'a str,
    pub reason: &'a str,
    pub required_role: Option<&'a str>,
    pub case_id: Option<&'a str>,
    pub entity_type: Option<&'a str>,
    pub entity_id: Option<&'a str>,
}

impl<'a> ProtectedAccessDeniedAudit<'a> {
    /// A refusal of `command_name` for `reason`, with nothing else known.
    pub fn new(command_name: &'a str, reason: &'a str) -> (s: Self)
        ensures
            s.command_name == command_name,
            s.reason == reason,
            s.required_role is None,
            s.case_id is None,
            s.entity_type is None,
            s.entity_id is None,
    {
        Self { command_name, reason, required_role: None, case_id: None, entity_type: None, entity_id: None }
    }

    /// Records the role that would have been required.
    pub fn required_role(self, required_role: &'a str) -> (s: Self)
        ensures
            s == (Self { required_role: Some(required_role), ..self }),
    {
        Self { required_role: Some(required_role), ..self }
    }

    /// Records the case the command concerned.
    pub fn case_id(self, case_id: Option<&'a str>) -> (s: Self)
        ensures
            s == (Self { case_id, ..self }),
    {
        Self { case_id, ..self }
    }

    /// Records the entity the command concerned.
    pub fn entity(self, entity_type: &'a str, entity_id: Option<&'a str>) -> (s: Self)
        ensures
            s == (Self { entity_type: Some(entity_type), entity_id, ..self }),
    {
        Self { entity_type: Some(entity_type), entity_id, ..self }
    }
}

/// The audit entry of a refused protected command.
#[derive(Debug, Clone)]
pub struct ProtectedDenialEntry {
    pub user_id: String,
    pub user_role: String,
    pub command_name: String,
    pub description: String,
    pub required_role: String,
    pub entity_type: String,
    pub entity_id: Option<String>,
    pub case_id: Option<String>,
    pub result: String,
    pub severity: String,
}

pub open spec fn denial_description(command_name: Seq<char>, reason: Seq<char>) -> Seq<char> {
    "Access denied for action '"@ + command_name + "'. Reason: "@ + reason + "."@
}

pub open spec fn opt_ref_view(o: Option<&str>) -> Option<Seq<char>> {
    match o {
        Some(s) => Some(s@),
        None => None,
    }
}

fn opt_owned(o: Option<&str>) -> (r: Option<String>)
    ensures
        opt_string_view(r) == opt_ref_view(o),
{
    match o {
        Some(s) => Some(s.to_owned()),
        None => None,
    }
}

/// The entry written for a refused protected command: the required role
/// defaults to empty and the entity type to `generic`; result `denied`,
/// severity `warning`.
pub fn protected_access_denied_entry(current_user: &CurrentUserDto, audit: &ProtectedAccessDeniedAudit<'_>) -> (e: ProtectedDenialEntry)
    ensures
        e.user_id == current_user.user_id,
        e.user_role == current_user.role,
        e.command_name@ == audit.command_name@,
        e.description@ == denial_description(audit.command_name@, audit.reason@),
        e.required_role@ == match audit.required_role {
            Some(r) => r@,
            None => Seq::<char>::empty(),
        },
        e.entity_type@ == match audit.entity_type {
            Some(t) => t@,
            None => "generic"@,
        },
        opt_string_view(e.entity_id) == opt_ref_view(audit.entity_id),
        opt_string_view(e.case_id) == opt_ref_view(audit.case_id),
        e.result@ == "denied"@,
        e.severity@ == "warning"@,
{
    let mut description = "Access denied for action '".to_owned();
    description.append(audit.command_name);
    description.append("'. Reason: ");
    description.append(audit.reason);
    description.append(".");
    let required_role = match audit.required_role {
        Some(r) => r.to_owned(),
        None => String::new(),
    };
    let entity_type = match audit.entity_type {
        Some(t) => t.to_owned(),
        None => "generic".to_owned(),
    };
    ProtectedDenialEntry {
        user_id: current_user.user_id.clone(),
        user_role: current_user.role.clone(),
        command_name: audit.command_name.to_owned(),
        description,
        required_role,
        entity_type,
        entity_id: opt_owned(audit.entity_id),
        case_id: opt_owned(audit.case_id),
        result: "denied".to_owned(),
        severity: "warning".to_owned(),
    }
}

} // verus!
