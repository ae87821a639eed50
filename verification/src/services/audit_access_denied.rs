//! The refusal of an audit-log command, with what its audit entry records.

use vstd::prelude::*;

use crate::error::{access_denied_code, err_view, AppErrorDto, AppErrorView};
use crate::security::session::CurrentUserDto;

verus! {

/// What an `access_denied` audit entry records about a refused command.
#[derive(Debug, Clone)]
pub struct AccessDeniedRecord {
    pub user_id: String,
    pub user_role: String,
    pub command_name: String,
    pub entity_type: String,
    pub entity_id: Option<String>,
    pub required_role: String,
    pub message: String,
    pub result: String,
    pub severity: String,
}

/// A refusal: the error for the caller and the audit entry to write.
pub struct AuditedDenial {
    pub error: AppErrorDto,
    pub record: AccessDeniedRecord,
}

/// The denial is `ERR_ACCESS_DENIED` with `message`, and its record names the
/// user, command, entity and required role, with result `denied` and severity `warning`.
pub open spec fn audited_denial_spec(
    d: AuditedDenial,
    user: CurrentUserDto,
    command_name: Seq<char>,
    entity_type: Seq<char>,
    entity_id: Option<Seq<char>>,
    required_role: Seq<char>,
    message: Seq<char>,
) -> bool {
    &&& d.error@ == err_view(access_denied_code(), message)
    &&& d.record.user_id == user.user_id
    &&& d.record.user_role == user.role
    &&& d.record.command_name@ == command_name
    &&& d.record.entity_type@ == entity_type
    &&& crate::error::opt_string_view(d.record.entity_id) == entity_id
    &&& d.record.required_role@ == required_role
    &&& d.record.message@ == message
    &&& d.record.result@ == "denied"@
    &&& d.record.severity@ == "warning"@
}

/// Builds the refusal of a command, to be audited as `access_denied`.
pub fn access_denied_error(
    current_user: &CurrentUserDto,
    command_name: &str,
    entity_type: &str,
    entity_id: Option<String>,
    required_role: &str,
    message: &str,
) -> (d: AuditedDenial)
    ensures
        audited_denial_spec(
            d,
            *current_user,
            command_name@,
            entity_type@,
            crate::error::opt_string_view(entity_id),
            required_role@,
            message@,
        ),
{
    AuditedDenial {
        error: AppErrorDto::access_denied(message),
        record: AccessDeniedRecord {
            user_id: current_user.user_id.clone(),
            user_role: current_user.role.clone(),
            command_name: command_name.to_owned(),
            entity_type: entity_type.to_owned(),
            entity_id,
            required_role: required_role.to_owned(),
            message: message.to_owned(),
            result: "denied".to_owned(),
            severity: "warning".to_owned(),
        },
    }
}

} // verus!
