//! Who may read the audit log, and which entries.

use vstd::prelude::*;

use crate::services::audit_access_denied::{access_denied_error, audited_denial_spec, AuditedDenial};
use crate::security::session::{role_administrator, role_analyst, CurrentUserDto};
use crate::text::str_eq;

verus! {

pub const ROLE_ADMINISTRATOR: &'static str = "administrator";
pub const ROLE_ANALYST: &'static str = "analyst";

pub fn current_user_role(current_user: &CurrentUserDto) -> (r: &str)
    ensures
        r@ == current_user.role@,
{
    current_user.role.as_str()
}

pub fn is_administrator(current_user: &CurrentUserDto) -> (b: bool)
    ensures
        b == (current_user.role@ == role_administrator()),
{
    str_eq(current_user_role(current_user), ROLE_ADMINISTRATOR)
}

pub fn is_analyst(current_user: &CurrentUserDto) -> (b: bool)
    ensures
        b == (current_user.role@ == role_analyst()),
{
    str_eq(current_user_role(current_user), ROLE_ANALYST)
}

pub open spec fn is_audit_reader_spec(role: Seq<char>) -> bool {
    role == role_administrator() || role == role_analyst()
}

/// Administrators and analysts read the audit log.
pub fn is_audit_reader(current_user: &CurrentUserDto) -> (b: bool)
    ensures
        b == is_audit_reader_spec(current_user.role@),
{
    is_administrator(current_user) || is_analyst(current_user)
}

/// The user filter applied to a reader's query: administrators filter as they
/// ask; everyone else sees only their own entries.
pub fn audit_user_filter_for_reader(current_user: &CurrentUserDto, requested_user_id: Option<String>) -> (r: Option<String>)
    ensures
        current_user.role@ == role_administrator() ==> r == requested_user_id,
        current_user.role@ != role_administrator() ==> r == Some(current_user.user_id),
{
    if is_administrator(current_user) {
        requested_user_id
    } else {
        Some(current_user.user_id.clone())
    }
}

/// Only audit readers pass; anyone else is refused with `message`.
pub fn require_audit_reader(current_user: &CurrentUserDto, command_name: &str, message: &str) -> (r: Result<(), AuditedDenial>)
    ensures
        r is Ok <==> is_audit_reader_spec(current_user.role@),
        r matches Err(d) ==> audited_denial_spec(d, *current_user, command_name@, "audit_log"@, None, "administrator|analyst"@, message@),
{
    if is_audit_reader(current_user) {
        return Ok(());
    }
    Err(access_denied_error(current_user, command_name, "audit_log", None, "administrator|analyst", message))
}

/// Only administrators pass; anyone else is refused with `message`.
pub fn require_audit_admin(current_user: &CurrentUserDto, command_name: &str, message: &str) -> (r: Result<(), AuditedDenial>)
    ensures
        r is Ok <==> current_user.role@ == role_administrator(),
        r matches Err(d) ==> audited_denial_spec(d, *current_user, command_name@, "audit_log"@, None, "administrator"@, message@),
{
    if is_administrator(current_user) {
        return Ok(());
    }
    Err(access_denied_error(current_user, command_name, "audit_log", None, "administrator", message))
}

pub open spec fn user_filter_message() -> Seq<char> {
    "Фильтр журнала по пользователю доступен только администратору."@
}

/// Only administrators may filter the log by user.
pub fn require_no_user_filter_for_analyst(
    current_user: &CurrentUserDto,
    command_name: &str,
    requested_user_id: &Option<String>,
) -> (r: Result<(), AuditedDenial>)
    ensures
        r is Ok <==> (current_user.role@ == role_administrator() || requested_user_id.is_none()),
        r matches Err(d) ==> audited_denial_spec(d, *current_user, command_name@, "audit_log"@, None, "administrator"@, user_filter_message()),
{
    if is_administrator(current_user) || requested_user_id.is_none() {
        return Ok(());
    }
    Err(access_denied_error(current_user, command_name, "audit_log", None, "administrator", "Фильтр журнала по пользователю доступен только администратору."))
}

pub open spec fn own_entries_message() -> Seq<char> {
    "Аналитик может просматривать только собственные записи журнала."@
}

/// Administrators see every entry; others only their own.
pub fn require_own_audit_entry_or_admin(
    current_user: &CurrentUserDto,
    command_name: &str,
    audit_log_id: &str,
    audit_entry_user_id: Option<&str>,
) -> (r: Result<(), AuditedDenial>)
    ensures
        r is Ok <==> (current_user.role@ == role_administrator() || (audit_entry_user_id matches Some(u) && u@
            == current_user.user_id@)),
        r matches Err(d) ==> audited_denial_spec(d, *current_user, command_name@, "audit_log"@, Some(audit_log_id@), "administrator"@, own_entries_message()),
{
    if is_administrator(current_user) {
        return Ok(());
    }
    match audit_entry_user_id {
        Some(u) => {
            if str_eq(u, current_user.user_id.as_str()) {
                return Ok(());
            }
        },
        None => {},
    }
    Err(access_denied_error(current_user, command_name, "audit_log", Some(audit_log_id.to_owned()), "administrator", "Аналитик может просматривать только собственные записи журнала."))
}

} // verus!
