//! Normalization and validation of user-management requests.

use vstd::prelude::*;

use crate::domain::user_management::{
    BlockUserPayload, ChangeOwnPasswordPayload, CreateUserPayload, ResetUserPasswordPayload, UnblockUserPayload,
    UpdateUserPayload,
};
use crate::error::{err_view, opt_string_view, string_result_view, unit_result_view, validation_code, AppErrorDto, AppErrorView};
use crate::services::relation_validation::optional_id_spec;
use crate::text::{ascii_lower, byte_len, is_ascii_text, char_count, chars_of, lowercase, str_eq, str_to_lowercase, str_trim, trim, trimmed, utf8_len};

verus! {

pub const MIN_USERNAME_LEN: usize = 3;
pub const MAX_USERNAME_LEN: usize = 64;
pub const MIN_DISPLAY_NAME_LEN: usize = 2;
pub const MAX_DISPLAY_NAME_LEN: usize = 120;
pub const MIN_PASSWORD_LEN: usize = 8;
pub const MAX_PASSWORD_LEN: usize = 128;

pub open spec fn verr(message: Seq<char>) -> Result<(), AppErrorView> {
    Err(err_view(validation_code(), message))
}

/// Characters allowed in a login: lowercase Latin letters, digits, `_`, `-` and `.`.
pub open spec fn is_username_char(c: char) -> bool {
    ('a' <= c && c <= 'z') || ('0' <= c && c <= '9') || c == '_' || c == '-' || c == '.'
}

pub open spec fn validate_username_spec(username: Seq<char>) -> Result<(), AppErrorView> {
    if byte_len(username) < MIN_USERNAME_LEN || byte_len(username) > MAX_USERNAME_LEN {
        verr("Логин должен содержать от 3 до 64 символов"@)
    } else if !(forall|i: int| 0 <= i < username.len() ==> is_username_char(#[trigger] username[i])) {
        verr("Логин может содержать латинские буквы, цифры, точку, дефис и подчёркивание"@)
    } else {
        Ok(())
    }
}

pub open spec fn validate_display_name_spec(display_name: Option<Seq<char>>) -> Result<(), AppErrorView> {
    match display_name {
        Some(d) => if byte_len(d) < MIN_DISPLAY_NAME_LEN || byte_len(d) > MAX_DISPLAY_NAME_LEN {
            verr("Имя пользователя должно содержать от 2 до 120 символов"@)
        } else {
            Ok(())
        },
        None => Ok(()),
    }
}

pub open spec fn valid_role_code(role_code: Seq<char>) -> bool {
    role_code == "administrator"@ || role_code == "analyst"@ || role_code == "viewer"@
}

pub open spec fn validate_role_code_spec(role_code: Seq<char>) -> Result<(), AppErrorView> {
    if valid_role_code(role_code) {
        Ok(())
    } else {
        verr("Некорректная роль пользователя"@)
    }
}

pub open spec fn validate_password_spec(password: Seq<char>) -> Result<(), AppErrorView> {
    if byte_len(password) < MIN_PASSWORD_LEN || byte_len(password) > MAX_PASSWORD_LEN {
        verr("Пароль должен содержать от 8 до 128 символов"@)
    } else {
        Ok(())
    }
}

/// The first failure among checks run in order, or `Ok` when all pass.
pub open spec fn first_failure(a: Result<(), AppErrorView>, b: Result<(), AppErrorView>) -> Result<(), AppErrorView> {
    if a is Err {
        a
    } else {
        b
    }
}

fn validate_username(username: &str) -> (r: Result<(), AppErrorDto>)
    ensures
        unit_result_view(r) == validate_username_spec(username@),
{
    let n = utf8_len(username);
    if n < MIN_USERNAME_LEN || n > MAX_USERNAME_LEN {
        return Err(AppErrorDto::validation("Логин должен содержать от 3 до 64 символов"));
    }
    let cs = chars_of(username);
    let mut i: usize = 0;
    while i < cs.len()
        invariant
            cs@ == username@,
            i <= cs.len(),
            n == byte_len(username@),
            !(n < MIN_USERNAME_LEN || n > MAX_USERNAME_LEN),
            forall|j: int| 0 <= j < i ==> is_username_char(#[trigger] username@[j]),
        decreases cs.len() - i,
    {
        let ch = cs[i];
        if !(('a' <= ch && ch <= 'z') || ('0' <= ch && ch <= '9') || ch == '_' || ch == '-' || ch == '.') {
            assert(!is_username_char(username@[i as int]));
            assert(!(forall|j: int| 0 <= j < username@.len() ==> is_username_char(#[trigger] username@[j])));
            return Err(AppErrorDto::validation("Логин может содержать латинские буквы, цифры, точку, дефис и подчёркивание"));
        }
        i = i + 1;
    }
    Ok(())
}

fn validate_display_name(display_name: &Option<String>) -> (r: Result<(), AppErrorDto>)
    ensures
        unit_result_view(r) == validate_display_name_spec(opt_string_view(*display_name)),
{
    match display_name {
        Some(d) => {
            let n = utf8_len(d.as_str());
            if n < MIN_DISPLAY_NAME_LEN || n > MAX_DISPLAY_NAME_LEN {
                return Err(AppErrorDto::validation("Имя пользователя должно содержать от 2 до 120 символов"));
            }
            Ok(())
        },
        None => Ok(()),
    }
}

fn validate_role_code(role_code: &str) -> (r: Result<(), AppErrorDto>)
    ensures
        unit_result_view(r) == validate_role_code_spec(role_code@),
{
    if str_eq(role_code, "administrator") || str_eq(role_code, "analyst") || str_eq(role_code, "viewer") {
        Ok(())
    } else {
        Err(AppErrorDto::validation("Некорректная роль пользователя"))
    }
}

/// A password is between 8 and 128 bytes long.
pub fn validate_password(password: &str) -> (r: Result<(), AppErrorDto>)
    ensures
        unit_result_view(r) == validate_password_spec(password@),
{
    let n = utf8_len(password);
    if n < MIN_PASSWORD_LEN || n > MAX_PASSWORD_LEN {
        return Err(AppErrorDto::validation("Пароль должен содержать от 8 до 128 символов"));
    }
    Ok(())
}

#[derive(Debug)]
pub struct NormalizedCreateUserInput {
    pub username: String,
    pub display_name: Option<String>,
    pub role_code: String,
    pub password: String,
    pub must_change_password: bool,
}

pub open spec fn create_user_check(p: CreateUserPayload) -> Result<(), AppErrorView> {
    first_failure(
        validate_username_spec(lowercase(trim(p.username@))),
        first_failure(
            validate_display_name_spec(optional_id_spec(opt_string_view(p.display_name))),
            first_failure(validate_role_code_spec(trim(p.role_code@)), validate_password_spec(p.password@)),
        ),
    )
}

/// The login is trimmed and lowercased, the display name trimmed (blank means
/// none), the role trimmed; then login, display name, role and password are
/// validated in that order. A password change is required unless the request
/// says otherwise.
pub fn normalize_create_user_payload(payload: CreateUserPayload) -> (r: Result<NormalizedCreateUserInput, AppErrorDto>)
    ensures
        match r {
            Ok(n) => create_user_check(payload) is Ok && n.username@ == lowercase(trim(payload.username@))
                && opt_string_view(n.display_name) == optional_id_spec(opt_string_view(payload.display_name))
                && n.role_code@ == trim(payload.role_code@) && n.password == payload.password
                && n.must_change_password == match payload.must_change_password {
                Some(b) => b,
                None => true,
            },
            Err(e) => create_user_check(payload) == Err::<(), AppErrorView>(e@),
        },
        is_ascii_text(trim(payload.username@)) ==> (r matches Ok(n) ==> n.username@ == ascii_lower(trim(payload.username@))),
{
    let username = str_to_lowercase(str_trim(payload.username.as_str()));
    let display_name = crate::services::relation_validation::normalize_optional_id(&payload.display_name);
    let role_code = trimmed(payload.role_code.as_str());
    let password = payload.password;
    validate_username(username.as_str())?;
    validate_display_name(&display_name)?;
    validate_role_code(role_code.as_str())?;
    validate_password(password.as_str())?;
    Ok(NormalizedCreateUserInput {
        username,
        display_name,
        role_code,
        password,
        must_change_password: match payload.must_change_password {
            Some(b) => b,
            None => true,
        },
    })
}

#[derive(Debug)]
pub struct NormalizedUpdateUserInput {
    pub user_id: String,
    pub display_name: Option<String>,
    pub role_code: String,
    pub must_change_password: bool,
}

pub open spec fn user_id_spec(user_id: Seq<char>) -> Result<(), AppErrorView> {
    if trim(user_id).len() == 0 {
        verr("Не указан пользователь"@)
    } else {
        Ok(())
    }
}

pub open spec fn update_user_check(p: UpdateUserPayload) -> Result<(), AppErrorView> {
    first_failure(
        user_id_spec(p.user_id@),
        first_failure(
            validate_display_name_spec(optional_id_spec(opt_string_view(p.display_name))),
            validate_role_code_spec(trim(p.role_code@)),
        ),
    )
}

/// The user id must not be blank; display name and role are normalized and
/// validated as on creation.
pub fn normalize_update_user_payload(payload: UpdateUserPayload) -> (r: Result<NormalizedUpdateUserInput, AppErrorDto>)
    ensures
        match r {
            Ok(n) => update_user_check(payload) is Ok && n.user_id@ == trim(payload.user_id@) && opt_string_view(
                n.display_name,
            ) == optional_id_spec(opt_string_view(payload.display_name)) && n.role_code@ == trim(payload.role_code@)
                && n.must_change_password == payload.must_change_password,
            Err(e) => update_user_check(payload) == Err::<(), AppErrorView>(e@),
        },
{
    let user_id = trimmed(payload.user_id.as_str());
    if char_count(user_id.as_str()) == 0 {
        return Err(AppErrorDto::validation("Не указан пользователь"));
    }
    let display_name = crate::services::relation_validation::normalize_optional_id(&payload.display_name);
    let role_code = trimmed(payload.role_code.as_str());
    validate_display_name(&display_name)?;
    validate_role_code(role_code.as_str())?;
    Ok(NormalizedUpdateUserInput { user_id, display_name, role_code, must_change_password: payload.must_change_password })
}

pub open spec fn normalize_user_id_spec(user_id: Seq<char>) -> Result<Seq<char>, AppErrorView> {
    if trim(user_id).len() == 0 {
        Err(err_view(validation_code(), "Не указан пользователь"@))
    } else {
        Ok(trim(user_id))
    }
}

/// A user id, trimmed; blank is an error.
pub fn normalize_user_id(user_id: &str) -> (r: Result<String, AppErrorDto>)
    ensures
        string_result_view(r) == normalize_user_id_spec(user_id@),
{
    let normalized = trimmed(user_id);
    if char_count(normalized.as_str()) == 0 {
        return Err(AppErrorDto::validation("Не указан пользователь"));
    }
    Ok(normalized)
}

/// The user to block.
pub fn normalize_block_user_payload(payload: BlockUserPayload) -> (r: Result<String, AppErrorDto>)
    ensures
        string_result_view(r) == normalize_user_id_spec(payload.user_id@),
{
    normalize_user_id(payload.user_id.as_str())
}

/// The user to unblock.
pub fn normalize_unblock_user_payload(payload: UnblockUserPayload) -> (r: Result<String, AppErrorDto>)
    ensures
        string_result_view(r) == normalize_user_id_spec(payload.user_id@),
{
    normalize_user_id(payload.user_id.as_str())
}

#[derive(Debug)]
pub struct NormalizedResetUserPasswordInput {
    pub user_id: String,
    pub temporary_password: String,
}

pub open spec fn reset_password_check(p: ResetUserPasswordPayload) -> Result<(), AppErrorView> {
    first_failure(user_id_spec(p.user_id@), validate_password_spec(trim(p.temporary_password@)))
}

/// The user id and the trimmed temporary password, which must be a valid password.
pub fn normalize_reset_user_password_payload(payload: ResetUserPasswordPayload) -> (r: Result<NormalizedResetUserPasswordInput, AppErrorDto>)
    ensures
        match r {
            Ok(n) => reset_password_check(payload) is Ok && n.user_id@ == trim(payload.user_id@)
                && n.temporary_password@ == trim(payload.temporary_password@),
            Err(e) => reset_password_check(payload) == Err::<(), AppErrorView>(e@),
        },
{
    let user_id = normalize_user_id(payload.user_id.as_str())?;
    let temporary_password = trimmed(payload.temporary_password.as_str());
    validate_password(temporary_password.as_str())?;
    Ok(NormalizedResetUserPasswordInput { user_id, temporary_password })
}

#[derive(Debug)]
pub struct NormalizedChangeOwnPasswordInput {
    pub current_password: String,
    pub new_password: String,
}

pub open spec fn change_password_check(p: ChangeOwnPasswordPayload) -> Result<(), AppErrorView> {
    let current = trim(p.current_password@);
    let new = trim(p.new_password@);
    if current.len() == 0 {
        verr("Укажите текущий пароль"@)
    } else if validate_password_spec(new) is Err {
        validate_password_spec(new)
    } else if current == new {
        verr("Новый пароль должен отличаться от временного"@)
    } else {
        Ok(())
    }
}

/// Both passwords are trimmed; the current one must be given, the new one must
/// be a valid password and differ from the current one.
pub fn normalize_change_own_password_payload(payload: ChangeOwnPasswordPayload) -> (r: Result<NormalizedChangeOwnPasswordInput, AppErrorDto>)
    ensures
        match r {
            Ok(n) => change_password_check(payload) is Ok && n.current_password@ == trim(payload.current_password@)
                && n.new_password@ == trim(payload.new_password@),
            Err(e) => change_password_check(payload) == Err::<(), AppErrorView>(e@),
        },
{
    let current_password = trimmed(payload.current_password.as_str());
    let new_password = trimmed(payload.new_password.as_str());
    if char_count(current_password.as_str()) == 0 {
        return Err(AppErrorDto::validation("Укажите текущий пароль"));
    }
    validate_password(new_password.as_str())?;
    if str_eq(current_password.as_str(), new_password.as_str()) {
        return Err(AppErrorDto::validation("Новый пароль должен отличаться от временного"));
    }
    Ok(NormalizedChangeOwnPasswordInput { current_password, new_password })
}

/// The role codes a user can be given are exactly the three roles of the
/// permission model: administrator, analyst and viewer.
pub proof fn lemma_role_codes_are_the_roles(role_code: Seq<char>)
    ensures
        validate_role_code_spec(role_code) is Ok <==> (role_code == crate::security::session::role_administrator()
            || role_code == crate::security::session::role_analyst() || role_code == crate::security::session::role_viewer()),
{
}

} // verus!
