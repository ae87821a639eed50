//! Signing in and out, and creating the first administrator.

use vstd::prelude::*;

use crate::error::{err_view, validation_code, AppErrorDto, AppErrorView};
use crate::repositories::user_repository::{CreateUserRecord, UserAuthRow};
use crate::security::password::{argon2_accepts, hash_password, phc_hash_parses, verify_password};
use crate::security::session::{CurrentUserDto, SessionState};
use crate::text::{ascii_lower, is_ascii_text, byte_len, char_count, lowercase, str_to_lowercase, str_trim, trim, trimmed, utf8_len};

verus! {

#[derive(Debug, Clone)]
pub struct CreateFirstAdminPayload {
    pub username: String,
    pub display_name: String,
    pub password: String,
}

#[derive(Debug, Clone)]
pub struct CreateFirstAdminResponse {
    pub user_id: String,
    pub username: String,
    pub role: String,
}

#[derive(Debug, Clone)]
pub struct LoginPayload {
    pub username: String,
    pub password: String,
}

#[derive(Debug, Clone)]
pub struct LoginResponse {
    pub user: CurrentUserDto,
}

pub open spec fn invalid_credentials() -> AppErrorView {
    err_view("ERR_INVALID_CREDENTIALS"@, "Неверный логин или пароль."@)
}

pub open spec fn user_blocked() -> AppErrorView {
    err_view("ERR_USER_BLOCKED"@, "Пользователь заблокирован."@)
}

pub open spec fn first_admin_check(username: Seq<char>, display_name: Seq<char>, password: Seq<char>) -> Result<(), AppErrorView> {
    if byte_len(username) < 3 {
        Err(err_view(validation_code(), "Логин должен содержать минимум 3 символа."@))
    } else if byte_len(display_name) < 2 {
        Err(err_view(validation_code(), "Имя пользователя должно содержать минимум 2 символа."@))
    } else if byte_len(password) < 8 {
        Err(err_view(validation_code(), "Пароль должен содержать минимум 8 символов."@))
    } else {
        Ok(())
    }
}

/// The first administrator's login and display name, normalized and validated.
pub struct FirstAdminInput {
    pub username: String,
    pub display_name: String,
    pub password: String,
}

fn invalid_credentials_error() -> (e: AppErrorDto)
    ensures
        e@ == invalid_credentials(),
{
    AppErrorDto::new("ERR_INVALID_CREDENTIALS", "Неверный логин или пароль.", None)
}

pub struct AuthService;

impl AuthService {
    /// The login is trimmed and lowercased and must have at least 3 bytes, the
    /// display name is trimmed and must have at least 2, the password at least 8.
    pub fn normalize_first_admin_payload(payload: CreateFirstAdminPayload) -> (r: Result<FirstAdminInput, AppErrorDto>)
        ensures
            match r {
                Ok(i) => first_admin_check(lowercase(trim(payload.username@)), trim(payload.display_name@), payload.password@) is Ok
                    && i.username@ == lowercase(trim(payload.username@)) && i.display_name@ == trim(payload.display_name@)
                    && i.password == payload.password,
                Err(e) => first_admin_check(lowercase(trim(payload.username@)), trim(payload.display_name@), payload.password@)
                    == Err::<(), AppErrorView>(e@),
            },
            is_ascii_text(trim(payload.username@)) ==> (r matches Ok(i) ==> i.username@ == ascii_lower(trim(payload.username@))),
    {
        let username = str_to_lowercase(str_trim(payload.username.as_str()));
        let display_name = trimmed(payload.display_name.as_str());
        if utf8_len(username.as_str()) < 3 {
            return Err(AppErrorDto::new("ERR_VALIDATION", "Логин должен содержать минимум 3 символа.", None));
        }
        if utf8_len(display_name.as_str()) < 2 {
            return Err(AppErrorDto::new("ERR_VALIDATION", "Имя пользователя должно содержать минимум 2 символа.", None));
        }
        if utf8_len(payload.password.as_str()) < 8 {
            return Err(AppErrorDto::new("ERR_VALIDATION", "Пароль должен содержать минимум 8 символов.", None));
        }
        Ok(FirstAdminInput { username, display_name, password: payload.password })
    }

    /// Creates the first administrator unless an active one exists: the
    /// password is hashed and the new user gets the administrator role.
    pub fn create_first_admin(
        input: FirstAdminInput,
        has_active_administrator: bool,
        administrator_role_id: String,
        user_id: String,
    ) -> (r: Result<(CreateUserRecord, CreateFirstAdminResponse), AppErrorDto>)
        ensures
            has_active_administrator ==> (r matches Err(e) && e@ == err_view(
                "ERR_ADMIN_ALREADY_EXISTS"@,
                "Первый администратор уже создан."@,
            )),
            r matches Ok((rec, resp)) ==> !has_active_administrator && rec.user_id == user_id && rec.username
                == input.username && rec.display_name == input.display_name && rec.role_id == administrator_role_id
                && resp.user_id == user_id && resp.username == input.username && resp.role@ == "administrator"@
                && phc_hash_parses(rec.password_hash@) && argon2_accepts(input.password@, rec.password_hash@),
            !has_active_administrator && r is Err ==> (r matches Err(e) && e@.code == "ERR_PASSWORD_HASH"@),
            !has_active_administrator && byte_len(input.password@) <= 0xFFFF_FFFF ==> r is Ok,
    {
        if has_active_administrator {
            return Err(AppErrorDto::new("ERR_ADMIN_ALREADY_EXISTS", "Первый администратор уже создан.", None));
        }
        let password_hash = hash_password(input.password.as_str())?;
        let record = CreateUserRecord {
            user_id: user_id.clone(),
            username: input.username.clone(),
            display_name: input.display_name,
            password_hash,
            role_id: administrator_role_id,
        };
        let response = CreateFirstAdminResponse { user_id, username: input.username, role: "administrator".to_owned() };
        Ok((record, response))
    }

    /// The login to look up: trimmed and lowercased. An empty login or password
    /// is refused before any lookup.
    pub fn normalize_login(payload: &LoginPayload) -> (r: Result<String, AppErrorDto>)
        ensures
            (lowercase(trim(payload.username@)).len() == 0 || payload.password@.len() == 0) ==> (r matches Err(e) && e@
                == err_view(validation_code(), "Введите логин и пароль."@)),
            !(lowercase(trim(payload.username@)).len() == 0 || payload.password@.len() == 0) ==> (r matches Ok(u) && u@
                == lowercase(trim(payload.username@))),
            is_ascii_text(trim(payload.username@)) ==> (r matches Ok(u) ==> u@ == ascii_lower(trim(payload.username@))),
    {
        let username = str_to_lowercase(str_trim(payload.username.as_str()));
        if char_count(username.as_str()) == 0 || char_count(payload.password.as_str()) == 0 {
            return Err(AppErrorDto::new("ERR_VALIDATION", "Введите логин и пароль.", None));
        }
        Ok(username)
    }

    /// Completes a sign-in with the stored row of the login, if any: unknown
    /// logins and wrong passwords give the same error, blocked users another;
    /// on success the session holds the user.
    pub fn complete_login(session: &mut SessionState, password: &str, user_row: Option<UserAuthRow>) -> (r: Result<LoginResponse, AppErrorDto>)
        ensures
            match user_row {
                None => r matches Err(e) && e@ == invalid_credentials() && final(session)@ == old(session)@,
                Some(row) => if row.is_active != 1 {
                    r matches Err(e) && e@ == user_blocked() && final(session)@ == old(session)@
                } else if !phc_hash_parses(row.password_hash@) {
                    r matches Err(e) && e@.code == "ERR_PASSWORD_HASH_PARSE"@ && final(session)@ == old(session)@
                } else if !argon2_accepts(password@, row.password_hash@) {
                    r matches Err(e) && e@ == invalid_credentials() && final(session)@ == old(session)@
                } else {
                    r matches Ok(resp) && resp.user == (CurrentUserDto {
                        user_id: row.user_id,
                        username: row.username,
                        display_name: row.display_name,
                        role: row.role,
                        is_active: true,
                        must_change_password: row.must_change_password,
                    }) && final(session)@ == Some(resp.user)
                },
            },
    {
        let row = match user_row {
            Some(row) => row,
            None => return Err(invalid_credentials_error()),
        };
        if row.is_active != 1 {
            return Err(AppErrorDto::new("ERR_USER_BLOCKED", "Пользователь заблокирован.", None));
        }
        let check = verify_password(password, row.password_hash.as_str());
        Self::finish_login(session, row, check)
    }

    /// Finishes a sign-in once the password of an active user has been
    /// checked: a check that failed is passed on, a mismatch is the same error
    /// as an unknown login, and a match signs the user in.
    pub fn finish_login(
        session: &mut SessionState,
        row: UserAuthRow,
        password_check: Result<bool, AppErrorDto>,
    ) -> (r: Result<LoginResponse, AppErrorDto>)
        ensures
            match password_check {
                Err(e) => r matches Err(e2) && e2@ == e@ && final(session)@ == old(session)@,
                Ok(false) => r matches Err(e) && e@ == invalid_credentials() && final(session)@ == old(session)@,
                Ok(true) => r matches Ok(resp) && resp.user == (CurrentUserDto {
                    user_id: row.user_id,
                    username: row.username,
                    display_name: row.display_name,
                    role: row.role,
                    is_active: row.is_active == 1,
                    must_change_password: row.must_change_password,
                }) && final(session)@ == Some(resp.user),
            },
    {
        let password_ok = match password_check {
            Err(e) => return Err(e),
            Ok(b) => b,
        };
        if !password_ok {
            return Err(invalid_credentials_error());
        }
        let user = CurrentUserDto {
            user_id: row.user_id,
            username: row.username,
            display_name: row.display_name,
            role: row.role,
            is_active: row.is_active == 1,
            must_change_password: row.must_change_password,
        };
        session.set_current_user(user.duplicate());
        Ok(LoginResponse { user })
    }

    /// The signed-in user, if any.
    pub fn get_current_user(session: &SessionState) -> (r: Option<CurrentUserDto>)
        ensures
            r == session@,
    {
        session.get_current_user()
    }

    /// Signs out; always succeeds.
    pub fn logout(session: &mut SessionState) -> (b: bool)
        ensures
            b,
            final(session)@ is None,
    {
        session.clear_current_user();
        true
    }
}

} // verus!
