//! The signed-in user and the session that holds it.

use vstd::prelude::*;

use crate::error::{err_view, unauthorized_code, AppErrorDto, AppErrorView};

verus! {

pub open spec fn role_administrator() -> Seq<char> {
    "administrator"@
}

pub open spec fn role_analyst() -> Seq<char> {
    "analyst"@
}

pub open spec fn role_viewer() -> Seq<char> {
    "viewer"@
}

/// The user a session is signed in as.
#[derive(Debug, Clone)]
pub struct CurrentUserDto {
    pub user_id: String,
    pub username: String,
    pub display_name: String,
    pub role: String,
    pub is_active: bool,
    pub must_change_password: bool,
}

impl CurrentUserDto {
    /// A field-by-field copy.
    pub fn duplicate(&self) -> (r: CurrentUserDto)
        ensures
            r == *self,
    {
        CurrentUserDto {
            user_id: self.user_id.clone(),
            username: self.username.clone(),
            display_name: self.display_name.clone(),
            role: self.role.clone(),
            is_active: self.is_active,
            must_change_password: self.must_change_password,
        }
    }

    pub fn is_administrator(&self) -> (b: bool)
        ensures
            b == (self.role@ == role_administrator()),
    {
        crate::text::str_eq(self.role.as_str(), "administrator")
    }

    pub fn is_analyst(&self) -> (b: bool)
        ensures
            b == (self.role@ == role_analyst()),
    {
        crate::text::str_eq(self.role.as_str(), "analyst")
    }

    pub fn is_viewer(&self) -> (b: bool)
        ensures
            b == (self.role@ == role_viewer()),
    {
        crate::text::str_eq(self.role.as_str(), "viewer")
    }
}

pub open spec fn login_required_message() -> Seq<char> {
    "Требуется вход в систему."@
}

/// The per-application session: at most one signed-in user.
pub struct SessionState {
    current_user: Option<CurrentUserDto>,
}

impl View for SessionState {
    type V = Option<CurrentUserDto>;

    closed spec fn view(&self) -> Option<CurrentUserDto> {
        self.current_user
    }
}

impl Default for SessionState {
    fn default() -> (s: Self)
        ensures
            s@ is None,
    {
        SessionState { current_user: None }
    }
}

impl SessionState {
    /// A session with nobody signed in.
    pub fn new() -> (s: Self)
        ensures
            s@ is None,
    {
        SessionState { current_user: None }
    }

    /// The signed-in user, if any.
    pub fn get_current_user(&self) -> (r: Option<CurrentUserDto>)
        ensures
            r == self@,
    {
        match &self.current_user {
            Some(u) => Some(u.duplicate()),
            None => None,
        }
    }

    /// The signed-in user, or `ERR_UNAUTHORIZED` when nobody is signed in.
    pub fn require_current_user(&self) -> (r: Result<CurrentUserDto, AppErrorDto>)
        ensures
            match self@ {
                Some(u) => r == Ok::<CurrentUserDto, AppErrorDto>(u),
                None => r matches Err(e) && e@ == err_view(unauthorized_code(), login_required_message()),
            },
    {
        match self.get_current_user() {
            Some(u) => Ok(u),
            None => Err(AppErrorDto::unauthorized("Требуется вход в систему.")),
        }
    }

    /// Signs `user` in, replacing whoever was signed in.
    pub fn set_current_user(&mut self, user: CurrentUserDto)
        ensures
            final(self)@ == Some(user),
    {
        self.current_user = Some(user);
    }

    /// Signs the current user out.
    pub fn clear_current_user(&mut self)
        ensures
            final(self)@ is None,
    {
        self.current_user = None;
    }
}

} // verus!
