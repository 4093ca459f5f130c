//! The account document.

use vstd::prelude::*;
use crate::view::text_opt;

verus! {

/// An account as the persistent store holds it.
#[derive(Clone, Debug, PartialEq, Eq)]
pub struct User {
    pub id: String,
    pub mfa_enabled: bool,
    pub mfa_secret: Option<String>,
    pub username: String,
    pub email: String,
    pub password_data: Vec<u8>,
    pub platform_administrator: bool,
}

/// Mathematical content of a [`User`].
pub ghost struct UserView {
    pub id: Seq<char>,
    pub mfa_enabled: bool,
    pub mfa_secret: Option<Seq<char>>,
    pub username: Seq<char>,
    pub email: Seq<char>,
    pub password_data: Seq<u8>,
    pub platform_administrator: bool,
}

impl View for User {
    type V = UserView;

    open spec fn view(&self) -> UserView {
        UserView {
            id: self.id@,
            mfa_enabled: self.mfa_enabled,
            mfa_secret: text_opt(self.mfa_secret),
            username: self.username@,
            email: self.email@,
            password_data: self.password_data@,
            platform_administrator: self.platform_administrator,
        }
    }
}

/// Content of an optional account.
pub open spec fn user_opt(o: Option<User>) -> Option<UserView> {
    match o {
        Some(u) => Some(u@),
        None => None,
    }
}

/// A request to replace the password file of an account.
#[derive(Clone, Debug, PartialEq, Eq)]
pub struct PasswordUpdate {
    pub user_id: String,
    pub password_data: Vec<u8>,
}

/// Mathematical content of a [`PasswordUpdate`].
pub ghost struct PasswordUpdateView {
    pub user_id: Seq<char>,
    pub password_data: Seq<u8>,
}

impl View for PasswordUpdate {
    type V = PasswordUpdateView;

    open spec fn view(&self) -> PasswordUpdateView {
        PasswordUpdateView { user_id: self.user_id@, password_data: self.password_data@ }
    }
}

/// Content of an optional password update.
pub open spec fn password_opt(o: Option<PasswordUpdate>) -> Option<PasswordUpdateView> {
    match o {
        Some(p) => Some(p@),
        None => None,
    }
}

} // verus!
