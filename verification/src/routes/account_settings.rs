//! Change of the username and the email of an account that holds an
//! escalation grant.

use vstd::prelude::*;
use vstd::string::StringExecFns;
use crate::database::session::{session_opt, Session, SessionView};
use crate::errors::Error;
use crate::store::{Stores, StoresView};
use crate::utilities::{
    escalation_checked, is_email, is_username, is_valid_email, is_valid_username, trim, trimmed,
    validate_escalation,
};
use crate::view::{outcome, text_opt};

verus! {

/// A request to change the username, the email or both.
#[derive(Clone, Debug, PartialEq, Eq)]
pub struct AccountSettings {
    pub username: Option<String>,
    pub email: Option<String>,
    pub escalation_token: String,
}

/// The answer to an [`AccountSettings`] request.
#[derive(Clone, Copy, Debug, PartialEq, Eq)]
pub struct AccountSettingsResponse {}

/// The fields to set on the account `user_id`.
#[derive(Clone, Debug, PartialEq, Eq)]
pub struct AccountUpdate {
    pub user_id: String,
    pub username: Option<String>,
    pub email: Option<String>,
}

/// Mathematical content of an [`AccountUpdate`].
pub ghost struct AccountUpdateView {
    pub user_id: Seq<char>,
    pub username: Option<Seq<char>>,
    pub email: Option<Seq<char>>,
}

impl View for AccountUpdate {
    type V = AccountUpdateView;

    open spec fn view(&self) -> AccountUpdateView {
        AccountUpdateView {
            user_id: self.user_id@,
            username: text_opt(self.username),
            email: text_opt(self.email),
        }
    }
}

/// What the caller looked up in the persistent store for a request.
#[derive(Clone, Debug, PartialEq, Eq)]
pub struct AccountFacts {
    /// The session that the grant escalated, see
    /// [`crate::utilities::escalated_session`].
    pub backing: Option<Session>,
    /// The session of the bearer token that came with the request.
    pub presented: Option<Session>,
    /// Whether an account has the username of the request, without the
    /// white space at its ends.
    pub username_taken: bool,
    /// Whether an account has the email of the request, without the white
    /// space at its ends.
    pub email_taken: bool,
}

/// The username that a request sets, if it asks for one: the name without
/// the white space at its ends. A name of another shape is an
/// `InvalidUsername`; usernames are no secret, so a taken one is reported
/// as `UsernameAlreadyTaken`.
pub open spec fn new_username(username: Option<Seq<char>>, taken: bool) -> Result<
    Option<Seq<char>>,
    Error,
> {
    match username {
        None => Ok(None),
        Some(name) => if !is_username(trimmed(name)) {
            Err(Error::InvalidUsername)
        } else if taken {
            Err(Error::UsernameAlreadyTaken)
        } else {
            Ok(Some(trimmed(name)))
        },
    }
}

/// The email that a request sets, if it asks for one: the address as it
/// was sent. An address that, without the white space at its ends, is
/// none is an `InvalidEmail`, a taken one a `UserExists`.
pub open spec fn new_email(email: Option<Seq<char>>, taken: bool) -> Result<
    Option<Seq<char>>,
    Error,
> {
    match email {
        None => Ok(None),
        Some(address) => if !is_email(trimmed(address)) {
            Err(Error::InvalidEmail)
        } else if taken {
            Err(Error::UserExists)
        } else {
            Ok(Some(address))
        },
    }
}

/// The decision on a change of settings at second `now`: the grants
/// afterwards, and the result. The grant is checked first, as
/// [`escalation_checked`] says, then the username, then the email; the
/// update is for the account that the grant is for.
pub open spec fn settings_changed(
    pre: StoresView,
    now: u64,
    username: Option<Seq<char>>,
    email: Option<Seq<char>>,
    escalation_token: Seq<char>,
    backing: Option<SessionView>,
    presented: Option<SessionView>,
    username_taken: bool,
    email_taken: bool,
) -> (StoresView, Result<AccountUpdateView, Error>) {
    let checked = escalation_checked(
        pre.active_escalations,
        now,
        escalation_token,
        backing,
        presented,
    );
    (
        StoresView { active_escalations: checked.0, ..pre },
        match checked.1 {
            Err(e) => Err(e),
            Ok(user_id) => match new_username(username, username_taken) {
                Err(e) => Err(e),
                Ok(name) => match new_email(email, email_taken) {
                    Err(e) => Err(e),
                    Ok(address) => Ok(
                        AccountUpdateView { user_id, username: name, email: address },
                    ),
                },
            },
        },
    )
}

/// Decides on a change of settings: see [`settings_changed`].
pub fn handle(
    stores: &mut Stores,
    now: u64,
    account_settings: AccountSettings,
    facts: &AccountFacts,
) -> (r: Result<AccountUpdate, Error>)
    ensures
        (final(stores)@, outcome(r)) == settings_changed(
            old(stores)@,
            now,
            text_opt(account_settings.username),
            text_opt(account_settings.email),
            account_settings.escalation_token@,
            session_opt(facts.backing),
            session_opt(facts.presented),
            facts.username_taken,
            facts.email_taken,
        ),
{
    let user_id = match validate_escalation(
        stores,
        now,
        &account_settings.escalation_token,
        &facts.backing,
        &facts.presented,
    ) {
        Ok(id) => id,
        Err(e) => {
            return Err(e);
        },
    };
    let username = match &account_settings.username {
        None => None,
        Some(name) => {
            let name = trim(name.as_str());
            if !is_valid_username(name) {
                return Err(Error::InvalidUsername);
            }
            if facts.username_taken {
                return Err(Error::UsernameAlreadyTaken);
            }
            Some(String::from_str(name))
        },
    };
    let email = match account_settings.email {
        None => None,
        Some(address) => {
            if !is_valid_email(address.as_str()) {
                return Err(Error::InvalidEmail);
            }
            if facts.email_taken {
                return Err(Error::UserExists);
            }
            Some(address)
        },
    };
    Ok(AccountUpdate { user_id, username, email })
}

} // verus!
