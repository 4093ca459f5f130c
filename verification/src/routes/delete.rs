//! Deletion of an account that holds an escalation grant.

use vstd::prelude::*;
use crate::database::session::{session_opt, Session};
use crate::errors::Error;
use crate::store::{Stores, StoresView};
use crate::utilities::{escalation_checked, validate_escalation};
use crate::view::text_result;

verus! {

/// A request to delete the account of the bearer token it comes with.
#[derive(Clone, Debug, PartialEq, Eq)]
pub struct Delete {
    pub escalation_token: String,
}

/// The answer to a [`Delete`] request.
#[derive(Clone, Copy, Debug, PartialEq, Eq)]
pub struct DeleteResponse {}

/// What the caller looked up in the persistent store for a request.
#[derive(Clone, Debug, PartialEq, Eq)]
pub struct DeleteFacts {
    /// The session that the grant escalated, see
    /// [`crate::utilities::escalated_session`].
    pub backing: Option<Session>,
    /// The session of the bearer token that came with the request.
    pub presented: Option<Session>,
}

/// Decides on the deletion of an account at second `now`: the grant is
/// checked as [`escalation_checked`] says, and where it passes the result
/// is the account whose sessions, documents and passkeys the caller is to
/// delete.
pub fn handle(stores: &mut Stores, now: u64, delete: &Delete, facts: &DeleteFacts) -> (r: Result<
    String,
    Error,
>)
    ensures
        (final(stores)@.active_escalations, text_result(r)) == escalation_checked(
            old(stores)@.active_escalations,
            now,
            delete.escalation_token@,
            session_opt(facts.backing),
            session_opt(facts.presented),
        ),
        final(stores)@ == (StoresView {
            active_escalations: final(stores)@.active_escalations,
            ..old(stores)@
        }),
{
    validate_escalation(stores, now, &delete.escalation_token, &facts.backing, &facts.presented)
}

} // verus!
