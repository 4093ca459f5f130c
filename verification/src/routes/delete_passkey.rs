//! Deletion of a passkey of an account that holds an escalation grant.

use vstd::prelude::*;
use crate::database::session::{session_opt, SessionView};
use crate::errors::Error;
use crate::routes::delete::DeleteFacts;
use crate::store::{Stores, StoresView};
use crate::utilities::{escalation_checked, validate_escalation};
use crate::view::outcome;

verus! {

/// A request to delete one passkey of the account of the bearer token it
/// comes with.
#[derive(Clone, Debug, PartialEq, Eq)]
pub struct DeletePasskey {
    pub escalation_token: String,
}

/// The passkey to delete: the one with this id, if it is this account's.
#[derive(Clone, Debug, PartialEq, Eq)]
pub struct PasskeyRemoval {
    pub id: String,
    pub user_id: String,
}

/// Mathematical content of a [`PasskeyRemoval`].
pub ghost struct PasskeyRemovalView {
    pub id: Seq<char>,
    pub user_id: Seq<char>,
}

impl View for PasskeyRemoval {
    type V = PasskeyRemovalView;

    open spec fn view(&self) -> PasskeyRemovalView {
        PasskeyRemovalView { id: self.id@, user_id: self.user_id@ }
    }
}

/// The decision on the deletion of the passkey `passkey_id` at second
/// `now`: the grants afterwards, and the result. The grant is checked as
/// [`escalation_checked`] says; where it passes, the passkey is to be
/// deleted if it belongs to the account that the grant is for.
pub open spec fn removal(
    pre: StoresView,
    now: u64,
    passkey_id: Seq<char>,
    escalation_token: Seq<char>,
    backing: Option<SessionView>,
    presented: Option<SessionView>,
) -> (StoresView, Result<PasskeyRemovalView, Error>) {
    let checked = escalation_checked(
        pre.active_escalations,
        now,
        escalation_token,
        backing,
        presented,
    );
    (
        StoresView { active_escalations: checked.0, ..pre },
        match checked.1 {
            Ok(user_id) => Ok(PasskeyRemovalView { id: passkey_id, user_id }),
            Err(e) => Err(e),
        },
    )
}

/// Decides on the deletion of a passkey: see [`removal`].
pub fn handle(
    stores: &mut Stores,
    now: u64,
    passkey_id: String,
    delete_passkey: &DeletePasskey,
    facts: &DeleteFacts,
) -> (r: Result<PasskeyRemoval, Error>)
    ensures
        (final(stores)@, outcome(r)) == removal(
            old(stores)@,
            now,
            passkey_id@,
            delete_passkey.escalation_token@,
            session_opt(facts.backing),
            session_opt(facts.presented),
        ),
{
    match validate_escalation(
        stores,
        now,
        &delete_passkey.escalation_token,
        &facts.backing,
        &facts.presented,
    ) {
        Ok(user_id) => Ok(PasskeyRemoval { id: passkey_id, user_id }),
        Err(e) => Err(e),
    }
}

} // verus!
