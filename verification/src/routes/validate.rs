//! Validation of a bearer token, and of an escalation grant with it.

use vstd::prelude::*;
use crate::authenticate::{token_claims, validate_token};
use crate::database::session::{session_opt, Session, SessionView};
use crate::environment::{Clock, Environment};
use crate::errors::Error;
use crate::store::{Stores, StoresView};
use crate::utilities::{escalation_checked, validate_escalation};
use crate::view::text_opt;

verus! {

/// A bearer token to validate, with or without an escalation grant.
#[derive(Clone, Debug, PartialEq, Eq)]
pub struct Validate {
    pub token: String,
    pub escalation_token: Option<String>,
}

/// Whether the token holds an escalation grant that passes.
#[derive(Clone, Copy, Debug, PartialEq, Eq)]
pub struct ValidateResponse {
    pub escalated: bool,
}

/// What the caller looked up in the persistent store for a request.
#[derive(Clone, Debug, PartialEq, Eq)]
pub struct ValidateFacts {
    /// The session that the grant escalated, see
    /// [`crate::utilities::escalated_session`].
    pub backing: Option<Session>,
    /// The session of the bearer token of the request.
    pub presented: Option<Session>,
}

/// The validation of a bearer token at the reading `clock`: the grants
/// afterwards, and the result.
///
/// A token that does not hold is turned down as
/// [`crate::authenticate::token_claims`] says, and no grant is looked at.
/// A token that holds is escalated where the request names a grant and
/// that grant passes the check that [`escalation_checked`] describes; a
/// grant that fails is no error.
pub open spec fn validated(
    pre: StoresView,
    secret: Seq<u8>,
    clock: Clock,
    token: Seq<char>,
    escalation_token: Option<Seq<char>>,
    backing: Option<SessionView>,
    presented: Option<SessionView>,
) -> (StoresView, Result<ValidateResponse, Error>) {
    match token_claims(token, secret, clock.millis) {
        Err(e) => (pre, Err(e)),
        Ok(_) => match escalation_token {
            None => (pre, Ok(ValidateResponse { escalated: false })),
            Some(grant) => {
                let checked = escalation_checked(
                    pre.active_escalations,
                    clock.secs,
                    grant,
                    backing,
                    presented,
                );
                (
                    StoresView { active_escalations: checked.0, ..pre },
                    Ok(ValidateResponse { escalated: checked.1 is Ok }),
                )
            },
        },
    }
}

/// Validates a bearer token and, where the request names one, the
/// escalation grant that it holds: see [`validated`].
pub fn handle(
    stores: &mut Stores,
    env: &Environment,
    clock: Clock,
    validate: &Validate,
    facts: &ValidateFacts,
) -> (r: Result<ValidateResponse, Error>)
    ensures
        (final(stores)@, r) == validated(
            old(stores)@,
            env.jwt_secret@,
            clock,
            validate.token@,
            text_opt(validate.escalation_token),
            session_opt(facts.backing),
            session_opt(facts.presented),
        ),
{
    match validate_token(&validate.token, &env.jwt_secret, clock.millis) {
        Err(e) => {
            return Err(e);
        },
        Ok(_) => {},
    }
    match &validate.escalation_token {
        None => Ok(ValidateResponse { escalated: false }),
        Some(grant) => {
            let checked = validate_escalation(
                stores,
                clock.secs,
                grant,
                &facts.backing,
                &facts.presented,
            );
            Ok(ValidateResponse { escalated: checked.is_ok() })
        },
    }
}

} // verus!
