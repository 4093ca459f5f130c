//! The persistent login session.

use vstd::prelude::*;

verus! {

/// One login event: the bearer token handed out and the account it is for.
#[derive(Clone, Debug, PartialEq, Eq)]
pub struct Session {
    pub id: String,
    pub token: String,
    pub user_id: String,
    pub friendly_name: String,
}

/// Mathematical content of a [`Session`].
pub ghost struct SessionView {
    pub id: Seq<char>,
    pub token: Seq<char>,
    pub user_id: Seq<char>,
    pub friendly_name: Seq<char>,
}

impl View for Session {
    type V = SessionView;

    open spec fn view(&self) -> SessionView {
        SessionView {
            id: self.id@,
            token: self.token@,
            user_id: self.user_id@,
            friendly_name: self.friendly_name@,
        }
    }
}

/// Content of an optional session.
pub open spec fn session_opt(o: Option<Session>) -> Option<SessionView> {
    match o {
        Some(s) => Some(s@),
        None => None,
    }
}

} // verus!
