//! The public profile that is created together with an account.

use vstd::prelude::*;

verus! {

/// Profile document of an account.
#[derive(Clone, Debug, PartialEq, Eq)]
pub struct UserProfile {
    pub id: String,
    pub display_name: String,
    pub description: String,
    pub website: String,
    pub avatar: Option<String>,
}

/// Mathematical content of a [`UserProfile`].
pub ghost struct UserProfileView {
    pub id: Seq<char>,
    pub display_name: Seq<char>,
    pub description: Seq<char>,
    pub website: Seq<char>,
    pub avatar: Option<Seq<char>>,
}

impl View for UserProfile {
    type V = UserProfileView;

    open spec fn view(&self) -> UserProfileView {
        UserProfileView {
            id: self.id@,
            display_name: self.display_name@,
            description: self.description@,
            website: self.website@,
            avatar: crate::view::text_opt(self.avatar),
        }
    }
}

/// Content of an optional profile.
pub open spec fn profile_opt(o: Option<UserProfile>) -> Option<UserProfileView> {
    match o {
        Some(p) => Some(p@),
        None => None,
    }
}

} // verus!
