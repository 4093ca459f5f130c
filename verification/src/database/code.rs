//! One-time backup codes.

use vstd::prelude::*;

verus! {

/// A backup code that stands in for one TOTP code of its account, once.
#[derive(Clone, Debug, PartialEq, Eq)]
pub struct Code {
    pub code: String,
    pub user_id: String,
}

/// Mathematical content of a [`Code`].
pub ghost struct CodeView {
    pub code: Seq<char>,
    pub user_id: Seq<char>,
}

impl View for Code {
    type V = CodeView;

    open spec fn view(&self) -> CodeView {
        CodeView { code: self.code@, user_id: self.user_id@ }
    }
}

/// Content of an optional code.
pub open spec fn code_opt(o: Option<Code>) -> Option<CodeView> {
    match o {
        Some(c) => Some(c@),
        None => None,
    }
}

} // verus!
