//! The browser or agent that a client is.

use vstd::prelude::*;
use crate::text::opt_text;

verus! {

/// The agent of a client. An empty family stands for "not classified".
#[derive(Clone, Debug, PartialEq, Eq, Hash)]
pub struct UserAgent {
    pub family: String,
    pub major: Option<String>,
    pub minor: Option<String>,
    pub patch: Option<String>,
}

/// The texts of a `UserAgent`.
pub ghost struct UserAgentText {
    pub family: Seq<char>,
    pub major: Option<Seq<char>>,
    pub minor: Option<Seq<char>>,
    pub patch: Option<Seq<char>>,
}

impl UserAgentText {
    /// The agent that no rule matched: no family, nothing else.
    pub open spec fn unclassified() -> UserAgentText {
        UserAgentText { family: Seq::empty(), major: None, minor: None, patch: None }
    }

    /// No optional field holds an empty text.
    pub open spec fn normalized(self) -> bool {
        &&& self.major matches Some(v) ==> v.len() > 0
        &&& self.minor matches Some(v) ==> v.len() > 0
        &&& self.patch matches Some(v) ==> v.len() > 0
    }
}

impl View for UserAgent {
    type V = UserAgentText;

    open spec fn view(&self) -> UserAgentText {
        UserAgentText {
            family: self.family@,
            major: opt_text(self.major),
            minor: opt_text(self.minor),
            patch: opt_text(self.patch),
        }
    }
}

/// The texts of an optional `UserAgent`.
pub open spec fn opt_view(o: Option<UserAgent>) -> Option<UserAgentText> {
    match o {
        Some(d) => Some(d@),
        None => None,
    }
}

impl Default for UserAgent {
    fn default() -> (r: UserAgent)
        ensures
            r@ == UserAgentText::unclassified(),
    {
        UserAgent { family: String::new(), major: None, minor: None, patch: None }
    }
}

} // verus!
