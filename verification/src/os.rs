//! The operating system that a client runs on.

use vstd::prelude::*;
use crate::text::opt_text;

verus! {

/// The operating system of a client. An empty family stands for "not
/// classified".
#[derive(Clone, Debug, PartialEq, Eq, Hash)]
pub struct OS {
    pub family: String,
    pub major: Option<String>,
    pub minor: Option<String>,
    pub patch: Option<String>,
    pub patch_minor: Option<String>,
}

/// The texts of an `OS`.
pub ghost struct OSText {
    pub family: Seq<char>,
    pub major: Option<Seq<char>>,
    pub minor: Option<Seq<char>>,
    pub patch: Option<Seq<char>>,
    pub patch_minor: Option<Seq<char>>,
}

impl OSText {
    /// The operating system that no rule matched: no family, nothing else.
    pub open spec fn unclassified() -> OSText {
        OSText { family: Seq::empty(), major: None, minor: None, patch: None, patch_minor: None }
    }

    /// No optional field holds an empty text.
    pub open spec fn normalized(self) -> bool {
        &&& self.major matches Some(v) ==> v.len() > 0
        &&& self.minor matches Some(v) ==> v.len() > 0
        &&& self.patch matches Some(v) ==> v.len() > 0
        &&& self.patch_minor matches Some(v) ==> v.len() > 0
    }
}

impl View for OS {
    type V = OSText;

    open spec fn view(&self) -> OSText {
        OSText {
            family: self.family@,
            major: opt_text(self.major),
            minor: opt_text(self.minor),
            patch: opt_text(self.patch),
            patch_minor: opt_text(self.patch_minor),
        }
    }
}

/// The texts of an optional `OS`.
pub open spec fn opt_view(o: Option<OS>) -> Option<OSText> {
    match o {
        Some(d) => Some(d@),
        None => None,
    }
}

impl Default for OS {
    fn default() -> (r: OS)
        ensures
            r@ == OSText::unclassified(),
    {
        OS { family: String::new(), major: None, minor: None, patch: None, patch_minor: None }
    }
}

} // verus!
