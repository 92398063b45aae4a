//! The hardware that a client runs on.

use vstd::prelude::*;
use crate::text::opt_text;

verus! {

/// The device of a client. An empty family stands for "not classified".
#[derive(Clone, Debug, PartialEq, Eq, Hash)]
pub struct Device {
    pub family: String,
    pub brand: Option<String>,
    pub model: Option<String>,
}

/// The texts of a `Device`.
pub ghost struct DeviceText {
    pub family: Seq<char>,
    pub brand: Option<Seq<char>>,
    pub model: Option<Seq<char>>,
}

impl DeviceText {
    /// The device that no rule matched: no family, nothing else.
    pub open spec fn unclassified() -> DeviceText {
        DeviceText { family: Seq::empty(), brand: None, model: None }
    }

    /// No optional field holds an empty text.
    pub open spec fn normalized(self) -> bool {
        &&& self.brand matches Some(b) ==> b.len() > 0
        &&& self.model matches Some(m) ==> m.len() > 0
    }
}

impl View for Device {
    type V = DeviceText;

    open spec fn view(&self) -> DeviceText {
        DeviceText {
            family: self.family@,
            brand: opt_text(self.brand),
            model: opt_text(self.model),
        }
    }
}

/// The texts of an optional `Device`.
pub open spec fn opt_view(o: Option<Device>) -> Option<DeviceText> {
    match o {
        Some(d) => Some(d@),
        None => None,
    }
}

impl Default for Device {
    fn default() -> (r: Device)
        ensures
            r@ == DeviceText::unclassified(),
    {
        Device { family: String::new(), brand: None, model: None }
    }
}

} // verus!
