//! The full description of a client.

use vstd::prelude::*;
use crate::device::{Device, DeviceText};
use crate::os::{OSText, OS};
use crate::user_agent::{UserAgent, UserAgentText};

verus! {

/// The device, the operating system and the agent of one client.
#[derive(Clone, Debug, PartialEq, Eq, Hash)]
pub struct Client {
    pub device: Device,
    pub os: OS,
    pub user_agent: UserAgent,
}

/// The texts of a `Client`.
pub ghost struct ClientText {
    pub device: DeviceText,
    pub os: OSText,
    pub user_agent: UserAgentText,
}

impl View for Client {
    type V = ClientText;

    open spec fn view(&self) -> ClientText {
        ClientText { device: self.device@, os: self.os@, user_agent: self.user_agent@ }
    }
}

} // verus!
