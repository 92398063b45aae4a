//! The rule records that a parser is compiled from.

use vstd::prelude::*;

verus! {

/// The rules of the three categories, each list in order of priority.
#[derive(Clone, Debug, Default)]
pub struct RegexFile {
    pub user_agent_parsers: Vec<UserAgentParserEntry>,
    pub os_parsers: Vec<OSParserEntry>,
    pub device_parsers: Vec<DeviceParserEntry>,
}

/// One rule for agents: a pattern, its flags and the templates of the
/// family and of the three version fields.
#[derive(Clone, Debug, Default)]
pub struct UserAgentParserEntry {
    pub regex_flag: Option<String>,
    pub regex: String,
    pub family_replacement: Option<String>,
    pub v1_replacement: Option<String>,
    pub v2_replacement: Option<String>,
    pub v3_replacement: Option<String>,
}

/// One rule for operating systems: a pattern, its flags and the templates
/// of the family and of the first three version fields.
#[derive(Clone, Debug, Default)]
pub struct OSParserEntry {
    pub regex_flag: Option<String>,
    pub regex: String,
    pub os_replacement: Option<String>,
    pub os_v1_replacement: Option<String>,
    pub os_v2_replacement: Option<String>,
    pub os_v3_replacement: Option<String>,
}

/// One rule for devices: a pattern, its flags and the templates of the
/// family, the brand and the model.
#[derive(Clone, Debug, Default)]
pub struct DeviceParserEntry {
    pub regex_flag: Option<String>,
    pub regex: String,
    pub device_replacement: Option<String>,
    pub brand_replacement: Option<String>,
    pub model_replacement: Option<String>,
}

} // verus!
