//! Classification of client-identification strings ("User-Agent" headers)
//! into a device, an operating system and a browser identity, driven by an
//! ordered list of pattern rules: the first rule that matches wins.

pub mod text;
pub mod escapes;
pub mod matching;
pub mod device;
pub mod os;
pub mod user_agent;
pub mod client;
pub mod file;
pub mod parser;
