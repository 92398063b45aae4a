//! The matcher of one device rule.

use vstd::prelude::*;
use crate::device::{opt_view, Device, DeviceText};
use crate::file::DeviceParserEntry;
use crate::matching::{captured, CaptureSet, Captured, CompiledPattern, PatternError};
use crate::parser::{
    compile, compiled_as, extract_field, field_value, refers_to_group, template_has_group,
};
use crate::text::opt_text;

verus! {

/// Why a device rule could not be compiled.
#[derive(Debug)]
pub enum Error {
    Regex(PatternError),
}

/// One compiled device rule: the pattern, and for each field its template
/// and whether that template refers to a capture group.
#[derive(Debug)]
pub struct Matcher {
    pub regex: CompiledPattern,
    pub device_replacement: Option<String>,
    pub brand_replacement: Option<String>,
    pub model_replacement: Option<String>,
    pub device_replacement_has_group: bool,
    pub brand_replacement_has_group: bool,
    pub model_replacement_has_group: bool,
}

impl Matcher {
    /// The templates are those of `entry`, each flagged by whether it holds
    /// the back-reference sigil.
    pub open spec fn configured_by(self, entry: DeviceParserEntry) -> bool {
        &&& self.device_replacement == entry.device_replacement
        &&& self.brand_replacement == entry.brand_replacement
        &&& self.model_replacement == entry.model_replacement
        &&& self.device_replacement_has_group == refers_to_group(entry.device_replacement)
        &&& self.brand_replacement_has_group == refers_to_group(entry.brand_replacement)
        &&& self.model_replacement_has_group == refers_to_group(entry.model_replacement)
    }

    /// What the rule makes of a match: the family from its template, else
    /// from group 1, and no device where that is empty; brand and model from
    /// their templates alone.
    pub open spec fn outcome(self, captures: Captured) -> Option<DeviceText> {
        match field_value(
            opt_text(self.device_replacement),
            self.device_replacement_has_group,
            captures,
            Some(1),
        ) {
            Some(family) => Some(
                DeviceText {
                    family,
                    brand: field_value(
                        opt_text(self.brand_replacement),
                        self.brand_replacement_has_group,
                        captures,
                        None,
                    ),
                    model: field_value(
                        opt_text(self.model_replacement),
                        self.model_replacement_has_group,
                        captures,
                        None,
                    ),
                },
            ),
            None => None,
        }
    }

    /// What the rule makes of `text`: nothing where the pattern does not
    /// match, else the outcome of its first match.
    pub open spec fn parsed(self, text: Seq<char>) -> Option<DeviceText> {
        match captured(self.regex@, text) {
            Some(groups) => self.outcome(Captured { pattern: self.regex@, text, groups }),
            None => None,
        }
    }

    /// The matcher of `entry`, given what compiling its pattern gave.
    pub fn from_compiled(compiled: Result<CompiledPattern, PatternError>, entry: DeviceParserEntry) -> (r:
        Result<Matcher, Error>)
        ensures
            match compiled {
                Ok(p) => r matches Ok(m) && m.regex == p && m.configured_by(entry),
                Err(e) => r matches Err(Error::Regex(f)) && f == e,
            },
    {
        match compiled {
            Ok(regex) => {
                let device_replacement_has_group = template_has_group(&entry.device_replacement);
                let brand_replacement_has_group = template_has_group(&entry.brand_replacement);
                let model_replacement_has_group = template_has_group(&entry.model_replacement);
                Ok(
                    Matcher {
                        regex,
                        device_replacement: entry.device_replacement,
                        brand_replacement: entry.brand_replacement,
                        model_replacement: entry.model_replacement,
                        device_replacement_has_group,
                        brand_replacement_has_group,
                        model_replacement_has_group,
                    },
                )
            },
            Err(e) => Err(Error::Regex(e)),
        }
    }

    /// What compiling `entry` may give: a matcher that holds the prepared
    /// pattern, compiled under the size limit, and the templates of the
    /// entry; or the error of the pattern.
    pub open spec fn compiled_from(r: Result<Matcher, Error>, entry: DeviceParserEntry) -> bool {
        match r {
            Ok(m) => compiled_as(
                Ok(m.regex),
                entry.regex@,
                opt_text(entry.regex_flag),
            ) && m.configured_by(entry),
            Err(Error::Regex(e)) => compiled_as(
                Err(e),
                entry.regex@,
                opt_text(entry.regex_flag),
            ),
        }
    }

    /// Compiles `entry`. Whether the pattern compiles is for the pattern
    /// engine to say.
    pub fn try_from(entry: DeviceParserEntry) -> (r: Result<Matcher, Error>)
        ensures
            Matcher::compiled_from(r, entry),
    {
        let compiled = compile(entry.regex.as_str(), &entry.regex_flag);
        Matcher::from_compiled(compiled, entry)
    }

    /// The device that the rule makes of a match.
    pub fn parse_captures(&self, captures: &CaptureSet) -> (r: Option<Device>)
        requires
            captures.wf(),
        ensures
            opt_view(r) == self.outcome(captures@),
            r matches Some(d) ==> d@.family.len() > 0 && d@.normalized(),
    {
        match extract_field(
            &self.device_replacement,
            self.device_replacement_has_group,
            captures,
            Some(1),
        ) {
            Some(family) => {
                let brand = extract_field(
                    &self.brand_replacement,
                    self.brand_replacement_has_group,
                    captures,
                    None,
                );
                let model = extract_field(
                    &self.model_replacement,
                    self.model_replacement_has_group,
                    captures,
                    None,
                );
                Some(Device { family, brand, model })
            },
            None => None,
        }
    }

    /// Applies the rule to `text`.
    pub fn try_parse(&self, text: &str) -> (r: Option<Device>)
        ensures
            opt_view(r) == self.parsed(text@),
            r matches Some(d) ==> d@.family.len() > 0 && d@.normalized(),
    {
        match CaptureSet::find(&self.regex, text) {
            Some(captures) => self.parse_captures(&captures),
            None => None,
        }
    }
}

} // verus!
