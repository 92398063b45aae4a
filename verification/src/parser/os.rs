//! The matcher of one operating-system rule.

use vstd::prelude::*;
use crate::file::OSParserEntry;
use crate::matching::{captured, CaptureSet, Captured, CompiledPattern, PatternError};
use crate::os::{opt_view, OSText, OS};
use crate::parser::{
    compile, compiled_as, extract_field, field_value, refers_to_group, template_has_group,
};
use crate::text::opt_text;

verus! {

/// Why an operating-system rule could not be compiled.
#[derive(Debug)]
pub enum Error {
    Regex(PatternError),
}

/// One compiled operating-system rule: the pattern, and for the family and
/// the first three version fields the template and whether it refers to a
/// capture group. The fourth version field has no template.
#[derive(Debug)]
pub struct Matcher {
    pub regex: CompiledPattern,
    pub os_replacement: Option<String>,
    pub os_v1_replacement: Option<String>,
    pub os_v2_replacement: Option<String>,
    pub os_v3_replacement: Option<String>,
    pub os_replacement_has_group: bool,
    pub os_v1_replacement_has_group: bool,
    pub os_v2_replacement_has_group: bool,
    pub os_v3_replacement_has_group: bool,
}

impl Matcher {
    /// The templates are those of `entry`, each flagged by whether it holds
    /// the back-reference sigil.
    pub open spec fn configured_by(self, entry: OSParserEntry) -> bool {
        &&& self.os_replacement == entry.os_replacement
        &&& self.os_v1_replacement == entry.os_v1_replacement
        &&& self.os_v2_replacement == entry.os_v2_replacement
        &&& self.os_v3_replacement == entry.os_v3_replacement
        &&& self.os_replacement_has_group == refers_to_group(entry.os_replacement)
        &&& self.os_v1_replacement_has_group == refers_to_group(entry.os_v1_replacement)
        &&& self.os_v2_replacement_has_group == refers_to_group(entry.os_v2_replacement)
        &&& self.os_v3_replacement_has_group == refers_to_group(entry.os_v3_replacement)
    }

    /// What the rule makes of a match: the family from its template, else
    /// from group 1, and no system where that is empty; the version fields
    /// from their templates, else from groups 2 to 4; the last from group 5.
    pub open spec fn outcome(self, captures: Captured) -> Option<OSText> {
        match field_value(
            opt_text(self.os_replacement),
            self.os_replacement_has_group,
            captures,
            Some(1),
        ) {
            Some(family) => Some(
                OSText {
                    family,
                    major: field_value(
                        opt_text(self.os_v1_replacement),
                        self.os_v1_replacement_has_group,
                        captures,
                        Some(2),
                    ),
                    minor: field_value(
                        opt_text(self.os_v2_replacement),
                        self.os_v2_replacement_has_group,
                        captures,
                        Some(3),
                    ),
                    patch: field_value(
                        opt_text(self.os_v3_replacement),
                        self.os_v3_replacement_has_group,
                        captures,
                        Some(4),
                    ),
                    patch_minor: field_value(None, false, captures, Some(5)),
                },
            ),
            None => None,
        }
    }

    /// What the rule makes of `text`: nothing where the pattern does not
    /// match, else the outcome of its first match.
    pub open spec fn parsed(self, text: Seq<char>) -> Option<OSText> {
        match captured(self.regex@, text) {
            Some(groups) => self.outcome(Captured { pattern: self.regex@, text, groups }),
            None => None,
        }
    }

    /// The matcher of `entry`, given what compiling its pattern gave.
    pub fn from_compiled(compiled: Result<CompiledPattern, PatternError>, entry: OSParserEntry) -> (r:
        Result<Matcher, Error>)
        ensures
            match compiled {
                Ok(p) => r matches Ok(m) && m.regex == p && m.configured_by(entry),
                Err(e) => r matches Err(Error::Regex(f)) && f == e,
            },
    {
        match compiled {
            Ok(regex) => {
                let os_replacement_has_group = template_has_group(&entry.os_replacement);
                let os_v1_replacement_has_group = template_has_group(&entry.os_v1_replacement);
                let os_v2_replacement_has_group = template_has_group(&entry.os_v2_replacement);
                let os_v3_replacement_has_group = template_has_group(&entry.os_v3_replacement);
                Ok(
                    Matcher {
                        regex,
                        os_replacement: entry.os_replacement,
                        os_v1_replacement: entry.os_v1_replacement,
                        os_v2_replacement: entry.os_v2_replacement,
                        os_v3_replacement: entry.os_v3_replacement,
                        os_replacement_has_group,
                        os_v1_replacement_has_group,
                        os_v2_replacement_has_group,
                        os_v3_replacement_has_group,
                    },
                )
            },
            Err(e) => Err(Error::Regex(e)),
        }
    }

    /// What compiling `entry` may give: a matcher that holds the prepared
    /// pattern, compiled under the size limit, and the templates of the
    /// entry; or the error of the pattern.
    pub open spec fn compiled_from(r: Result<Matcher, Error>, entry: OSParserEntry) -> bool {
        match r {
            Ok(m) => compiled_as(
                Ok(m.regex),
                entry.regex@,
                opt_text(entry.regex_flag),
            ) && m.configured_by(entry),
            Err(Error::Regex(e)) => compiled_as(
                Err(e),
                entry.regex@,
                opt_text(entry.regex_flag),
            ),
        }
    }

    /// Compiles `entry`. Whether the pattern compiles is for the pattern
    /// engine to say.
    pub fn try_from(entry: OSParserEntry) -> (r: Result<Matcher, Error>)
        ensures
            Matcher::compiled_from(r, entry),
    {
        let compiled = compile(entry.regex.as_str(), &entry.regex_flag);
        Matcher::from_compiled(compiled, entry)
    }

    /// The operating system that the rule makes of a match.
    pub fn parse_captures(&self, captures: &CaptureSet) -> (r: Option<OS>)
        requires
            captures.wf(),
        ensures
            opt_view(r) == self.outcome(captures@),
            r matches Some(d) ==> d@.family.len() > 0 && d@.normalized(),
    {
        match extract_field(&self.os_replacement, self.os_replacement_has_group, captures, Some(1)) {
            Some(family) => {
                let major = extract_field(
                    &self.os_v1_replacement,
                    self.os_v1_replacement_has_group,
                    captures,
                    Some(2),
                );
                let minor = extract_field(
                    &self.os_v2_replacement,
                    self.os_v2_replacement_has_group,
                    captures,
                    Some(3),
                );
                let patch = extract_field(
                    &self.os_v3_replacement,
                    self.os_v3_replacement_has_group,
                    captures,
                    Some(4),
                );
                let patch_minor = extract_field(&None, false, captures, Some(5));
                Some(OS { family, major, minor, patch, patch_minor })
            },
            None => None,
        }
    }

    /// Applies the rule to `text`.
    pub fn try_parse(&self, text: &str) -> (r: Option<OS>)
        ensures
            opt_view(r) == self.parsed(text@),
            r matches Some(d) ==> d@.family.len() > 0 && d@.normalized(),
    {
        match CaptureSet::find(&self.regex, text) {
            Some(captures) => self.parse_captures(&captures),
            None => None,
        }
    }
}

} // verus!
