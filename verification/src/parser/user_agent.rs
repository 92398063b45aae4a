//! The matcher of one agent rule.

use vstd::prelude::*;
use crate::file::UserAgentParserEntry;
use crate::matching::{captured, CaptureSet, Captured, CompiledPattern, PatternError};
use crate::parser::{
    compile, compiled_as, extract_field, field_value, refers_to_group, template_has_group,
};
use crate::text::opt_text;
use crate::user_agent::{opt_view, UserAgent, UserAgentText};

verus! {

/// Why an agent rule could not be compiled.
#[derive(Debug)]
pub enum Error {
    Regex(PatternError),
}

/// One compiled agent rule: the pattern, and for the family and the three
/// version fields the template and whether it refers to a capture group.
#[derive(Debug)]
pub struct Matcher {
    pub regex: CompiledPattern,
    pub family_replacement_has_group: bool,
    pub v1_replacement_has_group: bool,
    pub v2_replacement_has_group: bool,
    pub v3_replacement_has_group: bool,
    pub family_replacement: Option<String>,
    pub v1_replacement: Option<String>,
    pub v2_replacement: Option<String>,
    pub v3_replacement: Option<String>,
}

impl Matcher {
    /// The templates are those of `entry`, each flagged by whether it holds
    /// the back-reference sigil.
    pub open spec fn configured_by(self, entry: UserAgentParserEntry) -> bool {
        &&& self.family_replacement == entry.family_replacement
        &&& self.v1_replacement == entry.v1_replacement
        &&& self.v2_replacement == entry.v2_replacement
        &&& self.v3_replacement == entry.v3_replacement
        &&& self.family_replacement_has_group == refers_to_group(entry.family_replacement)
        &&& self.v1_replacement_has_group == refers_to_group(entry.v1_replacement)
        &&& self.v2_replacement_has_group == refers_to_group(entry.v2_replacement)
        &&& self.v3_replacement_has_group == refers_to_group(entry.v3_replacement)
    }

    /// What the rule makes of a match: the family from its template, else
    /// from group 1, and no agent where that is empty; the version fields
    /// from their templates, else from groups 2 to 4.
    pub open spec fn outcome(self, captures: Captured) -> Option<UserAgentText> {
        match field_value(
            opt_text(self.family_replacement),
            self.family_replacement_has_group,
            captures,
            Some(1),
        ) {
            Some(family) => Some(
                UserAgentText {
                    family,
                    major: field_value(
                        opt_text(self.v1_replacement),
                        self.v1_replacement_has_group,
                        captures,
                        Some(2),
                    ),
                    minor: field_value(
                        opt_text(self.v2_replacement),
                        self.v2_replacement_has_group,
                        captures,
                        Some(3),
                    ),
                    patch: field_value(
                        opt_text(self.v3_replacement),
                        self.v3_replacement_has_group,
                        captures,
                        Some(4),
                    ),
                },
            ),
            None => None,
        }
    }

    /// What the rule makes of `text`: nothing where the pattern does not
    /// match, else the outcome of its first match.
    pub open spec fn parsed(self, text: Seq<char>) -> Option<UserAgentText> {
        match captured(self.regex@, text) {
            Some(groups) => self.outcome(Captured { pattern: self.regex@, text, groups }),
            None => None,
        }
    }

    /// The matcher of `entry`, given what compiling its pattern gave.
    pub fn from_compiled(
        compiled: Result<CompiledPattern, PatternError>,
        entry: UserAgentParserEntry,
    ) -> (r: Result<Matcher, Error>)
        ensures
            match compiled {
                Ok(p) => r matches Ok(m) && m.regex == p && m.configured_by(entry),
                Err(e) => r matches Err(Error::Regex(f)) && f == e,
            },
    {
        match compiled {
            Ok(regex) => {
                let family_replacement_has_group = template_has_group(&entry.family_replacement);
                let v1_replacement_has_group = template_has_group(&entry.v1_replacement);
                let v2_replacement_has_group = template_has_group(&entry.v2_replacement);
                let v3_replacement_has_group = template_has_group(&entry.v3_replacement);
                Ok(
                    Matcher {
                        regex,
                        family_replacement_has_group,
                        v1_replacement_has_group,
                        v2_replacement_has_group,
                        v3_replacement_has_group,
                        family_replacement: entry.family_replacement,
                        v1_replacement: entry.v1_replacement,
                        v2_replacement: entry.v2_replacement,
                        v3_replacement: entry.v3_replacement,
                    },
                )
            },
            Err(e) => Err(Error::Regex(e)),
        }
    }

    /// What compiling `entry` may give: a matcher that holds the prepared
    /// pattern, compiled under the size limit, and the templates of the
    /// entry; or the error of the pattern.
    pub open spec fn compiled_from(r: Result<Matcher, Error>, entry: UserAgentParserEntry) -> bool {
        match r {
            Ok(m) => compiled_as(
                Ok(m.regex),
                entry.regex@,
                opt_text(entry.regex_flag),
            ) && m.configured_by(entry),
            Err(Error::Regex(e)) => compiled_as(
                Err(e),
                entry.regex@,
                opt_text(entry.regex_flag),
            ),
        }
    }

    /// Compiles `entry`. Whether the pattern compiles is for the pattern
    /// engine to say.
    pub fn try_from(entry: UserAgentParserEntry) -> (r: Result<Matcher, Error>)
        ensures
            Matcher::compiled_from(r, entry),
    {
        let compiled = compile(entry.regex.as_str(), &entry.regex_flag);
        Matcher::from_compiled(compiled, entry)
    }

    /// The agent that the rule makes of a match.
    pub fn parse_captures(&self, captures: &CaptureSet) -> (r: Option<UserAgent>)
        requires
            captures.wf(),
        ensures
            opt_view(r) == self.outcome(captures@),
            r matches Some(d) ==> d@.family.len() > 0 && d@.normalized(),
    {
        match extract_field(
            &self.family_replacement,
            self.family_replacement_has_group,
            captures,
            Some(1),
        ) {
            Some(family) => {
                let major = extract_field(
                    &self.v1_replacement,
                    self.v1_replacement_has_group,
                    captures,
                    Some(2),
                );
                let minor = extract_field(
                    &self.v2_replacement,
                    self.v2_replacement_has_group,
                    captures,
                    Some(3),
                );
                let patch = extract_field(
                    &self.v3_replacement,
                    self.v3_replacement_has_group,
                    captures,
                    Some(4),
                );
                Some(UserAgent { family, major, minor, patch })
            },
            None => None,
        }
    }

    /// Applies the rule to `text`.
    pub fn try_parse(&self, text: &str) -> (r: Option<UserAgent>)
        ensures
            opt_view(r) == self.parsed(text@),
            r matches Some(d) ==> d@.family.len() > 0 && d@.normalized(),
    {
        match CaptureSet::find(&self.regex, text) {
            Some(captures) => self.parse_captures(&captures),
            None => None,
        }
    }
}

} // verus!
