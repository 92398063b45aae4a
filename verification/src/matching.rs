//! Compiled patterns and the capture groups of their first match.

use vstd::prelude::*;
use crate::text::opt_text;

verus! {

/// The compiled form of a pattern as the `regex` crate holds it. Nothing
/// inside it is visible here.
#[verifier::external_type_specification]
#[verifier::external_body]
pub struct ExRegex(regex::Regex);

/// What went wrong in compiling a pattern.
#[derive(Clone, Debug, PartialEq, Eq)]
pub enum PatternFailure {
    /// The pattern is no valid regular expression; the message says why.
    Syntax(String),
    /// The compiled pattern is larger than the size limit, which is given.
    CompiledTooBig(usize),
    /// Another failure, with its message.
    Other(String),
}

/// Why a pattern could not be compiled: the text that was handed to the
/// pattern engine, and what went wrong with it.
#[derive(Clone, Debug, PartialEq, Eq)]
pub struct PatternError {
    pub pattern: String,
    pub failure: PatternFailure,
}

/// The groups of the first match of the pattern with the source text
/// `pattern` in `text`, or `None` where the pattern matches nowhere. Group 0
/// is the whole match; a group that took no part in the match is `None`.
pub uninterp spec fn captured(pattern: Seq<char>, text: Seq<char>) -> Option<Seq<Option<Seq<char>>>>;

/// The expansion of `template` against the first match of the pattern with
/// the source text `pattern` in `text`: each back-reference in the template
/// stands replaced by the text of the group it refers to.
pub uninterp spec fn expansion(pattern: Seq<char>, text: Seq<char>, template: Seq<char>) -> Seq<char>;

/// A pattern compiled from its source text under a size limit. Values are
/// made by compiling only, so that the source text determines what the
/// pattern matches.
#[derive(Debug)]
pub struct CompiledPattern {
    source: String,
    size_limit: usize,
    regex: regex::Regex,
}

impl CompiledPattern {
    /// The size limit, in bytes, that the pattern was compiled under.
    pub closed spec fn spec_size_limit(&self) -> usize {
        self.size_limit
    }

    /// The size limit, in bytes, that the pattern was compiled under.
    #[verifier::when_used_as_spec(spec_size_limit)]
    pub fn size_limit(&self) -> (n: usize)
        ensures
            n == self.size_limit(),
    {
        self.size_limit
    }
}

impl View for CompiledPattern {
    type V = Seq<char>;

    /// The source text that the pattern was compiled from.
    closed spec fn view(&self) -> Seq<char> {
        self.source@
    }
}

/// The texts of a list of optional strings.
pub open spec fn group_texts(groups: Seq<Option<String>>) -> Seq<Option<Seq<char>>> {
    groups.map_values(|g: Option<String>| opt_text(g))
}

/// Trusted: `regex::RegexBuilder::new`, `size_limit` and `build`. The
/// builder keeps its default configuration but for the size limit, which is
/// the one given; so a pattern that compiles is the one that `pattern`
/// describes, compiled under that limit, and an error for size names that
/// limit. Nothing is claimed of which patterns compile.
#[verifier::external_body]
pub(crate) fn build_regex(pattern: &str, size_limit: usize) -> (r: Result<
    CompiledPattern,
    PatternFailure,
>)
    ensures
        r matches Ok(p) ==> p@ == pattern@ && p.size_limit() == size_limit,
        r matches Err(PatternFailure::CompiledTooBig(n)) ==> n == size_limit,
{
    match regex::RegexBuilder::new(pattern).size_limit(size_limit).build() {
        Ok(regex) => Ok(CompiledPattern { source: pattern.to_owned(), size_limit, regex }),
        Err(regex::Error::Syntax(message)) => Err(PatternFailure::Syntax(message)),
        Err(regex::Error::CompiledTooBig(limit)) => Err(PatternFailure::CompiledTooBig(limit)),
        Err(other) => Err(PatternFailure::Other(other.to_string())),
    }
}

/// Trusted: `regex::Regex::captures`, with `Captures::len`, `Captures::get`
/// and `Match::as_str` to copy the groups out. The result is the groups of
/// the first match, one entry for each group of the pattern.
#[verifier::external_body]
pub(crate) fn first_match(pattern: &CompiledPattern, text: &str) -> (r: Option<Vec<Option<String>>>)
    ensures
        match r {
            Some(groups) => captured(pattern@, text@) == Some(group_texts(groups@)),
            None => captured(pattern@, text@) is None,
        },
{
    pattern.regex.captures(text).map(
        |caps| (0..caps.len()).map(|i| caps.get(i).map(|m| m.as_str().to_owned())).collect(),
    )
}

/// Trusted: `regex::Captures::expand` on the result of
/// `regex::Regex::captures`. There is an expansion exactly where there is a
/// match, and it is the one that the pattern, the text and the template
/// determine.
#[verifier::external_body]
pub(crate) fn expand_first_match(pattern: &CompiledPattern, text: &str, template: &str) -> (r:
    Option<String>)
    ensures
        r is Some <==> captured(pattern@, text@) is Some,
        r matches Some(s) ==> s@ == expansion(pattern@, text@, template@),
{
    pattern.regex.captures(text).map(
        |caps|
            {
                let mut out = String::new();
                caps.expand(template, &mut out);
                out
            },
    )
}

/// What a capture set stands for: the source text of the pattern, the text
/// that was searched, and the groups of the first match.
pub ghost struct Captured {
    pub pattern: Seq<char>,
    pub text: Seq<char>,
    pub groups: Seq<Option<Seq<char>>>,
}

/// Group `i` of `groups`: absent where there is no such group or where it
/// took no part in the match.
pub open spec fn group_text(groups: Seq<Option<Seq<char>>>, i: int) -> Option<Seq<char>> {
    if 0 <= i < groups.len() {
        groups[i]
    } else {
        None
    }
}

/// The capture groups of the first match of a pattern in a text, with the
/// pattern and the text, against which templates are expanded.
pub struct CaptureSet<'a> {
    pattern: &'a CompiledPattern,
    text: &'a str,
    groups: Vec<Option<String>>,
}

impl<'a> View for CaptureSet<'a> {
    type V = Captured;

    closed spec fn view(&self) -> Captured {
        Captured {
            pattern: self.pattern@,
            text: self.text@,
            groups: group_texts(self.groups@),
        }
    }
}

impl<'a> CaptureSet<'a> {
    /// The groups are those of the first match of the pattern in the text.
    pub open spec fn wf(&self) -> bool {
        captured(self@.pattern, self@.text) == Some(self@.groups)
    }

    /// Searches `text` for the first match of `pattern`.
    pub fn find(pattern: &'a CompiledPattern, text: &'a str) -> (r: Option<CaptureSet<'a>>)
        ensures
            match r {
                Some(c) => c.wf() && c@.pattern == pattern@ && c@.text == text@,
                None => captured(pattern@, text@) is None,
            },
    {
        match first_match(pattern, text) {
            Some(groups) => Some(CaptureSet { pattern, text, groups }),
            None => None,
        }
    }

    /// The number of groups, the whole match included.
    pub fn len(&self) -> (n: usize)
        ensures
            n == self@.groups.len(),
    {
        self.groups.len()
    }

    /// The text of group `i`.
    pub fn get(&self, i: usize) -> (r: Option<String>)
        ensures
            opt_text(r) == group_text(self@.groups, i as int),
    {
        if i < self.groups.len() {
            match &self.groups[i] {
                Some(s) => Some(s.clone()),
                None => None,
            }
        } else {
            None
        }
    }

    /// The expansion of `template` against this match.
    pub fn expand(&self, template: &str) -> (r: String)
        requires
            self.wf(),
        ensures
            r@ == expansion(self@.pattern, self@.text, template@),
    {
        match expand_first_match(self.pattern, self.text, template) {
            Some(s) => s,
            None => String::new(),
        }
    }
}

} // verus!
