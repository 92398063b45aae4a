//! Compiling rules into matchers and classifying texts with them.

pub mod device;
pub mod os;
pub mod user_agent;

use vstd::prelude::*;
use vstd::string::*;
use crate::client::{Client, ClientText};
use crate::device::{Device, DeviceText};
use crate::escapes::repaired;
use crate::file::{DeviceParserEntry, OSParserEntry, RegexFile, UserAgentParserEntry};
use crate::os::{OSText, OS};
use crate::user_agent::{UserAgent, UserAgentText};
use crate::matching::{
    build_regex, expansion, group_text, CaptureSet, Captured, CompiledPattern, PatternError,
    PatternFailure,
};
use crate::text::{opt_text, trim, trimmed};

verus! {

/// The ceiling on the size of a compiled pattern, in bytes: 20 MiB.
pub const SIZE_LIMIT: usize = 20971520;

/// A text that is not empty, or nothing.
pub open spec fn non_empty(o: Option<Seq<char>>) -> Option<Seq<char>> {
    match o {
        Some(s) => if s.len() > 0 {
            Some(s)
        } else {
            None
        },
        None => None,
    }
}

/// `s`, unless it is empty.
pub fn none_if_empty(s: String) -> (r: Option<String>)
    ensures
        r == if s@.len() == 0 {
            None
        } else {
            Some(s)
        },
{
    if s.as_str().is_empty() {
        None
    } else {
        Some(s)
    }
}

/// Whether `replacement` holds the back-reference sigil `$`.
pub fn has_group(replacement: &str) -> (r: bool)
    ensures
        r == replacement@.contains('$'),
{
    for c in it: replacement.chars()
        invariant
            it.seq() == replacement@,
            forall|k: int| 0 <= k < it.index() ==> replacement@[k] != '$',
    {
        if c == '$' {
            return true;
        }
    }
    false
}

/// Whether a template is configured and holds the back-reference sigil.
pub open spec fn refers_to_group(template: Option<String>) -> bool {
    match template {
        Some(t) => t@.contains('$'),
        None => false,
    }
}

/// Whether `template` is configured and holds the back-reference sigil.
pub fn template_has_group(template: &Option<String>) -> (r: bool)
    ensures
        r == refers_to_group(*template),
{
    match template {
        Some(t) => has_group(t.as_str()),
        None => false,
    }
}

/// What a template resolves to against a capture set: with a back-reference
/// and a match to refer to, its expansion without the whitespace around it;
/// else the template itself.
pub open spec fn resolved(template: Seq<char>, has_group: bool, captures: Captured) -> Seq<char> {
    if has_group && captures.groups.len() > 0 {
        trimmed(expansion(captures.pattern, captures.text, template))
    } else {
        template
    }
}

/// The resolved text of a template, given its expansion where one was made:
/// the expansion trimmed, else the template as it stands.
pub fn resolve_expanded(replacement: &str, expanded: Option<String>) -> (r: String)
    ensures
        r@ == match expanded {
            Some(e) => trimmed(e@),
            None => replacement@,
        },
{
    match expanded {
        Some(e) => trim(e.as_str()).to_owned(),
        None => replacement.to_owned(),
    }
}

/// Resolves a template against a capture set.
pub fn replace_cow(replacement: &str, replacement_has_group: bool, captures: &CaptureSet) -> (r:
    String)
    requires
        captures.wf(),
    ensures
        r@ == resolved(replacement@, replacement_has_group, captures@),
{
    let expanded = if replacement_has_group && captures.len() > 0 {
        Some(captures.expand(replacement))
    } else {
        None
    };
    resolve_expanded(replacement, expanded)
}

/// The value of one output field: the template resolved where one is
/// configured, else the group that the field falls back to, if it has one;
/// and nothing where that text is empty.
pub open spec fn field_value(
    template: Option<Seq<char>>,
    has_group: bool,
    captures: Captured,
    group: Option<int>,
) -> Option<Seq<char>> {
    match template {
        Some(t) => non_empty(Some(resolved(t, has_group, captures))),
        None => match group {
            Some(i) => non_empty(group_text(captures.groups, i)),
            None => None,
        },
    }
}

/// Computes one output field from its template, or from the group that it
/// falls back to.
pub fn extract_field(
    template: &Option<String>,
    has_group: bool,
    captures: &CaptureSet,
    group: Option<usize>,
) -> (r: Option<String>)
    requires
        captures.wf(),
    ensures
        opt_text(r) == field_value(
            opt_text(*template),
            has_group,
            captures@,
            match group {
                Some(i) => Some(i as int),
                None => None,
            },
        ),
{
    match template {
        Some(t) => none_if_empty(replace_cow(t.as_str(), has_group, captures)),
        None => match group {
            Some(i) => match captures.get(i) {
                Some(s) => none_if_empty(s),
                None => None,
            },
            None => None,
        },
    }
}

/// The text that is compiled for a rule: the pattern, behind its flags in
/// inline syntax where it has any, with its needless escapes repaired.
pub open spec fn prepared(regex: Seq<char>, flag: Option<Seq<char>>) -> Seq<char> {
    match non_empty(flag) {
        Some(f) => repaired(seq!['(', '?'] + f + seq![')'] + regex),
        None => repaired(regex),
    }
}

/// The text that is compiled for a rule.
pub fn prepare_pattern(regex: &str, flag: &Option<String>) -> (r: String)
    ensures
        r@ == prepared(regex@, opt_text(*flag)),
{
    match flag {
        Some(f) => {
            if f.as_str().is_empty() {
                crate::escapes::clean_escapes(regex)
            } else {
                proof {
                    reveal_strlit("(?");
                    reveal_strlit(")");
                }
                let mut with_flags = String::from_str("(?");
                with_flags.append(f.as_str());
                with_flags.append(")");
                with_flags.append(regex);
                assert(with_flags@ =~= seq!['(', '?'] + f@ + seq![')'] + regex@);
                crate::escapes::clean_escapes(with_flags.as_str())
            }
        },
        None => crate::escapes::clean_escapes(regex),
    }
}

/// What compiling the pattern of a rule may give: the prepared text,
/// compiled under the size limit; or an error that names the prepared text
/// and, where the size was the cause, that limit.
pub open spec fn compiled_as(
    r: Result<CompiledPattern, PatternError>,
    regex: Seq<char>,
    flag: Option<Seq<char>>,
) -> bool {
    match r {
        Ok(p) => p@ == prepared(regex, flag) && p.size_limit() == SIZE_LIMIT,
        Err(e) => e.pattern@ == prepared(regex, flag) && (e.failure matches PatternFailure::CompiledTooBig(n)
            ==> n == SIZE_LIMIT),
    }
}

/// Compiles the pattern of a rule, prepared, under the size limit of 20 MiB.
/// Whether a pattern compiles is for the pattern engine to say; the error of
/// one that does not names the text that was refused.
pub fn compile(regex: &str, flag: &Option<String>) -> (r: Result<CompiledPattern, PatternError>)
    ensures
        compiled_as(r, regex@, opt_text(*flag)),
{
    let source = prepare_pattern(regex, flag);
    match build_regex(source.as_str(), SIZE_LIMIT) {
        Ok(pattern) => Ok(pattern),
        Err(failure) => Err(PatternError { pattern: source, failure }),
    }
}

/// The first error of a list of results, in the order of the list.
pub open spec fn first_error<T, E>(results: Seq<Result<T, E>>) -> Option<E>
    decreases results.len(),
{
    if results.len() == 0 {
        None
    } else {
        match results[0] {
            Err(e) => Some(e),
            Ok(_) => first_error(results.drop_first()),
        }
    }
}

/// Every result is a success, and `values` holds what they hold, in order.
pub open spec fn all_ok<T, E>(values: Seq<T>, results: Seq<Result<T, E>>) -> bool {
    &&& values.len() == results.len()
    &&& forall|i: int| 0 <= i < results.len() ==> #[trigger] results[i] == Ok::<T, E>(values[i])
}

/// The first error of a list is an error of the list with none before it;
/// a list without a first error holds successes only.
pub proof fn lemma_first_error_is_first<T, E>(results: Seq<Result<T, E>>)
    ensures
        match first_error(results) {
            Some(e) => exists|i: int|
                0 <= i < results.len() && #[trigger] results[i] == Err::<T, E>(e) && forall|k: int|
                    0 <= k < i ==> (#[trigger] results[k]) is Ok,
            None => forall|i: int| 0 <= i < results.len() ==> (#[trigger] results[i]) is Ok,
        },
    decreases results.len(),
{
    if results.len() > 0 {
        let rest = results.drop_first();
        lemma_first_error_is_first(rest);
        match results[0] {
            Err(e) => {
                assert(results[0] == Err::<T, E>(e));
            },
            Ok(_) => {
                match first_error(rest) {
                    Some(e) => {
                        let j = choose|j: int|
                            0 <= j < rest.len() && #[trigger] rest[j] == Err::<T, E>(e) && forall|
                                k: int,
                            |
                                0 <= k < j ==> (#[trigger] rest[k]) is Ok;
                        assert(results[j + 1] == rest[j]);
                        assert forall|k: int| 0 <= k < j + 1 implies (#[trigger] results[k]) is Ok by {
                            if k > 0 {
                                assert(results[k] == rest[k - 1]);
                            }
                        }
                    },
                    None => {
                        assert forall|i: int| 0 <= i < results.len() implies (
                        #[trigger] results[i]) is Ok by {
                            if i > 0 {
                                assert(results[i] == rest[i - 1]);
                            }
                        }
                    },
                }
            },
        }
    }
}

/// The values of a list of results, in order, or its first error.
pub fn collect_results<T, E>(results: Vec<Result<T, E>>) -> (r: Result<Vec<T>, E>)
    ensures
        match first_error(results@) {
            Some(e) => r == Err::<Vec<T>, E>(e),
            None => r matches Ok(values) && all_ok(values@, results@),
        },
{
    let mut values: Vec<T> = Vec::with_capacity(results.len());
    assert(results@.skip(0) =~= results@);
    for result in it: results
        invariant
            it.seq() == results@,
            values@.len() == it.index(),
            first_error(results@) == first_error(results@.skip(it.index() as int)),
            forall|i: int| 0 <= i < it.index() ==> #[trigger] results@[i] == Ok::<T, E>(values@[i]),
    {
        proof {
            assert(results@.skip(it.index() as int).drop_first() =~= results@.skip(
                it.index() + 1,
            ));
            assert(results@.skip(it.index() as int)[0] == result);
        }
        match result {
            Ok(value) => {
                values.push(value);
            },
            Err(e) => {
                return Err(e);
            },
        }
    }
    Ok(values)
}

/// Whether a list of results holds an error.
pub fn has_error<T, E>(results: &Vec<Result<T, E>>) -> (r: bool)
    ensures
        r == first_error(results@) is Some,
{
    let mut i: usize = 0;
    assert(results@.skip(0) =~= results@);
    while i < results.len()
        invariant
            i <= results.len(),
            first_error(results@) == first_error(results@.skip(i as int)),
        decreases results.len() - i,
    {
        proof {
            assert(results@.skip(i as int).drop_first() =~= results@.skip(i + 1));
            assert(results@.skip(i as int)[0] == results@[i as int]);
        }
        if results[i].is_err() {
            return true;
        }
        i = i + 1;
    }
    false
}

/// The first outcome that is something, in the order of the list.
pub open spec fn first_some<T>(outcomes: Seq<Option<T>>) -> Option<T>
    decreases outcomes.len(),
{
    if outcomes.len() == 0 {
        None
    } else if outcomes[0] is Some {
        outcomes[0]
    } else {
        first_some(outcomes.drop_first())
    }
}

/// Why a parser could not be compiled: the category of the first rule that
/// failed, and its error.
#[derive(Debug)]
pub enum Error {
    Device(device::Error),
    OS(os::Error),
    UserAgent(user_agent::Error),
}

/// The compiled rules of the three categories, each list in the order in
/// which its rules are tried.
#[derive(Debug)]
pub struct UserAgentParser {
    pub device_matchers: Vec<device::Matcher>,
    pub os_matchers: Vec<os::Matcher>,
    pub user_agent_matchers: Vec<user_agent::Matcher>,
}

/// A list with one more result has the first error of the list, or else
/// the error of that result.
pub proof fn lemma_first_error_of_push<T, E>(results: Seq<Result<T, E>>, last: Result<T, E>)
    ensures
        first_error(results.push(last)) == match first_error(results) {
            Some(e) => Some(e),
            None => match last {
                Err(e) => Some(e),
                Ok(_) => None,
            },
        },
    decreases results.len(),
{
    if results.len() == 0 {
        assert(results.push(last).drop_first() =~= results);
    } else {
        assert(results.push(last).drop_first() =~= results.drop_first().push(last));
        lemma_first_error_of_push(results.drop_first(), last);
    }
}

/// Each matcher is the rule at its place in `entries`, compiled under the
/// size limit.
pub open spec fn devices_built(matchers: Seq<device::Matcher>, entries: Seq<DeviceParserEntry>) -> bool {
    &&& matchers.len() == entries.len()
    &&& forall|i: int|
        0 <= i < matchers.len() ==> device::Matcher::compiled_from(
            Ok(#[trigger] matchers[i]),
            entries[i],
        )
}

/// What compiling `entries` in order, up to the first failure, may give:
/// one result for each rule that was compiled, a failure only as the last
/// of them, and no rule left out unless the one before it failed.
pub open spec fn devices_compiled(
    results: Seq<Result<device::Matcher, device::Error>>,
    entries: Seq<DeviceParserEntry>,
) -> bool {
    &&& results.len() <= entries.len()
    &&& forall|i: int|
        0 <= i < results.len() ==> device::Matcher::compiled_from(
            #[trigger] results[i],
            entries[i],
        )
    &&& forall|i: int| 0 <= i < results.len() - 1 ==> (#[trigger] results[i]) is Ok
    &&& results.len() < entries.len() ==> first_error(results) is Some
}

/// Compiles device rules in order, up to and with the first that fails.
pub fn compile_devices(entries: Vec<DeviceParserEntry>) -> (r: Vec<Result<device::Matcher, device::Error>>)
    ensures
        devices_compiled(r@, entries@),
{
    let mut results: Vec<Result<device::Matcher, device::Error>> = Vec::with_capacity(
        entries.len(),
    );
    for entry in it: entries
        invariant
            it.seq() == entries@,
            results@.len() == it.index(),
            first_error(results@) is None,
            forall|i: int|
                0 <= i < results@.len() ==> device::Matcher::compiled_from(
                    #[trigger] results@[i],
                    entries@[i],
                ),
    {
        let result = device::Matcher::try_from(entry);
        let failed = result.is_err();
        proof {
            lemma_first_error_of_push(results@, result);
            lemma_first_error_is_first(results@);
        }
        results.push(result);
        if failed {
            return results;
        }
    }
    proof {
        lemma_first_error_is_first(results@);
    }
    results
}

/// Each matcher is the rule at its place in `entries`, compiled under the
/// size limit.
pub open spec fn systems_built(matchers: Seq<os::Matcher>, entries: Seq<OSParserEntry>) -> bool {
    &&& matchers.len() == entries.len()
    &&& forall|i: int|
        0 <= i < matchers.len() ==> os::Matcher::compiled_from(
            Ok(#[trigger] matchers[i]),
            entries[i],
        )
}

/// What compiling `entries` in order, up to the first failure, may give:
/// one result for each rule that was compiled, a failure only as the last
/// of them, and no rule left out unless the one before it failed.
pub open spec fn systems_compiled(
    results: Seq<Result<os::Matcher, os::Error>>,
    entries: Seq<OSParserEntry>,
) -> bool {
    &&& results.len() <= entries.len()
    &&& forall|i: int|
        0 <= i < results.len() ==> os::Matcher::compiled_from(
            #[trigger] results[i],
            entries[i],
        )
    &&& forall|i: int| 0 <= i < results.len() - 1 ==> (#[trigger] results[i]) is Ok
    &&& results.len() < entries.len() ==> first_error(results) is Some
}

/// Compiles operating-system rules in order, up to and with the first that fails.
pub fn compile_systems(entries: Vec<OSParserEntry>) -> (r: Vec<Result<os::Matcher, os::Error>>)
    ensures
        systems_compiled(r@, entries@),
{
    let mut results: Vec<Result<os::Matcher, os::Error>> = Vec::with_capacity(
        entries.len(),
    );
    for entry in it: entries
        invariant
            it.seq() == entries@,
            results@.len() == it.index(),
            first_error(results@) is None,
            forall|i: int|
                0 <= i < results@.len() ==> os::Matcher::compiled_from(
                    #[trigger] results@[i],
                    entries@[i],
                ),
    {
        let result = os::Matcher::try_from(entry);
        let failed = result.is_err();
        proof {
            lemma_first_error_of_push(results@, result);
            lemma_first_error_is_first(results@);
        }
        results.push(result);
        if failed {
            return results;
        }
    }
    proof {
        lemma_first_error_is_first(results@);
    }
    results
}

/// Each matcher is the rule at its place in `entries`, compiled under the
/// size limit.
pub open spec fn agents_built(matchers: Seq<user_agent::Matcher>, entries: Seq<UserAgentParserEntry>) -> bool {
    &&& matchers.len() == entries.len()
    &&& forall|i: int|
        0 <= i < matchers.len() ==> user_agent::Matcher::compiled_from(
            Ok(#[trigger] matchers[i]),
            entries[i],
        )
}

/// What compiling `entries` in order, up to the first failure, may give:
/// one result for each rule that was compiled, a failure only as the last
/// of them, and no rule left out unless the one before it failed.
pub open spec fn agents_compiled(
    results: Seq<Result<user_agent::Matcher, user_agent::Error>>,
    entries: Seq<UserAgentParserEntry>,
) -> bool {
    &&& results.len() <= entries.len()
    &&& forall|i: int|
        0 <= i < results.len() ==> user_agent::Matcher::compiled_from(
            #[trigger] results[i],
            entries[i],
        )
    &&& forall|i: int| 0 <= i < results.len() - 1 ==> (#[trigger] results[i]) is Ok
    &&& results.len() < entries.len() ==> first_error(results) is Some
}

/// Compiles agent rules in order, up to and with the first that fails.
pub fn compile_agents(entries: Vec<UserAgentParserEntry>) -> (r: Vec<Result<user_agent::Matcher, user_agent::Error>>)
    ensures
        agents_compiled(r@, entries@),
{
    let mut results: Vec<Result<user_agent::Matcher, user_agent::Error>> = Vec::with_capacity(
        entries.len(),
    );
    for entry in it: entries
        invariant
            it.seq() == entries@,
            results@.len() == it.index(),
            first_error(results@) is None,
            forall|i: int|
                0 <= i < results@.len() ==> user_agent::Matcher::compiled_from(
                    #[trigger] results@[i],
                    entries@[i],
                ),
    {
        let result = user_agent::Matcher::try_from(entry);
        let failed = result.is_err();
        proof {
            lemma_first_error_of_push(results@, result);
            lemma_first_error_is_first(results@);
        }
        results.push(result);
        if failed {
            return results;
        }
    }
    proof {
        lemma_first_error_is_first(results@);
    }
    results
}

impl UserAgentParser {
    /// What each device rule makes of `text`, in the order of the rules.
    pub open spec fn device_outcomes(self, text: Seq<char>) -> Seq<Option<DeviceText>> {
        self.device_matchers@.map_values(|m: device::Matcher| m.parsed(text))
    }

    /// What each operating-system rule makes of `text`, in the order of the
    /// rules.
    pub open spec fn os_outcomes(self, text: Seq<char>) -> Seq<Option<OSText>> {
        self.os_matchers@.map_values(|m: os::Matcher| m.parsed(text))
    }

    /// What each agent rule makes of `text`, in the order of the rules.
    pub open spec fn user_agent_outcomes(self, text: Seq<char>) -> Seq<Option<UserAgentText>> {
        self.user_agent_matchers@.map_values(|m: user_agent::Matcher| m.parsed(text))
    }

    /// The device of `text`: that of the first rule that makes one.
    pub open spec fn device_of(self, text: Seq<char>) -> DeviceText {
        match first_some(self.device_outcomes(text)) {
            Some(d) => d,
            None => DeviceText::unclassified(),
        }
    }

    /// The operating system of `text`: that of the first rule that makes
    /// one.
    pub open spec fn os_of(self, text: Seq<char>) -> OSText {
        match first_some(self.os_outcomes(text)) {
            Some(d) => d,
            None => OSText::unclassified(),
        }
    }

    /// The agent of `text`: that of the first rule that makes one.
    pub open spec fn user_agent_of(self, text: Seq<char>) -> UserAgentText {
        match first_some(self.user_agent_outcomes(text)) {
            Some(d) => d,
            None => UserAgentText::unclassified(),
        }
    }

    /// The full description of `text`, each category by its own rules.
    pub open spec fn client_of(self, text: Seq<char>) -> ClientText {
        ClientText {
            device: self.device_of(text),
            os: self.os_of(text),
            user_agent: self.user_agent_of(text),
        }
    }

    /// The parser of three lists of compiled rules, or their first error:
    /// that of the devices before that of the operating systems, and that
    /// before that of the agents, each list in its own order.
    pub fn from_results(
        devices: Vec<Result<device::Matcher, device::Error>>,
        systems: Vec<Result<os::Matcher, os::Error>>,
        agents: Vec<Result<user_agent::Matcher, user_agent::Error>>,
    ) -> (r: Result<UserAgentParser, Error>)
        ensures
            match first_error(devices@) {
                Some(e) => r matches Err(Error::Device(f)) && f == e,
                None => match first_error(systems@) {
                    Some(e) => r matches Err(Error::OS(f)) && f == e,
                    None => match first_error(agents@) {
                        Some(e) => r matches Err(Error::UserAgent(f)) && f == e,
                        None => r matches Ok(p) && all_ok(p.device_matchers@, devices@) && all_ok(
                            p.os_matchers@,
                            systems@,
                        ) && all_ok(p.user_agent_matchers@, agents@),
                    },
                },
            },
    {
        let device_matchers = match collect_results(devices) {
            Ok(matchers) => matchers,
            Err(e) => {
                return Err(Error::Device(e));
            },
        };
        let os_matchers = match collect_results(systems) {
            Ok(matchers) => matchers,
            Err(e) => {
                return Err(Error::OS(e));
            },
        };
        let user_agent_matchers = match collect_results(agents) {
            Ok(matchers) => matchers,
            Err(e) => {
                return Err(Error::UserAgent(e));
            },
        };
        Ok(UserAgentParser { device_matchers, os_matchers, user_agent_matchers })
    }

    /// Compiles the rules of `regex_file`, devices first, then operating
    /// systems, then agents, up to the first rule that fails. Whether a rule
    /// compiles is for the pattern engine to say: a parser holds every rule
    /// at its place, compiled under the size limit, and an error names the
    /// category and the text of a rule of that category.
    pub fn try_from(regex_file: RegexFile) -> (r: Result<UserAgentParser, Error>)
        ensures
            r matches Ok(p) ==> devices_built(p.device_matchers@, regex_file.device_parsers@)
                && systems_built(p.os_matchers@, regex_file.os_parsers@) && agents_built(
                p.user_agent_matchers@,
                regex_file.user_agent_parsers@,
            ),
            regex_file.device_parsers@.len() == 0 && regex_file.os_parsers@.len() == 0
                && regex_file.user_agent_parsers@.len() == 0 ==> r is Ok,
            r matches Err(Error::Device(e)) ==> exists|i: int|
                0 <= i < regex_file.device_parsers@.len() && device::Matcher::compiled_from(
                    Err(e),
                    #[trigger] regex_file.device_parsers@[i],
                ),
            r matches Err(Error::OS(e)) ==> exists|i: int|
                0 <= i < regex_file.os_parsers@.len() && os::Matcher::compiled_from(
                    Err(e),
                    #[trigger] regex_file.os_parsers@[i],
                ),
            r matches Err(Error::UserAgent(e)) ==> exists|i: int|
                0 <= i < regex_file.user_agent_parsers@.len()
                    && user_agent::Matcher::compiled_from(
                    Err(e),
                    #[trigger] regex_file.user_agent_parsers@[i],
                ),
    {
        let devices = compile_devices(regex_file.device_parsers);
        let systems = if has_error(&devices) {
            Vec::new()
        } else {
            compile_systems(regex_file.os_parsers)
        };
        let agents = if has_error(&devices) || has_error(&systems) {
            Vec::new()
        } else {
            compile_agents(regex_file.user_agent_parsers)
        };
        let ghost compiled_devices = devices@;
        let ghost compiled_systems = systems@;
        let ghost compiled_agents = agents@;
        let r = UserAgentParser::from_results(devices, systems, agents);
        proof {
            lemma_first_error_is_first(compiled_devices);
            lemma_first_error_is_first(compiled_systems);
            lemma_first_error_is_first(compiled_agents);
            if r is Ok {
                let p = r->Ok_0;
                assert forall|i: int| 0 <= i < p.device_matchers@.len() implies device::Matcher::compiled_from(
                    Ok(#[trigger] p.device_matchers@[i]),
                    regex_file.device_parsers@[i],
                ) by {
                    assert(compiled_devices[i] == Ok::<device::Matcher, device::Error>(
                        p.device_matchers@[i],
                    ));
                }
                assert forall|i: int| 0 <= i < p.os_matchers@.len() implies os::Matcher::compiled_from(
                    Ok(#[trigger] p.os_matchers@[i]),
                    regex_file.os_parsers@[i],
                ) by {
                    assert(compiled_systems[i] == Ok::<os::Matcher, os::Error>(p.os_matchers@[i]));
                }
                assert forall|i: int| 0 <= i < p.user_agent_matchers@.len() implies user_agent::Matcher::compiled_from(
                    Ok(#[trigger] p.user_agent_matchers@[i]),
                    regex_file.user_agent_parsers@[i],
                ) by {
                    assert(compiled_agents[i] == Ok::<user_agent::Matcher, user_agent::Error>(
                        p.user_agent_matchers@[i],
                    ));
                }
            }
        }
        r
    }

    /// Classifies `user_agent` in all three categories.
    pub fn parse(&self, user_agent: &str) -> (r: Client)
        ensures
            r@ == self.client_of(user_agent@),
    {
        Client {
            device: self.parse_device(user_agent),
            os: self.parse_os(user_agent),
            user_agent: self.parse_user_agent(user_agent),
        }
    }

    /// The device of `user_agent`: that of the first rule, in order, that
    /// makes one; the unclassified device where none does.
    pub fn parse_device(&self, user_agent: &str) -> (r: Device)
        ensures
            r@ == self.device_of(user_agent@),
            r@.normalized(),
    {
        let ghost outcomes = self.device_outcomes(user_agent@);
        let mut i: usize = 0;
        assert(outcomes.skip(0) =~= outcomes);
        while i < self.device_matchers.len()
            invariant
                i <= self.device_matchers.len(),
                outcomes == self.device_outcomes(user_agent@),
                first_some(outcomes) == first_some(outcomes.skip(i as int)),
            decreases self.device_matchers.len() - i,
        {
            proof {
                assert(outcomes.skip(i as int).drop_first() =~= outcomes.skip(i + 1));
            }
            match self.device_matchers[i].try_parse(user_agent) {
                Some(found) => {
                    return found;
                },
                None => {},
            }
            i = i + 1;
        }
        Device::default()
    }

    /// The operating system of `user_agent`: that of the first rule, in
    /// order, that makes one; the unclassified system where none does.
    pub fn parse_os(&self, user_agent: &str) -> (r: OS)
        ensures
            r@ == self.os_of(user_agent@),
            r@.normalized(),
    {
        let ghost outcomes = self.os_outcomes(user_agent@);
        let mut i: usize = 0;
        assert(outcomes.skip(0) =~= outcomes);
        while i < self.os_matchers.len()
            invariant
                i <= self.os_matchers.len(),
                outcomes == self.os_outcomes(user_agent@),
                first_some(outcomes) == first_some(outcomes.skip(i as int)),
            decreases self.os_matchers.len() - i,
        {
            proof {
                assert(outcomes.skip(i as int).drop_first() =~= outcomes.skip(i + 1));
            }
            match self.os_matchers[i].try_parse(user_agent) {
                Some(found) => {
                    return found;
                },
                None => {},
            }
            i = i + 1;
        }
        OS::default()
    }

    /// The agent of `user_agent`: that of the first rule, in order, that
    /// makes one; the unclassified agent where none does.
    pub fn parse_user_agent(&self, user_agent: &str) -> (r: UserAgent)
        ensures
            r@ == self.user_agent_of(user_agent@),
            r@.normalized(),
    {
        let ghost outcomes = self.user_agent_outcomes(user_agent@);
        let mut i: usize = 0;
        assert(outcomes.skip(0) =~= outcomes);
        while i < self.user_agent_matchers.len()
            invariant
                i <= self.user_agent_matchers.len(),
                outcomes == self.user_agent_outcomes(user_agent@),
                first_some(outcomes) == first_some(outcomes.skip(i as int)),
            decreases self.user_agent_matchers.len() - i,
        {
            proof {
                assert(outcomes.skip(i as int).drop_first() =~= outcomes.skip(i + 1));
            }
            match self.user_agent_matchers[i].try_parse(user_agent) {
                Some(found) => {
                    return found;
                },
                None => {},
            }
            i = i + 1;
        }
        UserAgent::default()
    }
}

/// The first rule that makes something of a text decides: where rule `i`
/// does and none before it does, the outcome is that of rule `i`, whatever
/// the rules after it make.
pub proof fn lemma_first_match_decides<T>(outcomes: Seq<Option<T>>, i: int)
    requires
        0 <= i < outcomes.len(),
        outcomes[i] is Some,
        forall|k: int| 0 <= k < i ==> outcomes[k] is None,
    ensures
        first_some(outcomes) == outcomes[i],
    decreases i,
{
    if i > 0 {
        let rest = outcomes.drop_first();
        assert(outcomes[0] is None);
        assert(rest[i - 1] == outcomes[i]);
        assert forall|k: int| 0 <= k < i - 1 implies rest[k] is None by {
            assert(rest[k] == outcomes[k + 1]);
        }
        lemma_first_match_decides(rest, i - 1);
    }
}

/// Where no rule makes anything of a text, there is no outcome.
pub proof fn lemma_no_match_no_outcome<T>(outcomes: Seq<Option<T>>)
    requires
        forall|k: int| 0 <= k < outcomes.len() ==> outcomes[k] is None,
    ensures
        first_some(outcomes) is None,
    decreases outcomes.len(),
{
    if outcomes.len() > 0 {
        let rest = outcomes.drop_first();
        assert(outcomes[0] is None);
        assert forall|k: int| 0 <= k < rest.len() implies rest[k] is None by {
            assert(rest[k] == outcomes[k + 1]);
        }
        lemma_no_match_no_outcome(rest);
    }
}

/// Order matters: of two device rules that both make a device of `text`,
/// the parser that holds them in one order answers with the first, and the
/// parser that holds them in the other order answers with the second.
pub proof fn lemma_earlier_device_rule_wins(
    forward: UserAgentParser,
    backward: UserAgentParser,
    text: Seq<char>,
)
    requires
        forward.device_matchers@.len() == 2,
        backward.device_matchers@ == seq![forward.device_matchers@[1], forward.device_matchers@[0]],
        forward.device_matchers@[0].parsed(text) is Some,
        forward.device_matchers@[1].parsed(text) is Some,
    ensures
        Some(forward.device_of(text)) == forward.device_matchers@[0].parsed(text),
        Some(backward.device_of(text)) == forward.device_matchers@[1].parsed(text),
{
    lemma_first_match_decides(forward.device_outcomes(text), 0);
    lemma_first_match_decides(backward.device_outcomes(text), 0);
}

/// Order matters: of two operating-system rules that both make a system of
/// `text`, the parser that holds them in one order answers with the first,
/// and the parser that holds them in the other order answers with the
/// second.
pub proof fn lemma_earlier_os_rule_wins(
    forward: UserAgentParser,
    backward: UserAgentParser,
    text: Seq<char>,
)
    requires
        forward.os_matchers@.len() == 2,
        backward.os_matchers@ == seq![forward.os_matchers@[1], forward.os_matchers@[0]],
        forward.os_matchers@[0].parsed(text) is Some,
        forward.os_matchers@[1].parsed(text) is Some,
    ensures
        Some(forward.os_of(text)) == forward.os_matchers@[0].parsed(text),
        Some(backward.os_of(text)) == forward.os_matchers@[1].parsed(text),
{
    lemma_first_match_decides(forward.os_outcomes(text), 0);
    lemma_first_match_decides(backward.os_outcomes(text), 0);
}

/// Order matters: of two agent rules that both make an agent of `text`, the
/// parser that holds them in one order answers with the first, and the
/// parser that holds them in the other order answers with the second.
pub proof fn lemma_earlier_user_agent_rule_wins(
    forward: UserAgentParser,
    backward: UserAgentParser,
    text: Seq<char>,
)
    requires
        forward.user_agent_matchers@.len() == 2,
        backward.user_agent_matchers@ == seq![
            forward.user_agent_matchers@[1],
            forward.user_agent_matchers@[0],
        ],
        forward.user_agent_matchers@[0].parsed(text) is Some,
        forward.user_agent_matchers@[1].parsed(text) is Some,
    ensures
        Some(forward.user_agent_of(text)) == forward.user_agent_matchers@[0].parsed(text),
        Some(backward.user_agent_of(text)) == forward.user_agent_matchers@[1].parsed(text),
{
    lemma_first_match_decides(forward.user_agent_outcomes(text), 0);
    lemma_first_match_decides(backward.user_agent_outcomes(text), 0);
}

/// No field is ever an empty text: a field whose text resolves to nothing
/// is absent.
pub proof fn lemma_field_is_absent_or_not_empty(
    template: Option<Seq<char>>,
    has_group: bool,
    captures: Captured,
    group: Option<int>,
)
    ensures
        field_value(template, has_group, captures, group) matches Some(v) ==> v.len() > 0,
        template matches Some(t) ==> (resolved(t, has_group, captures).len() == 0 ==> field_value(
            template,
            has_group,
            captures,
            group,
        ) is None),
{
}

/// A rule whose family resolves to the empty text makes nothing of the
/// match, in each of the three categories.
pub proof fn lemma_empty_family_rejects_the_rule(
    device_rule: device::Matcher,
    os_rule: os::Matcher,
    user_agent_rule: user_agent::Matcher,
    captures: Captured,
)
    ensures
        field_value(
            opt_text(device_rule.device_replacement),
            device_rule.device_replacement_has_group,
            captures,
            Some(1),
        ) is None ==> device_rule.outcome(captures) is None,
        field_value(
            opt_text(os_rule.os_replacement),
            os_rule.os_replacement_has_group,
            captures,
            Some(1),
        ) is None ==> os_rule.outcome(captures) is None,
        field_value(
            opt_text(user_agent_rule.family_replacement),
            user_agent_rule.family_replacement_has_group,
            captures,
            Some(1),
        ) is None ==> user_agent_rule.outcome(captures) is None,
{
}

/// A configured template decides its field alone: the group that the field
/// would fall back to, and what it captured, change nothing, also where the
/// template resolves to the empty text and the field is absent.
pub proof fn lemma_template_wins_over_group(
    template: Seq<char>,
    has_group: bool,
    captures: Captured,
    group: Option<int>,
)
    ensures
        field_value(Some(template), has_group, captures, group) == non_empty(
            Some(resolved(template, has_group, captures)),
        ),
        field_value(Some(template), has_group, captures, group) == field_value(
            Some(template),
            has_group,
            captures,
            None,
        ),
{
}

/// A template that refers to a group resolves, against a match, to its
/// expansion without the whitespace around it: the resolved text neither
/// begins nor ends with whitespace.
pub proof fn lemma_resolved_expansion_is_trimmed(template: Seq<char>, captures: Captured)
    requires
        captures.groups.len() > 0,
    ensures
        resolved(template, true, captures) == trimmed(
            expansion(captures.pattern, captures.text, template),
        ),
        resolved(template, true, captures).len() > 0 ==> !crate::text::is_white_space(
            resolved(template, true, captures)[0],
        ) && !crate::text::is_white_space(
            resolved(template, true, captures)[resolved(template, true, captures).len() - 1],
        ),
{
    crate::text::lemma_trimmed_has_no_outer_whitespace(
        expansion(captures.pattern, captures.text, template),
    );
}

/// Classifying is a function of the parser and the text: two results for
/// the same text are the same, character for character.
pub proof fn lemma_same_text_same_result(
    parser: UserAgentParser,
    text: Seq<char>,
    first: Client,
    second: Client,
)
    requires
        first@ == parser.client_of(text),
        second@ == parser.client_of(text),
    ensures
        first@ == second@,
        first.device.family@ == second.device.family@,
        first.os.family@ == second.os.family@,
        first.user_agent.family@ == second.user_agent.family@,
{
}

} // verus!
