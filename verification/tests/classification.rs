use uaparser::device::Device;
use uaparser::file::{DeviceParserEntry, OSParserEntry, RegexFile, UserAgentParserEntry};
use uaparser::os::OS;
use uaparser::parser::{device, os, user_agent, Error, UserAgentParser};
use uaparser::user_agent::UserAgent;

fn text(s: &str) -> Option<String> {
    Some(s.to_string())
}

fn device_rule(regex: &str, family: Option<&str>) -> DeviceParserEntry {
    DeviceParserEntry {
        regex_flag: None,
        regex: regex.to_string(),
        device_replacement: family.map(str::to_string),
        brand_replacement: None,
        model_replacement: None,
    }
}

fn os_rule(regex: &str) -> OSParserEntry {
    OSParserEntry {
        regex_flag: None,
        regex: regex.to_string(),
        os_replacement: None,
        os_v1_replacement: None,
        os_v2_replacement: None,
        os_v3_replacement: None,
    }
}

fn agent_rule(regex: &str) -> UserAgentParserEntry {
    UserAgentParserEntry {
        regex_flag: None,
        regex: regex.to_string(),
        family_replacement: None,
        v1_replacement: None,
        v2_replacement: None,
        v3_replacement: None,
    }
}

fn parser_of(
    devices: Vec<DeviceParserEntry>,
    systems: Vec<OSParserEntry>,
    agents: Vec<UserAgentParserEntry>,
) -> UserAgentParser {
    UserAgentParser::try_from(RegexFile {
        user_agent_parsers: agents,
        os_parsers: systems,
        device_parsers: devices,
    })
    .unwrap()
}

#[test]
fn agent_family_falls_back_to_group_one_only() {
    let rule = agent_rule(r"Chrome/(\d+)\.(\d+)");
    let matcher = user_agent::Matcher::try_from(rule.clone()).unwrap();
    let found = matcher.try_parse("Mozilla/5.0 Chrome/91.0").unwrap();
    assert_eq!(found.family, "91");
    assert_eq!(found.major, text("0"));
    assert_eq!(found.minor, None);
    assert_eq!(found.patch, None);

    let mut named = rule;
    named.family_replacement = text("Chrome");
    let matcher = user_agent::Matcher::try_from(named).unwrap();
    let found = matcher.try_parse("Mozilla/5.0 Chrome/91.0").unwrap();
    assert_eq!(found.family, "Chrome");
    assert_eq!(found.major, text("0"));

    let matcher = user_agent::Matcher::try_from(agent_rule(r"Chrome/(?:\d+)")).unwrap();
    assert_eq!(matcher.try_parse("Mozilla/5.0 Chrome/91.0"), None);
}

#[test]
fn device_template_with_back_reference() {
    let matcher =
        device::Matcher::try_from(device_rule(r"(Nexus) (\d+)", Some("$1 Device"))).unwrap();
    assert!(matcher.device_replacement_has_group);
    let found = matcher.try_parse("Nexus 5").unwrap();
    assert_eq!(found.family, "Nexus Device");
    assert_eq!(found.brand, None);
    assert_eq!(found.model, None);
}

#[test]
fn empty_template_makes_the_field_absent() {
    let mut rule = os_rule(r"(Android) (\d+)\.(\d+)");
    rule.os_v1_replacement = text("");
    let matcher = os::Matcher::try_from(rule).unwrap();
    let found = matcher.try_parse("Android 11.2").unwrap();
    assert_eq!(found.family, "Android");
    assert_eq!(found.major, None);
    assert_eq!(found.minor, text("2"));
    assert_eq!(found.patch, None);
    assert_eq!(found.patch_minor, None);
}

#[test]
fn escaped_bang_matches_a_literal_bang() {
    let matcher = user_agent::Matcher::try_from(agent_rule(r"(Yahoo\!) Slurp")).unwrap();
    let found = matcher.try_parse("Yahoo! Slurp").unwrap();
    assert_eq!(found.family, "Yahoo!");
}

#[test]
fn unmatched_categories_are_unclassified_independently() {
    let parser = parser_of(
        vec![device_rule(r"(iPhone)", None)],
        vec![os_rule(r"(Windows) (\d+)")],
        vec![agent_rule(r"(Firefox)/(\d+)")],
    );
    let client = parser.parse("Mozilla Windows 10 Safari");
    assert_eq!(client.device, Device::default());
    assert_eq!(client.device.family, "");
    assert_eq!(client.device.brand, None);
    assert_eq!(client.device.model, None);
    assert_eq!(client.os.family, "Windows");
    assert_eq!(client.os.major, text("10"));
    assert_eq!(client.user_agent, UserAgent::default());
    assert_eq!(parser.parse_os("nothing"), OS::default());
    assert_eq!(OS::default().family, "");
    assert_eq!(UserAgent::default().family, "");
}

#[test]
fn the_earlier_rule_wins() {
    let first = device_rule(r"Nexus (\d+)", Some("First $1"));
    let second = device_rule(r"(Nexus)", Some("Second"));
    let parser = parser_of(vec![first.clone(), second.clone()], vec![], vec![]);
    assert_eq!(parser.parse_device("Nexus 5").family, "First 5");
    let swapped = parser_of(vec![second, first], vec![], vec![]);
    assert_eq!(swapped.parse_device("Nexus 5").family, "Second");
}

#[test]
fn a_rule_with_an_empty_family_is_passed_over() {
    let empty_template = device_rule(r"Nexus", Some(""));
    let empty_group = device_rule(r"Nexus(x*)", None);
    let last = device_rule(r"(Nex)us", None);
    let parser = parser_of(vec![empty_template, empty_group, last], vec![], vec![]);
    assert_eq!(parser.parse_device("Nexus").family, "Nex");
}

#[test]
fn template_wins_over_the_group() {
    let mut rule = os_rule(r"(Mac) (\d+)_(\d+)_(\d+)_(\d+)");
    rule.os_replacement = text("Mac OS X");
    rule.os_v1_replacement = text("$3");
    rule.os_v2_replacement = text("ten");
    rule.os_v3_replacement = text("$9");
    let matcher = os::Matcher::try_from(rule).unwrap();
    let found = matcher.try_parse("Mac 10_15_7_1").unwrap();
    assert_eq!(found.family, "Mac OS X");
    assert_eq!(found.major, text("15"));
    assert_eq!(found.minor, text("ten"));
    assert_eq!(found.patch, None);
    assert_eq!(found.patch_minor, text("1"));
}

#[test]
fn os_fields_come_from_groups_one_to_five() {
    let matcher = os::Matcher::try_from(os_rule(r"(\w+) (\d+)\.(\d+)\.(\d+)\.(\d+)")).unwrap();
    let found = matcher.try_parse("Linux 5.10.0.8").unwrap();
    assert_eq!(found.family, "Linux");
    assert_eq!(found.major, text("5"));
    assert_eq!(found.minor, text("10"));
    assert_eq!(found.patch, text("0"));
    assert_eq!(found.patch_minor, text("8"));
}

#[test]
fn agent_version_templates_are_resolved() {
    let mut rule = agent_rule(r"(Opera)/(\d+)\.(\d+) Version/(\d+)");
    rule.v1_replacement = text("$4");
    rule.v2_replacement = text("");
    let matcher = user_agent::Matcher::try_from(rule).unwrap();
    assert!(matcher.v1_replacement_has_group);
    assert!(!matcher.v2_replacement_has_group);
    let found = matcher.try_parse("Opera/9.80 Version/12").unwrap();
    assert_eq!(found.family, "Opera");
    assert_eq!(found.major, text("12"));
    assert_eq!(found.minor, None);
    assert_eq!(found.patch, text("12"));
}

#[test]
fn device_brand_and_model_come_from_templates_only() {
    let mut rule = device_rule(r"(Pixel) (\d+)", None);
    let matcher = device::Matcher::try_from(rule.clone()).unwrap();
    let found = matcher.try_parse("Pixel 7").unwrap();
    assert_eq!(found.family, "Pixel");
    assert_eq!(found.brand, None);
    assert_eq!(found.model, None);

    rule.brand_replacement = text("Google");
    rule.model_replacement = text(" $1 $2 ");
    let matcher = device::Matcher::try_from(rule).unwrap();
    let found = matcher.try_parse("Pixel 7").unwrap();
    assert_eq!(found.brand, text("Google"));
    assert_eq!(found.model, text("Pixel 7"));
}

#[test]
fn device_flags_scope_the_whole_pattern() {
    let mut rule = device_rule(r"(iphone)", None);
    rule.regex_flag = text("i");
    let matcher = device::Matcher::try_from(rule).unwrap();
    assert_eq!(matcher.try_parse("An iPhone").unwrap().family, "iPhone");
}

#[test]
fn only_the_first_match_in_the_text_is_used() {
    let matcher = user_agent::Matcher::try_from(agent_rule(r"(\w+)/(\d+)")).unwrap();
    let found = matcher.try_parse("Gecko/20 Firefox/91").unwrap();
    assert_eq!(found.family, "Gecko");
    assert_eq!(found.major, text("20"));
}

#[test]
fn classifying_twice_gives_the_same_result() {
    let parser = parser_of(
        vec![device_rule(r"(Nexus) (\d+)", Some("$1 $2"))],
        vec![os_rule(r"(Android) (\d+)")],
        vec![agent_rule(r"(Chrome)/(\d+)\.(\d+)")],
    );
    let input = "Android 11 Nexus 5 Chrome/91.0";
    let once = parser.parse(input);
    let again = parser.parse(input);
    assert_eq!(once, again);
    assert_eq!(once.device.family, "Nexus 5");
    assert_eq!(once.os.major, text("11"));
    assert_eq!(once.user_agent.minor, text("0"));
}

#[test]
fn a_bad_pattern_fails_the_whole_parser() {
    let file = RegexFile {
        user_agent_parsers: vec![agent_rule(r"(ok)")],
        os_parsers: vec![os_rule(r"(ok)"), os_rule(r"(bad")],
        device_parsers: vec![device_rule(r"(ok)", None)],
    };
    match UserAgentParser::try_from(file) {
        Err(Error::OS(os::Error::Regex(e))) => assert_eq!(e.pattern, "(bad"),
        other => panic!("unexpected: {:?}", other.map(|_| ())),
    }
    let file = RegexFile {
        user_agent_parsers: vec![agent_rule(r"[bad")],
        os_parsers: vec![],
        device_parsers: vec![device_rule(r"bad)", None)],
    };
    assert!(matches!(
        UserAgentParser::try_from(file),
        Err(Error::Device(device::Error::Regex(_)))
    ));
    let file = RegexFile {
        user_agent_parsers: vec![agent_rule(r"[bad")],
        os_parsers: vec![],
        device_parsers: vec![],
    };
    assert!(matches!(
        UserAgentParser::try_from(file),
        Err(Error::UserAgent(user_agent::Error::Regex(_)))
    ));
}

#[test]
fn an_empty_rule_file_compiles() {
    let parser = UserAgentParser::try_from(RegexFile::default()).unwrap();
    assert!(parser.device_matchers.is_empty());
    assert_eq!(parser.parse_device("anything"), Device::default());
}

#[test]
fn matchers_keep_the_order_of_the_rules() {
    let parser = parser_of(
        vec![device_rule("a", Some("A")), device_rule("b", Some("$B")), device_rule("c", None)],
        vec![],
        vec![],
    );
    assert_eq!(parser.device_matchers.len(), 3);
    assert_eq!(parser.device_matchers[0].device_replacement, text("A"));
    assert!(!parser.device_matchers[0].device_replacement_has_group);
    assert_eq!(parser.device_matchers[1].device_replacement, text("$B"));
    assert!(parser.device_matchers[1].device_replacement_has_group);
    assert_eq!(parser.device_matchers[2].device_replacement, None);
}

#[test]
fn an_empty_family_template_rejects_the_rule_whatever_group_one_holds() {
    let matcher = device::Matcher::try_from(device_rule(r"(Nexus)", Some(""))).unwrap();
    assert_eq!(matcher.try_parse("Nexus"), None);
    let matcher = device::Matcher::try_from(device_rule(r"(Nexus)( ?)", Some("$2"))).unwrap();
    assert_eq!(matcher.try_parse("Nexus "), None);
    let mut rule = os_rule(r"(Nexus)");
    rule.os_replacement = text("");
    assert_eq!(os::Matcher::try_from(rule).unwrap().try_parse("Nexus"), None);
    let mut rule = agent_rule(r"(Nexus)");
    rule.family_replacement = text("$7");
    assert_eq!(user_agent::Matcher::try_from(rule).unwrap().try_parse("Nexus"), None);
}

#[test]
fn no_field_is_ever_an_empty_string() {
    let mut rule = os_rule(r"(Linux)(x*)(y*)(z*)(w*)");
    rule.os_v3_replacement = text("  $4  ");
    let found = os::Matcher::try_from(rule).unwrap().try_parse("Linux").unwrap();
    assert_eq!(found.family, "Linux");
    assert_eq!(found.major, None);
    assert_eq!(found.minor, None);
    assert_eq!(found.patch, None);
    assert_eq!(found.patch_minor, None);
}

#[test]
fn from_compiled_hands_the_failure_on() {
    let failure = uaparser::parser::compile("(bad", &None).unwrap_err();
    let expected = failure.clone();
    match device::Matcher::from_compiled(Err(failure), device_rule("(bad", Some("$1"))) {
        Err(device::Error::Regex(e)) => assert_eq!(e, expected),
        Ok(_) => panic!("a matcher without a pattern"),
    }
    let compiled = uaparser::parser::compile(r"(Kindle)\/(\d+)", &None);
    let mut rule = device_rule(r"unused", Some("$1"));
    rule.model_replacement = text("$2");
    let matcher = device::Matcher::from_compiled(compiled, rule).unwrap();
    assert!(matcher.device_replacement_has_group);
    assert!(!matcher.brand_replacement_has_group);
    assert!(matcher.model_replacement_has_group);
    let found = matcher.try_parse("Kindle/3").unwrap();
    assert_eq!(found.family, "Kindle");
    assert_eq!(found.model, text("3"));
}
