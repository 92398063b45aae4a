use uaparser::escapes::clean_escapes;
use uaparser::matching::{CaptureSet, PatternFailure};
use uaparser::parser::{
    compile, extract_field, has_group, none_if_empty, prepare_pattern, replace_cow,
    resolve_expanded, template_has_group, SIZE_LIMIT,
};

#[test]
fn none_if_empty_drops_the_empty_string() {
    assert_eq!(none_if_empty(String::new()), None);
    assert_eq!(none_if_empty("x".to_string()), Some("x".to_string()));
    assert_eq!(none_if_empty(" ".to_string()), Some(" ".to_string()));
}

#[test]
fn has_group_looks_for_the_sigil() {
    assert!(has_group("$1"));
    assert!(has_group("Nexus $2 x"));
    assert!(has_group("price in $"));
    assert!(!has_group(""));
    assert!(!has_group("Nexus"));
    assert!(!has_group("\u{ff04}1"));
}

#[test]
fn template_has_group_is_false_without_a_template() {
    assert!(!template_has_group(&None));
    assert!(!template_has_group(&Some("plain".to_string())));
    assert!(template_has_group(&Some("$1".to_string())));
}

#[test]
fn clean_escapes_drops_needless_backslashes() {
    assert_eq!(clean_escapes(r"a\!b\ c\/d"), "a!b c/d");
    assert_eq!(clean_escapes(r"\d+\.\w"), r"\d+\.\w");
    assert_eq!(clean_escapes(""), "");
    assert_eq!(clean_escapes(r"\"), r"\");
    assert_eq!(clean_escapes(r"\!\!"), "!!");
    assert_eq!(clean_escapes("caf\u{e9}\\ \u{4e2d}"), "caf\u{e9} \u{4e2d}");
}

#[test]
fn clean_escapes_reads_from_the_left() {
    assert_eq!(clean_escapes(r"\\!"), r"\!");
    assert_eq!(clean_escapes(r"\\\!"), r"\\!");
    assert_eq!(clean_escapes(r"\\ "), r"\ ");
}

#[test]
fn clean_escapes_twice_is_once_without_an_escaped_backslash() {
    for pattern in [r"a\!b", r"\/\/x", r"plain", r"\ \!\/", r"x\\y\!", r"\d\!\s"] {
        let once = clean_escapes(pattern);
        assert_eq!(clean_escapes(&once), once);
    }
}

#[test]
fn clean_escapes_twice_differs_after_an_escaped_backslash() {
    let once = clean_escapes(r"\\!");
    assert_eq!(once, r"\!");
    assert_eq!(clean_escapes(&once), "!");
}

#[test]
fn resolve_expanded_trims_the_expansion() {
    assert_eq!(resolve_expanded("$1", Some("  Nexus 5 \t\n".to_string())), "Nexus 5");
    assert_eq!(resolve_expanded("$1", Some("\u{a0}\u{3000}x\u{2003}".to_string())), "x");
    assert_eq!(resolve_expanded("$1", Some("   ".to_string())), "");
    assert_eq!(resolve_expanded("$1", Some(String::new())), "");
    assert_eq!(resolve_expanded("$1", Some("a b".to_string())), "a b");
}

#[test]
fn resolve_expanded_keeps_a_literal_as_it_is() {
    assert_eq!(resolve_expanded("  spaced  ", None), "  spaced  ");
    assert_eq!(resolve_expanded("", None), "");
}

#[test]
fn capture_set_holds_the_groups_of_the_first_match() {
    let pattern = compile(r"(\w+)/(\d+)(?:\.(\d+))?", &None).unwrap();
    let captures = CaptureSet::find(&pattern, "x Firefox/91 Chrome/92.1").unwrap();
    assert_eq!(captures.len(), 4);
    assert_eq!(captures.get(0), Some("Firefox/91".to_string()));
    assert_eq!(captures.get(1), Some("Firefox".to_string()));
    assert_eq!(captures.get(2), Some("91".to_string()));
    assert_eq!(captures.get(3), None);
    assert_eq!(captures.get(4), None);
    assert!(CaptureSet::find(&pattern, "nothing here").is_none());
}

#[test]
fn expand_substitutes_the_captured_text() {
    let pattern = compile(r"(\w+)/(\d+)(?:\.(\d+))?", &None).unwrap();
    let captures = CaptureSet::find(&pattern, "Firefox/91").unwrap();
    assert_eq!(captures.expand("$1 v$2"), "Firefox v91");
    assert_eq!(captures.expand("[$3]"), "[]");
    assert_eq!(captures.expand("${1}x"), "Firefoxx");
    assert_eq!(captures.expand("$1x"), "");
    assert_eq!(captures.expand("$$1"), "$1");
    assert_eq!(captures.expand("$9"), "");
    assert_eq!(captures.expand("plain"), "plain");
}

#[test]
fn replace_cow_expands_and_trims() {
    let pattern = compile(r"(Nexus)( \d+)?", &None).unwrap();
    let captures = CaptureSet::find(&pattern, "Nexus").unwrap();
    assert_eq!(replace_cow("$1 $2", true, &captures), "Nexus");
    assert_eq!(replace_cow(" $2 $1", true, &captures), "Nexus");
    assert_eq!(replace_cow("$2", true, &captures), "");
}

#[test]
fn replace_cow_without_the_flag_is_literal() {
    let pattern = compile(r"(Nexus)", &None).unwrap();
    let captures = CaptureSet::find(&pattern, "Nexus").unwrap();
    assert_eq!(replace_cow("$1 ", false, &captures), "$1 ");
    assert_eq!(replace_cow(" Phone ", false, &captures), " Phone ");
}

#[test]
fn extract_field_prefers_the_template() {
    let pattern = compile(r"(a)(b)", &None).unwrap();
    let captures = CaptureSet::find(&pattern, "ab").unwrap();
    assert_eq!(
        extract_field(&Some("T".to_string()), false, &captures, Some(2)),
        Some("T".to_string())
    );
    assert_eq!(extract_field(&Some(String::new()), false, &captures, Some(2)), None);
    assert_eq!(
        extract_field(&Some("$1$2".to_string()), true, &captures, Some(2)),
        Some("ab".to_string())
    );
    assert_eq!(extract_field(&None, false, &captures, Some(2)), Some("b".to_string()));
    assert_eq!(extract_field(&None, false, &captures, Some(3)), None);
    assert_eq!(extract_field(&None, false, &captures, None), None);
}

#[test]
fn extract_field_drops_an_empty_group() {
    let pattern = compile(r"(a)(b*)", &None).unwrap();
    let captures = CaptureSet::find(&pattern, "a").unwrap();
    assert_eq!(captures.get(2), Some(String::new()));
    assert_eq!(extract_field(&None, false, &captures, Some(2)), None);
}

#[test]
fn compile_puts_the_flags_before_the_pattern() {
    let plain = compile("nexus", &None).unwrap();
    assert!(CaptureSet::find(&plain, "NEXUS").is_none());
    let empty = compile("nexus", &Some(String::new())).unwrap();
    assert!(CaptureSet::find(&empty, "NEXUS").is_none());
    let folded = compile("nexus", &Some("i".to_string())).unwrap();
    assert_eq!(CaptureSet::find(&folded, "NEXUS").unwrap().get(0), Some("NEXUS".to_string()));
}

#[test]
fn compile_repairs_escapes_first() {
    let pattern = compile(r"Yahoo\! Slurp\/(\d+)", &None).unwrap();
    let captures = CaptureSet::find(&pattern, "Yahoo! Slurp/3").unwrap();
    assert_eq!(captures.get(1), Some("3".to_string()));
}

#[test]
fn compile_reports_a_syntax_error() {
    let error = compile(r"(unclosed\!", &Some("i".to_string())).unwrap_err();
    assert_eq!(error.pattern, "(?i)(unclosed!");
    match error.failure {
        PatternFailure::Syntax(message) => assert!(message.contains("unclosed")),
        other => panic!("unexpected: {:?}", other),
    }
}

#[test]
fn compile_reports_a_pattern_over_the_size_limit() {
    let error = compile(r"\w{2000}", &None).unwrap_err();
    assert_eq!(error.pattern, r"\w{2000}");
    assert_eq!(error.failure, PatternFailure::CompiledTooBig(20 * (1 << 20)));
}

#[test]
fn prepare_pattern_adds_flags_then_repairs() {
    assert_eq!(prepare_pattern(r"a\!b", &None), "a!b");
    assert_eq!(prepare_pattern(r"a\!b", &Some(String::new())), "a!b");
    assert_eq!(prepare_pattern(r"a\/b", &Some("i".to_string())), "(?i)a/b");
    assert_eq!(prepare_pattern(r"\d+", &Some("is".to_string())), r"(?is)\d+");
}

#[test]
fn size_limit_is_twenty_mebibytes() {
    assert_eq!(SIZE_LIMIT, 20 * 1024 * 1024);
}

#[test]
fn resolve_expanded_keeps_what_is_no_whitespace() {
    assert_eq!(resolve_expanded("$1", Some("\u{200b}x\u{180e}".to_string())), "\u{200b}x\u{180e}");
    assert_eq!(resolve_expanded("$1", Some("\u{85}\u{1680}x y\u{2028}\u{205f}".to_string())), "x y");
}
