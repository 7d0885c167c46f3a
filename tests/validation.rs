use misfire::misfire::{BuildInfo, Misfire};
use misfire::options::OptionSet;
use misfire::syntax::{FailKind, SyntaxError};
use misfire::validate::{validate, validate_options, Constraints};

fn build() -> BuildInfo {
    BuildInfo {
        program: "exa".to_string(),
        version: "0.4.0".to_string(),
        commit: "abc123".to_string(),
    }
}

fn flags(names: &[&str]) -> OptionSet {
    let mut o = OptionSet::new();
    for n in names {
        o.push_flag(n.to_string());
    }
    o
}

fn usage() -> String {
    "Usage: exa [options] [files...]".to_string()
}

#[test]
fn error_code_is_two_for_help_only() {
    assert_eq!(Misfire::Help("text".to_string()).error_code(), 2);
    assert_eq!(Misfire::Version.error_code(), 3);
    assert_eq!(Misfire::Conflict("a", "b").error_code(), 3);
    assert_eq!(Misfire::Useless("a", false, "b").error_code(), 3);
    assert_eq!(Misfire::Useless2("a", "b1", "b2").error_code(), 3);
    assert_eq!(Misfire::FailedParse("x".to_string()).error_code(), 3);
    assert_eq!(Misfire::bad_argument("foo", "bar").error_code(), 3);
}

#[test]
fn bad_argument_embeds_option_and_explanation() {
    let m = Misfire::bad_argument("foo", "bar");
    let expected = Misfire::InvalidOptions(SyntaxError::new(
        FailKind::UnrecognizedOption,
        "--foo bar".to_string(),
    ));
    assert_eq!(m, expected);
    let text = m.render(&build());
    assert!(text.contains("--foo bar"));
    assert_eq!(text, "Unrecognized option: '--foo bar'");
}

#[test]
fn conflict_is_reported_with_its_text() {
    let mut t = Constraints::new();
    t.add_conflict("a", "b");
    let r = validate_options(&flags(&["a", "b"]), &t, &usage());
    let m = r.unwrap_err();
    assert_eq!(m, Misfire::Conflict("a", "b"));
    assert_eq!(m.render(&build()), "Option --a conflicts with option b.");
}

#[test]
fn useless_without_is_reported_with_its_text() {
    let mut t = Constraints::new();
    t.add_useless("a", false, "b");
    let m = validate_options(&flags(&["a"]), &t, &usage()).unwrap_err();
    assert_eq!(m, Misfire::Useless("a", false, "b"));
    assert_eq!(m.render(&build()), "Option --a is useless without option --b.");
}

#[test]
fn useless_given_is_reported_with_its_text() {
    let mut t = Constraints::new();
    t.add_useless("a", true, "b");
    let m = validate_options(&flags(&["a", "b"]), &t, &usage()).unwrap_err();
    assert_eq!(m, Misfire::Useless("a", true, "b"));
    assert_eq!(m.render(&build()), "Option --a is useless given option --b.");
}

#[test]
fn useless2_is_reported_with_its_text() {
    let mut t = Constraints::new();
    t.add_useless2("a", "b1", "b2");
    let m = validate_options(&flags(&["a"]), &t, &usage()).unwrap_err();
    assert_eq!(m, Misfire::Useless2("a", "b1", "b2"));
    assert_eq!(
        m.render(&build()),
        "Option --a is useless without options --b1 or --b2."
    );
}

#[test]
fn useless2_is_quiet_when_either_option_is_given() {
    let mut t = Constraints::new();
    t.add_useless2("a", "b1", "b2");
    assert!(validate_options(&flags(&["a", "b2"]), &t, &usage()).is_ok());
    assert!(validate_options(&flags(&["a", "b1"]), &t, &usage()).is_ok());
}

#[test]
fn rules_are_quiet_when_not_broken() {
    let mut t = Constraints::new();
    t.add_conflict("a", "b");
    t.add_useless("a", false, "b");
    t.add_useless("c", true, "d");
    let r = validate_options(&flags(&["a"]), &t, &usage());
    assert_eq!(r.unwrap_err(), Misfire::Useless("a", false, "b"));
    let ok = validate_options(&flags(&["c", "x"]), &t, &usage()).unwrap();
    assert!(ok.numbers.is_empty());
}

#[test]
fn bad_number_is_a_failed_parse() {
    let mut t = Constraints::new();
    t.add_numeric("level");
    let mut o = OptionSet::new();
    o.push_value("level".to_string(), "notanumber".to_string());
    let m = validate_options(&o, &t, &usage()).unwrap_err();
    let expected_msg = "notanumber".parse::<u64>().unwrap_err().to_string();
    assert_eq!(m, Misfire::FailedParse(expected_msg.clone()));
    let text = m.render(&build());
    assert!(text.starts_with("Failed to parse number:"));
    assert_eq!(text, format!("Failed to parse number: {}", expected_msg));
    assert_eq!(text, "Failed to parse number: invalid digit found in string");
}

#[test]
fn empty_and_overflowing_numbers_fail() {
    let mut t = Constraints::new();
    t.add_numeric("level");
    let mut o = OptionSet::new();
    o.push_value("level".to_string(), String::new());
    let m = validate_options(&o, &t, &usage()).unwrap_err();
    assert_eq!(
        m.render(&build()),
        "Failed to parse number: cannot parse integer from empty string"
    );
    let mut o = OptionSet::new();
    o.push_value("level".to_string(), "18446744073709551616".to_string());
    let m = validate_options(&o, &t, &usage()).unwrap_err();
    assert_eq!(
        m.render(&build()),
        "Failed to parse number: number too large to fit in target type"
    );
}

#[test]
fn numbers_are_read_in_table_order() {
    let mut t = Constraints::new();
    t.add_numeric("width");
    t.add_numeric("level");
    t.add_numeric("depth");
    let mut o = OptionSet::new();
    o.push_value("level".to_string(), "+42".to_string());
    o.push_value("width".to_string(), "18446744073709551615".to_string());
    let v = validate_options(&o, &t, &usage()).unwrap();
    assert_eq!(v.numbers, vec![("width", u64::MAX), ("level", 42)]);
}

#[test]
fn first_bad_number_in_table_order_wins() {
    let mut t = Constraints::new();
    t.add_numeric("width");
    t.add_numeric("level");
    let mut o = OptionSet::new();
    o.push_value("level".to_string(), "".to_string());
    o.push_value("width".to_string(), "-1".to_string());
    let m = validate_options(&o, &t, &usage()).unwrap_err();
    assert_eq!(m, Misfire::FailedParse("invalid digit found in string".to_string()));
}

#[test]
fn syntax_error_wins_over_everything() {
    let mut t = Constraints::new();
    t.add_conflict("a", "b");
    let e = SyntaxError::new(FailKind::ArgumentMissing, "level".to_string());
    let parsed: Result<OptionSet, SyntaxError> = Err(e.clone());
    let m = validate(&parsed, &t, &usage()).unwrap_err();
    assert_eq!(m, Misfire::InvalidOptions(e));
    assert_eq!(m.render(&build()), "Argument to option 'level' missing");
}

#[test]
fn help_wins_over_conflict() {
    let mut t = Constraints::new();
    t.add_conflict("a", "b");
    let parsed: Result<OptionSet, SyntaxError> = Ok(flags(&["a", "b", "help"]));
    let m = validate(&parsed, &t, &usage()).unwrap_err();
    assert_eq!(m, Misfire::Help(usage()));
    assert_eq!(m.render(&build()), usage());
    assert_eq!(m.error_code(), 2);
}

#[test]
fn version_comes_after_help_and_before_numbers() {
    let mut t = Constraints::new();
    t.add_numeric("level");
    let mut o = flags(&["version"]);
    o.push_value("level".to_string(), "x".to_string());
    let m = validate_options(&o, &t, &usage()).unwrap_err();
    assert_eq!(m, Misfire::Version);
    assert_eq!(m.render(&build()), "exa 0.4.0 abc123");
    o.push_flag("help".to_string());
    assert_eq!(validate_options(&o, &t, &usage()).unwrap_err(), Misfire::Help(usage()));
}

#[test]
fn numbers_come_before_conflicts() {
    let mut t = Constraints::new();
    t.add_numeric("level");
    t.add_conflict("a", "b");
    let mut o = flags(&["a", "b"]);
    o.push_value("level".to_string(), "ten".to_string());
    let m = validate_options(&o, &t, &usage()).unwrap_err();
    assert_eq!(m, Misfire::FailedParse("invalid digit found in string".to_string()));
}

#[test]
fn conflicts_come_in_table_order() {
    let mut t = Constraints::new();
    t.add_conflict("x", "y");
    t.add_conflict("b", "a");
    t.add_conflict("a", "b");
    t.add_useless("a", true, "b");
    let m = validate_options(&flags(&["a", "b"]), &t, &usage()).unwrap_err();
    assert_eq!(m, Misfire::Conflict("b", "a"));
    assert_eq!(m.render(&build()), "Option --b conflicts with option a.");
}

#[test]
fn validating_twice_gives_the_same_outcome() {
    let mut t = Constraints::new();
    t.add_conflict("a", "b");
    let parsed: Result<OptionSet, SyntaxError> = Ok(flags(&["a", "b"]));
    let first = validate(&parsed, &t, &usage()).unwrap_err();
    let second = validate(&parsed, &t, &usage()).unwrap_err();
    assert_eq!(first, second);
    let clean: Result<OptionSet, SyntaxError> = Ok(flags(&["a"]));
    let v1 = validate(&clean, &t, &usage()).unwrap();
    let v2 = validate(&clean, &t, &usage()).unwrap();
    assert_eq!(v1.numbers, v2.numbers);
}

#[test]
fn syntax_messages_follow_the_tokenizer() {
    let cases = [
        (FailKind::ArgumentMissing, "Argument to option 'x' missing"),
        (FailKind::UnrecognizedOption, "Unrecognized option: 'x'"),
        (FailKind::OptionMissing, "Required option 'x' missing"),
        (FailKind::OptionDuplicated, "Option 'x' given more than once"),
        (FailKind::UnexpectedArgument, "Option 'x' does not take an argument"),
    ];
    for (kind, text) in cases {
        let e = SyntaxError::new(kind, "x".to_string());
        assert_eq!(e.message(), text);
        assert_eq!(Misfire::InvalidOptions(e).render(&build()), text);
    }
}

#[test]
fn help_and_version_go_to_stdout() {
    assert!(Misfire::Help(String::new()).to_stdout());
    assert!(Misfire::Version.to_stdout());
    assert!(!Misfire::Conflict("a", "b").to_stdout());
    assert!(!Misfire::bad_argument("a", "b").to_stdout());
    assert!(!Misfire::FailedParse(String::new()).to_stdout());
}

#[test]
fn option_lookup_finds_first_entry() {
    let mut o = OptionSet::new();
    assert_eq!(o.lookup("a"), None);
    o.push_flag("b".to_string());
    o.push_value("a".to_string(), "1".to_string());
    o.push_flag("a".to_string());
    assert_eq!(o.lookup("a"), Some(1));
    assert!(o.is_given("b"));
    assert!(!o.is_given("c"));
}
