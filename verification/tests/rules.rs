use tg_kit::kit_rules::message::{CommandRule as PrefixedCommandRule, FromSenderRule, RegexRule as KitRegexRule};
use tg_kit::pattern::PatternError;
use tg_kit::rules::callback::DataRule;
use tg_kit::rules::message::{first_match, CommandRule, OrRule, OrScan, RegexRule, TextRule};
use tg_kit::text::{join, normalize, same_text, starts_with};
use tg_kit::types::RuleOutcome;

#[test]
fn lowercase_changes_the_text() {
    assert_eq!(normalize("HeLLo ÄB", true), "hello äb");
    assert_eq!(normalize("ABC", false), "ABC");
    assert_eq!(normalize("ABC", true), "abc");
}

#[test]
fn prefixes_and_joins() {
    assert!(starts_with("/start now", "/start"));
    assert!(starts_with("abc", ""));
    assert!(!starts_with("/st", "/start"));
    assert!(!starts_with("/stop", "/start"));
    assert!(starts_with("привет мир", "привет"));
    assert_eq!(join("/", "reg"), "/reg");
    assert!(same_text("a", "a"));
    assert!(!same_text("a", "A"));
}

#[test]
fn text_rule_compares_the_lowercased_message() {
    let rule = TextRule::new("/start");
    assert!(rule.matches_text("/start"));
    assert!(rule.matches_text("/START"));
    assert!(!rule.matches_text("/start now"));
    assert!(!rule.matches_text("/stop"));
}

#[test]
fn text_rule_without_lowering_is_exact() {
    let rule = TextRule::new("Hello").lower(false);
    assert!(rule.matches_text("Hello"));
    assert!(!rule.matches_text("hello"));
    let lowered = TextRule::new("Hello");
    assert!(!lowered.matches_text("Hello"));
}

#[test]
fn command_rule_matches_a_slash_prefix() {
    let rule = CommandRule::new("reg");
    assert!(rule.matches_text("/reg"));
    assert!(rule.matches_text("/REG"));
    assert!(rule.matches_text("/register me"));
    assert!(!rule.matches_text("reg"));
    assert!(!rule.matches_text(" /reg"));
}

#[test]
fn command_rule_lowering_can_be_turned_off() {
    let mut rule = CommandRule::new("reg");
    rule.lower(false);
    assert!(rule.matches_text("/reg"));
    assert!(!rule.matches_text("/REG"));
}

#[test]
fn data_rule_compares_the_query_data() {
    let rule = DataRule::new("yes");
    assert!(rule.matches_data(b"yes"));
    assert!(!rule.matches_data(b"YES"));
    assert!(!rule.matches_data(b"yes "));
    let word = DataRule::new("да");
    assert!(word.matches_data("да".as_bytes()));
    assert!(!word.matches_data("дa".as_bytes()));
}

#[test]
fn regex_rule_reports_present_groups() {
    let rule = RegexRule::new(r"(\d+)-(x)?(\w+)").unwrap();
    let r = rule.matches_text("Order 12-AB").unwrap();
    assert_eq!(r.matches, vec!["12-ab".to_string(), "12".to_string(), "ab".to_string()]);
    assert!(rule.matches_text("no digits here").is_none());
}

#[test]
fn regex_rule_lowercases_before_matching() {
    let rule = RegexRule::new("^hello$").unwrap();
    let r = rule.matches_text("HELLO").unwrap();
    assert_eq!(r.matches, vec!["hello".to_string()]);
    let upper = RegexRule::new("^HELLO$").unwrap();
    assert!(upper.matches_text("HELLO").is_none());
}

#[test]
fn regex_rule_refuses_bad_patterns() {
    match RegexRule::new("(unclosed") {
        Err(PatternError::Syntax(msg)) => assert!(!msg.is_empty()),
        _ => panic!("expected a syntax error"),
    }
    assert!(matches!(KitRegexRule::new("a{2"), Err(PatternError::Syntax(_))));
}

#[test]
fn kit_regex_rule_matches_like_the_other() {
    let rule = KitRegexRule::new(r"name: (\w+)").unwrap();
    let r = rule.matches_text("Name: Bob").unwrap();
    assert_eq!(r.matches, vec!["name: bob".to_string(), "bob".to_string()]);
    assert!(rule.matches_text("age: 3").is_none());
}

#[test]
fn prefixed_command_rule_defaults() {
    let rule = PrefixedCommandRule::new("start");
    assert!(rule.matches_text("/start"));
    assert!(rule.matches_text("/START"));
    assert!(rule.matches_text("/start@my_bot"));
    assert!(!rule.matches_text("/starting"));
    assert!(!rule.matches_text("/start now"));
    assert!(!rule.matches_text("!start"));
}

#[test]
fn prefixed_command_rule_prefixes() {
    let rule = PrefixedCommandRule::new("start").prefixes(vec!["!".to_string()]);
    assert!(rule.matches_text("!start"));
    assert!(!rule.matches_text("/start"));
    let rule = rule.add_prefix("/");
    assert!(rule.matches_text("/start"));
    assert!(rule.matches_text("!start@bot"));
    let rule = rule.lower(false);
    assert!(!rule.matches_text("!START"));
    assert!(rule.matches_text("!start"));
}

#[test]
fn adding_a_prefix_keeps_earlier_matches() {
    let before = PrefixedCommandRule::new("go");
    let after = PrefixedCommandRule::new("go").add_prefix(".");
    for m in ["/go", "/go@bot", ".go", "/gone", "go"] {
        if before.matches_text(m) {
            assert!(after.matches_text(m));
        }
    }
    assert!(after.matches_text(".go"));
}

#[test]
fn from_sender_rule() {
    let rule = FromSenderRule::new(42);
    assert!(rule.matches_sender(Some(42)));
    assert!(!rule.matches_sender(Some(7)));
    assert!(!rule.matches_sender(None));
}

#[test]
fn or_rule_takes_the_first_that_does_not_refuse() {
    let r: RuleOutcome<&str> = first_match(vec![
        RuleOutcome::Flag(false),
        RuleOutcome::Value("data"),
        RuleOutcome::Flag(true),
    ]);
    assert!(matches!(r, RuleOutcome::Value("data")));
    let r: RuleOutcome<&str> = first_match(vec![RuleOutcome::Flag(false), RuleOutcome::Unit]);
    assert!(matches!(r, RuleOutcome::Unit));
    let r: RuleOutcome<&str> = first_match(vec![RuleOutcome::Flag(false), RuleOutcome::Flag(false)]);
    assert!(matches!(r, RuleOutcome::Flag(false)));
    let r: RuleOutcome<&str> = first_match(vec![]);
    assert!(matches!(r, RuleOutcome::Flag(false)));
}

#[test]
fn or_rule_collects_rules_in_order() {
    let rule: OrRule<u8> = OrRule::new().add_rule(1).add_rule(2);
    assert_eq!(rule.rules(), &vec![1, 2]);
    let empty: OrRule<u8> = OrRule::default();
    assert!(empty.rules().is_empty());
}

#[test]
fn outcome_predicates() {
    let f: RuleOutcome<u8> = RuleOutcome::Flag(false);
    let t: RuleOutcome<u8> = RuleOutcome::Flag(true);
    let u: RuleOutcome<u8> = RuleOutcome::Unit;
    let v: RuleOutcome<u8> = RuleOutcome::Value(1);
    assert!(f.rejects() && f.fails());
    assert!(!t.rejects() && !t.fails());
    assert!(!u.rejects() && u.fails());
    assert!(!v.rejects() && !v.fails());
}

#[test]
fn regex_rule_refuses_patterns_that_are_too_big() {
    assert!(matches!(RegexRule::new(r"\w{1000}"), Err(PatternError::CompiledTooBig(_))));
    assert!(RegexRule::new(r"(?-u:\w){1000}").is_ok());
}

#[test]
fn regex_results_are_pieces_of_the_lowercased_message() {
    let rule = RegexRule::new(r"(b+)(c)?").unwrap();
    let message = "ABBBC and more";
    let lowered = message.to_lowercase();
    let r = rule.matches_text(message).unwrap();
    assert!(!r.matches.is_empty());
    for m in &r.matches {
        assert!(lowered.contains(m.as_str()));
    }
    assert_eq!(r.matches, vec!["bbbc".to_string(), "bbb".to_string(), "c".to_string()]);
}

#[test]
fn default_prefix_commands_also_match_the_plain_rule() {
    let kit = PrefixedCommandRule::new("help");
    let plain = CommandRule::new("help");
    for m in ["/help", "/HELP@bot", "/helper", "help", "/hel", "/help me"] {
        if kit.matches_text(m) {
            assert!(plain.matches_text(m));
        }
    }
    assert!(plain.matches_text("/helper") && !kit.matches_text("/helper"));
}

#[test]
fn regex_rule_gives_the_refusal_of_the_regex_crate() {
    for pattern in ["(", "a{2", r"\w{1000}", "[z-a]"] {
        let expected = match regex::Regex::new(pattern) {
            Err(regex::Error::Syntax(s)) => PatternError::Syntax(s),
            Err(regex::Error::CompiledTooBig(n)) => PatternError::CompiledTooBig(n),
            Err(_) => PatternError::Other,
            Ok(_) => panic!("pattern should be refused"),
        };
        assert_eq!(RegexRule::new(pattern).err(), Some(expected));
    }
}

#[test]
fn or_rule_on_flags_is_a_disjunction() {
    for (a, b) in [(false, false), (false, true), (true, false), (true, true)] {
        let r: RuleOutcome<u8> = first_match(vec![RuleOutcome::Flag(a), RuleOutcome::Flag(b)]);
        assert!(matches!(r, RuleOutcome::Flag(x) if x == (a || b)));
        let one: RuleOutcome<u8> = first_match(vec![RuleOutcome::Flag(a)]);
        assert!(matches!(one, RuleOutcome::Flag(x) if x == a));
    }
}

#[test]
fn or_scan_stops_at_the_deciding_rule() {
    let mut scan: OrScan<&str> = OrScan::new();
    assert!(scan.observe(RuleOutcome::Flag(false)).is_none());
    assert!(matches!(scan.observe(RuleOutcome::Value("x")), Some(RuleOutcome::Value("x"))));
    let mut none: OrScan<&str> = OrScan::new();
    assert!(none.observe(RuleOutcome::Flag(false)).is_none());
    assert!(matches!(none.finish(), RuleOutcome::Flag(false)));
    let mut unit: OrScan<&str> = OrScan::new();
    assert!(matches!(unit.observe(RuleOutcome::Unit), Some(RuleOutcome::Unit)));
}
