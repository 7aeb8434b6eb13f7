use tg_kit::handlers::callback_query_handler::{check_rules, CallbackQueryHandler, CallbackQueryHandlerBuilder};
use tg_kit::handlers::new_message_handler::{NewMessageHandler, NewMessageHandlerBuilder, RuleCheckResult, RuleChecker};
use tg_kit::handlers::message_events::HandlerSelection;
use tg_kit::types::RuleOutcome;

fn outcomes() -> Vec<RuleOutcome<&'static str>> {
    vec![
        RuleOutcome::Value("a"),
        RuleOutcome::Flag(true),
        RuleOutcome::Flag(false),
        RuleOutcome::Value("b"),
        RuleOutcome::Unit,
        RuleOutcome::Value("c"),
    ]
}

#[test]
fn rule_check_result_basics() {
    let mut r: RuleCheckResult<u8> = RuleCheckResult::new();
    assert!(r.all_passed());
    r.add_payload(3);
    r.mark_failed();
    assert!(!r.all_passed());
    assert_eq!(r.into_payload(), vec![3]);
}

#[test]
fn lenient_check_collects_everything() {
    let checker = RuleChecker::new();
    let r = checker.check(outcomes());
    assert!(!r.all_passed());
    assert_eq!(r.into_payload(), vec!["a", "b", "c"]);
}

#[test]
fn strict_check_stops_at_the_first_failure() {
    let checker = RuleChecker::new().strict(true);
    let r = checker.check(outcomes());
    assert!(!r.all_passed());
    assert_eq!(r.into_payload(), vec!["a"]);
}

#[test]
fn strict_and_lenient_agree_when_all_pass() {
    let passing = || vec![RuleOutcome::Value(1), RuleOutcome::Flag(true), RuleOutcome::Value(2)];
    let strict = RuleChecker::new().strict(true).check(passing());
    let lenient = RuleChecker::default().check(passing());
    assert!(strict.all_passed() && lenient.all_passed());
    assert_eq!(strict.into_payload(), lenient.into_payload());
}

#[test]
fn unit_outcome_fails_the_check() {
    let r = RuleChecker::new().check(vec![RuleOutcome::<u8>::Unit]);
    assert!(!r.all_passed());
    let r = RuleChecker::new().check(Vec::<RuleOutcome<u8>>::new());
    assert!(r.all_passed());
}

#[test]
fn observe_steps_one_outcome() {
    let checker = RuleChecker::new().strict(true);
    let mut r = RuleCheckResult::new();
    assert!(checker.observe(&mut r, RuleOutcome::Value(5u8)));
    assert!(checker.observe(&mut r, RuleOutcome::Flag(true)));
    assert!(!checker.observe(&mut r, RuleOutcome::Flag(false)));
    assert!(!r.all_passed());
    assert_eq!(r.into_payload(), vec![5]);
    let lenient = RuleChecker::new();
    let mut r = RuleCheckResult::new();
    assert!(lenient.observe(&mut r, RuleOutcome::<u8>::Unit));
    assert!(!r.all_passed());
}

#[test]
fn callback_payload_drops_only_plain_no() {
    let kept = check_rules(outcomes());
    assert_eq!(kept.len(), 5);
    assert!(matches!(kept[0], RuleOutcome::Value("a")));
    assert!(matches!(kept[1], RuleOutcome::Flag(true)));
    assert!(matches!(kept[2], RuleOutcome::Value("b")));
    assert!(matches!(kept[3], RuleOutcome::Unit));
    assert!(matches!(kept[4], RuleOutcome::Value("c")));
    let none = check_rules(vec![RuleOutcome::<u8>::Flag(false), RuleOutcome::Flag(false)]);
    assert!(none.is_empty());
}

#[test]
fn new_message_handler_builder() {
    let h: NewMessageHandler<&str> = NewMessageHandler::builder().with_handler("start").with_handler("reg").build();
    assert_eq!(h.handlers(), &vec!["start", "reg"]);
    let r = h.rule_checker().check(vec![RuleOutcome::Flag(false), RuleOutcome::Value(1u8)]);
    assert_eq!(r.into_payload(), Vec::<u8>::new());
    let empty: NewMessageHandler<u8> = NewMessageHandlerBuilder::default().build();
    assert!(empty.handlers().is_empty());
}

#[test]
fn callback_query_handler_builder() {
    let h: CallbackQueryHandler<u8> = CallbackQueryHandler::builder().with_handler(1).with_handler(2).build();
    assert_eq!(h.handlers(), &vec![1, 2]);
    let empty: CallbackQueryHandler<u8> = CallbackQueryHandlerBuilder::default().build();
    assert!(empty.handlers().is_empty());
}

#[test]
fn check_result_after_any_sequence_of_calls() {
    let mut r: RuleCheckResult<u32> = RuleCheckResult::new();
    r.add_payload(1);
    r.add_payload(2);
    assert!(r.all_passed());
    r.mark_failed();
    r.add_payload(3);
    assert!(!r.all_passed());
    r.add_payload(4);
    r.mark_failed();
    assert!(!r.all_passed());
    assert_eq!(r.into_payload(), vec![1, 2, 3, 4]);
}

#[test]
fn first_handler_with_a_payload_gets_the_message() {
    let mut sel = HandlerSelection::new(false);
    assert!(!sel.is_done());
    assert!(!sel.offer(&check_rules(vec![RuleOutcome::<u8>::Flag(false)])));
    assert!(!sel.is_done());
    assert!(sel.offer(&check_rules(vec![RuleOutcome::<u8>::Flag(false), RuleOutcome::Flag(true)])));
    assert!(sel.is_done());
    let outgoing = HandlerSelection::new(true);
    assert!(outgoing.is_done());
}
