use tg_kit::dispatcher::{conversation_chat, DispatchAction, DispatchRun, DispatchStep, EventDispatcher, UpdateKind};
use tg_kit::event_dispatcher::{EventDispatcher as StagedDispatcher, Stage};
use tg_kit::middleware::MiddlewareContainer;

#[test]
fn conversation_routing() {
    assert_eq!(conversation_chat(true, &UpdateKind::NewMessage { chat: 5 }), None);
    assert_eq!(conversation_chat(false, &UpdateKind::NewMessage { chat: 5 }), Some(5));
    assert_eq!(conversation_chat(false, &UpdateKind::CallbackQuery { chat: -9 }), Some(-9));
    assert_eq!(conversation_chat(false, &UpdateKind::Other), None);
}

#[test]
fn run_with_all_middlewares_agreeing() {
    let mut run = DispatchRun::start(2);
    assert_eq!(run.next_action(), DispatchAction::AskBefore(0));
    run.before_answered(true);
    assert_eq!(run.next_action(), DispatchAction::AskBefore(1));
    run.before_answered(true);
    assert_eq!(run.next_action(), DispatchAction::RunHandlers);
    run.handlers_finished();
    assert_eq!(run.next_action(), DispatchAction::TellAfter(0));
    run.after_finished();
    assert_eq!(run.next_action(), DispatchAction::TellAfter(1));
    run.after_finished();
    assert_eq!(run.current_step(), DispatchStep::Finished);
    assert_eq!(run.next_action(), DispatchAction::Done);
}

#[test]
fn run_stops_at_a_refusal() {
    let mut run = DispatchRun::start(3);
    run.before_answered(true);
    run.before_answered(false);
    assert_eq!(run.current_step(), DispatchStep::Stopped);
    assert_eq!(run.next_action(), DispatchAction::Done);
}

#[test]
fn run_without_middlewares() {
    let mut run = DispatchRun::start(0);
    assert_eq!(run.next_action(), DispatchAction::RunHandlers);
    run.handlers_finished();
    assert_eq!(run.next_action(), DispatchAction::Done);
}

#[test]
fn dispatcher_builder_keeps_order() {
    let d: EventDispatcher<u8, char> = EventDispatcher::builder()
        .with_handler(1)
        .with_handlers(vec![2, 3])
        .with_middleware('a')
        .with_middlewares(vec!['b'])
        .build()
        .unwrap();
    assert_eq!(d.handlers(), &vec![1, 2, 3]);
    assert_eq!(d.middlewares().middlewares(), &vec!['a', 'b']);
    let copy = d.clone();
    assert_eq!(copy.handlers(), &vec![1, 2, 3]);
    let mut run = copy.start_run();
    assert_eq!(run.next_action(), DispatchAction::AskBefore(0));
    run.before_answered(false);
    assert_eq!(run.next_action(), DispatchAction::Done);
    let empty: EventDispatcher<u8, char> = EventDispatcher::default();
    assert!(empty.handlers().is_empty());
    assert_eq!(empty.start_run().next_action(), DispatchAction::RunHandlers);
}

#[test]
fn middleware_container_shares_its_members() {
    let c = MiddlewareContainer::new(vec![1, 2]);
    let d = c.clone();
    assert_eq!(d.len(), 2);
    assert_eq!(d.middlewares(), &vec![1, 2]);
    let e: MiddlewareContainer<u8> = MiddlewareContainer::default();
    assert_eq!(e.len(), 0);
}

#[test]
fn staged_dispatcher_schedule() {
    let mut d: StagedDispatcher<u8, u8> = StagedDispatcher::new();
    assert_eq!(d.schedule(), vec![Stage::GlobalBefore, Stage::GlobalAfter]);
    d.register_handler(7);
    d.register_handler(8);
    d.register_middleware(1);
    assert_eq!(
        d.schedule(),
        vec![
            Stage::GlobalBefore,
            Stage::HandlerBefore(0),
            Stage::Handle(0),
            Stage::HandlerAfter(0),
            Stage::HandlerBefore(1),
            Stage::Handle(1),
            Stage::HandlerAfter(1),
            Stage::GlobalAfter,
        ]
    );
    assert_eq!(d.handlers(), &vec![7, 8]);
    assert_eq!(d.middlewares(), &vec![1]);
}

#[test]
fn run_order_asks_then_handles_then_tells() {
    let mut run = DispatchRun::start(3);
    let mut actions = Vec::new();
    loop {
        let a = run.next_action();
        actions.push(a);
        match a {
            DispatchAction::AskBefore(_) => run.before_answered(true),
            DispatchAction::RunHandlers => run.handlers_finished(),
            DispatchAction::TellAfter(_) => run.after_finished(),
            DispatchAction::Done => break,
        }
    }
    assert_eq!(
        actions,
        vec![
            DispatchAction::AskBefore(0),
            DispatchAction::AskBefore(1),
            DispatchAction::AskBefore(2),
            DispatchAction::RunHandlers,
            DispatchAction::TellAfter(0),
            DispatchAction::TellAfter(1),
            DispatchAction::TellAfter(2),
            DispatchAction::Done,
        ]
    );
}

#[test]
fn a_failure_ends_the_run() {
    let mut run = DispatchRun::start(2);
    run.before_answered(true);
    run.failed();
    assert_eq!(run.current_step(), DispatchStep::Failed);
    assert_eq!(run.next_action(), DispatchAction::Done);
    let mut run = DispatchRun::start(1);
    run.before_answered(true);
    run.handlers_finished();
    run.failed();
    assert_eq!(run.next_action(), DispatchAction::Done);
}
