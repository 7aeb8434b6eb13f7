use tg_kit::builder::{BuildError, ClientBuilder};
use tg_kit::client::{loop_action, take_update_stream, ClientError, LoopAction, LoopEvent};
use tg_kit::conversation::{response, ConversationError, ConversationState, Wait, DEFAULT_TIMEOUT_SECS};
use tg_kit::reconnection::{BotReconnectionPolicy, RetryDecision};

#[test]
fn settings_fill_in_defaults() {
    let b: ClientBuilder<u8, &str> = ClientBuilder::new().api_id(17).api_hash("hash".to_string()).dispatcher("d");
    let mut s = b.settings().unwrap();
    assert_eq!(s.api_id, 17);
    assert_eq!(s.api_hash, "hash");
    assert_eq!(s.client_name, "tg-kit-session");
    assert_eq!(s.device_model, "Unknown");
    assert_eq!(s.system_version, "1.0");
    assert_eq!(s.app_version, "1.0");
    assert_eq!(s.system_lang_code, "en");
    assert_eq!(s.lang_code, "en");
    assert_eq!(s.session, None);
    assert_eq!(s.take_dispatcher(), Ok("d"));
    assert_eq!(s.take_dispatcher(), Err(BuildError::MissingDispatcher));
}

#[test]
fn settings_keep_what_was_given() {
    let b: ClientBuilder<u8, ()> = ClientBuilder::default()
        .api_id(1)
        .api_hash("h".to_string())
        .client_name("bot".to_string())
        .device_model("pc".to_string())
        .system_version("9".to_string())
        .app_version("2.1".to_string())
        .system_lang_code("ru".to_string())
        .lang_code("de".to_string())
        .session(4);
    let s = b.settings().unwrap();
    assert_eq!(s.client_name, "bot");
    assert_eq!(s.device_model, "pc");
    assert_eq!(s.system_version, "9");
    assert_eq!(s.app_version, "2.1");
    assert_eq!(s.system_lang_code, "ru");
    assert_eq!(s.lang_code, "de");
    assert_eq!(s.session, Some(4));
    assert!(s.dispatcher.is_none());
}

#[test]
fn settings_require_id_then_hash() {
    let none: ClientBuilder<u8, u8> = ClientBuilder::new();
    assert!(matches!(none.settings(), Err(BuildError::MissingApiId)));
    let no_id: ClientBuilder<u8, u8> = ClientBuilder::new().api_hash("h".to_string());
    assert!(matches!(no_id.settings(), Err(BuildError::MissingApiId)));
    let no_hash: ClientBuilder<u8, u8> = ClientBuilder::new().api_id(3);
    assert!(matches!(no_hash.settings(), Err(BuildError::MissingApiHash)));
    assert_eq!(BuildError::MissingApiId.message(), "API ID is required");
    assert_eq!(BuildError::MissingApiHash.message(), "API hash is required");
    assert_eq!(BuildError::MissingDispatcher.message(), "EventDispatcher is required");
}

#[test]
fn reconnection_delays_double() {
    let p = BotReconnectionPolicy;
    assert_eq!(p.should_retry(0), RetryDecision::Continue { delay_ms: 1 });
    assert_eq!(p.should_retry(3), RetryDecision::Continue { delay_ms: 8 });
    assert_eq!(p.should_retry(10), RetryDecision::Continue { delay_ms: 1024 });
    assert_eq!(p.should_retry(63), RetryDecision::Continue { delay_ms: 1u64 << 63 });
}

#[test]
fn update_stream_is_taken_once() {
    let mut slot = Some(5u8);
    assert_eq!(take_update_stream(&mut slot), Ok(5));
    assert_eq!(take_update_stream(&mut slot), Err(ClientError::StreamAlreadyRunning));
    assert_eq!(ClientError::StreamAlreadyRunning.message(), "Update stream is already running");
}

#[test]
fn loop_actions() {
    assert!(matches!(loop_action::<u8, u8>(LoopEvent::Interrupted), LoopAction::Exit));
    assert!(matches!(loop_action::<u8, u8>(LoopEvent::Received(Ok(3))), LoopAction::Dispatch(3)));
    assert!(matches!(loop_action::<u8, u8>(LoopEvent::Received(Err(4))), LoopAction::ReportReceiveError(4)));
}

#[test]
fn conversation_state_and_responses() {
    let mut s: ConversationState<u8> = ConversationState::new();
    assert_eq!(s.last_update, None);
    s.update_last_update(9);
    assert_eq!(s.last_update, Some(9));
    assert_eq!(ConversationState::<u8>::default().last_update, None);
    assert_eq!(response(Wait::Received(1u8)), Ok(1));
    assert_eq!(response::<u8>(Wait::Closed), Err(ConversationError::ChannelClosed));
    assert_eq!(response::<u8>(Wait::Elapsed), Err(ConversationError::TimedOut));
    assert_eq!(ConversationError::TimedOut.message(), "Timeout waiting for response");
    assert_eq!(ConversationError::ChannelClosed.message(), "Conversation channel closed");
    assert_eq!(DEFAULT_TIMEOUT_SECS, 60);
}

#[test]
fn taking_the_dispatcher_keeps_the_other_settings() {
    let b: ClientBuilder<u8, u8> = ClientBuilder::new()
        .api_id(5)
        .api_hash("h".to_string())
        .lang_code("fr".to_string())
        .device_model("phone".to_string())
        .dispatcher(1);
    let mut s = b.settings().unwrap();
    assert_eq!(s.take_dispatcher(), Ok(1));
    assert_eq!(s.lang_code, "fr");
    assert_eq!(s.system_lang_code, "en");
    assert_eq!(s.device_model, "phone");
    assert_eq!(s.system_version, "1.0");
    assert_eq!(s.app_version, "1.0");
    assert_eq!(s.api_id, 5);
}
