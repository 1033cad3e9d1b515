use p2p_claude_daemon::protocol::{self, ClientMessage, MediaRef, MediaType, ServerMessage};
use p2p_claude_daemon::session::{ClaudeOutput, ConfirmMode, SessionAction, SessionManager};

fn chat(text: &str, id: Option<u128>) -> ClientMessage {
    ClientMessage::Chat { message: text.to_string(), conversation_id: id }
}

#[test]
fn clients_are_counted_once() {
    let mut s = SessionManager::new(ConfirmMode::Auto);
    assert_eq!(s.client_count(), 0);
    s.add_client("a".to_string());
    s.add_client("b".to_string());
    s.add_client("a".to_string());
    assert_eq!(s.client_count(), 2);
    s.remove_client("a");
    assert_eq!(s.client_count(), 1);
    s.remove_client("a");
    assert_eq!(s.client_count(), 1);
    s.remove_client("b");
    assert_eq!(s.client_count(), 0);
}

#[test]
fn chat_goes_to_claude() {
    let mut s = SessionManager::new(ConfirmMode::Auto);
    match s.route_message("c1", chat("hello", None)) {
        Ok(SessionAction::ToClaude { text }) => assert_eq!(text, "hello"),
        other => panic!("unexpected {:?}", other),
    }
}

#[test]
fn media_chat_is_labelled() {
    let mut s = SessionManager::new(ConfirmMode::Auto);
    let msg = ClientMessage::ChatWithMedia {
        message: "what is this".to_string(),
        media: MediaRef { id: "m1".to_string(), ty: MediaType::Image },
    };
    match s.route_message("c1", msg) {
        Ok(SessionAction::ToClaude { text }) => assert_eq!(text, "[Media: Image] what is this"),
        other => panic!("unexpected {:?}", other),
    }
}

#[test]
fn named_conversation_is_reported_when_done() {
    let mut s = SessionManager::new(ConfirmMode::Auto);
    s.route_message("c1", chat("hi", Some(77))).unwrap();
    match s.handle_output(ClaudeOutput::Done) {
        SessionAction::Broadcast { message: ServerMessage::ChatDone { conversation_id } } => {
            assert_eq!(conversation_id, 77)
        }
        other => panic!("unexpected {:?}", other),
    }
    s.route_message("c1", chat("again", None)).unwrap();
    match s.handle_output_with_id(ClaudeOutput::Done, 5) {
        SessionAction::Broadcast { message: ServerMessage::ChatDone { conversation_id } } => {
            assert_eq!(conversation_id, 77)
        }
        other => panic!("unexpected {:?}", other),
    }
}

#[test]
fn done_without_conversation_uses_fresh_id() {
    let mut s = SessionManager::new(ConfirmMode::Auto);
    match s.handle_output_with_id(ClaudeOutput::Done, 9) {
        SessionAction::Broadcast { message: ServerMessage::ChatDone { conversation_id } } => {
            assert_eq!(conversation_id, 9)
        }
        other => panic!("unexpected {:?}", other),
    }
}

#[test]
fn mode_switch_governs_confirmations() {
    let mut s = SessionManager::new(ConfirmMode::Auto);
    let prompt = || ClaudeOutput::NeedsConfirmation { prompt: "Run rm?".to_string() };
    assert!(matches!(s.handle_output(prompt()), SessionAction::AckClaude));
    match s.route_message_with_id("c1", ClientMessage::SetConfirmMode { mode: protocol::ConfirmMode::Manual }, 3) {
        Ok(SessionAction::Broadcast { message: ServerMessage::ChatDone { conversation_id } }) => {
            assert_eq!(conversation_id, 3)
        }
        other => panic!("unexpected {:?}", other),
    }
    assert_eq!(s.confirm_mode(), ConfirmMode::Manual);
    match s.handle_output(prompt()) {
        SessionAction::Broadcast { message: ServerMessage::NeedAck { prompt } } => {
            assert_eq!(prompt, "Run rm?")
        }
        other => panic!("unexpected {:?}", other),
    }
    s.route_message("c1", ClientMessage::SetConfirmMode { mode: protocol::ConfirmMode::Auto }).unwrap();
    assert!(matches!(s.handle_output(prompt()), SessionAction::AckClaude));
}

#[test]
fn ack_without_pending_does_nothing() {
    let mut s = SessionManager::new(ConfirmMode::Manual);
    assert!(matches!(s.route_message("c1", ClientMessage::Ack), Ok(SessionAction::Nothing)));
}

#[test]
fn file_requests_do_nothing() {
    let mut s = SessionManager::new(ConfirmMode::Auto);
    assert!(matches!(s.route_message("c", ClientMessage::FileList { path: ".".to_string() }), Ok(SessionAction::Nothing)));
    assert!(matches!(s.route_message("c", ClientMessage::FileRead { path: "a".to_string() }), Ok(SessionAction::Nothing)));
    assert!(matches!(
        s.route_message("c", ClientMessage::FileWrite { path: "a".to_string(), content: "x".to_string() }),
        Ok(SessionAction::Nothing)
    ));
}

#[test]
fn output_and_errors_are_broadcast() {
    let mut s = SessionManager::new(ConfirmMode::Auto);
    match s.handle_output(ClaudeOutput::Output { text: "chunk".to_string() }) {
        SessionAction::Broadcast { message: ServerMessage::ChatChunk { text } } => assert_eq!(text, "chunk"),
        other => panic!("unexpected {:?}", other),
    }
    match s.handle_output(ClaudeOutput::Error { message: "boom".to_string() }) {
        SessionAction::Broadcast { message: ServerMessage::Error { code, message } } => {
            assert_eq!(code, "claude_error");
            assert_eq!(message, "boom");
        }
        other => panic!("unexpected {:?}", other),
    }
}

#[test]
fn confirm_mode_from_command_line() {
    assert_eq!(ConfirmMode::from_arg("manual"), ConfirmMode::Manual);
    assert_eq!(ConfirmMode::from_arg("auto"), ConfirmMode::Auto);
    assert_eq!(ConfirmMode::from_arg("Manual"), ConfirmMode::Auto);
    assert_eq!(ConfirmMode::from_request(protocol::ConfirmMode::Manual), ConfirmMode::Manual);
}

#[test]
fn forwarded_confirmation_is_given_once_by_any_client() {
    let mut s = SessionManager::new(ConfirmMode::Manual);
    s.add_client("a".to_string());
    s.add_client("b".to_string());
    let out = s.handle_output(ClaudeOutput::NeedsConfirmation { prompt: "Edit file?".to_string() });
    assert!(matches!(out, SessionAction::Broadcast { message: ServerMessage::NeedAck { .. } }));
    assert!(matches!(s.route_message("b", ClientMessage::Ack), Ok(SessionAction::AckClaude)));
    assert!(matches!(s.route_message("a", ClientMessage::Ack), Ok(SessionAction::Nothing)));
    assert!(matches!(s.route_message("b", ClientMessage::Ack), Ok(SessionAction::Nothing)));
}

#[test]
fn drawn_conversation_ids_are_random_uuids() {
    let mut s = SessionManager::new(ConfirmMode::Auto);
    match s.route_message("c", ClientMessage::SetConfirmMode { mode: protocol::ConfirmMode::Auto }) {
        Ok(SessionAction::Broadcast { message: ServerMessage::ChatDone { conversation_id } }) => {
            assert_eq!((conversation_id >> 76) & 0xf, 4);
            assert_eq!((conversation_id >> 62) & 0x3, 2);
        }
        other => panic!("unexpected {:?}", other),
    }
    match s.handle_output(ClaudeOutput::Done) {
        SessionAction::Broadcast { message: ServerMessage::ChatDone { conversation_id } } => {
            assert_eq!((conversation_id >> 76) & 0xf, 4);
            assert_eq!((conversation_id >> 62) & 0x3, 2);
        }
        other => panic!("unexpected {:?}", other),
    }
}

#[test]
fn latest_named_conversation_wins() {
    let mut s = SessionManager::new(ConfirmMode::Auto);
    s.route_message("a", chat("one", Some(1))).unwrap();
    s.route_message("b", chat("two", Some(2))).unwrap();
    s.route_message("a", chat("three", None)).unwrap();
    s.route_message("a", ClientMessage::SetConfirmMode { mode: protocol::ConfirmMode::Manual }).unwrap();
    match s.handle_output(ClaudeOutput::Done) {
        SessionAction::Broadcast { message: ServerMessage::ChatDone { conversation_id } } => {
            assert_eq!(conversation_id, 2)
        }
        other => panic!("unexpected {:?}", other),
    }
}

#[test]
fn forwarded_confirmation_survives_other_events() {
    let mut s = SessionManager::new(ConfirmMode::Manual);
    s.add_client("a".to_string());
    s.add_client("b".to_string());
    let out = s.handle_output(ClaudeOutput::NeedsConfirmation { prompt: "Run tests?".to_string() });
    assert!(matches!(out, SessionAction::Broadcast { message: ServerMessage::NeedAck { .. } }));
    assert!(matches!(s.route_message("a", chat("hello", Some(7))), Ok(SessionAction::ToClaude { .. })));
    s.handle_output(ClaudeOutput::Output { text: "partial".to_string() });
    s.handle_output(ClaudeOutput::Done);
    assert!(matches!(s.route_message("a", ClientMessage::Ack), Ok(SessionAction::AckClaude)));
    assert!(matches!(s.route_message("b", chat("more", None)), Ok(SessionAction::ToClaude { .. })));
    s.handle_output(ClaudeOutput::Done);
    assert!(matches!(s.route_message("b", ClientMessage::Ack), Ok(SessionAction::Nothing)));
}
