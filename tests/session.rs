use kaite::request::{Message, ProtocolError, Role};
use kaite::response::{Content, MessageResponse};
use kaite::session::{Action, InputMode, Key, Session};

fn reply_with(texts: Vec<&str>) -> MessageResponse {
    MessageResponse {
        content: Some(
            texts
                .into_iter()
                .map(|t| Content { text: t.to_string(), text_type: "text".to_string() })
                .collect(),
        ),
        id: "msg_1".to_string(),
        model: "model-a".to_string(),
        role: "assistant".to_string(),
        stop_reason: "end_turn".to_string(),
        stop_sequence: None,
        message_type: "message".to_string(),
    }
}

fn three_models() -> Vec<String> {
    vec!["model-a".to_string(), "model-b".to_string(), "model-c".to_string()]
}

#[test]
fn model_selector_wraps_after_three() {
    let mut s = Session::new(three_models());
    assert_eq!(s.model_name(), "model-a");
    s.handle_key(Key::Char('m'), "");
    assert_eq!(s.model_name(), "model-b");
    s.handle_key(Key::Char('m'), "");
    assert_eq!(s.model_name(), "model-c");
    s.handle_key(Key::Char('m'), "");
    assert_eq!(s.model, 0);
    assert_eq!(s.model_name(), "model-a");
}

#[test]
fn single_model_stays_selected() {
    let mut s = Session::new(vec!["only".to_string()]);
    s.handle_key(Key::Char('m'), "");
    assert_eq!(s.model, 0);
    assert_eq!(s.model_name(), "only");
}

#[test]
fn scroll_never_goes_below_top() {
    let mut s = Session::new(three_models());
    for _ in 0..5 {
        assert_eq!(s.handle_key(Key::Char('k'), ""), Action::Stay);
        assert_eq!(s.scroll, 0);
    }
    s.handle_key(Key::Char('j'), "");
    s.handle_key(Key::Char('j'), "");
    assert_eq!(s.scroll, 2);
    s.handle_key(Key::Char('k'), "");
    assert_eq!(s.scroll, 1);
}

#[test]
fn scroll_stops_at_largest_offset() {
    let mut s = Session::new(three_models());
    s.scroll = u16::MAX;
    s.handle_key(Key::Char('j'), "");
    assert_eq!(s.scroll, u16::MAX);
}

#[test]
fn normal_mode_keys() {
    let mut s = Session::new(three_models());
    assert_eq!(s.handle_key(Key::Char('x'), "abc"), Action::Stay);
    assert_eq!(s.handle_key(Key::Enter, "abc"), Action::Stay);
    assert_eq!(s.mode, InputMode::Normal);
    assert_eq!(s.handle_key(Key::Char('q'), ""), Action::Quit);
    assert_eq!(s.handle_key(Key::Char('i'), ""), Action::Stay);
    assert_eq!(s.mode, InputMode::Editing);
}

#[test]
fn editing_mode_keys() {
    let mut s = Session::new(three_models());
    s.handle_key(Key::Char('i'), "");
    assert_eq!(s.handle_key(Key::Char('q'), ""), Action::Edit);
    assert_eq!(s.handle_key(Key::Char('j'), ""), Action::Edit);
    assert_eq!(s.scroll, 0);
    assert_eq!(s.handle_key(Key::Other, ""), Action::Edit);
    assert_eq!(s.handle_key(Key::Enter, ""), Action::Stay);
    assert_eq!(s.mode, InputMode::Editing);
    assert_eq!(s.handle_key(Key::Enter, "hi"), Action::Submit);
    assert_eq!(s.mode, InputMode::Editing);
    assert_eq!(s.handle_key(Key::Esc, "hi"), Action::Stay);
    assert_eq!(s.mode, InputMode::Normal);
}

#[test]
fn finished_turn_extends_history() {
    let mut s = Session::new(three_models());
    let req = s.request("hi");
    assert_eq!(req.model, "model-a");
    assert_eq!(req.messages.len(), 1);
    assert!(s.finish_turn("hi", Ok(reply_with(vec!["hello"]))).is_ok());
    assert_eq!(s.history.len(), 2);
    assert_eq!(s.history[0].role, Role::User);
    assert_eq!(s.history[0].content, "hi");
    assert_eq!(s.history[1].role, Role::Assistant);
    assert_eq!(s.history[1].content, "hello");
}

#[test]
fn failed_turn_keeps_history() {
    let mut s = Session::new(three_models());
    s.history.push(Message::new(Role::User, "a"));
    s.history.push(Message::new(Role::Assistant, "b"));
    let r = s.finish_turn("c", Ok(reply_with(vec![])));
    assert_eq!(r, Err(ProtocolError::EmptyResponse));
    let r = s.finish_turn("c", Err(ProtocolError::TransportError));
    assert_eq!(r, Err(ProtocolError::TransportError));
    assert_eq!(s.history.len(), 2);
    assert_eq!(s.history[0].content, "a");
    assert_eq!(s.history[1].content, "b");
}
