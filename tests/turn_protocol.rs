use kaite::constants::MAX_TOKENS;
use kaite::request::{complete_turn, prepare_turn, Message, MessageRequest, ProtocolError, Role};
use kaite::response::{Content, MessageResponse};

fn reply_with(content: Option<Vec<&str>>) -> MessageResponse {
    MessageResponse {
        content: content.map(|texts| {
            texts
                .into_iter()
                .map(|t| Content { text: t.to_string(), text_type: "text".to_string() })
                .collect()
        }),
        id: "msg_1".to_string(),
        model: "model-a".to_string(),
        role: "assistant".to_string(),
        stop_reason: "end_turn".to_string(),
        stop_sequence: None,
        message_type: "message".to_string(),
    }
}

fn as_pairs(h: &[Message]) -> Vec<(Role, String)> {
    h.iter().map(|m| (m.role, m.content.clone())).collect()
}

#[test]
fn turn_from_empty_history() {
    let history: Vec<Message> = vec![];
    let h = complete_turn("hi", &history, Ok(reply_with(Some(vec!["hello"])))).unwrap();
    assert_eq!(
        as_pairs(&h),
        vec![(Role::User, "hi".to_string()), (Role::Assistant, "hello".to_string())]
    );
}

#[test]
fn turn_appends_after_history() {
    let history = vec![Message::new(Role::User, "a"), Message::new(Role::Assistant, "b")];
    let h = complete_turn("c", &history, Ok(reply_with(Some(vec!["d"])))).unwrap();
    assert_eq!(as_pairs(&h).len(), 4);
    assert_eq!(as_pairs(&h)[2], (Role::User, "c".to_string()));
    assert_eq!(as_pairs(&h)[3], (Role::Assistant, "d".to_string()));
    assert_eq!(history.len(), 2);
}

#[test]
fn empty_content_is_rejected() {
    let history = vec![Message::new(Role::User, "a")];
    let r = complete_turn("hi", &history, Ok(reply_with(Some(vec![]))));
    assert_eq!(r.unwrap_err(), ProtocolError::EmptyResponse);
    assert_eq!(as_pairs(&history), vec![(Role::User, "a".to_string())]);
}

#[test]
fn absent_content_is_rejected() {
    let history: Vec<Message> = vec![];
    let r = complete_turn("hi", &history, Ok(reply_with(None)));
    assert_eq!(r.unwrap_err(), ProtocolError::EmptyResponse);
}

#[test]
fn transport_and_decode_errors_pass_through() {
    let history: Vec<Message> = vec![];
    let r = complete_turn("hi", &history, Err(ProtocolError::TransportError));
    assert_eq!(r.unwrap_err(), ProtocolError::TransportError);
    let r = complete_turn("hi", &history, Err(ProtocolError::DecodeError));
    assert_eq!(r.unwrap_err(), ProtocolError::DecodeError);
}

#[test]
fn last_segment_is_the_answer() {
    let m = Message::try_from(reply_with(Some(vec!["first", "second", "last"]))).unwrap();
    assert_eq!(m.role, Role::Assistant);
    assert_eq!(m.content, "last");
}

#[test]
fn request_carries_whole_history() {
    let history = vec![Message::new(Role::User, "a"), Message::new(Role::Assistant, "b")];
    let req = prepare_turn("c", &history, "model-c");
    assert_eq!(req.model, "model-c");
    assert_eq!(req.max_tokens, 1024);
    assert_eq!(req.max_tokens, MAX_TOKENS);
    assert_eq!(req.system, "");
    assert_eq!(
        as_pairs(&req.messages),
        vec![
            (Role::User, "a".to_string()),
            (Role::Assistant, "b".to_string()),
            (Role::User, "c".to_string()),
        ]
    );
}

#[test]
fn request_new_has_no_system_prompt() {
    let req = MessageRequest::new("m".to_string(), 7, vec![Message::new(Role::User, "x")]);
    assert_eq!(req.model, "m");
    assert_eq!(req.max_tokens, 7);
    assert_eq!(req.messages.len(), 1);
    assert_eq!(req.system, "");
}

#[test]
fn role_names() {
    assert_eq!(Role::User.as_str(), "user");
    assert_eq!(Role::Assistant.as_str(), "assistant");
}
