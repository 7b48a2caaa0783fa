use vstd::prelude::*;

verus! {

/// Token counts the service reports for one exchange.
#[derive(Clone, Copy, Debug)]
pub struct Usage {
    pub input_tokens: i32,
    pub output_tokens: i32,
}

/// One segment of a reply's content.
#[derive(Clone, Debug)]
pub struct Content {
    pub text: String,
    pub text_type: String,
}

/// A decoded reply of the completion service.
#[derive(Clone, Debug)]
pub struct MessageResponse {
    pub content: Option<Vec<Content>>,
    pub id: String,
    pub model: String,
    pub role: String,
    pub stop_reason: String,
    pub stop_sequence: Option<String>,
    pub message_type: String,
}

/// The text of the last content segment of a reply, where it has any.
pub open spec fn last_text(r: MessageResponse) -> Option<Seq<char>> {
    match r.content {
        Some(v) => if v@.len() > 0 {
            Some(v@.last().text@)
        } else {
            None
        },
        None => None,
    }
}

} // verus!
