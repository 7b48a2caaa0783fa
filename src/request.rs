use vstd::prelude::*;

use crate::constants::MAX_TOKENS;
use crate::response::{MessageResponse, last_text};

verus! {

/// Who spoke a turn.
#[derive(Clone, Copy, Debug, PartialEq, Eq, Structural)]
pub enum Role {
    User,
    Assistant,
}

/// The name a role goes by on the wire and on screen.
pub open spec fn role_name(role: Role) -> Seq<char> {
    match role {
        Role::User => "user"@,
        Role::Assistant => "assistant"@,
    }
}

impl Role {
    /// The name this role goes by on the wire and on screen.
    pub fn as_str(&self) -> (s: &'static str)
        ensures
            s@ == role_name(*self),
    {
        match self {
            Role::User => "user",
            Role::Assistant => "assistant",
        }
    }
}

/// Why a turn could not be completed.
#[derive(Clone, Copy, Debug, PartialEq, Eq, Structural)]
pub enum ProtocolError {
    /// The exchange with the service failed.
    TransportError,
    /// The reply could not be decoded.
    DecodeError,
    /// The reply held no content segment.
    EmptyResponse,
}

/// One turn of the conversation.
#[derive(Debug)]
pub struct Message {
    pub role: Role,
    pub content: String,
}

impl View for Message {
    type V = (Role, Seq<char>);

    open spec fn view(&self) -> (Role, Seq<char>) {
        (self.role, self.content@)
    }
}

/// The turns of a history, as role and text.
pub open spec fn turns(h: Seq<Message>) -> Seq<(Role, Seq<char>)> {
    h.map_values(|m: Message| m@)
}

/// The assistant turn a reply gives, where it has content.
pub open spec fn reply_turn(r: MessageResponse) -> Option<(Role, Seq<char>)> {
    match last_text(r) {
        Some(t) => Some((Role::Assistant, t)),
        None => None,
    }
}

impl Message {
    /// A turn spoken by `role` with the text `content`.
    pub fn new(role: Role, content: &str) -> (m: Self)
        ensures
            m@ == (role, content@),
    {
        Message { role, content: content.to_owned() }
    }

    /// A copy of this turn.
    pub fn duplicate(&self) -> (m: Self)
        ensures
            m@ == self@,
    {
        Message { role: self.role, content: self.content.clone() }
    }

    /// The assistant turn that a reply gives: the text of its last content
    /// segment. Fails with `EmptyResponse` where the reply has no content.
    pub fn try_from(value: MessageResponse) -> (r: Result<Message, ProtocolError>)
        ensures
            match reply_turn(value) {
                Some(t) => r matches Ok(m) && m@ == t,
                None => r == Err::<Message, ProtocolError>(ProtocolError::EmptyResponse),
            },
    {
        match value.content {
            Some(content) => {
                let n = content.len();
                if n == 0 {
                    Err(ProtocolError::EmptyResponse)
                } else {
                    Ok(Message { role: Role::Assistant, content: content[n - 1].text.clone() })
                }
            },
            None => Err(ProtocolError::EmptyResponse),
        }
    }
}

/// A copy of every turn of `history`, in order.
pub fn copy_history(history: &Vec<Message>) -> (r: Vec<Message>)
    ensures
        turns(r@) == turns(history@),
{
    let mut r: Vec<Message> = Vec::new();
    let mut i: usize = 0;
    while i < history.len()
        invariant
            i <= history@.len(),
            r@.len() == i,
            forall|j: int| 0 <= j < i ==> #[trigger] r@[j]@ == history@[j]@,
        decreases history@.len() - i,
    {
        r.push(history[i].duplicate());
        i = i + 1;
    }
    assert(turns(r@) =~= turns(history@));
    r
}

/// What the service is asked: the model, the output budget, the whole
/// conversation so far and an empty system prompt.
#[derive(Debug)]
pub struct MessageRequest {
    pub model: String,
    pub max_tokens: i32,
    pub messages: Vec<Message>,
    pub system: String,
}

impl MessageRequest {
    /// A request to `model` with the budget `max_tokens` that carries
    /// `messages` and no system prompt.
    pub fn new(model: String, max_tokens: i32, messages: Vec<Message>) -> (r: Self)
        ensures
            r.model@ == model@,
            r.max_tokens == max_tokens,
            r.messages@ == messages@,
            r.system@ == Seq::<char>::empty(),
    {
        MessageRequest { model, max_tokens, messages, system: String::new() }
    }
}

/// The turns sent for a new prompt: the whole history, then the prompt as a
/// user turn.
pub open spec fn sent_turns(prompt: Seq<char>, h: Seq<Message>) -> Seq<(Role, Seq<char>)> {
    turns(h).push((Role::User, prompt))
}

/// The request that asks `model` to answer `prompt` after `history`, with
/// the fixed output budget. `history` itself is left as it is.
pub fn prepare_turn(prompt: &str, history: &Vec<Message>, model: &str) -> (req: MessageRequest)
    ensures
        req.model@ == model@,
        req.max_tokens == MAX_TOKENS,
        turns(req.messages@) == sent_turns(prompt@, history@),
        req.system@ == Seq::<char>::empty(),
{
    let mut messages = copy_history(history);
    let ghost before = messages@;
    messages.push(Message::new(Role::User, prompt));
    assert(turns(messages@) =~= turns(before).push((Role::User, prompt@)));
    MessageRequest::new(model.to_owned(), MAX_TOKENS, messages)
}

/// The history after a turn: the old one with the prompt and the reply's
/// turn appended, or the error that stopped the turn.
pub open spec fn turn_outcome(
    prompt: Seq<char>,
    h: Seq<Message>,
    reply: Result<MessageResponse, ProtocolError>,
) -> Result<Seq<(Role, Seq<char>)>, ProtocolError> {
    match reply {
        Err(e) => Err(e),
        Ok(r) => match reply_turn(r) {
            Some(t) => Ok(sent_turns(prompt, h).push(t)),
            None => Err(ProtocolError::EmptyResponse),
        },
    }
}

/// Completes a turn once the service's reply (or the failure to get one) is
/// in: on a reply with content, a new history made of `history`, the user's
/// `prompt` and the assistant's answer; else the error. `history` itself is
/// never changed.
pub fn complete_turn(
    prompt: &str,
    history: &Vec<Message>,
    reply: Result<MessageResponse, ProtocolError>,
) -> (r: Result<Vec<Message>, ProtocolError>)
    ensures
        match turn_outcome(prompt@, history@, reply) {
            Ok(t) => r matches Ok(h) && turns(h@) == t,
            Err(e) => r == Err::<Vec<Message>, ProtocolError>(e),
        },
{
    match reply {
        Err(e) => Err(e),
        Ok(response) => match Message::try_from(response) {
            Err(e) => Err(e),
            Ok(answer) => {
                let mut h = copy_history(history);
                let ghost h0 = h@;
                h.push(Message::new(Role::User, prompt));
                let ghost h1 = h@;
                h.push(answer);
                assert(turns(h@) =~= sent_turns(prompt@, history@).push(answer@)) by {
                    assert(turns(h1) =~= turns(h0).push((Role::User, prompt@)));
                };
                Ok(h)
            },
        },
    }
}

} // verus!
