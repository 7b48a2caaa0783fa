//! A terminal chat client's core: the line parser that splits assistant text
//! into display lines, the turn protocol that grows the conversation history,
//! the input-mode state machine, and the render pipeline.
use vstd::prelude::*;

pub mod constants;
pub mod parse_markup;
pub mod request;
pub mod response;
pub mod render;
pub mod session;
