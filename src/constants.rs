use vstd::prelude::*;

verus! {

/// The protocol version sent with every request.
pub const ANTHROPIC_VERSION: &'static str = "2023-06-01";

/// The output-token budget of every request.
pub const MAX_TOKENS: i32 = 1024;

} // verus!
