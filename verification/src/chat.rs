//! The chat operation: turning the outcome of one POST against
//! `{base}/v1/chat/completions` into the caller's result.

use vstd::prelude::*;
use vstd::string::StringExecFns;
use crate::http::decimal_digits;
use crate::http::u16_to_decimal;

verus! {

/// One message of a conversation history.
#[derive(Debug)]
pub struct ChatMessage {
    pub role: String,
    pub content: String,
}

/// One completion choice of a chat reply.
#[derive(Debug)]
pub struct ChatChoice {
    pub index: u32,
    pub message: ChatMessage,
    pub finish_reason: String,
}

/// A chat reply as the node produced it; its content is not interpreted
/// here, and the order of `choices` is the node's own.
#[derive(Debug)]
pub struct ChatResponse {
    pub id: String,
    pub model: String,
    pub choices: Vec<ChatChoice>,
}

/// What the transport observed when posting a chat request.
pub enum ChatOutcome {
    /// A success status, and a body that parsed as a chat reply.
    Reply(ChatResponse),
    /// A success status, but the body did not parse; the parse failure
    /// description.
    MalformedReply(String),
    /// A reply whose status code is not in the success range.
    ErrorStatus(u16),
    /// The node could not be reached; the transport failure description.
    Unreachable(String),
}

/// The failure message for a reply with a non-success status code.
pub open spec fn api_error_message(code: u16) -> Seq<char> {
    "API error: "@ + decimal_digits(code as nat)
}

/// Maps a chat outcome to the caller's result. This is the one operation
/// that surfaces every failure: a reply is passed through verbatim — in
/// particular, the order and content of its `choices` are preserved — a
/// non-success status becomes an `API error: {status}` message, and a parse
/// or transport failure surfaces as its own description.
pub fn chat(outcome: ChatOutcome) -> (r: Result<ChatResponse, String>)
    ensures
        outcome matches ChatOutcome::Reply(resp) ==> r == Ok::<ChatResponse, String>(resp),
        outcome matches ChatOutcome::Reply(resp) ==> (r matches Ok(out) && out.choices
            == resp.choices),
        outcome matches ChatOutcome::MalformedReply(e) ==> r == Err::<ChatResponse, String>(e),
        outcome matches ChatOutcome::ErrorStatus(code) ==> (r matches Err(m) && m@
            == api_error_message(code)),
        outcome matches ChatOutcome::Unreachable(e) ==> r == Err::<ChatResponse, String>(e),
{
    match outcome {
        ChatOutcome::Reply(resp) => Ok(resp),
        ChatOutcome::MalformedReply(e) => Err(e),
        ChatOutcome::ErrorStatus(code) => {
            let mut m = "API error: ".to_owned();
            let digits = u16_to_decimal(code);
            m.append(digits.as_str());
            Err(m)
        },
        ChatOutcome::Unreachable(e) => Err(e),
    }
}

} // verus!
