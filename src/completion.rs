//! The completion exchange: the request sent for a prompt, and the reply
//! text read back out of the parsed response.
use vstd::prelude::*;
use crate::text::{trim_text, trimmed};

verus! {

/// Upper bound on the number of tokens the remote model may produce.
pub const MAX_TOKENS: u32 = 3000;

/// The model identifier sent with every request.
pub open spec fn model_name() -> Seq<char> {
    "gpt-3.5-turbo"@
}

/// The fixed `system` persona sent ahead of every prompt.
pub open spec fn persona() -> Seq<char> {
    "You are ChatGPT, a large language model trained by OpenAI."@
}

/// One entry of a request's message list.
#[derive(Debug)]
pub struct ChatMessage {
    pub role: String,
    pub content: String,
}

/// A chat-completion request: model, ordered messages and token bound.
#[derive(Debug)]
pub struct ChatRequest {
    pub model: String,
    pub messages: Vec<ChatMessage>,
    pub max_tokens: u32,
}

/// One candidate reply of a response, reduced to its message text.
#[derive(Debug)]
pub struct Choice {
    pub content: String,
}

/// A successfully parsed completion response.
#[derive(Debug)]
pub struct ChatResponse {
    pub choices: Vec<Choice>,
}

/// Why one completion exchange failed.
#[derive(Debug)]
pub enum CompletionError {
    /// The request could not be sent or its body could not be read.
    Transport { detail: String },
    /// The body did not have the success shape; it is kept for the operator.
    ResponseFormat { detail: String, raw_body: String },
}

/// What a request built for `prompt` holds.
pub open spec fn is_request_for(r: ChatRequest, prompt: Seq<char>) -> bool {
    &&& r.model@ == model_name()
    &&& r.max_tokens == MAX_TOKENS
    &&& r.messages@.len() == 2
    &&& r.messages@[0].role@ == "system"@
    &&& r.messages@[0].content@ == persona()
    &&& r.messages@[1].role@ == "user"@
    &&& r.messages@[1].content@ == prompt
}

/// The text a response yields: the first choice's content, trimmed, or
/// nothing when there is no choice.
pub open spec fn reply_of(choices: Seq<Choice>) -> Seq<char> {
    if choices.len() > 0 {
        trimmed(choices[0].content@)
    } else {
        Seq::empty()
    }
}

/// Builds the two-message request (persona, then `prompt`) for one exchange.
pub fn build_request(prompt: &str) -> (r: ChatRequest)
    ensures
        is_request_for(r, prompt@),
{
    let system = ChatMessage {
        role: String::from_str("system"),
        content: String::from_str("You are ChatGPT, a large language model trained by OpenAI."),
    };
    let user = ChatMessage { role: String::from_str("user"), content: String::from_str(prompt) };
    let messages = vec![system, user];
    ChatRequest { model: String::from_str("gpt-3.5-turbo"), messages, max_tokens: MAX_TOKENS }
}

/// The reply text of a parsed response: choice 0's content trimmed, the
/// other choices ignored, and the empty string when there are none.
pub fn reply_text(response: &ChatResponse) -> (r: String)
    ensures
        r@ == reply_of(response.choices@),
{
    if response.choices.len() > 0 {
        String::from_str(trim_text(response.choices[0].content.as_str()))
    } else {
        String::new()
    }
}

/// Turns the outcome of parsing a response `body` into the exchange's
/// result: the reply text, or a format error that carries the raw body.
pub fn interpret_response(parsed: Result<ChatResponse, String>, body: String) -> (r: Result<
    String,
    CompletionError,
>)
    ensures
        match parsed {
            Ok(resp) => r matches Ok(t) && t@ == reply_of(resp.choices@),
            Err(detail) => r matches Err(CompletionError::ResponseFormat { detail: d, raw_body })
                && d == detail && raw_body == body,
        },
{
    match parsed {
        Ok(resp) => Ok(reply_text(&resp)),
        Err(detail) => Err(CompletionError::ResponseFormat { detail, raw_body: body }),
    }
}

} // verus!
