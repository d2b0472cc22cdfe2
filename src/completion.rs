use vstd::prelude::*;

use crate::error::GatewayError;

verus! {

/// The ceiling on output tokens of every completion request.
pub const MAX_TOKENS: u16 = 512;

/// Nucleus sampling of every request, in thousandths: always zero, so the
/// most likely token is taken.
pub const TOP_P_PERMILLE: u16 = 0;

/// The chat model that every request names.
pub open spec fn model_id() -> Seq<char> {
    "gpt-3.5-turbo"@
}

/// Who speaks a message.
#[derive(Debug, Clone, Copy, PartialEq, Eq)]
pub enum Role {
    System,
    User,
}

/// One message of a chat-completion request.
#[derive(Debug, Clone)]
pub struct ChatMessage {
    pub role: Role,
    pub content: String,
}

/// A chat-completion request, in the fixed shape that the gateway sends.
#[derive(Debug, Clone)]
pub struct CompletionRequest {
    pub model: String,
    pub max_tokens: u16,
    pub top_p_permille: u16,
    pub messages: Vec<ChatMessage>,
}

/// `r` is the request for this system message and prompt: the fixed model,
/// token ceiling and sampling, then the system message and the user's prompt.
pub open spec fn is_request_for(r: CompletionRequest, system: Seq<char>, prompt: Seq<char>) -> bool {
    &&& r.model@ == model_id()
    &&& r.max_tokens == MAX_TOKENS
    &&& r.top_p_permille == TOP_P_PERMILLE
    &&& r.messages@.len() == 2
    &&& r.messages@[0].role == Role::System
    &&& r.messages@[0].content@ == system
    &&& r.messages@[1].role == Role::User
    &&& r.messages@[1].content@ == prompt
}

/// Builds the request that carries `system` and then `prompt`.
pub fn build_request(system: String, prompt: String) -> (r: CompletionRequest)
    ensures
        is_request_for(r, system@, prompt@),
{
    let mut messages: Vec<ChatMessage> = Vec::new();
    messages.push(ChatMessage { role: Role::System, content: system });
    messages.push(ChatMessage { role: Role::User, content: prompt });
    CompletionRequest {
        model: "gpt-3.5-turbo".to_owned(),
        max_tokens: MAX_TOKENS,
        top_p_permille: TOP_P_PERMILLE,
        messages,
    }
}

/// The answer read from the upstream's choices, each given by its text if
/// it has one: the last choice is taken, which for the usual single choice
/// is the only one.
pub open spec fn content_of(choices: Seq<Option<String>>) -> Result<String, GatewayError> {
    if choices.len() == 0 {
        Err(GatewayError::NoChoices)
    } else {
        match choices.last() {
            Some(c) => Ok(c),
            None => Err(GatewayError::NoContent),
        }
    }
}

/// Reads the answer out of the upstream's choices.
pub fn take_content(choices: Vec<Option<String>>) -> (r: Result<String, GatewayError>)
    ensures
        r == content_of(choices@),
{
    let mut choices = choices;
    match choices.pop() {
        None => Err(GatewayError::NoChoices),
        Some(None) => Err(GatewayError::NoContent),
        Some(Some(c)) => Ok(c),
    }
}

} // verus!
