use vstd::prelude::*;
use crate::text::join2;

verus! {

/// One text block of a chat message.
#[derive(Debug)]
pub struct Content {
    /// The block's kind; always `text` here.
    pub content_type: String,
    pub text: String,
}

/// One role-tagged chat message.
#[derive(Debug)]
pub struct Message {
    pub role: String,
    pub content: Vec<Content>,
}

/// The payload of a chat-completion request. The sampling parameters are
/// kept in hundredths so that they are exact.
#[derive(Debug)]
pub struct ChatRequest {
    pub messages: Vec<Message>,
    pub temperature_hundredths: u32,
    pub top_p_hundredths: u32,
    pub max_tokens: u32,
}

/// The API version every request names.
pub open spec fn spec_api_version() -> Seq<char> {
    "2024-02-15-preview"@
}

/// The URL of the chat-completion operation of `deployment` at `endpoint`.
pub open spec fn spec_endpoint_url(endpoint: Seq<char>, deployment: Seq<char>) -> Seq<char> {
    endpoint + "/openai/deployments/"@ + deployment + "/chat/completions?api-version="@
        + spec_api_version()
}

/// The URL that the request is posted to.
pub fn endpoint_url(endpoint: &str, deployment: &str) -> (r: String)
    ensures
        r@ == spec_endpoint_url(endpoint@, deployment@),
{
    let mut s = join2(endpoint, "/openai/deployments/");
    s.append(deployment);
    s.append("/chat/completions?api-version=");
    s.append("2024-02-15-preview");
    s
}

/// Whether `m` is a message with the given role and a single text block.
pub open spec fn is_text_message(m: Message, role: Seq<char>, text: Seq<char>) -> bool {
    &&& m.role@ == role
    &&& m.content@.len() == 1
    &&& m.content@[0].content_type@ == "text"@
    &&& m.content@[0].text@ == text
}

/// Whether `r` is the request for the given system prompt and user input:
/// the system message, then the user message, with the fixed sampling
/// parameters (temperature 0.70, top-p 0.95, at most 16384 output tokens).
pub open spec fn is_request_for(r: ChatRequest, system: Seq<char>, input: Seq<char>) -> bool {
    &&& r.messages@.len() == 2
    &&& is_text_message(r.messages@[0], "system"@, system)
    &&& is_text_message(r.messages@[1], "user"@, input)
    &&& r.temperature_hundredths == 70
    &&& r.top_p_hundredths == 95
    &&& r.max_tokens == 16384
}

fn text_message(role: &str, text: String) -> (m: Message)
    ensures
        is_text_message(m, role@, text@),
{
    let mut content: Vec<Content> = Vec::new();
    content.push(Content { content_type: String::from_str("text"), text });
    Message { role: String::from_str(role), content }
}

/// Builds the request that carries `system` as the system prompt and `input`
/// as the user's message.
pub fn build_request(system: String, input: String) -> (r: ChatRequest)
    ensures
        is_request_for(r, system@, input@),
{
    let mut messages: Vec<Message> = Vec::new();
    messages.push(text_message("system", system));
    messages.push(text_message("user", input));
    ChatRequest { messages, temperature_hundredths: 70, top_p_hundredths: 95, max_tokens: 16384 }
}

} // verus!
