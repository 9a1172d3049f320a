//! The conversation with the chat model: what is sent, and what is taken
//! from the answer.
//!
//! A request holds two messages: a fixed instruction in the system's role,
//! and after it the prompt in the user's role. Of the answer only its text
//! counts; an answer without text counts as the empty text.

use vstd::prelude::*;

verus! {

/// Who speaks in a message.
#[derive(Debug, Clone, Copy, PartialEq, Eq, Structural)]
pub enum Role {
    /// The instruction that frames the conversation.
    System,
    /// The one who asks.
    User,
}

/// The instruction that every request opens with.
pub const SYSTEM_INSTRUCTION: &'static str =
    "Very strictly follow the rules provided by the user in their request";

/// The conversation that carries `prompt`: the fixed instruction, then the
/// prompt, each with its role.
pub open spec fn conversation_of(prompt: Seq<char>) -> Seq<(Role, Seq<char>)> {
    seq![(Role::System, SYSTEM_INSTRUCTION@), (Role::User, prompt)]
}

/// `genai::chat::ChatRequest`: the request that the chat service takes, a
/// list of messages.
#[verifier::external_type_specification]
#[verifier::external_body]
pub struct ExChatRequest(genai::chat::ChatRequest);

/// `genai::chat::ChatResponse`: what the chat service answers.
#[verifier::external_type_specification]
#[verifier::external_body]
pub struct ExChatResponse(genai::chat::ChatResponse);

/// The messages that a request holds in its field `messages`, in their
/// order: of each its role and the text that is its content. Nothing is said
/// here of a request with a message of another role than these two, or with
/// a content that is no text: the library builds none.
pub uninterp spec fn request_messages(request: genai::chat::ChatRequest) -> Seq<(Role, Seq<char>)>;

/// The text that a request holds in its field `system`, apart from its
/// messages, if it holds one.
pub uninterp spec fn request_system(request: genai::chat::ChatRequest) -> Option<Seq<char>>;

/// Whether a request holds tools for the model to call, in its field
/// `tools`.
pub uninterp spec fn request_has_tools(request: genai::chat::ChatRequest) -> bool;

/// `ChatRequest::new` on a list of `ChatMessage::system(instruction)` and
/// `ChatMessage::user(prompt)`: the request holds these two messages in this
/// order, each with the role that its constructor names and the given text
/// as its content. `ChatRequest::new` sets the other two fields to `None`:
/// the request has no system text of its own and no tools.
#[verifier::external_body]
fn two_message_request(instruction: &str, prompt: String) -> (request: genai::chat::ChatRequest)
    ensures
        request_messages(request) == seq![(Role::System, instruction@), (Role::User, prompt@)],
        request_system(request) is None,
        !request_has_tools(request),
{
    genai::chat::ChatRequest::new(
        vec![genai::chat::ChatMessage::system(instruction), genai::chat::ChatMessage::user(prompt)],
    )
}

/// The text that an answer holds in its field `content`: the string inside
/// a content that is text, and `None` for any other content and for none.
pub uninterp spec fn response_text(response: genai::chat::ChatResponse) -> Option<Seq<char>>;

/// `ChatResponse::content_text_into_string`: it gives the string of the
/// answer's content where that content is text, unchanged, and `None` where
/// the content is of another kind or missing.
#[verifier::external_body]
pub(crate) fn content_text(response: genai::chat::ChatResponse) -> (text: Option<String>)
    ensures
        text matches Some(t) ==> response_text(response) == Some(t@),
        text is None ==> response_text(response) is None,
{
    response.content_text_into_string()
}

/// Returns the request that carries `prompt` to the chat model: the two
/// messages of the conversation and nothing besides.
pub fn chat_request(prompt: String) -> (request: genai::chat::ChatRequest)
    ensures
        request_messages(request) == conversation_of(prompt@),
        request_system(request) is None,
        !request_has_tools(request),
{
    two_message_request(SYSTEM_INSTRUCTION, prompt)
}

/// Returns the reply that an answer's text stands for: the text itself, and
/// the empty text where the answer had none.
pub fn reply_text(content: Option<String>) -> (reply: String)
    ensures
        content matches Some(text) ==> reply == text,
        content is None ==> reply@ == Seq::<char>::empty(),
{
    match content {
        Some(text) => text,
        None => String::new(),
    }
}

} // verus!
