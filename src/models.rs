//! Plain records exchanged with the chat-completion API.
use vstd::prelude::*;

verus! {

/// An image reference inside a chat message.
pub struct ImageUrl {
    pub url: String,
    pub detail: String,
}

/// One piece of a chat message: plain text or an image reference.
pub enum Content {
    ImageUrl { image_url: ImageUrl },
    Text { text: String },
}

/// A chat message with its role and its content parts.
pub struct Message {
    pub role: String,
    pub content: Vec<Content>,
}

/// The outbound completion request. Its sampling temperature is always zero,
/// so the record carries no field for it.
pub struct ChatRequest {
    pub model: String,
    pub messages: Vec<Message>,
}

/// The message inside one completion choice.
pub struct MessageContent {
    pub content: String,
}

/// One completion choice.
pub struct Choice {
    pub message: MessageContent,
}

/// The part of a completion response that the service reads.
pub struct CompletionResponse {
    pub choices: Vec<Choice>,
}

/// The body of a failed API response, when it has the expected shape.
pub struct ApiError {
    pub error: String,
}

} // verus!
