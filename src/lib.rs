//! Validation, encoding, retry and response-shaping logic for a small service
//! that forwards a text prompt or an image upload to a chat-completion API and
//! relays the model's answer.
pub mod encoding;
pub mod error;
pub mod flows;
pub mod models;
pub mod outbound;
pub mod upload;
