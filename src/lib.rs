//! A chat-style client for a generative-language service.
//!
//! The library holds the conversation state, builds request envelopes and
//! interprets responses; sending a request and decoding the reply is done by
//! the caller, which hands the outcome back to the conversation.
pub mod conversation;
pub mod error;
pub mod laws;
pub mod message;
pub mod response;

pub use conversation::Conversation;
pub use error::GeminiError;
pub use message::{Content, Part};
pub use response::{Candidate, GenerateContentRequest, GenerateContentResponse};
