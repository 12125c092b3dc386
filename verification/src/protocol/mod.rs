//! The OpenAI chat-completions protocol.

pub mod chat;
pub mod message;
pub mod response;
pub mod tools;
pub mod wire;

pub use chat::{ChatRequest, ChatRequestBuilder};
pub use message::{ChatMessage, Role};
pub use response::{ChatResponse, ChatStreamChunk, Usage};
pub use tools::{Tool, ToolCall, ToolChoice};
