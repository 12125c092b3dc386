//! The types that most users need.

pub use crate::agent::Agent;
pub use crate::protocol::{
    ChatMessage, ChatRequest, ChatResponse, ChatStreamChunk, Role, Tool, ToolCall, ToolChoice, Usage,
};
pub use crate::provider::{MockProvider, MockStreamProvider, OpenAiProvider, Provider};
pub use crate::tools::{ToolError, ToolRegistry};
