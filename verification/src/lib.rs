//! Typed building blocks for agents that talk to OpenAI-compatible chat
//! endpoints: the chat protocol, provider-side decisions, a tool registry
//! and the agent's turn logic.

pub mod protocol;
pub mod tools;
pub mod provider;
pub mod agent;
pub mod prelude;
