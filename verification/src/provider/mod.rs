//! What a provider decides: the mock providers' answers and the OpenAI-compatible
//! provider's endpoint, request body and reading of replies.

pub mod mock;
pub mod openai;

pub use mock::{MockProvider, MockStreamProvider};
pub use openai::{OpenAiProvider, Provider};
