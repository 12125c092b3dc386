//! Tools that a model can call: errors and the registry.

pub mod error;
pub mod registry;

pub use error::ToolError;
pub use registry::ToolRegistry;
