use vstd::prelude::*;

verus! {

/// Why a tool call did not produce a result.
#[derive(Debug, PartialEq)]
pub enum ToolError {
    /// No tool of that name is registered.
    NotFound(String),
    /// The arguments are not valid JSON.
    InvalidArguments { tool: String, reason: String },
    /// The tool ran and failed.
    ExecutionFailed { tool: String, reason: String },
    /// The tool did not answer in time.
    TimedOut(String),
}

impl Clone for ToolError {
    fn clone(&self) -> (copy: Self)
        ensures
            copy == *self,
    {
        match self {
            ToolError::NotFound(name) => ToolError::NotFound(name.clone()),
            ToolError::InvalidArguments { tool, reason } => ToolError::InvalidArguments {
                tool: tool.clone(),
                reason: reason.clone(),
            },
            ToolError::ExecutionFailed { tool, reason } => ToolError::ExecutionFailed {
                tool: tool.clone(),
                reason: reason.clone(),
            },
            ToolError::TimedOut(name) => ToolError::TimedOut(name.clone()),
        }
    }
}

/// The tool that an error is about.
pub open spec fn erring_tool(error: ToolError) -> Seq<char> {
    match error {
        ToolError::NotFound(name) => name@,
        ToolError::InvalidArguments { tool, .. } => tool@,
        ToolError::ExecutionFailed { tool, .. } => tool@,
        ToolError::TimedOut(name) => name@,
    }
}

/// The human-readable text of an error.
pub open spec fn tool_error_text(error: ToolError) -> Seq<char> {
    match error {
        ToolError::NotFound(name) => "unknown tool: '"@ + name@ + "'"@,
        ToolError::InvalidArguments { tool, reason } => "invalid arguments for tool '"@ + tool@ + "': "@
            + reason@,
        ToolError::ExecutionFailed { tool, reason } => "tool '"@ + tool@ + "' failed: "@ + reason@,
        ToolError::TimedOut(name) => "tool '"@ + name@ + "' timed out"@,
    }
}

impl ToolError {
    /// The name of the tool involved; every error names one.
    pub fn tool_name(&self) -> (name: Option<&str>)
        ensures
            name matches Some(n) && n@ == erring_tool(*self),
    {
        match self {
            ToolError::NotFound(name) => Some(name.as_str()),
            ToolError::InvalidArguments { tool, .. } => Some(tool.as_str()),
            ToolError::ExecutionFailed { tool, .. } => Some(tool.as_str()),
            ToolError::TimedOut(name) => Some(name.as_str()),
        }
    }

    /// Whether retrying can help: every error but an unknown tool.
    pub fn is_recoverable(&self) -> (answer: bool)
        ensures
            answer == !(self is NotFound),
    {
        match self {
            ToolError::NotFound(_) => false,
            ToolError::InvalidArguments { .. } => true,
            ToolError::ExecutionFailed { .. } => true,
            ToolError::TimedOut(_) => true,
        }
    }

    /// The error's message.
    pub fn message(&self) -> (text: String)
        ensures
            text@ == tool_error_text(*self),
    {
        match self {
            ToolError::NotFound(name) => {
                let mut text = String::from_str("unknown tool: '");
                text.append(name.as_str());
                text.append("'");
                text
            },
            ToolError::InvalidArguments { tool, reason } => {
                let mut text = String::from_str("invalid arguments for tool '");
                text.append(tool.as_str());
                text.append("': ");
                text.append(reason.as_str());
                text
            },
            ToolError::ExecutionFailed { tool, reason } => {
                let mut text = String::from_str("tool '");
                text.append(tool.as_str());
                text.append("' failed: ");
                text.append(reason.as_str());
                text
            },
            ToolError::TimedOut(name) => {
                let mut text = String::from_str("tool '");
                text.append(name.as_str());
                text.append("' timed out");
                text
            },
        }
    }
}

} // verus!
