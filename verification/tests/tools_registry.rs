use enchanter_core::protocol::message::Role;
use enchanter_core::protocol::tools::{Tool, ToolCall, ToolCallFunction};
use enchanter_core::tools::error::ToolError;
use enchanter_core::tools::registry::ToolRegistry;

fn schema() -> serde_json::Value {
    serde_json::from_str(r#"{"type":"object"}"#).unwrap()
}

fn call(name: &str, arguments: &str) -> ToolCall {
    ToolCall {
        id: "call_7".to_string(),
        kind: "function".to_string(),
        function: ToolCallFunction { name: name.to_string(), arguments: arguments.to_string() },
    }
}

#[test]
fn error_tool_name_and_recoverable() {
    let errors = [
        ToolError::NotFound("a".to_string()),
        ToolError::InvalidArguments { tool: "b".to_string(), reason: "r".to_string() },
        ToolError::ExecutionFailed { tool: "c".to_string(), reason: "r".to_string() },
        ToolError::TimedOut("d".to_string()),
    ];
    let names: Vec<&str> = errors.iter().map(|e| e.tool_name().unwrap()).collect();
    assert_eq!(names, vec!["a", "b", "c", "d"]);
    let recoverable: Vec<bool> = errors.iter().map(|e| e.is_recoverable()).collect();
    assert_eq!(recoverable, vec![false, true, true, true]);
}

#[test]
fn error_messages() {
    assert_eq!(ToolError::NotFound("x".to_string()).message(), "unknown tool: 'x'");
    assert_eq!(
        ToolError::InvalidArguments { tool: "x".to_string(), reason: "bad".to_string() }.message(),
        "invalid arguments for tool 'x': bad"
    );
    assert_eq!(
        ToolError::ExecutionFailed { tool: "x".to_string(), reason: "boom".to_string() }.message(),
        "tool 'x' failed: boom"
    );
    assert_eq!(ToolError::TimedOut("x".to_string()).message(), "tool 'x' timed out");
}

#[test]
fn register_replaces_tool_of_same_name() {
    let mut registry: ToolRegistry<u32> = ToolRegistry::new();
    assert!(registry.is_empty());
    registry.register(Tool::function("a", "first", schema()), 1);
    registry.register(Tool::function("b", "second", schema()), 2);
    assert_eq!(registry.len(), 2);
    registry.register(Tool::function("a", "again", schema()), 3);
    assert_eq!(registry.len(), 2);
    assert!(registry.contains("a"));
    assert!(!registry.contains("c"));
    assert_eq!(registry.get("a"), Some(&3));
    assert_eq!(registry.get("b"), Some(&2));
    assert_eq!(registry.get("c"), None);
    let tools = registry.to_protocol_tools();
    let names: Vec<&str> = tools.iter().map(|t| t.name()).collect();
    assert_eq!(names, vec!["a", "b"]);
    assert_eq!(tools[0].description(), "again");
}

#[test]
fn default_registry_is_empty() {
    let registry: ToolRegistry<u8> = ToolRegistry::default();
    assert_eq!(registry.len(), 0);
}

#[test]
fn resolve_call_outcomes() {
    let mut registry: ToolRegistry<u32> = ToolRegistry::new();
    registry.register(Tool::function("get_weather", "w", schema()), 9);

    assert_eq!(
        registry.resolve_call(&call("other", "{}")).err(),
        Some(ToolError::NotFound("other".to_string()))
    );

    let cause = serde_json::from_str::<serde_json::Value>("{oops").unwrap_err().to_string();
    assert_eq!(
        registry.resolve_call(&call("get_weather", "{oops")).err(),
        Some(ToolError::InvalidArguments { tool: "get_weather".to_string(), reason: cause })
    );

    let (tool, args) = registry.resolve_call(&call("get_weather", r#"{"city":"Oslo"}"#)).unwrap();
    assert_eq!(*tool, 9);
    assert_eq!(args["city"].as_str(), Some("Oslo"));
}

#[test]
fn complete_call_outcomes() {
    let c = call("get_weather", "{}");
    let message = ToolRegistry::<u32>::complete_call(&c, Ok("sunny".to_string())).unwrap();
    assert_eq!(message.role, Role::Tool);
    assert_eq!(message.content, "sunny");
    assert_eq!(message.tool_call_id.as_deref(), Some("call_7"));

    let failed = ToolRegistry::<u32>::complete_call(&c, Err("timeout".to_string()));
    assert_eq!(
        failed.err(),
        Some(ToolError::ExecutionFailed { tool: "get_weather".to_string(), reason: "timeout".to_string() })
    );
}
