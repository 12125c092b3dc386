use enchanter_core::protocol::message::{ChatMessage, Role};

#[test]
fn role_display() {
    assert_eq!(Role::System.to_string(), "system");
    assert_eq!(Role::User.to_string(), "user");
    assert_eq!(Role::Assistant.to_string(), "assistant");
    assert_eq!(Role::Tool.to_string(), "tool");
}

#[test]
fn role_serializes_lowercase() {
    assert_eq!(serde_json::to_string(&Role::User.to_string()).unwrap(), r#""user""#);
    assert_eq!(
        serde_json::to_string(&Role::Assistant.to_string()).unwrap(),
        r#""assistant""#
    );
}

#[test]
fn convenience_constructors() {
    let msg = ChatMessage::user("Hello!");
    assert_eq!(msg.role, Role::User);
    assert_eq!(msg.content, "Hello!");
    assert!(msg.tool_call_id.is_none());
}

#[test]
fn tool_message_carries_call_id() {
    let msg = ChatMessage::tool("call_abc123", r#"{"result": 42}"#);
    assert_eq!(msg.role, Role::Tool);
    assert_eq!(msg.tool_call_id.as_deref(), Some("call_abc123"));
}

#[test]
fn provider_test_message_constructors() {
    let user = ChatMessage::user("Hello, how are you?");
    let assistant = ChatMessage::assistant("I'm doing well, thank you for asking.");
    let system = ChatMessage::system("This is a test system message.");

    assert_eq!(user.role, Role::User);
    assert_eq!(assistant.role, Role::Assistant);
    assert_eq!(system.role, Role::System);
}

#[test]
fn provider_types_test_message_constructors() {
    let sys = ChatMessage::system("You are helpful.");
    let usr = ChatMessage::user("Hello!");
    let ast = ChatMessage::assistant("Hi there!");
    let tol = ChatMessage::tool("call_0", "result");

    assert_eq!(sys.role, Role::System);
    assert_eq!(usr.role, Role::User);
    assert_eq!(ast.role, Role::Assistant);
    assert_eq!(tol.role, Role::Tool);
    assert_eq!(usr.content, "Hello!");
}

#[test]
fn message_clone_keeps_every_field() {
    let msg = ChatMessage::tool("call_9", "done");
    let copy = msg.clone();
    assert_eq!(copy, msg);
    assert_eq!(copy.content, "done");
    assert_eq!(copy.tool_call_id.as_deref(), Some("call_9"));
}

#[test]
fn test_role_serialization_lowercase() {
    assert_eq!(serde_json::to_string(&Role::User.to_string()).unwrap(), "\"user\"");
    assert_eq!(
        serde_json::to_string(&Role::Assistant.to_string()).unwrap(),
        "\"assistant\""
    );
    assert_eq!(serde_json::to_string(&Role::System.to_string()).unwrap(), "\"system\"");
}

#[test]
fn test_role_serializes_lowercase() {
    assert_eq!(serde_json::to_string(&Role::User.to_string()).unwrap(), "\"user\"");
    assert_eq!(serde_json::to_string(&Role::System.to_string()).unwrap(), "\"system\"");
    assert_eq!(
        serde_json::to_string(&Role::Assistant.to_string()).unwrap(),
        "\"assistant\""
    );
    assert_eq!(serde_json::to_string(&Role::Tool.to_string()).unwrap(), "\"tool\"");
}

#[test]
fn role_names_read_back() {
    for role in [Role::User, Role::Assistant, Role::System, Role::Tool] {
        assert_eq!(Role::from_name(&role.to_string()), Some(role));
    }
    assert_eq!(Role::from_name("User"), None);
    assert_eq!(Role::from_name(""), None);
}
