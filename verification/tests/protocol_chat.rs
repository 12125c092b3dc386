use enchanter_core::protocol::chat::ChatRequest;
use enchanter_core::protocol::message::{ChatMessage, Role};
use enchanter_core::protocol::tools::{Tool, ToolChoice};

#[test]
fn chat_builder_basic() {
    let req = ChatRequest::builder("llama3.2")
        .system("You are helpful.")
        .user("Hello!")
        .build();

    assert_eq!(req.model, "llama3.2");
    assert_eq!(req.messages.len(), 2);
    assert_eq!(req.messages[0].role, Role::System);
    assert_eq!(req.messages[1].role, Role::User);
}

#[test]
fn chat_builder_optional_fields_absent_by_default() {
    let req = ChatRequest::builder("llama3.2").user("Hello!").build();

    assert!(req.temperature.is_none());
    assert!(req.max_tokens.is_none());
    assert!(req.top_p.is_none());
    assert!(req.stop.is_none());
    assert!(req.seed.is_none());
    assert!(req.tools.is_none());
    assert!(req.tool_choice.is_none());
}

#[test]
fn chat_builder_with_all_scalar_options() {
    let req = ChatRequest::builder("gpt-4o")
        .user("Hello!")
        .temperature(0.5f32.to_bits())
        .max_tokens(128)
        .top_p(0.9f32.to_bits())
        .seed(42)
        .build();

    assert_eq!(req.temperature.map(f32::from_bits), Some(0.5));
    assert_eq!(req.max_tokens, Some(128));
    assert_eq!(req.top_p.map(f32::from_bits), Some(0.9));
    assert_eq!(req.seed, Some(42));
}

#[test]
fn chat_builder_multiple_stop_sequences() {
    let req = ChatRequest::builder("gpt-4o")
        .user("Hello!")
        .stop("###")
        .stop("END")
        .build();

    assert_eq!(req.stop, Some(vec!["###".to_string(), "END".to_string()]));
}

#[test]
fn chat_builder_messages_bulk() {
    let history = vec![
        ChatMessage::user("First message"),
        ChatMessage::assistant("First reply"),
    ];

    let req = ChatRequest::builder("llama3.2")
        .messages(history)
        .user("Follow-up")
        .build();

    assert_eq!(req.messages.len(), 3);
    assert_eq!(req.messages[2].content, "Follow-up");
}

#[test]
fn test_chat_request_new() {
    let request = ChatRequest::new("test-model", vec![ChatMessage::user("Hello, how are you?")]);

    assert_eq!(request.model, "test-model");
    assert_eq!(request.messages.len(), 1);

    assert!(request.temperature.is_none());
    assert!(request.max_tokens.is_none());
}

#[test]
fn test_chat_request_defaults() {
    let req = ChatRequest::new("test-model", vec![ChatMessage::user("Hello!")]);

    assert_eq!(req.model, "test-model");
    assert_eq!(req.messages.len(), 1);
    assert!(req.temperature.is_none());
    assert!(req.max_tokens.is_none());
}

#[test]
fn builder_assistant_message_and_tools() {
    let schema: serde_json::Value = serde_json::from_str(r#"{"type":"object"}"#).unwrap();
    let req = ChatRequest::builder("m")
        .assistant("Earlier answer")
        .message(ChatMessage::tool("call_1", "42"))
        .tool(Tool::function("a", "first", schema.clone()))
        .tools(vec![Tool::function("b", "second", schema)])
        .tool_choice(ToolChoice::Required)
        .build();

    assert_eq!(req.messages.len(), 2);
    assert_eq!(req.messages[0].role, Role::Assistant);
    assert_eq!(req.messages[0].content, "Earlier answer");
    assert_eq!(req.messages[1].role, Role::Tool);
    let tools = req.tools.unwrap();
    assert_eq!(tools.len(), 2);
    assert_eq!(tools[0].name(), "a");
    assert_eq!(tools[1].name(), "b");
    assert_eq!(req.tool_choice, Some(ToolChoice::Required));
}

#[test]
fn builder_empty_tool_list_is_present() {
    let req = ChatRequest::builder("m").tools(Vec::new()).build();
    assert_eq!(req.tools.map(|t| t.len()), Some(0));
}
