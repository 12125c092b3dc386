use enchanter_core::agent::{Agent, TurnStep};
use enchanter_core::protocol::message::{ChatMessage, Role};
use enchanter_core::protocol::response::ChatResponse;
use enchanter_core::protocol::tools::{Tool, ToolChoice};
use enchanter_core::provider::openai::OpenAiProvider;
use enchanter_core::tools::error::ToolError;

fn schema() -> serde_json::Value {
    serde_json::from_str(r#"{"type":"object"}"#).unwrap()
}

#[test]
fn request_without_tools_disables_tool_choice() {
    let agent: Agent<()> = Agent::from_openai(&OpenAiProvider::ollama());
    assert_eq!(agent.model(), "llama3.2");
    let request = agent.build_request(vec![ChatMessage::user("hi")]);
    assert_eq!(request.model, "llama3.2");
    assert_eq!(request.messages.len(), 1);
    assert_eq!(request.tools.map(|t| t.len()), Some(0));
    assert_eq!(request.tool_choice, Some(ToolChoice::Disabled));
}

#[test]
fn request_with_tools_lets_model_choose() {
    let mut agent: Agent<u8> = Agent::new("m");
    agent.register_tool(Tool::function("get_capital", "capitals", schema()), 1);
    assert_eq!(agent.registry().len(), 1);
    let request = agent.build_request(vec![ChatMessage::user("hi")]);
    let tools = request.tools.unwrap();
    assert_eq!(tools.len(), 1);
    assert_eq!(tools[0].name(), "get_capital");
    assert_eq!(request.tool_choice, Some(ToolChoice::Auto));
}

#[test]
fn follow_up_keeps_successes_in_order() {
    let response = ChatResponse {
        message: ChatMessage::assistant("Let me check."),
        finish_reason: Some("tool_calls".to_string()),
        usage: None,
        tool_calls: Vec::new(),
    };
    let results = vec![
        Ok(ChatMessage::tool("c1", "one")),
        Err(ToolError::NotFound("x".to_string())),
        Ok(ChatMessage::tool("c3", "three")),
    ];
    let messages = Agent::<u8>::follow_up(&response, results);
    assert_eq!(messages.len(), 3);
    assert_eq!(messages[0].role, Role::Assistant);
    assert_eq!(messages[0].content, "Let me check.");
    assert_eq!(messages[1].content, "one");
    assert_eq!(messages[2].content, "three");
}

#[test]
fn next_step_runs_tools_only_for_tool_calls() {
    let response = |reason: Option<&str>| ChatResponse {
        message: ChatMessage::assistant("x"),
        finish_reason: reason.map(str::to_string),
        usage: None,
        tool_calls: Vec::new(),
    };
    assert_eq!(Agent::<u8>::next_step(&response(Some("tool_calls"))), TurnStep::CallTools);
    assert_eq!(Agent::<u8>::next_step(&response(Some("stop"))), TurnStep::Answer);
    assert_eq!(Agent::<u8>::next_step(&response(None)), TurnStep::Answer);
}
