use enchanter_core::protocol::message::ChatMessage;
use enchanter_core::protocol::response::{ChatResponse, ChatStreamChunk};

fn make_response(finish_reason: &str) -> ChatResponse {
    ChatResponse {
        message: ChatMessage::assistant("Hello!"),
        finish_reason: Some(finish_reason.to_string()),
        usage: None,
        tool_calls: Vec::new(),
    }
}

#[test]
fn is_complete_stop() {
    assert!(make_response("stop").is_complete());
    assert!(!make_response("length").is_complete());
}

#[test]
fn is_tool_call() {
    assert!(make_response("tool_calls").is_tool_call());
    assert!(!make_response("stop").is_tool_call());
}

#[test]
fn content_accessor() {
    let r = make_response("stop");
    assert_eq!(r.content(), "Hello!");
}

#[test]
fn stream_chunk_is_final() {
    let chunk = ChatStreamChunk {
        delta: "".to_string(),
        finish_reason: Some("stop".to_string()),
    };
    assert!(chunk.is_final());

    let chunk = ChatStreamChunk {
        delta: "Hello".to_string(),
        finish_reason: None,
    };
    assert!(!chunk.is_final());
}

#[test]
fn no_finish_reason_is_neither_complete_nor_tool_call() {
    let mut r = make_response("stop");
    r.finish_reason = None;
    assert!(!r.is_complete());
    assert!(!r.is_tool_call());
    assert!(!make_response("tool_calls").is_complete());
    assert!(!make_response("STOP").is_complete());
}
