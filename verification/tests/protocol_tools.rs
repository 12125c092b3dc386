use enchanter_core::protocol::tools::{Tool, ToolCall, ToolCallFunction, ToolChoice, ToolChoiceError};
use enchanter_core::protocol::wire::WireValue;

fn weather_tool() -> Tool {
    let schema: serde_json::Value = serde_json::from_str(
        r#"{
            "type": "object",
            "properties": {
                "location": {
                    "type": "string",
                    "description": "City and country"
                }
            },
            "required": ["location"]
        }"#,
    )
    .unwrap();
    Tool::function("get_weather", "Get the current weather for a location.", schema)
}

/// The JSON value of a wire document, member for member.
fn to_json(value: &WireValue) -> serde_json::Value {
    match value {
        WireValue::Null => serde_json::Value::Null,
        WireValue::Bool(b) => serde_json::Value::Bool(*b),
        WireValue::Number(n) => serde_json::from_str(n).unwrap(),
        WireValue::Text(s) => serde_json::Value::String(s.clone()),
        WireValue::Array(items) => serde_json::Value::Array(items.iter().map(to_json).collect()),
        WireValue::Object(members) => serde_json::Value::Object(
            members.iter().map(|(k, v)| (k.clone(), to_json(v))).collect(),
        ),
    }
}

fn choice_json(choice: &ToolChoice) -> String {
    serde_json::to_string(&to_json(&choice.to_wire())).unwrap()
}

fn text(s: &str) -> WireValue {
    WireValue::Text(s.to_string())
}

fn call(arguments: &str) -> ToolCall {
    ToolCall {
        id: "call_abc123".to_string(),
        kind: "function".to_string(),
        function: ToolCallFunction {
            name: "get_weather".to_string(),
            arguments: arguments.to_string(),
        },
    }
}

#[test]
fn tool_name_and_description() {
    let tool = weather_tool();
    assert_eq!(tool.name(), "get_weather");
    assert_eq!(tool.description(), "Get the current weather for a location.");
}

#[test]
fn tool_choice_auto_serializes() {
    assert_eq!(choice_json(&ToolChoice::Auto), r#""auto""#);
}

#[test]
fn tool_choice_none_serializes() {
    assert_eq!(choice_json(&ToolChoice::Disabled), r#""none""#);
}

#[test]
fn tool_choice_required_serializes() {
    assert_eq!(choice_json(&ToolChoice::Required), r#""required""#);
}

#[test]
fn tool_choice_force_specific_function() {
    let choice = ToolChoice::force("get_weather");
    let json = choice_json(&choice);
    assert!(json.contains(r#""type":"function""#));
    assert!(json.contains(r#""name":"get_weather""#));
}

#[test]
fn tool_choice_wire_round_trip() {
    for choice in [
        ToolChoice::Auto,
        ToolChoice::Required,
        ToolChoice::Disabled,
        ToolChoice::force("get_weather"),
    ] {
        assert_eq!(ToolChoice::from_wire(&choice.to_wire()), Ok(choice.clone()));
    }
}

#[test]
fn tool_choice_decoding_errors() {
    let unknown = ToolChoice::from_wire(&text("sometimes"));
    assert_eq!(unknown, Err(ToolChoiceError::UnknownVariant("sometimes".to_string())));
    assert_eq!(
        unknown.unwrap_err().message(),
        "unknown variant `sometimes`, expected one of `auto`, `required`, `none`"
    );

    let no_name = WireValue::Object(vec![(
        "function".to_string(),
        WireValue::Object(vec![("name".to_string(), WireValue::Number("3".to_string()))]),
    )]);
    let missing = ToolChoice::from_wire(&no_name);
    assert_eq!(missing, Err(ToolChoiceError::MissingFunctionName));
    assert_eq!(missing.unwrap_err().message(), "missing field `function.name`");

    let wrong = ToolChoice::from_wire(&WireValue::Bool(true));
    assert_eq!(wrong, Err(ToolChoiceError::NotStringOrObject));
    assert_eq!(wrong.unwrap_err().message(), "expected string or object");

    let nested = WireValue::Object(vec![
        ("type".to_string(), text("function")),
        (
            "function".to_string(),
            WireValue::Object(vec![("name".to_string(), text("lookup"))]),
        ),
    ]);
    assert_eq!(ToolChoice::from_wire(&nested), Ok(ToolChoice::Function("lookup".to_string())));
}

#[test]
fn tool_call_parse_arguments() {
    let call = call(r#"{"location":"Paris, France"}"#);
    let args = call.parse_arguments().unwrap();
    assert_eq!(args["location"].as_str(), Some("Paris, France"));
}

#[test]
fn tool_call_parse_arguments_error() {
    let call = call("not valid json");
    assert!(call.parse_arguments().is_err());
}

#[test]
fn parse_arguments_error_names_the_tool_and_quotes_the_parser() {
    let call = call("not valid json");
    let cause = serde_json::from_str::<serde_json::Value>("not valid json")
        .unwrap_err()
        .to_string();
    assert_eq!(
        call.parse_arguments().unwrap_err(),
        format!("failed to parse arguments for 'get_weather': {cause}")
    );
}

#[test]
fn tool_clone_is_equal() {
    let tool = weather_tool();
    assert_eq!(tool.clone(), tool);
}

#[test]
fn parsed_arguments_are_the_document() {
    let c = call(r#"{"location":"Tokyo","days":[1,2]}"#);
    let expected: serde_json::Value =
        serde_json::from_str(r#"{"location":"Tokyo","days":[1,2]}"#).unwrap();
    assert_eq!(c.parse_arguments().unwrap(), expected);
    assert_eq!(
        c.argument_error("bad"),
        "failed to parse arguments for 'get_weather': bad"
    );
}
