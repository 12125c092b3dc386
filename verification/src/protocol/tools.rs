use vstd::prelude::*;

use crate::protocol::wire::{lemma_wire_lookup_absent, lemma_wire_lookup_first, member, wire_lookup, WireValue};

verus! {

/// `serde_json::Value`: a JSON schema or argument object, carried through unread.
#[verifier::external_type_specification]
#[verifier::external_body]
pub struct ExJsonValue(serde_json::Value);

/// `Clone` of `serde_json::Value`, which is derived: the copy is the same JSON value.
pub assume_specification[ <serde_json::Value as Clone>::clone ](value: &serde_json::Value) -> (copy: serde_json::Value)
    ensures
        copy == *value,
;

/// What `serde_json::from_str::<serde_json::Value>` gives for a text: the document it
/// holds, or the display text of the error.
pub uninterp spec fn json_parse(text: Seq<char>) -> Result<serde_json::Value, Seq<char>>;

/// Reads JSON text with `serde_json::from_str::<serde_json::Value>`: the contract says
/// that the document read, or the error's display text, is the one that `json_parse`
/// names for the text.
#[verifier::external_body]
pub(crate) fn parse_json_text(text: &str) -> (parsed: Result<serde_json::Value, String>)
    ensures
        match parsed {
            Ok(document) => json_parse(text@) == Ok::<serde_json::Value, Seq<char>>(document),
            Err(message) => json_parse(text@) == Err::<serde_json::Value, Seq<char>>(message@),
        },
{
    match serde_json::from_str::<serde_json::Value>(text) {
        Ok(value) => Ok(value),
        Err(error) => Err(error.to_string()),
    }
}

/// The declaration of a callable function: its name, what it does, and the
/// JSON schema of its parameters.
#[derive(Debug, PartialEq)]
pub struct FunctionSpec {
    pub name: String,
    pub description: String,
    pub parameters: serde_json::Value,
}

impl Clone for FunctionSpec {
    fn clone(&self) -> (copy: Self)
        ensures
            copy == *self,
    {
        FunctionSpec {
            name: self.name.clone(),
            description: self.description.clone(),
            parameters: self.parameters.clone(),
        }
    }
}

/// A tool that a model may call.
#[derive(Debug, PartialEq)]
pub enum Tool {
    Function { function: FunctionSpec },
}

impl Clone for Tool {
    fn clone(&self) -> (copy: Self)
        ensures
            copy == *self,
    {
        match self {
            Tool::Function { function } => Tool::Function { function: function.clone() },
        }
    }
}

/// The name of a tool's function.
pub open spec fn tool_name(tool: Tool) -> Seq<char> {
    match tool {
        Tool::Function { function } => function.name@,
    }
}

/// The description of a tool's function.
pub open spec fn tool_description(tool: Tool) -> Seq<char> {
    match tool {
        Tool::Function { function } => function.description@,
    }
}

impl Tool {
    /// A function tool with the given name, description and parameter schema.
    pub fn function(name: &str, description: &str, parameters: serde_json::Value) -> (tool: Self)
        ensures
            tool_name(tool) == name@,
            tool_description(tool) == description@,
            tool->function.parameters == parameters,
    {
        Tool::Function {
            function: FunctionSpec {
                name: name.to_string(),
                description: description.to_string(),
                parameters,
            },
        }
    }

    pub fn name(&self) -> (name: &str)
        ensures
            name@ == tool_name(*self),
    {
        match self {
            Tool::Function { function } => function.name.as_str(),
        }
    }

    pub fn description(&self) -> (description: &str)
        ensures
            description@ == tool_description(*self),
    {
        match self {
            Tool::Function { function } => function.description.as_str(),
        }
    }
}

/// How the model may pick among the offered tools.
#[derive(Debug, PartialEq)]
pub enum ToolChoice {
    Auto,
    Required,
    /// Offer no tool (`none` on the wire).
    Disabled,
    /// Call exactly the named function.
    Function(String),
}

impl Clone for ToolChoice {
    fn clone(&self) -> (copy: Self)
        ensures
            copy == *self,
    {
        match self {
            ToolChoice::Auto => ToolChoice::Auto,
            ToolChoice::Required => ToolChoice::Required,
            ToolChoice::Disabled => ToolChoice::Disabled,
            ToolChoice::Function(name) => ToolChoice::Function(name.clone()),
        }
    }
}

/// The `{"name": ...}` object that names a forced function.
#[derive(Debug, PartialEq)]
pub struct ToolChoiceFunction {
    pub name: String,
}

/// Why a JSON value is not a tool choice.
#[derive(Debug, PartialEq)]
pub enum ToolChoiceError {
    /// A string other than `auto`, `required` or `none`.
    UnknownVariant(String),
    /// An object without a string at `function.name`.
    MissingFunctionName,
    /// Neither a string nor an object.
    NotStringOrObject,
}

/// The text of a tool-choice decoding error.
pub open spec fn tool_choice_error_text(error: ToolChoiceError) -> Seq<char> {
    match error {
        ToolChoiceError::UnknownVariant(v) => "unknown variant `"@ + v@
            + "`, expected one of `auto`, `required`, `none`"@,
        ToolChoiceError::MissingFunctionName => "missing field `function.name`"@,
        ToolChoiceError::NotStringOrObject => "expected string or object"@,
    }
}

impl ToolChoiceError {
    /// The error's message.
    pub fn message(&self) -> (text: String)
        ensures
            text@ == tool_choice_error_text(*self),
    {
        match self {
            ToolChoiceError::UnknownVariant(v) => {
                let mut text = String::from_str("unknown variant `");
                text.append(v.as_str());
                text.append("`, expected one of `auto`, `required`, `none`");
                text
            },
            ToolChoiceError::MissingFunctionName => String::from_str("missing field `function.name`"),
            ToolChoiceError::NotStringOrObject => String::from_str("expected string or object"),
        }
    }
}

/// The tool choice that a JSON value denotes: one of the words `auto`, `required`,
/// `none`, or an object whose `function.name` is a string.
pub open spec fn tool_choice_from_wire(value: WireValue) -> Result<ToolChoice, ToolChoiceError> {
    match value {
        WireValue::Text(word) => {
            if word@ == "auto"@ {
                Ok(ToolChoice::Auto)
            } else if word@ == "required"@ {
                Ok(ToolChoice::Required)
            } else if word@ == "none"@ {
                Ok(ToolChoice::Disabled)
            } else {
                Err(ToolChoiceError::UnknownVariant(word))
            }
        },
        WireValue::Object(members) => match wire_lookup(members@, "function"@) {
            Some(WireValue::Object(inner)) => match wire_lookup(inner@, "name"@) {
                Some(WireValue::Text(name)) => Ok(ToolChoice::Function(name)),
                _ => Err(ToolChoiceError::MissingFunctionName),
            },
            _ => Err(ToolChoiceError::MissingFunctionName),
        },
        _ => Err(ToolChoiceError::NotStringOrObject),
    }
}

/// `value` is the JSON encoding of `choice`: the bare word for `auto`, `required`
/// and `none`, and `{"type": "function", "function": {"name": <name>}}` to force a
/// function.
pub open spec fn tool_choice_wire_form(choice: ToolChoice, value: WireValue) -> bool {
    match choice {
        ToolChoice::Auto => value matches WireValue::Text(w) && w@ == "auto"@,
        ToolChoice::Required => value matches WireValue::Text(w) && w@ == "required"@,
        ToolChoice::Disabled => value matches WireValue::Text(w) && w@ == "none"@,
        ToolChoice::Function(name) => {
            &&& value matches WireValue::Object(members)
            &&& members@.len() == 2
            &&& members@[0].0@ == "type"@
            &&& members@[0].1 matches WireValue::Text(t) && t@ == "function"@
            &&& members@[1].0@ == "function"@
            &&& members@[1].1 matches WireValue::Object(inner)
            &&& inner@.len() == 1
            &&& inner@[0].0@ == "name"@
            &&& inner@[0].1 == WireValue::Text(name)
        },
    }
}

impl ToolChoice {
    /// Force the model to call the named function.
    pub fn force(name: &str) -> (choice: Self)
        ensures
            choice matches ToolChoice::Function(n) && n@ == name@,
    {
        ToolChoice::Function(name.to_string())
    }

    /// The JSON encoding of this choice.
    pub fn to_wire(&self) -> (value: WireValue)
        ensures
            tool_choice_wire_form(*self, value),
    {
        match self {
            ToolChoice::Auto => WireValue::Text(String::from_str("auto")),
            ToolChoice::Required => WireValue::Text(String::from_str("required")),
            ToolChoice::Disabled => WireValue::Text(String::from_str("none")),
            ToolChoice::Function(name) => {
                let mut inner: Vec<(String, WireValue)> = Vec::new();
                inner.push((String::from_str("name"), WireValue::Text(name.clone())));
                let mut members: Vec<(String, WireValue)> = Vec::new();
                members.push((String::from_str("type"), WireValue::Text(String::from_str("function"))));
                members.push((String::from_str("function"), WireValue::Object(inner)));
                WireValue::Object(members)
            },
        }
    }

    /// The tool choice that a JSON value denotes, or why it denotes none.
    pub fn from_wire(value: &WireValue) -> (choice: Result<ToolChoice, ToolChoiceError>)
        ensures
            choice == tool_choice_from_wire(*value),
    {
        match value {
            WireValue::Text(word) => {
                if *word == String::from_str("auto") {
                    Ok(ToolChoice::Auto)
                } else if *word == String::from_str("required") {
                    Ok(ToolChoice::Required)
                } else if *word == String::from_str("none") {
                    Ok(ToolChoice::Disabled)
                } else {
                    Err(ToolChoiceError::UnknownVariant(word.clone()))
                }
            },
            WireValue::Object(members) => {
                match member(members, &String::from_str("function")) {
                    Some(WireValue::Object(inner)) => match member(inner, &String::from_str("name")) {
                        Some(WireValue::Text(name)) => Ok(ToolChoice::Function(name.clone())),
                        _ => Err(ToolChoiceError::MissingFunctionName),
                    },
                    _ => Err(ToolChoiceError::MissingFunctionName),
                }
            },
            _ => Err(ToolChoiceError::NotStringOrObject),
        }
    }
}

/// Decoding the encoding of a tool choice gives the choice back.
pub proof fn lemma_tool_choice_wire_round_trip(choice: ToolChoice, value: WireValue)
    requires
        tool_choice_wire_form(choice, value),
    ensures
        tool_choice_from_wire(value) == Ok::<ToolChoice, ToolChoiceError>(choice),
{
    reveal_strlit("auto");
    reveal_strlit("required");
    reveal_strlit("none");
    reveal_strlit("function");
    reveal_strlit("type");
    reveal_strlit("name");
    if choice is Disabled {
        assert("none"@[0] != "auto"@[0]);
        assert("none"@ != "auto"@);
    }
    if choice is Required {
        assert("required"@.len() != "auto"@.len());
    }
    if let ToolChoice::Function(name) = choice {
        if let WireValue::Object(members) = value {
            let m = members@;
            assert(m[0].0@.len() == 4);
            assert(m[0].0@ != "function"@);
            assert(m.drop_first()[0] == m[1]);
            assert(m.drop_first().len() > 0);
            assert(wire_lookup(m.drop_first(), "function"@) == Some(m[1].1));
            assert(wire_lookup(m, "function"@) == Some(m[1].1));
            if let WireValue::Object(inner) = m[1].1 {
                assert(wire_lookup(inner@, "name"@) == Some(inner@[0].1));
            }
        }
    }
}

/// Decoding reads an object's members by key, whatever their order: when the first
/// member keyed `function` is an object whose first member keyed `name` is a
/// string, the choice forces that function.
pub proof fn lemma_from_wire_reads_members_by_key(
    members: Vec<(String, WireValue)>,
    i: int,
    inner: Vec<(String, WireValue)>,
    j: int,
    name: String,
)
    requires
        0 <= i < members@.len(),
        members@[i].0@ == "function"@,
        forall|k: int| 0 <= k < i ==> (#[trigger] members@[k]).0@ != "function"@,
        members@[i].1 == WireValue::Object(inner),
        0 <= j < inner@.len(),
        inner@[j].0@ == "name"@,
        forall|k: int| 0 <= k < j ==> (#[trigger] inner@[k]).0@ != "name"@,
        inner@[j].1 == WireValue::Text(name),
    ensures
        tool_choice_from_wire(WireValue::Object(members)) == Ok::<ToolChoice, ToolChoiceError>(
            ToolChoice::Function(name),
        ),
{
    lemma_wire_lookup_first(members@, "function"@, i);
    lemma_wire_lookup_first(inner@, "name"@, j);
}

/// An object without a member keyed `function` names no function.
pub proof fn lemma_from_wire_needs_function_member(members: Vec<(String, WireValue)>)
    requires
        forall|k: int| 0 <= k < members@.len() ==> (#[trigger] members@[k]).0@ != "function"@,
    ensures
        tool_choice_from_wire(WireValue::Object(members)) == Err::<ToolChoice, ToolChoiceError>(
            ToolChoiceError::MissingFunctionName,
        ),
{
    lemma_wire_lookup_absent(members@, "function"@);
}

/// A string decodes to `auto`, `required` or `none` by its exact text, and any other
/// text is an unknown variant that quotes it.
pub proof fn lemma_from_wire_reads_words(word: String)
    ensures
        (tool_choice_from_wire(WireValue::Text(word)) == Ok::<ToolChoice, ToolChoiceError>(ToolChoice::Auto))
            == (word@ == "auto"@),
        (tool_choice_from_wire(WireValue::Text(word)) == Ok::<ToolChoice, ToolChoiceError>(
            ToolChoice::Required,
        )) == (word@ == "required"@),
        (tool_choice_from_wire(WireValue::Text(word)) == Ok::<ToolChoice, ToolChoiceError>(
            ToolChoice::Disabled,
        )) == (word@ == "none"@),
        (word@ != "auto"@ && word@ != "required"@ && word@ != "none"@) ==> tool_choice_from_wire(
            WireValue::Text(word),
        ) == Err::<ToolChoice, ToolChoiceError>(ToolChoiceError::UnknownVariant(word)),
{
    reveal_strlit("auto");
    reveal_strlit("required");
    reveal_strlit("none");
    assert("none"@[0] != "auto"@[0]);
    assert("required"@.len() != "auto"@.len());
    assert("required"@.len() != "none"@.len());
}

/// The function that a tool call names, with its arguments as JSON text.
#[derive(Debug, PartialEq)]
pub struct ToolCallFunction {
    pub name: String,
    pub arguments: String,
}

impl Clone for ToolCallFunction {
    fn clone(&self) -> (copy: Self)
        ensures
            copy == *self,
    {
        ToolCallFunction { name: self.name.clone(), arguments: self.arguments.clone() }
    }
}

/// A call of a tool, as a model requests it.
#[derive(Debug, PartialEq)]
pub struct ToolCall {
    pub id: String,
    /// The call's `type` on the wire (always `function` today).
    pub kind: String,
    pub function: ToolCallFunction,
}

impl Clone for ToolCall {
    fn clone(&self) -> (copy: Self)
        ensures
            copy == *self,
    {
        ToolCall { id: self.id.clone(), kind: self.kind.clone(), function: self.function.clone() }
    }
}

/// The message for arguments of `tool` that do not parse, given the parser's message.
pub open spec fn argument_error_text(tool: Seq<char>, cause: Seq<char>) -> Seq<char> {
    "failed to parse arguments for '"@ + tool + "': "@ + cause
}

impl ToolCall {
    /// The call's arguments read as JSON, or a message that names the tool and
    /// quotes the parser.
    pub fn parse_arguments(&self) -> (arguments: Result<serde_json::Value, String>)
        ensures
            match arguments {
                Ok(document) => json_parse(self.function.arguments@) == Ok::<serde_json::Value, Seq<char>>(
                    document,
                ),
                Err(message) => json_parse(self.function.arguments@) matches Err(cause)
                    && message@ == argument_error_text(self.function.name@, cause),
            },
    {
        match parse_json_text(self.function.arguments.as_str()) {
            Ok(value) => Ok(value),
            Err(cause) => Err(self.argument_error(cause.as_str())),
        }
    }

    /// The message for arguments of this call that could not be read, given the
    /// reader's message.
    pub fn argument_error(&self, cause: &str) -> (message: String)
        ensures
            message@ == argument_error_text(self.function.name@, cause@),
    {
        let mut message = String::from_str("failed to parse arguments for '");
        message.append(self.function.name.as_str());
        message.append("': ");
        message.append(cause);
        message
    }
}

} // verus!
