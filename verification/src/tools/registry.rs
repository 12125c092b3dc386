use vstd::prelude::*;

use crate::protocol::message::{ChatMessage, Role};
use crate::protocol::tools::{json_parse, parse_json_text, tool_name, Tool, ToolCall};
use crate::tools::error::ToolError;

verus! {

/// No two registered tools share a name.
pub open spec fn distinct_names<T>(entries: Seq<(Tool, T)>) -> bool {
    forall|i: int, j: int|
        0 <= i < entries.len() && 0 <= j < entries.len() && i != j ==> tool_name(
            #[trigger] entries[i].0,
        ) != tool_name(#[trigger] entries[j].0)
}

/// Some registered tool has this name.
pub open spec fn has_tool<T>(entries: Seq<(Tool, T)>, name: Seq<char>) -> bool {
    exists|i: int| 0 <= i < entries.len() && tool_name(#[trigger] entries[i].0) == name
}

/// Where the tool of this name stands, if one is registered.
pub open spec fn tool_index<T>(entries: Seq<(Tool, T)>, name: Seq<char>) -> Option<int> {
    if has_tool(entries, name) {
        Some(choose|i: int| 0 <= i < entries.len() && tool_name(#[trigger] entries[i].0) == name)
    } else {
        None
    }
}

/// The registered tool of this name, with its declaration.
pub open spec fn lookup_tool<T>(entries: Seq<(Tool, T)>, name: Seq<char>) -> Option<(Tool, T)> {
    match tool_index(entries, name) {
        Some(i) => Some(entries[i]),
        None => None,
    }
}

/// The registry after registering `tool` under its declaration `spec`: a tool of
/// the same name is replaced in its place; otherwise the tool comes last.
pub open spec fn after_register<T>(entries: Seq<(Tool, T)>, spec: Tool, tool: T) -> Seq<(Tool, T)> {
    match tool_index(entries, tool_name(spec)) {
        Some(i) => entries.update(i, (spec, tool)),
        None => entries.push((spec, tool)),
    }
}

/// `message` is the `Tool` message that answers call `id` with `output`.
pub open spec fn answers_call(message: ChatMessage, id: Seq<char>, output: Seq<char>) -> bool {
    &&& message.role == Role::Tool
    &&& message.content@ == output
    &&& message.tool_call_id matches Some(i) && i@ == id
}

/// Tools by name, each with the declaration that is offered to the model.
pub struct ToolRegistry<T> {
    entries: Vec<(Tool, T)>,
}

impl<T> View for ToolRegistry<T> {
    type V = Seq<(Tool, T)>;

    closed spec fn view(&self) -> Seq<(Tool, T)> {
        self.entries@
    }
}

impl<T> ToolRegistry<T> {
    #[verifier::type_invariant]
    spec fn names_are_distinct(&self) -> bool {
        distinct_names(self.entries@)
    }

    /// An empty registry.
    pub fn new() -> (registry: Self)
        ensures
            registry@ == Seq::<(Tool, T)>::empty(),
    {
        ToolRegistry { entries: Vec::new() }
    }

    /// Where the tool named `key` stands.
    fn position(&self, key: &String) -> (index: Option<usize>)
        ensures
            match index {
                Some(i) => tool_index(self@, key@) == Some(i as int),
                None => tool_index(self@, key@) is None,
            },
    {
        proof {
            use_type_invariant(self);
        }
        let mut i: usize = 0;
        while i < self.entries.len()
            invariant
                i <= self.entries@.len(),
                distinct_names(self.entries@),
                forall|j: int| 0 <= j < i ==> tool_name(#[trigger] self.entries@[j].0) != key@,
            decreases self.entries@.len() - i,
        {
            let found = match &self.entries[i].0 {
                Tool::Function { function } => function.name == *key,
            };
            if found {
                proof {
                    let entries = self.entries@;
                    assert(tool_name(entries[i as int].0) == key@);
                    assert(has_tool(entries, key@));
                    let c = choose|c: int| 0 <= c < entries.len() && tool_name(#[trigger] entries[c].0) == key@;
                    assert(c == i);
                }
                return Some(i);
            }
            i = i + 1;
        }
        None
    }

    /// Registers `tool` under the name of its declaration `spec`, replacing a tool of
    /// that name.
    pub fn register(&mut self, spec: Tool, tool: T)
        ensures
            final(self)@ == after_register(old(self)@, spec, tool),
            distinct_names(old(self)@),
            distinct_names(final(self)@),
    {
        proof {
            use_type_invariant(&*self);
        }
        let key = spec.name().to_string();
        let at = self.position(&key);
        let ghost before = self@;
        let mut entries: Vec<(Tool, T)> = Vec::new();
        std::mem::swap(&mut entries, &mut self.entries);
        proof {
            lemma_register_keeps_names_distinct(before, spec, tool);
        }
        match at {
            Some(i) => {
                entries.set(i, (spec, tool));
            },
            None => {
                entries.push((spec, tool));
            },
        }
        self.entries = entries;
    }

    /// Whether a tool of this name is registered.
    pub fn contains(&self, name: &str) -> (answer: bool)
        ensures
            answer == has_tool(self@, name@),
    {
        let key = name.to_string();
        self.position(&key).is_some()
    }

    /// The number of registered tools.
    pub fn len(&self) -> (count: usize)
        ensures
            count == self@.len(),
            distinct_names(self@),
    {
        proof {
            use_type_invariant(self);
        }
        self.entries.len()
    }

    /// Whether no tool is registered.
    pub fn is_empty(&self) -> (answer: bool)
        ensures
            answer == (self@.len() == 0),
    {
        self.entries.len() == 0
    }

    /// The tool registered under this name.
    pub fn get(&self, name: &str) -> (tool: Option<&T>)
        ensures
            match lookup_tool(self@, name@) {
                Some(entry) => tool == Some(&entry.1),
                None => tool is None,
            },
    {
        let key = name.to_string();
        match self.position(&key) {
            Some(i) => Some(&self.entries[i].1),
            None => None,
        }
    }

    /// The declarations of all registered tools, in registration order.
    pub fn to_protocol_tools(&self) -> (tools: Vec<Tool>)
        ensures
            tools@ == self@.map_values(|entry: (Tool, T)| entry.0),
    {
        let mut tools: Vec<Tool> = Vec::new();
        let mut i: usize = 0;
        while i < self.entries.len()
            invariant
                i <= self.entries@.len(),
                tools@ == self.entries@.take(i as int).map_values(|entry: (Tool, T)| entry.0),
            decreases self.entries@.len() - i,
        {
            tools.push(self.entries[i].0.clone());
            assert(self.entries@.take(i + 1) =~= self.entries@.take(i as int).push(self.entries@[i as int]));
            i = i + 1;
        }
        assert(self.entries@.take(i as int) =~= self.entries@);
        tools
    }

    /// The first half of running a call: the tool that it names and its arguments
    /// read as JSON (the document that `json_parse` names for them). Fails with
    /// `NotFound` when no tool has the name, else with `InvalidArguments` (quoting the
    /// parser) when the arguments are not JSON.
    pub fn resolve_call(&self, call: &ToolCall) -> (resolved: Result<(&T, serde_json::Value), ToolError>)
        ensures
            match lookup_tool(self@, call.function.name@) {
                None => resolved == Err::<(&T, serde_json::Value), ToolError>(
                    ToolError::NotFound(call.function.name),
                ),
                Some(entry) => match json_parse(call.function.arguments@) {
                    Err(cause) => resolved matches Err(ToolError::InvalidArguments { tool, reason })
                        && tool == call.function.name && reason@ == cause,
                    Ok(document) => resolved matches Ok((t, a)) && *t == entry.1 && a == document,
                },
            },
    {
        let tool = match self.get(call.function.name.as_str()) {
            Some(tool) => tool,
            None => {
                return Err(ToolError::NotFound(call.function.name.clone()));
            },
        };
        match parse_json_text(call.function.arguments.as_str()) {
            Ok(arguments) => Ok((tool, arguments)),
            Err(reason) => Err(
                ToolError::InvalidArguments { tool: call.function.name.clone(), reason },
            ),
        }
    }

    /// The second half of running a call: the tool's output becomes a `Tool`
    /// message that answers the call; a failure becomes `ExecutionFailed`.
    pub fn complete_call(call: &ToolCall, outcome: Result<String, String>) -> (answer: Result<ChatMessage, ToolError>)
        ensures
            match outcome {
                Ok(output) => answer matches Ok(message) && answers_call(message, call.id@, output@),
                Err(reason) => answer == Err::<ChatMessage, ToolError>(
                    ToolError::ExecutionFailed { tool: call.function.name, reason },
                ),
            },
    {
        match outcome {
            Ok(output) => Ok(ChatMessage::tool(call.id.as_str(), output.as_str())),
            Err(reason) => Err(
                ToolError::ExecutionFailed { tool: call.function.name.clone(), reason },
            ),
        }
    }
}

/// In a registry with distinct names, the tool at a named position is the one
/// that lookup finds.
proof fn lemma_lookup_at<T>(entries: Seq<(Tool, T)>, i: int)
    requires
        distinct_names(entries),
        0 <= i < entries.len(),
    ensures
        tool_index(entries, tool_name(entries[i].0)) == Some(i),
{
    let name = tool_name(entries[i].0);
    assert(has_tool(entries, name));
    let c = choose|c: int| 0 <= c < entries.len() && tool_name(#[trigger] entries[c].0) == name;
    assert(c == i);
}

/// Registering a tool makes it the one found under its name, leaves the tool of
/// every other name as it was, keeps the names distinct, and adds one entry
/// exactly when the name was new.
pub proof fn lemma_register_then_lookup<T>(entries: Seq<(Tool, T)>, spec: Tool, tool: T, other: Seq<char>)
    requires
        distinct_names(entries),
    ensures
        distinct_names(after_register(entries, spec, tool)),
        lookup_tool(after_register(entries, spec, tool), tool_name(spec)) == Some((spec, tool)),
        other != tool_name(spec) ==> lookup_tool(after_register(entries, spec, tool), other)
            == lookup_tool(entries, other),
        has_tool(after_register(entries, spec, tool), other) == (other == tool_name(spec) || has_tool(
            entries,
            other,
        )),
        after_register(entries, spec, tool).len() == entries.len() + (if has_tool(
            entries,
            tool_name(spec),
        ) {
            0int
        } else {
            1int
        }),
{
    let after = after_register(entries, spec, tool);
    let name = tool_name(spec);
    lemma_register_keeps_names_distinct(entries, spec, tool);
    let k: int = match tool_index(entries, name) {
        Some(k) => k,
        None => entries.len() as int,
    };
    assert(after[k] == (spec, tool));
    lemma_lookup_at(after, k);
    if has_tool(after, other) {
        let j = choose|j: int| 0 <= j < after.len() && tool_name(#[trigger] after[j].0) == other;
        lemma_lookup_at(after, j);
        if j != k {
            assert(after[j] == entries[j]);
            lemma_lookup_at(entries, j);
        }
    }
    if has_tool(entries, other) && other != name {
        let j = choose|j: int| 0 <= j < entries.len() && tool_name(#[trigger] entries[j].0) == other;
        assert(j != k);
        assert(after[j] == entries[j]);
        assert(tool_name(after[j].0) == other);
    }
}

impl<T> Default for ToolRegistry<T> {
    fn default() -> (registry: Self)
        ensures
            registry@ == Seq::<(Tool, T)>::empty(),
    {
        ToolRegistry::new()
    }
}

/// Registering keeps the names distinct.
proof fn lemma_register_keeps_names_distinct<T>(entries: Seq<(Tool, T)>, spec: Tool, tool: T)
    requires
        distinct_names(entries),
    ensures
        distinct_names(after_register(entries, spec, tool)),
{
    let after = after_register(entries, spec, tool);
    let name = tool_name(spec);
    match tool_index(entries, name) {
        Some(k) => {
            assert forall|i: int, j: int|
                0 <= i < after.len() && 0 <= j < after.len() && i != j implies tool_name(
                #[trigger] after[i].0,
            ) != tool_name(#[trigger] after[j].0) by {
                if i == k {
                    assert(tool_name(entries[k].0) == name);
                    assert(tool_name(entries[j].0) != tool_name(entries[k].0));
                } else if j == k {
                    assert(tool_name(entries[k].0) == name);
                    assert(tool_name(entries[i].0) != tool_name(entries[k].0));
                } else {
                    assert(after[i] == entries[i] && after[j] == entries[j]);
                }
            }
        },
        None => {
            assert forall|i: int, j: int|
                0 <= i < after.len() && 0 <= j < after.len() && i != j implies tool_name(
                #[trigger] after[i].0,
            ) != tool_name(#[trigger] after[j].0) by {
                if i == entries.len() {
                    assert(!has_tool(entries, name));
                    assert(tool_name(entries[j].0) != name);
                } else if j == entries.len() {
                    assert(!has_tool(entries, name));
                    assert(tool_name(entries[i].0) != name);
                } else {
                    assert(after[i] == entries[i] && after[j] == entries[j]);
                }
            }
        },
    }
}

} // verus!
