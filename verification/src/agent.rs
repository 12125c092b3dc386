//! The agent's decisions around one conversational turn: the request it sends,
//! and the messages it sends back after running the tools that the model asked for.

use vstd::prelude::*;

use crate::protocol::chat::ChatRequest;
use crate::protocol::message::{ChatMessage, Role};
use crate::protocol::response::{finished_with, ChatResponse};
use crate::protocol::tools::{Tool, ToolChoice};
use crate::provider::openai::OpenAiProvider;
use crate::tools::error::ToolError;
use crate::tools::registry::{after_register, ToolRegistry};

verus! {

/// The messages of the tool calls that succeeded, in call order.
pub open spec fn successes(results: Seq<Result<ChatMessage, ToolError>>) -> Seq<ChatMessage>
    decreases results.len(),
{
    if results.len() == 0 {
        Seq::empty()
    } else {
        let rest = successes(results.drop_last());
        match results.last() {
            Ok(message) => rest.push(message),
            Err(_) => rest,
        }
    }
}

/// The follow-up answers are exactly the messages of the successful calls, each
/// once and in call order: every `Ok` result is kept and every `Err` dropped, so
/// there are as many answers as successes.
pub proof fn lemma_successes_keep_every_ok(results: Seq<Result<ChatMessage, ToolError>>)
    ensures
        successes(results) == results.filter_map(|r: Result<ChatMessage, ToolError>| match r {
            Ok(m) => Some(m),
            Err(_) => None::<ChatMessage>,
        }),
        successes(results).len() == results.filter(|r: Result<ChatMessage, ToolError>| r is Ok).len(),
    decreases results.len(),
{
    reveal_with_fuel(Seq::<_>::filter, 1);
    if results.len() > 0 {
        lemma_successes_keep_every_ok(results.drop_last());
        let rest = results.drop_last().filter_map(|r: Result<ChatMessage, ToolError>| match r {
            Ok(m) => Some(m),
            Err(_) => None::<ChatMessage>,
        });
        match results.last() {
            Ok(m) => {
                assert(rest.push(m) =~= rest + seq![m]);
            },
            Err(_) => {},
        }
    }
}

/// A response leads to running tools exactly when the model stopped with the
/// reason `tool_calls`; any other reason, or none, hands the answer back.
pub proof fn lemma_step_after_reads_tool_calls(response: ChatResponse)
    ensures
        (step_after(response) == TurnStep::CallTools) == (response.finish_reason matches Some(reason)
            && reason@ == "tool_calls"@),
        step_after(response) == TurnStep::CallTools || step_after(response) == TurnStep::Answer,
{
}

/// With no tool the model is offered none; with any number of tools, one or many,
/// it may choose freely whether to call one.
pub proof fn lemma_choice_for_counts(tool_count: nat)
    ensures
        tool_count == 0 ==> choice_for(tool_count) == ToolChoice::Disabled,
        tool_count > 0 ==> choice_for(tool_count) == ToolChoice::Auto,
{
}

/// The tool choice that goes with a set of offered tools: none when there is no
/// tool, otherwise the model's pick.
pub open spec fn choice_for(tool_count: nat) -> ToolChoice {
    if tool_count == 0 {
        ToolChoice::Disabled
    } else {
        ToolChoice::Auto
    }
}

/// What the agent does with a response.
#[derive(Debug, Clone, Copy, PartialEq, Eq, Structural)]
pub enum TurnStep {
    /// Hand the response to the caller.
    Answer,
    /// Run the tool calls that the response asks for, then ask again.
    CallTools,
}

/// The step that follows a response: run tools exactly when the model stopped to
/// call them.
pub open spec fn step_after(response: ChatResponse) -> TurnStep {
    if finished_with(response.finish_reason, "tool_calls"@) {
        TurnStep::CallTools
    } else {
        TurnStep::Answer
    }
}

/// A model and the tools it may call.
pub struct Agent<T> {
    model: String,
    registry: ToolRegistry<T>,
}

impl<T> Agent<T> {
    pub closed spec fn spec_model(&self) -> Seq<char> {
        self.model@
    }

    pub closed spec fn spec_tools(&self) -> Seq<(Tool, T)> {
        self.registry@
    }

    /// An agent for `model`, without tools.
    pub fn new(model: &str) -> (agent: Self)
        ensures
            agent.spec_model() == model@,
            agent.spec_tools() == Seq::<(Tool, T)>::empty(),
    {
        Agent { model: model.to_string(), registry: ToolRegistry::new() }
    }

    /// An agent for the endpoint's model, without tools.
    pub fn from_openai(provider: &OpenAiProvider) -> (agent: Self)
        ensures
            agent.spec_model() == provider.spec_model(),
            agent.spec_tools() == Seq::<(Tool, T)>::empty(),
    {
        Agent::new(provider.default_model())
    }

    /// The model asked for.
    pub fn model(&self) -> (model: &str)
        ensures
            model@ == self.spec_model(),
    {
        self.model.as_str()
    }

    /// The tools that the agent offers.
    pub fn registry(&self) -> (registry: &ToolRegistry<T>)
        ensures
            registry@ == self.spec_tools(),
    {
        &self.registry
    }

    /// Offers `tool`, declared by `spec`, replacing a tool of the same name.
    pub fn register_tool(&mut self, spec: Tool, tool: T)
        ensures
            final(self).spec_model() == old(self).spec_model(),
            final(self).spec_tools() == after_register(old(self).spec_tools(), spec, tool),
    {
        self.registry.register(spec, tool);
    }

    /// The request for `messages`: the agent's model, every registered tool in
    /// registration order, and `none` as the tool choice when there is no tool,
    /// `auto` otherwise.
    pub fn build_request(&self, messages: Vec<ChatMessage>) -> (request: ChatRequest)
        ensures
            request.model@ == self.spec_model(),
            request.messages@ == messages@,
            request.tools matches Some(tools) && tools@ == self.spec_tools().map_values(
                |entry: (Tool, T)| entry.0,
            ),
            request.tool_choice == Some(choice_for(self.spec_tools().len())),
            self.spec_tools().len() == 0 ==> request.tool_choice == Some(ToolChoice::Disabled),
            self.spec_tools().len() > 0 ==> request.tool_choice == Some(ToolChoice::Auto),
            request.temperature is None,
            request.max_tokens is None,
            request.top_p is None,
            request.stop is None,
            request.seed is None,
    {
        let tools = self.registry.to_protocol_tools();
        let choice = if tools.len() == 0 {
            ToolChoice::Disabled
        } else {
            ToolChoice::Auto
        };
        ChatRequest::builder(self.model.as_str()).messages(messages).tools(tools).tool_choice(
            choice,
        ).build()
    }

    /// What to do with a response.
    pub fn next_step(response: &ChatResponse) -> (step: TurnStep)
        ensures
            step == step_after(*response),
            (step == TurnStep::CallTools) == (response.finish_reason matches Some(reason) && reason@
                == "tool_calls"@),
    {
        if response.is_tool_call() {
            TurnStep::CallTools
        } else {
            TurnStep::Answer
        }
    }

    /// The messages sent after the model asked for tools: the model's own text as
    /// an assistant message, then the answer of every call that succeeded, in call
    /// order; failed calls are left out.
    pub fn follow_up(response: &ChatResponse, results: Vec<Result<ChatMessage, ToolError>>) -> (messages: Vec<ChatMessage>)
        ensures
            messages@.len() >= 1,
            messages@[0].spec_plain(Role::Assistant, response.message.content@),
            messages@.drop_first() == successes(results@),
            messages@.drop_first() == results@.filter_map(|r: Result<ChatMessage, ToolError>| match r {
            Ok(m) => Some(m),
            Err(_) => None::<ChatMessage>,
        }),
    {
        let mut messages: Vec<ChatMessage> = Vec::new();
        messages.push(ChatMessage::assistant(response.message.content.as_str()));
        let mut i: usize = 0;
        while i < results.len()
            invariant
                i <= results@.len(),
                messages@.len() >= 1,
                messages@[0].spec_plain(Role::Assistant, response.message.content@),
                messages@.drop_first() == successes(results@.take(i as int)),
            decreases results@.len() - i,
        {
            let ghost before = messages@;
            assert(results@.take(i + 1).drop_last() =~= results@.take(i as int));
            match &results[i] {
                Ok(message) => {
                    messages.push(message.clone());
                    assert(messages@.drop_first() =~= before.drop_first().push(*message));
                },
                Err(_) => {},
            }
            i = i + 1;
        }
        assert(results@.take(results@.len() as int) =~= results@);
        proof {
            lemma_successes_keep_every_ok(results@);
        }
        messages
    }
}

} // verus!
