use vstd::prelude::*;

use crate::protocol::message::ChatMessage;
use crate::protocol::tools::{Tool, ToolChoice};

verus! {

/// A chat-completions request.
///
/// `temperature` and `top_p` hold the IEEE-754 bit pattern of the `f32` sampling
/// values (`f32::to_bits`); the library only stores and forwards them.
#[derive(Debug, PartialEq)]
pub struct ChatRequest {
    pub model: String,
    pub messages: Vec<ChatMessage>,
    pub temperature: Option<u32>,
    pub max_tokens: Option<u32>,
    pub top_p: Option<u32>,
    pub stop: Option<Vec<String>>,
    pub seed: Option<u64>,
    pub tools: Option<Vec<Tool>>,
    pub tool_choice: Option<ToolChoice>,
}

/// The request has the given model and messages and no optional setting.
pub open spec fn plain_request(request: ChatRequest, model: Seq<char>, messages: Seq<ChatMessage>) -> bool {
    &&& request.model@ == model
    &&& request.messages@ == messages
    &&& request.temperature is None
    &&& request.max_tokens is None
    &&& request.top_p is None
    &&& request.stop is None
    &&& request.seed is None
    &&& request.tools is None
    &&& request.tool_choice is None
}

/// The stop sequences of a request, as text; none when the list is absent.
pub open spec fn stop_sequences(request: ChatRequest) -> Seq<Seq<char>> {
    match request.stop {
        Some(list) => list@.map_values(|s: String| s@),
        None => Seq::empty(),
    }
}

/// The tools of a request; none when the list is absent.
pub open spec fn offered_tools(request: ChatRequest) -> Seq<Tool> {
    match request.tools {
        Some(list) => list@,
        None => Seq::empty(),
    }
}

impl ChatRequest {
    /// A request for `model` over `messages`, with no optional setting.
    pub fn new(model: &str, messages: Vec<ChatMessage>) -> (request: Self)
        ensures
            plain_request(request, model@, messages@),
    {
        ChatRequest {
            model: model.to_string(),
            messages,
            temperature: None,
            max_tokens: None,
            top_p: None,
            stop: None,
            seed: None,
            tools: None,
            tool_choice: None,
        }
    }

    /// A builder for a request for `model`, with no message and no optional setting.
    pub fn builder(model: &str) -> (builder: ChatRequestBuilder)
        ensures
            plain_request(builder.pending(), model@, Seq::empty()),
    {
        ChatRequestBuilder { request: ChatRequest::new(model, Vec::new()) }
    }
}

/// Builds a `ChatRequest` step by step.
#[derive(Debug)]
pub struct ChatRequestBuilder {
    request: ChatRequest,
}

impl ChatRequestBuilder {
    /// The request that `build` would return now.
    pub closed spec fn pending(&self) -> ChatRequest {
        self.request
    }

    /// Appends a message.
    pub fn message(self, message: ChatMessage) -> (next: Self)
        ensures
            next.pending().messages@ == self.pending().messages@.push(message),
            next.pending() == (ChatRequest { messages: next.pending().messages, ..self.pending() }),
    {
        let mut request = self.request;
        request.messages.push(message);
        ChatRequestBuilder { request }
    }

    /// Appends a system message.
    pub fn system(self, content: &str) -> (next: Self)
        ensures
            next.pending().messages@.len() == self.pending().messages@.len() + 1,
            next.pending().messages@.drop_last() == self.pending().messages@,
            next.pending().messages@.last().spec_plain(crate::protocol::message::Role::System, content@),
            next.pending() == (ChatRequest { messages: next.pending().messages, ..self.pending() }),
    {
        self.message(ChatMessage::system(content))
    }

    /// Appends a user message.
    pub fn user(self, content: &str) -> (next: Self)
        ensures
            next.pending().messages@.len() == self.pending().messages@.len() + 1,
            next.pending().messages@.drop_last() == self.pending().messages@,
            next.pending().messages@.last().spec_plain(crate::protocol::message::Role::User, content@),
            next.pending() == (ChatRequest { messages: next.pending().messages, ..self.pending() }),
    {
        self.message(ChatMessage::user(content))
    }

    /// Appends an assistant message.
    pub fn assistant(self, content: &str) -> (next: Self)
        ensures
            next.pending().messages@.len() == self.pending().messages@.len() + 1,
            next.pending().messages@.drop_last() == self.pending().messages@,
            next.pending().messages@.last().spec_plain(crate::protocol::message::Role::Assistant, content@),
            next.pending() == (ChatRequest { messages: next.pending().messages, ..self.pending() }),
    {
        self.message(ChatMessage::assistant(content))
    }

    /// Appends messages, in their order.
    pub fn messages(self, messages: Vec<ChatMessage>) -> (next: Self)
        ensures
            next.pending().messages@ == self.pending().messages@ + messages@,
            next.pending() == (ChatRequest { messages: next.pending().messages, ..self.pending() }),
    {
        let mut request = self.request;
        let mut more = messages;
        request.messages.append(&mut more);
        ChatRequestBuilder { request }
    }

    /// Sets the sampling temperature (bit pattern of an `f32`).
    pub fn temperature(self, temperature: u32) -> (next: Self)
        ensures
            next.pending() == (ChatRequest { temperature: Some(temperature), ..self.pending() }),
    {
        let mut request = self.request;
        request.temperature = Some(temperature);
        ChatRequestBuilder { request }
    }

    /// Sets the most tokens to generate.
    pub fn max_tokens(self, max_tokens: u32) -> (next: Self)
        ensures
            next.pending() == (ChatRequest { max_tokens: Some(max_tokens), ..self.pending() }),
    {
        let mut request = self.request;
        request.max_tokens = Some(max_tokens);
        ChatRequestBuilder { request }
    }

    /// Sets nucleus sampling (bit pattern of an `f32`).
    pub fn top_p(self, top_p: u32) -> (next: Self)
        ensures
            next.pending() == (ChatRequest { top_p: Some(top_p), ..self.pending() }),
    {
        let mut request = self.request;
        request.top_p = Some(top_p);
        ChatRequestBuilder { request }
    }

    /// Adds a stop sequence after those already set.
    pub fn stop(self, sequence: &str) -> (next: Self)
        ensures
            next.pending().stop is Some,
            stop_sequences(next.pending()) == stop_sequences(self.pending()).push(sequence@),
            next.pending() == (ChatRequest { stop: next.pending().stop, ..self.pending() }),
    {
        let mut request = self.request;
        let mut list = match request.stop {
            Some(list) => list,
            None => Vec::new(),
        };
        let ghost before = list@;
        list.push(sequence.to_string());
        assert(list@.map_values(|s: String| s@) =~= before.map_values(|s: String| s@).push(sequence@));
        request.stop = Some(list);
        ChatRequestBuilder { request }
    }

    /// Sets the sampling seed.
    pub fn seed(self, seed: u64) -> (next: Self)
        ensures
            next.pending() == (ChatRequest { seed: Some(seed), ..self.pending() }),
    {
        let mut request = self.request;
        request.seed = Some(seed);
        ChatRequestBuilder { request }
    }

    /// Offers one more tool.
    pub fn tool(self, tool: Tool) -> (next: Self)
        ensures
            next.pending().tools is Some,
            offered_tools(next.pending()) == offered_tools(self.pending()).push(tool),
            next.pending() == (ChatRequest { tools: next.pending().tools, ..self.pending() }),
    {
        let mut request = self.request;
        let mut list = match request.tools {
            Some(list) => list,
            None => Vec::new(),
        };
        list.push(tool);
        request.tools = Some(list);
        ChatRequestBuilder { request }
    }

    /// Offers more tools, in their order; the list is present afterwards even when
    /// `tools` is empty.
    pub fn tools(self, tools: Vec<Tool>) -> (next: Self)
        ensures
            next.pending().tools is Some,
            offered_tools(next.pending()) == offered_tools(self.pending()) + tools@,
            next.pending() == (ChatRequest { tools: next.pending().tools, ..self.pending() }),
    {
        let mut request = self.request;
        let mut list = match request.tools {
            Some(list) => list,
            None => Vec::new(),
        };
        let mut more = tools;
        list.append(&mut more);
        request.tools = Some(list);
        ChatRequestBuilder { request }
    }

    /// Sets how the model may pick among the tools.
    pub fn tool_choice(self, choice: ToolChoice) -> (next: Self)
        ensures
            next.pending() == (ChatRequest { tool_choice: Some(choice), ..self.pending() }),
    {
        let mut request = self.request;
        request.tool_choice = Some(choice);
        ChatRequestBuilder { request }
    }

    /// The request as built so far.
    pub fn build(self) -> (request: ChatRequest)
        ensures
            request == self.pending(),
    {
        self.request
    }
}

} // verus!
