use vstd::prelude::*;

use crate::protocol::chat::ChatRequest;
use crate::protocol::message::{ChatMessage, Role};
use crate::protocol::response::{ChatResponse, Usage};
use crate::protocol::tools::{Tool, ToolCall, ToolChoice};

verus! {

/// The model that a provider asks for when none is named.
pub open spec fn spec_default_model() -> Seq<char> {
    "llama3.2"@
}

/// Where a local Ollama server answers.
pub open spec fn spec_ollama_url() -> Seq<char> {
    "http://localhost:11434/v1"@
}

/// Settings for an OpenAI-compatible endpoint: where it is, which model to use,
/// and the API key, if any.
#[derive(Debug, PartialEq)]
pub struct Provider {
    pub base_url: String,
    pub model: String,
    pub api_key: Option<String>,
}

impl Provider {
    /// Settings from optional overrides (the values of `ENCHANTER_BASE_URL`,
    /// `ENCHANTER_MODEL` and `OPENAI_API_KEY`): a local Ollama server and
    /// `llama3.2` unless overridden.
    pub fn from_settings(base_url: Option<String>, model: Option<String>, api_key: Option<String>) -> (provider: Self)
        ensures
            provider.base_url@ == (match base_url {
                Some(url) => url@,
                None => spec_ollama_url(),
            }),
            provider.model@ == (match model {
                Some(m) => m@,
                None => spec_default_model(),
            }),
            provider.api_key == api_key,
    {
        let base_url = match base_url {
            Some(url) => url,
            None => String::from_str("http://localhost:11434/v1"),
        };
        let model = match model {
            Some(m) => m,
            None => String::from_str("llama3.2"),
        };
        Provider { base_url, model, api_key }
    }
}

/// Why a provider could not be set up or its reply not be read.
#[derive(Debug, Clone, Copy, PartialEq, Eq, Structural)]
pub enum ProviderError {
    /// OpenAI was asked for without an API key.
    MissingApiKey,
    /// The reply held no choice.
    NoChoices,
}

/// The text of a provider error.
pub open spec fn provider_error_text(error: ProviderError) -> Seq<char> {
    match error {
        ProviderError::MissingApiKey => "OPENAI_API_KEY environment variable not set"@,
        ProviderError::NoChoices => "provider returned no choices"@,
    }
}

impl ProviderError {
    /// The error's message.
    pub fn message(&self) -> (text: String)
        ensures
            text@ == provider_error_text(*self),
    {
        match self {
            ProviderError::MissingApiKey => String::from_str("OPENAI_API_KEY environment variable not set"),
            ProviderError::NoChoices => String::from_str("provider returned no choices"),
        }
    }
}

/// An OpenAI-compatible chat-completions endpoint.
#[derive(Debug)]
pub struct OpenAiProvider {
    base_url: String,
    openai_api_key: Option<String>,
    default_model: String,
}

/// The request body sent to `/chat/completions`.
#[derive(Debug)]
pub struct ApiRequest {
    pub model: String,
    pub messages: Vec<ChatMessage>,
    /// Bit pattern of an `f32`.
    pub temperature: Option<u32>,
    pub max_tokens: Option<u32>,
    /// Bit pattern of an `f32`.
    pub top_p: Option<u32>,
    pub stop: Option<Vec<String>>,
    pub seed: Option<u64>,
    pub tools: Option<Vec<Tool>>,
    pub tool_choice: Option<ToolChoice>,
    pub stream: bool,
}

/// The reply of `/chat/completions`, as far as it is read.
#[derive(Debug)]
pub struct ApiResponse {
    pub choices: Vec<ApiChoice>,
    pub usage: Option<ApiUsage>,
}

/// One choice of a reply.
#[derive(Debug)]
pub struct ApiChoice {
    pub message: ApiMessage,
    pub finish_reason: Option<String>,
}

/// The message of a choice.
#[derive(Debug)]
pub struct ApiMessage {
    pub role: Role,
    pub content: String,
    pub tool_calls: Vec<ToolCall>,
}

/// Token counts of a reply.
#[derive(Debug, Clone, Copy, PartialEq, Eq, Structural)]
pub struct ApiUsage {
    pub prompt_tokens: u32,
    pub completion_tokens: u32,
    pub total_tokens: u32,
}

/// The usage of a reply, in the protocol's terms.
pub open spec fn usage_from_api(usage: Option<ApiUsage>) -> Option<Usage> {
    match usage {
        Some(u) => Some(
            Usage {
                prompt_tokens: u.prompt_tokens,
                completion_tokens: u.completion_tokens,
                total_tokens: u.total_tokens,
            },
        ),
        None => None,
    }
}

/// `response` carries `choice`'s message, its tool calls and finish reason, and `usage`.
pub open spec fn answers_with_choice(response: ChatResponse, choice: ApiChoice, usage: Option<ApiUsage>) -> bool {
    &&& response.message.role == choice.message.role
    &&& response.message.content == choice.message.content
    &&& response.message.tool_call_id is None
    &&& response.finish_reason == choice.finish_reason
    &&& response.usage == usage_from_api(usage)
    &&& response.tool_calls == choice.message.tool_calls
}

impl OpenAiProvider {
    pub closed spec fn spec_base_url(&self) -> Seq<char> {
        self.base_url@
    }

    pub closed spec fn spec_api_key(&self) -> Option<String> {
        self.openai_api_key
    }

    pub closed spec fn spec_model(&self) -> Seq<char> {
        self.default_model@
    }

    /// An endpoint at `base_url` that asks for `model`, without a key.
    pub fn new(base_url: &str, model: &str) -> (provider: Self)
        ensures
            provider.spec_base_url() == base_url@,
            provider.spec_api_key() is None,
            provider.spec_model() == model@,
    {
        OpenAiProvider {
            base_url: base_url.to_string(),
            openai_api_key: None,
            default_model: model.to_string(),
        }
    }

    /// The same endpoint, sending `openai_api_key` as a bearer token when present.
    pub fn with_api_key(self, openai_api_key: Option<String>) -> (provider: Self)
        ensures
            provider.spec_base_url() == self.spec_base_url(),
            provider.spec_api_key() == openai_api_key,
            provider.spec_model() == self.spec_model(),
    {
        OpenAiProvider { openai_api_key, ..self }
    }

    /// OpenAI itself, given the value of `OPENAI_API_KEY`; refused without a key.
    pub fn openai(api_key: Option<String>) -> (provider: Result<Self, ProviderError>)
        ensures
            match api_key {
                Some(key) => provider matches Ok(p) && p.spec_base_url() == "https://api.openai.com/v1"@
                    && p.spec_api_key() == Some(key) && p.spec_model() == spec_default_model(),
                None => provider == Err::<Self, ProviderError>(ProviderError::MissingApiKey),
            },
    {
        match api_key {
            Some(key) => Ok(
                OpenAiProvider::new("https://api.openai.com/v1", "llama3.2").with_api_key(Some(key)),
            ),
            None => Err(ProviderError::MissingApiKey),
        }
    }

    /// A local Ollama server, without a key.
    pub fn ollama() -> (provider: Self)
        ensures
            provider.spec_base_url() == spec_ollama_url(),
            provider.spec_api_key() is None,
            provider.spec_model() == spec_default_model(),
    {
        OpenAiProvider::new("http://localhost:11434/v1", "llama3.2")
    }

    /// A local LM Studio server, without a key.
    pub fn lm_studio() -> (provider: Self)
        ensures
            provider.spec_base_url() == "http://localhost:1234/v1"@,
            provider.spec_api_key() is None,
            provider.spec_model() == spec_default_model(),
    {
        OpenAiProvider::new("http://localhost:1234/v1", "llama3.2")
    }

    /// The endpoint that the settings describe.
    pub fn from_provider(provider: Provider) -> (endpoint: Self)
        ensures
            endpoint.spec_base_url() == provider.base_url@,
            endpoint.spec_api_key() == provider.api_key,
            endpoint.spec_model() == provider.model@,
    {
        OpenAiProvider {
            base_url: provider.base_url,
            openai_api_key: provider.api_key,
            default_model: provider.model,
        }
    }

    /// The model to ask for.
    pub fn default_model(&self) -> (model: &str)
        ensures
            model@ == self.spec_model(),
    {
        self.default_model.as_str()
    }

    /// The bearer token to send, if any.
    pub fn api_key(&self) -> (key: Option<&str>)
        ensures
            match self.spec_api_key() {
                Some(k) => key matches Some(s) && s@ == k@,
                None => key is None,
            },
    {
        match &self.openai_api_key {
            Some(k) => Some(k.as_str()),
            None => None,
        }
    }

    /// Where requests are posted: the base URL followed by `/chat/completions`.
    pub fn completions_url(&self) -> (url: String)
        ensures
            url@ == self.spec_base_url() + "/chat/completions"@,
    {
        let mut url = self.base_url.clone();
        url.append("/chat/completions");
        url
    }

    /// The body sent for a request: every field of the request, not streamed.
    pub fn request_body(request: ChatRequest) -> (body: ApiRequest)
        ensures
            body.model == request.model,
            body.messages == request.messages,
            body.temperature == request.temperature,
            body.max_tokens == request.max_tokens,
            body.top_p == request.top_p,
            body.stop == request.stop,
            body.seed == request.seed,
            body.tools == request.tools,
            body.tool_choice == request.tool_choice,
            !body.stream,
    {
        ApiRequest {
            model: request.model,
            messages: request.messages,
            temperature: request.temperature,
            max_tokens: request.max_tokens,
            top_p: request.top_p,
            stop: request.stop,
            seed: request.seed,
            tools: request.tools,
            tool_choice: request.tool_choice,
            stream: false,
        }
    }

    /// The response that a reply carries: its first choice's message, tool calls and
    /// finish reason, and the reply's usage; refused when there is no choice.
    pub fn response_from_api(reply: ApiResponse) -> (response: Result<ChatResponse, ProviderError>)
        ensures
            reply.choices@.len() == 0 ==> response == Err::<ChatResponse, ProviderError>(
                ProviderError::NoChoices,
            ),
            reply.choices@.len() > 0 ==> (response matches Ok(r) && answers_with_choice(
                r,
                reply.choices@[0],
                reply.usage,
            )),
    {
        let mut choices = reply.choices;
        if choices.len() == 0 {
            return Err(ProviderError::NoChoices);
        }
        let first = choices.remove(0);
        let usage = match reply.usage {
            Some(u) => Some(
                Usage {
                    prompt_tokens: u.prompt_tokens,
                    completion_tokens: u.completion_tokens,
                    total_tokens: u.total_tokens,
                },
            ),
            None => None,
        };
        Ok(
            ChatResponse {
                message: ChatMessage {
                    role: first.message.role,
                    content: first.message.content,
                    tool_call_id: None,
                },
                finish_reason: first.finish_reason,
                usage,
                tool_calls: first.message.tool_calls,
            },
        )
    }
}

} // verus!
