//! Chat client configuration and request assembly: API options, token usage
//! accounting, and the pure projection from context plus new request to the
//! outgoing request body.

use crate::context::{request_messages, Context};
use crate::error::Error;
use crate::message::{
    messages_view, opt_str_view, AssistantMessage, Content, GenericMessage, Message, Role,
};
use crate::message;
use vstd::prelude::*;

verus! {

/// Authorization credentials.
#[derive(Debug, Clone)]
pub enum Auth {
    /// Auth header `Authorization: Bearer {api_token}`.
    Token(String),
    /// Auth header `api-key: {api_key}`.
    ApiKey(String),
}

/// OpenRouter reasoning settings.
#[derive(Debug, Clone, PartialEq, Eq)]
pub enum ReasoningSettings {
    /// Reasoning effort. Typically one of `minimal`, `low`, `medium`, or `high`.
    Effort(String),
    /// Reasoning budget in tokens.
    Budget(i64),
}

/// API specific options.
#[derive(Debug, Clone, PartialEq, Eq)]
pub enum ApiOptions {
    /// OpenAI API.
    OpenAi {
        /// Reasoning effort. Typically one of `minimal`, `low`, `medium`, or `high`.
        reasoning_effort: Option<String>,
    },
    /// OpenRouter API.
    OpenRouter {
        /// Reasoning settings.
        reasoning: Option<ReasoningSettings>,
    },
}

/// OpenRouter reasoning settings as they appear in a request body.
#[derive(Debug, PartialEq, Eq)]
pub struct OpenRouterReasoning {
    /// Reasoning effort.
    pub effort: Option<String>,
    /// Reasoning budget in tokens.
    pub max_tokens: Option<i64>,
}

/// Mathematical view of the OpenRouter reasoning settings.
pub ghost struct OpenRouterReasoningV {
    pub effort: Option<Seq<char>>,
    pub max_tokens: Option<int>,
}

impl View for OpenRouterReasoning {
    type V = OpenRouterReasoningV;

    open spec fn view(&self) -> OpenRouterReasoningV {
        OpenRouterReasoningV {
            effort: opt_str_view(self.effort),
            max_tokens: match self.max_tokens {
                Some(b) => Some(b as int),
                None => None,
            },
        }
    }
}

/// View of optional OpenRouter reasoning settings.
pub open spec fn opt_reasoning_view(o: Option<OpenRouterReasoning>) -> Option<
    OpenRouterReasoningV,
> {
    match o {
        Some(r) => Some(r@),
        None => None,
    }
}

impl OpenRouterReasoning {
    /// Reasoning settings carrying an effort and no budget.
    pub fn from_effort(effort: String) -> (r: Self)
        ensures
            r@ == (OpenRouterReasoningV { effort: Some(effort@), max_tokens: None }),
    {
        OpenRouterReasoning { effort: Some(effort), max_tokens: None }
    }

    /// Reasoning settings carrying a token budget and no effort.
    pub fn from_budget(budget: i64) -> (r: Self)
        ensures
            r@ == (OpenRouterReasoningV { effort: None, max_tokens: Some(budget as int) }),
    {
        OpenRouterReasoning { effort: None, max_tokens: Some(budget) }
    }
}

/// The reasoning effort a request carries when talking to the OpenAI API.
pub open spec fn openai_reasoning_effort_of(o: ApiOptions) -> Option<Seq<char>> {
    match o {
        ApiOptions::OpenAi { reasoning_effort } => opt_str_view(reasoning_effort),
        ApiOptions::OpenRouter { .. } => None,
    }
}

/// The reasoning settings a request carries when talking to OpenRouter.
pub open spec fn openrouter_reasoning_of(o: ApiOptions) -> Option<OpenRouterReasoningV> {
    match o {
        ApiOptions::OpenRouter { reasoning } => match reasoning {
            Some(ReasoningSettings::Effort(e)) => Some(
                OpenRouterReasoningV { effort: Some(e@), max_tokens: None },
            ),
            Some(ReasoningSettings::Budget(b)) => Some(
                OpenRouterReasoningV { effort: None, max_tokens: Some(b as int) },
            ),
            None => None,
        },
        ApiOptions::OpenAi { .. } => None,
    }
}

impl ApiOptions {
    /// The OpenAI reasoning effort, present exactly for the OpenAI API.
    pub fn as_openai_reasoning_effort(&self) -> (r: Option<String>)
        ensures
            opt_str_view(r) == openai_reasoning_effort_of(*self),
    {
        match self {
            ApiOptions::OpenAi { reasoning_effort } => match reasoning_effort {
                Some(e) => Some(e.clone()),
                None => None,
            },
            ApiOptions::OpenRouter { .. } => None,
        }
    }

    /// The OpenRouter reasoning settings, present exactly for the OpenRouter
    /// API with reasoning configured.
    pub fn as_openrouter_reasoning_settings(&self) -> (r: Option<OpenRouterReasoning>)
        ensures
            opt_reasoning_view(r) == openrouter_reasoning_of(*self),
    {
        match self {
            ApiOptions::OpenRouter { reasoning } => match reasoning {
                Some(ReasoningSettings::Effort(e)) => Some(
                    OpenRouterReasoning::from_effort(e.clone()),
                ),
                Some(ReasoningSettings::Budget(b)) => Some(OpenRouterReasoning::from_budget(*b)),
                None => None,
            },
            ApiOptions::OpenAi { .. } => None,
        }
    }
}

/// Configuration for a chat client.
#[derive(Debug)]
pub struct ChatClientConfig {
    /// Authentication token/key.
    pub auth: Auth,
    /// OpenAI chat API endpoint.
    pub api_url: String,
    /// API type.
    pub api_options: ApiOptions,
    /// API version GET parameter used by Azure endpoints.
    pub api_version: Option<String>,
    /// HTTP request timeout.
    pub http_timeout: core::time::Duration,
    /// Model.
    pub model: String,
    /// System message to initialize the model.
    pub system_message: Option<String>,
    /// Min history tokens to keep in the conversation context.
    ///
    /// The context is truncated to keep at least `min_history_tokens`, but
    /// no more than one request-response pair above this threshold, and no
    /// more than `max_history_tokens`; the newest pair always stays, even
    /// where it alone exceeds the maximum.
    pub min_history_tokens: Option<usize>,
    /// Max history tokens to keep in the conversation context.
    pub max_history_tokens: Option<usize>,
    /// Verbosity of the answers. Passed as is to the API.
    pub verbosity: Option<String>,
}

/// Relies on core::time::Duration::from_secs to build the default timeout.
#[verifier::external_body]
fn duration_from_secs(secs: u64) -> (d: core::time::Duration) {
    core::time::Duration::from_secs(secs)
}

impl ChatClientConfig {
    /// Create the default config with the given authentication parameters:
    /// the public OpenAI endpoint, the `gpt-4o-mini` model, and no system
    /// message, thresholds, reasoning or verbosity settings.
    pub fn default_with_auth(auth: Auth) -> (r: Self)
        ensures
            r.auth == auth,
            r.api_url@ == "https://api.openai.com/v1/"@,
            r.api_options == (ApiOptions::OpenAi { reasoning_effort: None }),
            r.api_version is None,
            r.model@ == "gpt-4o-mini"@,
            r.system_message is None,
            r.min_history_tokens is None,
            r.max_history_tokens is None,
            r.verbosity is None,
    {
        ChatClientConfig {
            auth,
            api_url: "https://api.openai.com/v1/".to_owned(),
            api_options: ApiOptions::OpenAi { reasoning_effort: None },
            api_version: None,
            http_timeout: duration_from_secs(300),
            model: "gpt-4o-mini".to_owned(),
            system_message: None,
            min_history_tokens: None,
            max_history_tokens: None,
            verbosity: None,
        }
    }
}

/// Token usage info.
#[derive(Debug, Clone, Copy, PartialEq, Eq)]
pub struct TokenUsage {
    /// Input tokens used.
    pub tokens_in: usize,
    /// Cached input tokens, if returned by the API.
    pub tokens_in_cached: Option<usize>,
    /// Output tokens used.
    pub tokens_out: usize,
    /// Reasoning tokens used, if returned by the API.
    pub tokens_reasoning: Option<usize>,
}

/// Generated completion.
#[derive(Debug, PartialEq, Eq)]
pub struct Completion {
    /// Generated response.
    pub response: String,
    /// Reasoning performed by the model.
    pub reasoning: Option<String>,
    /// Token usage.
    pub token_usage: TokenUsage,
}

/// Model configuration.
#[derive(Debug, Clone)]
pub struct ModelConfig {
    /// Model identifier sent with every request.
    pub model: String,
    /// API specific options.
    pub api_options: ApiOptions,
    /// Verbosity of the answers.
    pub verbosity: Option<String>,
}

/// Options for a streaming response.
#[derive(Debug, PartialEq, Eq)]
pub struct StreamOptions {
    /// Whether the stream should obfuscate payload sizes.
    pub obfuscation: Option<bool>,
    /// Whether the final stream event should report token usage.
    pub usage: Option<bool>,
}

/// Chat Completions request body, restricted to the fields this client sets.
#[derive(Debug, PartialEq, Eq)]
pub struct ChatCompletionsBody {
    /// Model identifier.
    pub model: String,
    /// A list of messages comprising the conversation so far.
    pub messages: Vec<Message>,
    /// OpenAI reasoning effort.
    pub reasoning_effort: Option<String>,
    /// OpenRouter reasoning settings.
    pub reasoning: Option<OpenRouterReasoning>,
    /// Verbosity of the answers.
    pub verbosity: Option<String>,
    /// Whether partial message deltas should be streamed.
    pub stream: Option<bool>,
    /// Options for a streaming response; only set when streaming.
    pub stream_options: Option<StreamOptions>,
}

/// Construct a request body: the message sequence assembled from the context
/// and the new request, together with the model options, as a pure
/// projection with no side effects.
pub fn build_request_body(
    model_config: ModelConfig,
    context: &Context,
    request: Content,
    stream: bool,
) -> (r: ChatCompletionsBody)
    ensures
        r.model == model_config.model,
        messages_view(r.messages@) == request_messages(context@, request@),
        opt_str_view(r.reasoning_effort) == openai_reasoning_effort_of(model_config.api_options),
        opt_reasoning_view(r.reasoning) == openrouter_reasoning_of(model_config.api_options),
        r.verbosity == model_config.verbosity,
        r.stream == Some(stream),
        stream ==> r.stream_options == Some(StreamOptions { obfuscation: None, usage: Some(true) }),
        !stream ==> r.stream_options is None,
{
    let reasoning_effort = model_config.api_options.as_openai_reasoning_effort();
    let reasoning = model_config.api_options.as_openrouter_reasoning_settings();
    ChatCompletionsBody {
        model: model_config.model,
        messages: context.with_request(request),
        reasoning_effort,
        reasoning,
        verbosity: model_config.verbosity,
        stream: Some(stream),
        stream_options: if stream {
            Some(StreamOptions { obfuscation: None, usage: Some(true) })
        } else {
            None
        },
    }
}

/// The completion decided by the last choice of a response: an assistant
/// message carrying content yields that content; a refusal is reported as
/// such; a message with neither is missing its content.
pub open spec fn extracted(m: GenericMessage, usage: TokenUsage) -> Result<Completion, Error> {
    if m.role != Role::Assistant {
        Err(
            Error::InvalidMessage(
                message::Error::RoleMismatch(Role::Assistant, m.role),
            ),
        )
    } else {
        match m.content {
            Some(c) => Ok(
                Completion { response: c, reasoning: m.reasoning, token_usage: usage },
            ),
            None => match m.refusal {
                Some(rf) => Err(Error::Refusal(rf)),
                None => Err(Error::NoContent),
            },
        }
    }
}

/// Decide the completion for a parsed response: the last choice must be an
/// assistant message carrying content; a response without choices, with a
/// wrong role, with a refusal, or without content gives the matching error.
pub fn extract_completion(choices: Vec<GenericMessage>, usage: TokenUsage) -> (r: Result<
    Completion,
    Error,
>)
    ensures
        choices@.len() == 0 ==> r == Result::<Completion, Error>::Err(Error::NoChoices),
        choices@.len() > 0 ==> r == extracted(choices@.last(), usage),
{
    let mut choices = choices;
    let last = match choices.pop() {
        Some(m) => m,
        None => {
            return Err(Error::NoChoices);
        },
    };
    let assistant_message = match AssistantMessage::try_from(last) {
        Ok(a) => a,
        Err(e) => {
            return Err(Error::InvalidMessage(e));
        },
    };
    match assistant_message.content {
        Some(content) => Ok(
            Completion {
                response: content,
                reasoning: assistant_message.reasoning,
                token_usage: usage,
            },
        ),
        None => match assistant_message.refusal {
            Some(refusal) => Err(Error::Refusal(refusal)),
            None => Err(Error::NoContent),
        },
    }
}

/// The URL with a trailing slash appended where one is missing.
pub open spec fn with_trailing_slash(s: Seq<char>) -> Seq<char> {
    if s.len() > 0 && s.last() == '/' {
        s
    } else {
        s.push('/')
    }
}

/// Append a trailing slash to the URL unless it already ends with one.
pub fn ensure_trailing_slash(url: String) -> (r: String)
    ensures
        r@ == with_trailing_slash(url@),
{
    let n = url.as_str().unicode_len();
    let ends_with_slash = if n > 0 {
        url.as_str().get_char(n - 1) == '/'
    } else {
        false
    };
    if ends_with_slash {
        url
    } else {
        let r = url.concat("/");
        proof {
            reveal_strlit("/");
            assert(r@ =~= url@.push('/'));
        }
        r
    }
}

/// Build the chat completions URL from the base URL, with the API version
/// GET parameter where one is configured.
pub fn build_url(base_url: String, api_version: Option<String>) -> (r: String)
    ensures
        api_version matches Some(v) ==> r@ == base_url@ + "chat/completions"@
            + "?api-version="@ + v@,
        api_version is None ==> r@ == base_url@ + "chat/completions"@,
{
    let mut r = base_url;
    r.append("chat/completions");
    match api_version {
        Some(v) => {
            r.append("?api-version=");
            r.append(v.as_str());
            r
        },
        None => r,
    }
}

} // verus!
