//! The errors of an agent run, their stable codes and their structured payload.

use crate::json::{json_error_message, json_error_text, Json, JsonView};
use crate::text::{append, decimal, decimal_text};
use vstd::prelude::*;

verus! {

/// `async_openai::error::OpenAIError`, the error of the endpoint's client. It is carried as
/// it is.
#[verifier::external_type_specification]
#[verifier::external_body]
pub struct ExOpenAIError(async_openai::error::OpenAIError);

/// Whether an `OpenAIError` is its `ApiError` variant: an error object that the endpoint
/// returned.
pub uninterp spec fn openai_is_api_error(e: async_openai::error::OpenAIError) -> bool;

/// The message that an `OpenAIError` displays.
pub uninterp spec fn openai_error_text(e: async_openai::error::OpenAIError) -> Seq<char>;

/// Tells `OpenAIError::ApiError` from the other variants of `OpenAIError`.
#[verifier::external_body]
fn is_api_error(e: &async_openai::error::OpenAIError) -> (api: bool)
    ensures
        api == openai_is_api_error(*e),
{
    matches!(e, async_openai::error::OpenAIError::ApiError(_))
}

/// `OpenAIError`'s `to_string`: the message of the error.
#[verifier::external_body]
fn openai_error_message(e: &async_openai::error::OpenAIError) -> (s: String)
    ensures
        s@ == openai_error_text(*e),
{
    e.to_string()
}

/// What went wrong in an agent run.
#[derive(Debug)]
pub enum AgentError {
    /// The agent is configured wrongly.
    Config(String),
    /// The completion endpoint's client reported an error.
    OpenAI(async_openai::error::OpenAIError),
    /// JSON could not be read or written.
    Serialization(serde_json::Error),
    /// Parameters or a structured payload do not match their schema.
    Validation(String),
    /// A tool failed.
    ToolExecution(String),
    /// No tool is registered under the name.
    ToolNotFound(String),
    /// A tool call is malformed.
    InvalidFunctionCall(String),
    /// A request took too long.
    Timeout(String),
    /// The run used up its iterations; holds the configured budget.
    MaxIterations(usize),
    /// The endpoint keeps limiting the request rate.
    RateLimit { retry_after: u64 },
    /// Anything else, such as an unexpected response.
    Unknown(String),
}

impl AgentError {
    /// The stable code of the error.
    pub open spec fn code(self) -> Seq<char> {
        match self {
            AgentError::Config(_) => "CONFIG_ERROR"@,
            AgentError::OpenAI(_) => "OPENAI_ERROR"@,
            AgentError::Serialization(_) => "SERIALIZATION_ERROR"@,
            AgentError::Validation(_) => "VALIDATION_ERROR"@,
            AgentError::ToolExecution(_) => "TOOL_EXECUTION_ERROR"@,
            AgentError::ToolNotFound(_) => "TOOL_NOT_FOUND"@,
            AgentError::InvalidFunctionCall(_) => "INVALID_FUNCTION_CALL"@,
            AgentError::Timeout(_) => "TIMEOUT_ERROR"@,
            AgentError::MaxIterations(_) => "MAX_ITERATIONS_EXCEEDED"@,
            AgentError::RateLimit { .. } => "RATE_LIMIT_ERROR"@,
            AgentError::Unknown(_) => "UNKNOWN_ERROR"@,
        }
    }

    /// Whether trying again may help: so for validation failures, rate limits, timeouts and
    /// error objects from the endpoint.
    pub open spec fn retryable(self) -> bool {
        match self {
            AgentError::OpenAI(e) => openai_is_api_error(e),
            AgentError::Validation(_) => true,
            AgentError::RateLimit { .. } => true,
            AgentError::Timeout(_) => true,
            _ => false,
        }
    }

    /// The message of the error.
    pub open spec fn message(self) -> Seq<char> {
        match self {
            AgentError::Config(m) => "Configuration error: "@ + m@,
            AgentError::OpenAI(e) => "OpenAI API error: "@ + openai_error_text(e),
            AgentError::Serialization(e) => "Serialization error: "@ + json_error_text(e),
            AgentError::Validation(m) => "Validation error: "@ + m@,
            AgentError::ToolExecution(m) => "Tool execution error: "@ + m@,
            AgentError::ToolNotFound(m) => "Tool not found: "@ + m@,
            AgentError::InvalidFunctionCall(m) => "Invalid function call: "@ + m@,
            AgentError::Timeout(m) => "Timeout error: "@ + m@,
            AgentError::MaxIterations(n) => "Maximum iterations exceeded: "@ + decimal_text(n as nat),
            AgentError::RateLimit { retry_after } => "Rate limit exceeded: retry after "@
                + decimal_text(retry_after as nat) + "s"@,
            AgentError::Unknown(m) => "Unknown error: "@ + m@,
        }
    }

    /// The structured payload of the error: `{"error": {"code", "message", "retryable"}}`.
    pub open spec fn payload(self) -> JsonView {
        error_payload(self.code(), self.message(), self.retryable())
    }

    /// Whether trying again may help.
    pub fn is_retryable(&self) -> (retryable: bool)
        ensures
            retryable == self.retryable(),
    {
        match self {
            AgentError::OpenAI(e) => is_api_error(e),
            AgentError::Validation(_) => true,
            AgentError::RateLimit { .. } => true,
            AgentError::Timeout(_) => true,
            _ => false,
        }
    }

    /// The stable code of the error.
    pub fn error_code(&self) -> (code: &'static str)
        ensures
            code@ == self.code(),
    {
        match self {
            AgentError::Config(_) => "CONFIG_ERROR",
            AgentError::OpenAI(_) => "OPENAI_ERROR",
            AgentError::Serialization(_) => "SERIALIZATION_ERROR",
            AgentError::Validation(_) => "VALIDATION_ERROR",
            AgentError::ToolExecution(_) => "TOOL_EXECUTION_ERROR",
            AgentError::ToolNotFound(_) => "TOOL_NOT_FOUND",
            AgentError::InvalidFunctionCall(_) => "INVALID_FUNCTION_CALL",
            AgentError::Timeout(_) => "TIMEOUT_ERROR",
            AgentError::MaxIterations(_) => "MAX_ITERATIONS_EXCEEDED",
            AgentError::RateLimit { .. } => "RATE_LIMIT_ERROR",
            AgentError::Unknown(_) => "UNKNOWN_ERROR",
        }
    }

    /// The message of the error.
    pub fn to_string(&self) -> (message: String)
        ensures
            message@ == self.message(),
    {
        match self {
            AgentError::Config(m) => append("Configuration error: ", m.as_str()),
            AgentError::OpenAI(e) => {
                let text = openai_error_message(e);
                append("OpenAI API error: ", text.as_str())
            },
            AgentError::Serialization(e) => {
                let text = json_error_message(e);
                append("Serialization error: ", text.as_str())
            },
            AgentError::Validation(m) => append("Validation error: ", m.as_str()),
            AgentError::ToolExecution(m) => append("Tool execution error: ", m.as_str()),
            AgentError::ToolNotFound(m) => append("Tool not found: ", m.as_str()),
            AgentError::InvalidFunctionCall(m) => append("Invalid function call: ", m.as_str()),
            AgentError::Timeout(m) => append("Timeout error: ", m.as_str()),
            AgentError::MaxIterations(n) => {
                let count = decimal(*n as u64);
                append("Maximum iterations exceeded: ", count.as_str())
            },
            AgentError::RateLimit { retry_after } => {
                let seconds = decimal(*retry_after);
                let mut message = append("Rate limit exceeded: retry after ", seconds.as_str());
                message.push_str("s");
                message
            },
            AgentError::Unknown(m) => append("Unknown error: ", m.as_str()),
        }
    }

    /// The structured payload of the error.
    pub fn to_error_payload(&self) -> (payload: Json)
        ensures
            payload@ == self.payload(),
    {
        let message = self.to_string();
        let inner = Json::object().with("code", Json::string(self.error_code())).with(
            "message",
            Json::String(message),
        ).with("retryable", Json::Bool(self.is_retryable()));
        Json::object().with("error", inner)
    }
}

/// The payload `{"error": {"code", "message", "retryable"}}`.
pub open spec fn error_payload(code: Seq<char>, message: Seq<char>, retryable: bool) -> JsonView {
    JsonView::object1(
        "error"@,
        JsonView::object3(
            "code"@,
            JsonView::String(code),
            "message"@,
            JsonView::String(message),
            "retryable"@,
            JsonView::Bool(retryable),
        ),
    )
}

impl From<serde_json::Error> for AgentError {
    fn from(e: serde_json::Error) -> (error: AgentError)
    {
        AgentError::Serialization(e)
    }
}

impl vstd::std_specs::convert::FromSpecImpl<serde_json::Error> for AgentError {
    open spec fn obeys_from_spec() -> bool {
        true
    }

    open spec fn from_spec(e: serde_json::Error) -> AgentError {
        AgentError::Serialization(e)
    }
}

impl From<async_openai::error::OpenAIError> for AgentError {
    fn from(e: async_openai::error::OpenAIError) -> (error: AgentError)
    {
        AgentError::OpenAI(e)
    }
}

impl vstd::std_specs::convert::FromSpecImpl<async_openai::error::OpenAIError> for AgentError {
    open spec fn obeys_from_spec() -> bool {
        true
    }

    open spec fn from_spec(e: async_openai::error::OpenAIError) -> AgentError {
        AgentError::OpenAI(e)
    }
}

} // verus!
