//! The client side of a chat completion: the address and the body of a request, and what to
//! do with each response, which may be to wait and try again.

use crate::error::AgentError;
use crate::json::{
    items_view, json_error_message, json_text, parsed_json, unsigned_number, Json, JsonView,
};
use crate::text::{
    append, ends_with, has_suffix, parse_unsigned, trim_end_char, trim_end_char_of, unsigned_of,
};
use vstd::prelude::*;

verus! {

/// The endpoint that a client talks to unless it is told another.
pub const DEFAULT_BASE_URL: &'static str = "https://openrouter.ai/api/v1";

/// How often a request is sent again after the server failed.
pub const MAX_RETRIES: usize = 3;

/// How often a request is sent, all in all, while the endpoint limits the rate.
pub const MAX_RATE_LIMIT_ATTEMPTS: usize = 3;

/// The first delay before a request is sent again, in milliseconds; each retry doubles it.
pub const INITIAL_BACKOFF_MS: u64 = 250;

/// The address of the chat completions of the endpoint at `base`: `base` without slashes at
/// its end, and `/chat/completions` after it unless `base` ends with that already.
pub open spec fn chat_url(base: Seq<char>) -> Seq<char> {
    let trimmed = trim_end_char_of(base, '/');
    if has_suffix(trimmed, "/chat/completions"@) {
        trimmed
    } else {
        trimmed + "/chat/completions"@
    }
}

/// The address of the chat completions of the endpoint at `base_url`.
pub fn build_chat_url(base_url: &str) -> (url: String)
    ensures
        url@ == chat_url(base_url@),
{
    let trimmed = trim_end_char(base_url, '/');
    if ends_with(trimmed.as_str(), "/chat/completions") {
        trimmed
    } else {
        append(trimmed.as_str(), "/chat/completions")
    }
}

/// What a client needs to reach its endpoint.
#[derive(Debug)]
pub struct OpenAIClient {
    api_key: String,
    base_url: String,
}

/// The mathematical value of a client.
pub struct ClientView {
    pub api_key: Seq<char>,
    pub base_url: Seq<char>,
}

impl View for OpenAIClient {
    type V = ClientView;

    closed spec fn view(&self) -> ClientView {
        ClientView { api_key: self.api_key@, base_url: self.base_url@ }
    }
}

impl Clone for OpenAIClient {
    fn clone(&self) -> (copy: Self)
        ensures
            copy@ == self@,
    {
        OpenAIClient { api_key: self.api_key.clone(), base_url: self.base_url.clone() }
    }
}

impl OpenAIClient {
    /// A client of the default endpoint.
    pub fn new(api_key: String) -> (client: OpenAIClient)
        ensures
            client@ == (ClientView { api_key: api_key@, base_url: DEFAULT_BASE_URL@ }),
    {
        OpenAIClient { api_key, base_url: DEFAULT_BASE_URL.to_owned() }
    }

    /// Points the client to the endpoint at `base_url`.
    pub fn set_base_url(&mut self, base_url: &str)
        ensures
            final(self)@ == (ClientView { api_key: old(self)@.api_key, base_url: base_url@ }),
    {
        self.base_url = base_url.to_owned();
    }

    /// The bearer token.
    pub fn api_key(&self) -> (key: &str)
        ensures
            key@ == self@.api_key,
    {
        self.api_key.as_str()
    }

    /// The endpoint.
    pub fn base_url(&self) -> (url: &str)
        ensures
            url@ == self@.base_url,
    {
        self.base_url.as_str()
    }

    /// The address to which requests go.
    pub fn chat_url(&self) -> (url: String)
        ensures
            url@ == chat_url(self@.base_url),
    {
        build_chat_url(self.base_url.as_str())
    }

    /// The value of the `Authorization` header: `Bearer` and the token.
    pub fn authorization(&self) -> (value: String)
        ensures
            value@ == "Bearer "@ + self@.api_key,
    {
        append("Bearer ", self.api_key.as_str())
    }
}

/// One chat completion request.
#[derive(Debug)]
pub struct ChatCompletionRequest {
    model: String,
    messages: Vec<Json>,
    tools: Vec<Json>,
    tool_choice: Option<Json>,
    max_tokens: Option<u32>,
    response_format: Option<Json>,
}

/// The mathematical value of a request.
pub struct RequestView {
    pub model: Seq<char>,
    pub messages: Seq<JsonView>,
    pub tools: Seq<JsonView>,
    pub tool_choice: Option<JsonView>,
    pub max_tokens: Option<u32>,
    pub response_format: Option<JsonView>,
}

impl RequestView {
    /// The body of the request: `model` and `messages` always; `tools` where there is one;
    /// `tool_choice`, `max_tokens` and `response_format` where they are set.
    pub open spec fn body(self) -> JsonView {
        let base = JsonView::object2(
            "model"@,
            JsonView::String(self.model),
            "messages"@,
            JsonView::Array(self.messages),
        );
        let with_tools = if self.tools.len() > 0 {
            base.with("tools"@, JsonView::Array(self.tools))
        } else {
            base
        };
        let with_choice = match self.tool_choice {
            Some(c) => with_tools.with("tool_choice"@, c),
            None => with_tools,
        };
        let with_limit = match self.max_tokens {
            Some(n) => with_choice.with("max_tokens"@, JsonView::Number(unsigned_number(n as u64))),
            None => with_choice,
        };
        match self.response_format {
            Some(f) => with_limit.with("response_format"@, f),
            None => with_limit,
        }
    }
}

impl View for ChatCompletionRequest {
    type V = RequestView;

    closed spec fn view(&self) -> RequestView {
        RequestView {
            model: self.model@,
            messages: items_view(self.messages@),
            tools: items_view(self.tools@),
            tool_choice: match self.tool_choice {
                Some(c) => Some(c@),
                None => None,
            },
            max_tokens: self.max_tokens,
            response_format: match self.response_format {
                Some(f) => Some(f@),
                None => None,
            },
        }
    }
}

impl ChatCompletionRequest {
    /// A request to `model` with `messages` and nothing else.
    pub fn new(model: &str, messages: Vec<Json>) -> (request: ChatCompletionRequest)
        ensures
            request@ == (RequestView {
                model: model@,
                messages: items_view(messages@),
                tools: Seq::empty(),
                tool_choice: None,
                max_tokens: None,
                response_format: None,
            }),
    {
        ChatCompletionRequest {
            model: model.to_owned(),
            messages,
            tools: Vec::new(),
            tool_choice: None,
            max_tokens: None,
            response_format: None,
        }
    }

    /// The request with `tools` on offer.
    pub fn with_tools(self, tools: Vec<Json>) -> (request: ChatCompletionRequest)
        ensures
            request@ == (RequestView { tools: items_view(tools@), ..self@ }),
    {
        let mut request = self;
        request.tools = tools;
        request
    }

    /// The request with the choice of tools set.
    pub fn with_tool_choice(self, tool_choice: Json) -> (request: ChatCompletionRequest)
        ensures
            request@ == (RequestView { tool_choice: Some(tool_choice@), ..self@ }),
    {
        let mut request = self;
        request.tool_choice = Some(tool_choice);
        request
    }

    /// The request with the cap on output tokens set.
    pub fn with_max_tokens(self, max_tokens: Option<u32>) -> (request: ChatCompletionRequest)
        ensures
            request@ == (RequestView { max_tokens, ..self@ }),
    {
        let mut request = self;
        request.max_tokens = max_tokens;
        request
    }

    /// The request with the format of the response set.
    pub fn with_response_format(self, response_format: Json) -> (request: ChatCompletionRequest)
        ensures
            request@ == (RequestView { response_format: Some(response_format@), ..self@ }),
    {
        let mut request = self;
        request.response_format = Some(response_format);
        request
    }

    /// The body of the request.
    pub fn into_value(self) -> (body: Json)
        ensures
            body@ == self@.body(),
    {
        let has_tools = self.tools.len() > 0;
        let mut body = Json::object().with("model", Json::String(self.model)).with(
            "messages",
            Json::array(self.messages),
        );
        if has_tools {
            body = body.with("tools", Json::array(self.tools));
        }
        match self.tool_choice {
            Some(c) => {
                body = body.with("tool_choice", c);
            },
            None => {},
        }
        match self.max_tokens {
            Some(n) => {
                body = body.with("max_tokens", Json::from_u64(n as u64));
            },
            None => {},
        }
        match self.response_format {
            Some(f) => {
                body = body.with("response_format", f);
            },
            None => {},
        }
        body
    }
}

/// How long to wait before a request is sent again.
#[derive(Debug, Clone, Copy, PartialEq, Eq)]
pub enum Delay {
    Millis(u64),
    Seconds(u64),
}

impl Delay {
    /// The whole seconds of the delay.
    pub open spec fn seconds(self) -> nat {
        match self {
            Delay::Millis(ms) => (ms / 1000) as nat,
            Delay::Seconds(s) => s as nat,
        }
    }

    /// The whole seconds of the delay.
    pub fn whole_seconds(&self) -> (s: u64)
        ensures
            s == self.seconds(),
    {
        match self {
            Delay::Millis(ms) => *ms / 1000,
            Delay::Seconds(s) => *s,
        }
    }
}

/// The delay before the retry after `attempt` retries, in milliseconds: 250, doubled by each
/// retry.
pub open spec fn backoff_ms(attempt: nat) -> nat
    decreases attempt,
{
    if attempt == 0 {
        250
    } else {
        2 * backoff_ms((attempt - 1) as nat)
    }
}

/// How far the retries of one request have come.
#[derive(Debug)]
pub struct RetryState {
    attempt: usize,
}

impl View for RetryState {
    type V = nat;

    /// The number of retries so far.
    closed spec fn view(&self) -> nat {
        self.attempt as nat
    }
}

/// What to do after a response.
#[derive(Debug)]
pub enum ClientDecision {
    /// Wait, then send the request again.
    Retry(Delay),
    /// The request is over, with the response's body or an error.
    Done(Result<Json, AgentError>),
}

/// Whether a status says that the endpoint limits the rate.
pub open spec fn is_rate_limited(status: u16) -> bool {
    status == 429
}

/// Whether a status says that the server failed.
pub open spec fn is_server_error(status: u16) -> bool {
    500 <= status < 600
}

/// Whether a status says that the request succeeded.
pub open spec fn is_success(status: u16) -> bool {
    200 <= status < 300
}

/// The delay that a rate limit asks for: the seconds of a `Retry-After` header that holds a
/// number, else the backoff.
pub open spec fn rate_limit_delay(retry_after: Option<Seq<char>>, attempt: nat) -> Delay {
    match retry_after {
        Some(text) => match unsigned_of(text) {
            Some(s) => Delay::Seconds(s),
            None => Delay::Millis(backoff_ms(attempt) as u64),
        },
        None => Delay::Millis(backoff_ms(attempt) as u64),
    }
}

/// Whether a response is answered by sending the request again, after `attempt` retries:
/// under a rate limit while fewer than three requests were sent, after a server error while
/// fewer than three retries were made.
pub open spec fn retries(status: u16, attempt: nat) -> bool {
    if is_rate_limited(status) {
        attempt + 1 < MAX_RATE_LIMIT_ATTEMPTS
    } else {
        is_server_error(status) && attempt < MAX_RETRIES
    }
}

/// The message of the error object in a body: the text of `error.message`.
pub open spec fn error_message_in(body: JsonView) -> Option<Seq<char>> {
    match body.member("error"@) {
        Some(e) => e.text_member("message"@),
        None => None,
    }
}

/// What a response that ends the request comes to; on success the body's value. A status
/// other than success fails with the message of the body's error object or else the raw
/// body; a successful status fails where the body is no JSON or holds an `error`.
pub open spec fn final_outcome(status: u16, status_text: Seq<char>, body: Seq<char>) -> Result<
    JsonView,
    Seq<char>,
> {
    if !is_success(status) {
        Err(
            "HTTP "@ + status_text + " error: "@ + (match parsed_json(body) {
                Ok(v) => match error_message_in(v) {
                    Some(m) => m,
                    None => body,
                },
                Err(_) => body,
            }),
        )
    } else {
        match parsed_json(body) {
            Err(e) => Err("Failed to parse JSON: "@ + e),
            Ok(v) => match v.member("error"@) {
                Some(error) => Err(
                    "API error: "@ + (match error.text_member("message"@) {
                        Some(m) => m,
                        None => json_text(error),
                    }),
                ),
                None => Ok(v),
            },
        }
    }
}

/// Turns the response that ends a request into its outcome, given the body as it parsed.
pub fn conclude(status: u16, status_text: &str, body: &str, parsed: Result<Json, String>) -> (r:
    Result<Json, AgentError>)
    ensures
        ({
            let outcome = if !is_success(status) {
                Err::<JsonView, Seq<char>>(
                    "HTTP "@ + status_text@ + " error: "@ + (match parsed {
                        Ok(v) => match error_message_in(v@) {
                            Some(m) => m,
                            None => body@,
                        },
                        Err(_) => body@,
                    }),
                )
            } else {
                match parsed {
                    Err(e) => Err("Failed to parse JSON: "@ + e@),
                    Ok(v) => match v@.member("error"@) {
                        Some(error) => Err(
                            "API error: "@ + (match error.text_member("message"@) {
                                Some(m) => m,
                                None => json_text(error),
                            }),
                        ),
                        None => Ok(v@),
                    },
                }
            };
            match outcome {
                Ok(v) => r matches Ok(j) && j@ == v,
                Err(m) => r matches Err(AgentError::Unknown(text)) && text@ == m,
            }
        }),
{
    if !(200 <= status && status < 300) {
        let message: String = match &parsed {
            Ok(v) => match v.get("error") {
                Some(e) => match e.get_str("message") {
                    Some(m) => m.to_owned(),
                    None => body.to_owned(),
                },
                None => body.to_owned(),
            },
            Err(_) => body.to_owned(),
        };
        let mut text = append("HTTP ", status_text);
        text.push_str(" error: ");
        text.push_str(message.as_str());
        return Err(AgentError::Unknown(text));
    }
    match parsed {
        Err(e) => Err(AgentError::Unknown(append("Failed to parse JSON: ", e.as_str()))),
        Ok(v) => {
            let message: Option<String> = match v.get("error") {
                Some(error) => match error.get_str("message") {
                    Some(m) => Some(m.to_owned()),
                    None => Some(error.to_text()),
                },
                None => None,
            };
            match message {
                Some(m) => Err(AgentError::Unknown(append("API error: ", m.as_str()))),
                None => Ok(v),
            }
        },
    }
}

impl RetryState {
    #[verifier::type_invariant]
    spec fn bounded(self) -> bool {
        self.attempt <= MAX_RETRIES
    }

    /// The state before the first request.
    pub fn new() -> (state: RetryState)
        ensures
            state@ == 0,
    {
        RetryState { attempt: 0 }
    }

    /// Number of retries so far.
    pub fn attempt(&self) -> (n: usize)
        ensures
            n == self@,
            n <= MAX_RETRIES,
    {
        proof {
            use_type_invariant(self);
        }
        self.attempt
    }

    /// The delay before the next retry, in milliseconds.
    pub fn backoff(&self) -> (ms: u64)
        ensures
            ms == backoff_ms(self@),
            ms <= 2000,
    {
        proof {
            use_type_invariant(self);
            reveal_with_fuel(backoff_ms, 5);
        }
        if self.attempt == 0 {
            250
        } else if self.attempt == 1 {
            500
        } else if self.attempt == 2 {
            1000
        } else {
            2000
        }
    }

    /// Decides what to do with a response: `status` with its text as the status line
    /// shows it, the value of the `Retry-After` header if there is one, and the body.
    ///
    /// A rate limit and a server error are answered by a retry while `retries` allows it;
    /// the retry counts. A rate limit that may not be retried fails with the seconds of its
    /// delay, one second at least. Every other response ends the request with
    /// `final_outcome`.
    pub fn on_response(
        &mut self,
        status: u16,
        status_text: &str,
        retry_after: Option<&str>,
        body: &str,
    ) -> (decision: ClientDecision)
        ensures
            old(self)@ <= final(self)@ <= MAX_RETRIES,
            ({
                let attempt = old(self)@;
                let delay = rate_limit_delay(
                    match retry_after {
                        Some(t) => Some(t@),
                        None => None,
                    },
                    attempt,
                );
                if retries(status, attempt) {
                    &&& final(self)@ == attempt + 1
                    &&& decision == ClientDecision::Retry(
                        if is_rate_limited(status) {
                            delay
                        } else {
                            Delay::Millis(backoff_ms(attempt) as u64)
                        },
                    )
                } else if is_rate_limited(status) {
                    &&& final(self)@ == attempt
                    &&& decision == ClientDecision::Done(
                        Err(
                            AgentError::RateLimit {
                                retry_after: if delay.seconds() < 1 {
                                    1u64
                                } else {
                                    delay.seconds() as u64
                                },
                            },
                        ),
                    )
                } else {
                    &&& final(self)@ == attempt
                    &&& match final_outcome(status, status_text@, body@) {
                        Ok(v) => decision matches ClientDecision::Done(Ok(j)) && j@ == v,
                        Err(m) => decision matches ClientDecision::Done(
                            Err(AgentError::Unknown(text)),
                        ) && text@ == m,
                    }
                }
            }),
    {
        proof {
            use_type_invariant(&*self);
        }
        let backoff = self.backoff();
        if status == 429 {
            let delay = match retry_after {
                Some(text) => match parse_unsigned(text) {
                    Some(s) => Delay::Seconds(s),
                    None => Delay::Millis(backoff),
                },
                None => Delay::Millis(backoff),
            };
            if self.attempt + 1 < MAX_RATE_LIMIT_ATTEMPTS {
                self.attempt = self.attempt + 1;
                return ClientDecision::Retry(delay);
            }
            let seconds = delay.whole_seconds();
            return ClientDecision::Done(
                Err(
                    AgentError::RateLimit {
                        retry_after: if seconds < 1 {
                            1
                        } else {
                            seconds
                        },
                    },
                ),
            );
        }
        if 500 <= status && status < 600 && self.attempt < MAX_RETRIES {
            self.attempt = self.attempt + 1;
            return ClientDecision::Retry(Delay::Millis(backoff));
        }
        let parsed: Result<Json, String> = match Json::parse(body) {
            Ok(v) => Ok(v),
            Err(e) => Err(json_error_message(&e)),
        };
        ClientDecision::Done(conclude(status, status_text, body, parsed))
    }
}

} // verus!
