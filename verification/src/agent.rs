//! The configuration of an agent: whom it asks, which tools it offers, and its budgets.

use crate::json::{items_view, lemma_items_view_push, Json, JsonView};
use crate::memory::DEFAULT_SYSTEM_PROMPT;
use crate::openai_client::{ClientView, OpenAIClient};
use crate::schema::{optional_schema, SchemaHandle, SchemaView};
use crate::steps::{make_text_message, text_message};
use crate::time::duration_of_secs;
use crate::tools::{FunctionFactory, ToolView};
use std::time::Duration;
use vstd::prelude::*;

verus! {

/// The model that an agent asks unless it is told another.
pub const DEFAULT_MODEL: &'static str = "openai/gpt-4.1-mini";

/// An agent: a client, tools, and the limits of a run. One agent serves any number of runs.
#[derive(Debug)]
pub struct Agent {
    openai_client: OpenAIClient,
    function_factory: FunctionFactory,
    model: String,
    max_iterations: usize,
    max_tokens: Option<u32>,
    timeout: Duration,
    completion_schema: Option<SchemaHandle>,
}

/// The mathematical value of an agent.
pub struct AgentView {
    pub client: ClientView,
    pub tools: Seq<ToolView>,
    pub model: Seq<char>,
    pub max_iterations: usize,
    pub max_tokens: Option<u32>,
    pub timeout: Duration,
    pub completion_schema: Option<SchemaView>,
}

impl View for Agent {
    type V = AgentView;

    closed spec fn view(&self) -> AgentView {
        AgentView {
            client: self.openai_client@,
            tools: self.function_factory@,
            model: self.model@,
            max_iterations: self.max_iterations,
            max_tokens: self.max_tokens,
            timeout: self.timeout,
            completion_schema: optional_schema(self.completion_schema),
        }
    }
}

/// The two messages with which a run on raw messages starts: the default system prompt and
/// the user's prompt.
pub open spec fn opening_messages(prompt: Seq<char>) -> Seq<JsonView> {
    seq![text_message("system"@, DEFAULT_SYSTEM_PROMPT@), text_message("user"@, prompt)]
}

impl Agent {
    /// An agent with the default model and limits: ten iterations, a thousand output
    /// tokens, two minutes, and no completion schema.
    pub fn new(api_key: String, function_factory: FunctionFactory) -> (agent: Agent)
        ensures
            agent@ == (AgentView {
                client: ClientView {
                    api_key: api_key@,
                    base_url: crate::openai_client::DEFAULT_BASE_URL@,
                },
                tools: function_factory@,
                model: DEFAULT_MODEL@,
                max_iterations: 10,
                max_tokens: Some(1000u32),
                timeout: duration_of_secs(120),
                completion_schema: None,
            }),
    {
        Agent {
            openai_client: OpenAIClient::new(api_key),
            function_factory,
            model: DEFAULT_MODEL.to_owned(),
            max_iterations: 10,
            max_tokens: Some(1000),
            timeout: Duration::from_secs(120),
            completion_schema: None,
        }
    }

    /// The agent with another model.
    pub fn with_model(self, model: &str) -> (agent: Agent)
        ensures
            agent@ == (AgentView { model: model@, ..self@ }),
    {
        let mut agent = self;
        agent.model = model.to_owned();
        agent
    }

    /// The agent with another endpoint.
    pub fn with_base_url(self, base_url: &str) -> (agent: Agent)
        ensures
            agent@ == (AgentView {
                client: ClientView { api_key: self@.client.api_key, base_url: base_url@ },
                ..self@
            }),
    {
        let mut agent = self;
        agent.openai_client.set_base_url(base_url);
        agent
    }

    /// The agent with another budget of iterations.
    pub fn with_max_iterations(self, max_iterations: usize) -> (agent: Agent)
        ensures
            agent@ == (AgentView { max_iterations, ..self@ }),
    {
        let mut agent = self;
        agent.max_iterations = max_iterations;
        agent
    }

    /// The agent with another cap on output tokens.
    pub fn with_max_tokens(self, max_tokens: Option<u32>) -> (agent: Agent)
        ensures
            agent@ == (AgentView { max_tokens, ..self@ }),
    {
        let mut agent = self;
        agent.max_tokens = max_tokens;
        agent
    }

    /// The agent with another timeout.
    pub fn with_timeout(self, timeout: Duration) -> (agent: Agent)
        ensures
            agent@ == (AgentView { timeout, ..self@ }),
    {
        let mut agent = self;
        agent.timeout = timeout;
        agent
    }

    /// The agent with `schema` as its completion schema.
    pub fn with_completion_schema(self, schema: SchemaHandle) -> (agent: Agent)
        ensures
            agent@ == (AgentView { completion_schema: Some(schema@), ..self@ }),
    {
        let mut agent = self;
        agent.completion_schema = Some(schema);
        agent
    }

    /// The agent without a completion schema.
    pub fn clear_completion_schema(self) -> (agent: Agent)
        ensures
            agent@ == (AgentView { completion_schema: None, ..self@ }),
    {
        let mut agent = self;
        agent.completion_schema = None;
        agent
    }

    /// The budget of iterations.
    pub fn max_iterations(&self) -> (n: usize)
        ensures
            n == self@.max_iterations,
    {
        self.max_iterations
    }

    /// The completion schema.
    pub fn completion_schema(&self) -> (schema: Option<&SchemaHandle>)
        ensures
            match schema {
                Some(s) => self@.completion_schema == Some(s@),
                None => self@.completion_schema is None,
            },
    {
        self.completion_schema.as_ref()
    }

    /// The tools.
    pub fn function_factory(&self) -> (factory: &FunctionFactory)
        ensures
            factory@ == self@.tools,
    {
        &self.function_factory
    }

    /// The client.
    pub fn client(&self) -> (client: &OpenAIClient)
        ensures
            client@ == self@.client,
    {
        &self.openai_client
    }

    /// The model.
    pub fn model(&self) -> (model: &str)
        ensures
            model@ == self@.model,
    {
        self.model.as_str()
    }

    /// The cap on output tokens.
    pub fn max_tokens(&self) -> (n: Option<u32>)
        ensures
            n == self@.max_tokens,
    {
        self.max_tokens
    }

    /// The timeout of a completion request, retries included.
    pub fn timeout(&self) -> (timeout: Duration)
        ensures
            timeout == self@.timeout,
    {
        self.timeout
    }

    /// The messages with which a run on raw messages starts.
    pub fn opening_messages(prompt: &str) -> (messages: Vec<Json>)
        ensures
            items_view(messages@) == opening_messages(prompt@),
    {
        let mut messages: Vec<Json> = Vec::new();
        let system = make_text_message("system", DEFAULT_SYSTEM_PROMPT);
        proof {
            lemma_items_view_push(messages@, system);
        }
        messages.push(system);
        let user = make_text_message("user", prompt);
        proof {
            lemma_items_view_push(messages@, user);
        }
        messages.push(user);
        messages
    }
}

} // verus!
