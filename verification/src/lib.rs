//! A small agent runtime for tool-calling language models.
//!
//! An agent hands a task to a chat completion endpoint, lets the endpoint call registered
//! tools, feeds the results back, and goes on until the endpoint commits to a final answer,
//! which may come with a payload that matches a JSON schema, or until a budget of
//! iterations is used up.
//!
//! This library holds the logic of such a run and proves it: the conversation memory, the
//! reading and judging of tool calls, the negotiation of the final answer, the retry policy
//! of the client, and the run itself as a machine that is driven from outside. Whoever
//! drives a run sends the requests and executes the tools.

pub mod agent;
pub mod calculator;
pub mod conversation;
pub mod error;
pub mod execution;
pub mod jina;
pub mod json;
pub mod memory;
pub mod messages_run;
pub mod openai_client;
pub mod planning;
pub mod response;
pub mod response_handler;
pub mod result;
pub mod schema;
pub mod steps;
pub mod text;
pub mod time;
pub mod tool_call;
pub mod tools;
pub mod validation;
pub mod weather;

pub use agent::Agent;
pub use error::AgentError;
pub use json::Json;
pub use memory::AgentMemory;
pub use planning::{
    generate_planning_prompt, generate_tool_planning_prompt, get_tool_names, is_planning_response,
};
pub use response::StructuredPayload;
pub use result::{RunResult, TokenUsage};
pub use schema::SchemaHandle;
pub use steps::AgentStep;
pub use tool_call::{ToolCall, ToolExecution, ToolOutput};
pub use tools::{FunctionFactory, ToolDescriptor, ToolRegistry};
