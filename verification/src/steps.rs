//! The typed steps of an agent's reasoning, and how each is written as a wire message.

use crate::json::{json_text, lemma_items_view_push, Json, JsonView};
use crate::text::append;
use vstd::prelude::*;

verus! {

/// One step of the agent's reasoning.
#[derive(Debug)]
pub enum AgentStep {
    /// The task that the user set.
    Task { content: String },
    /// Free-text reasoning about how to go on.
    Planning { plan: String },
    /// A tool call that the agent dispatched; `tool_call_id` comes from the endpoint.
    Action { tool_name: String, tool_call_id: String, arguments: Json },
    /// The outcome of one tool call.
    Observation { tool_call_id: String, result: String, is_error: bool },
    /// The answer that ends the run.
    FinalAnswer { answer: String, structured: Option<Json> },
}

/// The mathematical value of a step.
pub enum StepView {
    Task { content: Seq<char> },
    Planning { plan: Seq<char> },
    Action { tool_name: Seq<char>, tool_call_id: Seq<char>, arguments: JsonView },
    Observation { tool_call_id: Seq<char>, result: Seq<char>, is_error: bool },
    FinalAnswer { answer: Seq<char>, structured: Option<JsonView> },
}

impl View for AgentStep {
    type V = StepView;

    open spec fn view(&self) -> StepView {
        match *self {
            AgentStep::Task { content } => StepView::Task { content: content@ },
            AgentStep::Planning { plan } => StepView::Planning { plan: plan@ },
            AgentStep::Action { tool_name, tool_call_id, arguments } => StepView::Action {
                tool_name: tool_name@,
                tool_call_id: tool_call_id@,
                arguments: arguments@,
            },
            AgentStep::Observation { tool_call_id, result, is_error } => StepView::Observation {
                tool_call_id: tool_call_id@,
                result: result@,
                is_error,
            },
            AgentStep::FinalAnswer { answer, structured } => StepView::FinalAnswer {
                answer: answer@,
                structured: match structured {
                    Some(j) => Some(j@),
                    None => None,
                },
            },
        }
    }
}

/// The values of a list of steps.
pub open spec fn steps_view(steps: Seq<AgentStep>) -> Seq<StepView> {
    steps.map_values(|s: AgentStep| s@)
}

/// The message `{"role": role, "content": content}`.
pub open spec fn text_message(role: Seq<char>, content: Seq<char>) -> JsonView {
    JsonView::object2("role"@, JsonView::String(role), "content"@, JsonView::String(content))
}

/// The message `{"role": "tool", "tool_call_id": id, "content": content}`.
pub open spec fn tool_message(tool_call_id: Seq<char>, content: Seq<char>) -> JsonView {
    JsonView::object3(
        "role"@,
        JsonView::String("tool"@),
        "tool_call_id"@,
        JsonView::String(tool_call_id),
        "content"@,
        JsonView::String(content),
    )
}

/// The wire form of one tool call: its id, the type `function`, and the function's name and
/// arguments, the arguments as JSON text.
pub open spec fn tool_call_entry(
    tool_call_id: Seq<char>,
    tool_name: Seq<char>,
    arguments: JsonView,
) -> JsonView {
    JsonView::object3(
        "id"@,
        JsonView::String(tool_call_id),
        "type"@,
        JsonView::String("function"@),
        "function"@,
        JsonView::object2(
            "name"@,
            JsonView::String(tool_name),
            "arguments"@,
            JsonView::String(json_text(arguments)),
        ),
    )
}

impl StepView {
    /// The wire message of the step: a task speaks as `user`, a plan and a final answer as
    /// `assistant`, an action is an `assistant` message with one tool call, an observation a
    /// `tool` message that echoes the call's id.
    pub open spec fn message(self) -> JsonView {
        match self {
            StepView::Task { content } => text_message("user"@, content),
            StepView::Planning { plan } => text_message("assistant"@, plan),
            StepView::Action { tool_name, tool_call_id, arguments } => JsonView::object3(
                "role"@,
                JsonView::String("assistant"@),
                "content"@,
                JsonView::Null,
                "tool_calls"@,
                JsonView::Array(seq![tool_call_entry(tool_call_id, tool_name, arguments)]),
            ),
            StepView::Observation { tool_call_id, result, is_error } => tool_message(
                tool_call_id,
                result,
            ),
            StepView::FinalAnswer { answer, structured } => text_message("assistant"@, answer),
        }
    }

    /// The line that describes the step to a reader.
    pub open spec fn description(self) -> Seq<char> {
        match self {
            StepView::Task { content } => "🧭 Task: "@ + content,
            StepView::Planning { plan } => "🧩 Plan: "@ + plan,
            StepView::Action { tool_name, tool_call_id, arguments } => "🔧 Action: "@ + tool_name
                + "("@ + json_text(arguments) + ")"@,
            StepView::Observation { tool_call_id, result, is_error } => if is_error {
                "❌ Error: "@ + result
            } else {
                "👁 Observation: "@ + result
            },
            StepView::FinalAnswer { answer, structured } => "✅ Final Answer: "@ + answer,
        }
    }
}

/// Builds the message `{"role": role, "content": content}`.
pub fn make_text_message(role: &str, content: &str) -> (message: Json)
    ensures
        message@ == text_message(role@, content@),
{
    Json::object().with("role", Json::string(role)).with("content", Json::string(content))
}

/// Builds the message `{"role": "tool", "tool_call_id": id, "content": content}`.
pub fn make_tool_message(tool_call_id: &str, content: &str) -> (message: Json)
    ensures
        message@ == tool_message(tool_call_id@, content@),
{
    Json::object().with("role", Json::string("tool")).with(
        "tool_call_id",
        Json::string(tool_call_id),
    ).with("content", Json::string(content))
}

/// Builds the wire form of one tool call.
pub fn make_tool_call_entry(tool_call_id: &str, tool_name: &str, arguments: &Json) -> (entry: Json)
    ensures
        entry@ == tool_call_entry(tool_call_id@, tool_name@, arguments@),
{
    let function = Json::object().with("name", Json::string(tool_name)).with(
        "arguments",
        Json::String(arguments.to_text()),
    );
    Json::object().with("id", Json::string(tool_call_id)).with("type", Json::string("function")).with(
        "function",
        function,
    )
}

impl Clone for AgentStep {
    fn clone(&self) -> (copy: Self)
        ensures
            copy@ == self@,
    {
        match self {
            AgentStep::Task { content } => AgentStep::Task { content: content.clone() },
            AgentStep::Planning { plan } => AgentStep::Planning { plan: plan.clone() },
            AgentStep::Action { tool_name, tool_call_id, arguments } => AgentStep::Action {
                tool_name: tool_name.clone(),
                tool_call_id: tool_call_id.clone(),
                arguments: arguments.clone(),
            },
            AgentStep::Observation { tool_call_id, result, is_error } => AgentStep::Observation {
                tool_call_id: tool_call_id.clone(),
                result: result.clone(),
                is_error: *is_error,
            },
            AgentStep::FinalAnswer { answer, structured } => AgentStep::FinalAnswer {
                answer: answer.clone(),
                structured: match structured {
                    Some(j) => Some(j.clone()),
                    None => None,
                },
            },
        }
    }
}

impl AgentStep {
    /// The wire message of the step.
    pub fn to_message(&self) -> (message: Json)
        ensures
            message@ == self@.message(),
    {
        match self {
            AgentStep::Task { content } => make_text_message("user", content.as_str()),
            AgentStep::Planning { plan } => make_text_message("assistant", plan.as_str()),
            AgentStep::Action { tool_name, tool_call_id, arguments } => {
                let entry = make_tool_call_entry(tool_call_id.as_str(), tool_name.as_str(), arguments);
                let mut calls: Vec<Json> = Vec::new();
                proof {
                    lemma_items_view_push(calls@, entry);
                }
                calls.push(entry);
                Json::object().with("role", Json::string("assistant")).with("content", Json::Null).with(
                    "tool_calls",
                    Json::array(calls),
                )
            },
            AgentStep::Observation { tool_call_id, result, .. } => make_tool_message(
                tool_call_id.as_str(),
                result.as_str(),
            ),
            AgentStep::FinalAnswer { answer, .. } => make_text_message("assistant", answer.as_str()),
        }
    }

    /// The line that describes the step to a reader.
    pub fn describe(&self) -> (line: String)
        ensures
            line@ == self@.description(),
    {
        match self {
            AgentStep::Task { content } => append("🧭 Task: ", content.as_str()),
            AgentStep::Planning { plan } => append("🧩 Plan: ", plan.as_str()),
            AgentStep::Action { tool_name, arguments, .. } => {
                let mut line = append("🔧 Action: ", tool_name.as_str());
                line.push_str("(");
                let text = arguments.to_text();
                line.push_str(text.as_str());
                line.push_str(")");
                line
            },
            AgentStep::Observation { result, is_error, .. } => {
                if *is_error {
                    append("❌ Error: ", result.as_str())
                } else {
                    append("👁 Observation: ", result.as_str())
                }
            },
            AgentStep::FinalAnswer { answer, .. } => append("✅ Final Answer: ", answer.as_str()),
        }
    }
}

/// Copies a list of steps.
pub fn clone_steps(steps: &Vec<AgentStep>) -> (copies: Vec<AgentStep>)
    ensures
        steps_view(copies@) == steps_view(steps@),
{
    let mut copies: Vec<AgentStep> = Vec::new();
    let mut i: usize = 0;
    while i < steps.len()
        invariant
            i <= steps.len(),
            steps_view(copies@) == steps_view(steps@.take(i as int)),
        decreases steps.len() - i,
    {
        let copy = steps[i].clone();
        proof {
            assert(steps_view(copies@).len() == copies@.len());
            assert forall|j: int| 0 <= j < i + 1 implies steps_view(copies@.push(copy))[j]
                == steps_view(steps@.take(i + 1))[j] by {
                if j < i {
                    assert(steps_view(copies@)[j] == steps_view(steps@.take(i as int))[j]);
                }
            }
            assert(steps_view(copies@.push(copy)) =~= steps_view(steps@.take(i + 1)));
        }
        copies.push(copy);
        i = i + 1;
    }
    proof {
        assert(steps@.take(steps.len() as int) =~= steps@);
    }
    copies
}

} // verus!
