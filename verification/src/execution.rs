//! The run of an agent that keeps its steps, as a machine: each completion and each tool
//! result moves the run on and tells what to do next. Whoever drives the run sends the
//! requests and executes the tools.

use crate::agent::{Agent, AgentView};
use crate::error::{error_payload, AgentError};
use crate::json::{
    items_view, json_error_message, json_text, lemma_items_view, lemma_items_view_push,
    parsed_json, Json, JsonView,
};
use crate::memory::{AgentMemory, MemoryView};
use crate::openai_client::{ChatCompletionRequest, RequestView};
use crate::response_handler::{
    answer_receipt, answer_text, call_fault_text, handle_final_answer_steps,
    handle_structured_response_steps, is_rejection, judge_final_answer,
    judge_structured_response, payload_text, schema_name_of, structured_output, HandlerOutcome,
    Judgement, Negotiation, NegotiationView,
};
use crate::result::{RunResult, RunResultView, TokenUsage};
use crate::schema::SchemaView;
use crate::steps::{AgentStep, StepView};
use crate::text::{append, same_text, trim, trimmed};
use crate::tools::{position_of, wire_tools};
use crate::validation::{
    final_answer_tool, final_answer_tool_definition, inject_schema_instructions, optional_member,
    structured_response_tool, structured_response_tool_definition, with_instruction,
};
use std::time::Duration;
use vstd::prelude::*;

verus! {

/// What the driver of a run is to do next.
#[derive(Debug)]
pub enum RunAction {
    /// Send this body to the completion endpoint and hand the response to the run.
    Request(Json),
    /// Execute this tool and hand its result to the run.
    Execute { tool_name: String, arguments: Json },
    /// The run is over; this is its record.
    Finish(RunResult),
    /// The run is over; this is its final text.
    Answer(String),
    /// The run failed.
    Fail(AgentError),
}

/// The error of a completion request that took longer than the agent's timeout.
pub fn completion_timed_out() -> (e: AgentError)
    ensures
        e matches AgentError::Timeout(m) && m@ == "OpenAI API call timed out"@,
{
    AgentError::Timeout("OpenAI API call timed out".to_owned())
}

/// What a run waits for.
#[derive(Debug)]
pub enum Phase {
    /// The response to the completion request.
    AwaitingCompletion,
    /// The result of the tool called under this id.
    AwaitingTool { tool_call_id: String },
    /// Nothing: the run is over.
    Over,
}

/// The mathematical value of a phase.
pub enum PhaseView {
    AwaitingCompletion,
    AwaitingTool { tool_call_id: Seq<char> },
    Over,
}

impl View for Phase {
    type V = PhaseView;

    open spec fn view(&self) -> PhaseView {
        match *self {
            Phase::AwaitingCompletion => PhaseView::AwaitingCompletion,
            Phase::AwaitingTool { tool_call_id } => PhaseView::AwaitingTool {
                tool_call_id: tool_call_id@,
            },
            Phase::Over => PhaseView::Over,
        }
    }
}

/// The message of a response: that of its first choice.
pub open spec fn assistant_message(response: JsonView) -> Result<JsonView, Seq<char>> {
    match response.member("choices"@) {
        Some(choices) => match choices.items() {
            Some(items) => if items.len() == 0 {
                Err("Completion response contained no choices"@)
            } else {
                match items[0].member("message"@) {
                    Some(m) => Ok(m),
                    None => Err("Completion response missing assistant message"@),
                }
            },
            None => Err("Missing 'choices' array in completion response"@),
        },
        None => Err("Missing 'choices' array in completion response"@),
    }
}

/// A count of tokens as the response gives it, cut to 32 bits.
pub open spec fn token_count(usage: JsonView, key: Seq<char>) -> Option<u32> {
    match usage.member(key) {
        Some(v) => match v.unsigned() {
            Some(n) => Some((n % 0x1_0000_0000) as u32),
            None => None,
        },
        None => None,
    }
}

/// The tokens that a response counts: all three counts must be there.
pub open spec fn usage_of(response: JsonView) -> Option<TokenUsage> {
    match response.member("usage"@) {
        Some(usage) => match (
            token_count(usage, "prompt_tokens"@),
            token_count(usage, "completion_tokens"@),
            token_count(usage, "total_tokens"@),
        ) {
            (Some(p), Some(c), Some(t)) => Some(
                TokenUsage { prompt_tokens: p, completion_tokens: c, total_tokens: t },
            ),
            _ => None,
        },
        None => None,
    }
}

/// What an assistant's turn holds.
pub enum Turn {
    /// Tool calls, in the order given.
    Calls(Seq<JsonView>),
    /// A `tool_calls` member that is no array: the turn is passed over.
    Ignored,
    /// No tool calls, but this text, without white space around it.
    Text(Seq<char>),
}

/// What the text of a message is, empty where it has none.
pub open spec fn content_text(message: JsonView) -> Seq<char> {
    match message.text_member("content"@) {
        Some(c) => trimmed(c),
        None => Seq::empty(),
    }
}

/// What an assistant's message holds.
pub open spec fn turn_of(message: JsonView) -> Turn {
    match message.member("tool_calls"@) {
        Some(calls) => match calls.items() {
            Some(items) => Turn::Calls(items),
            None => Turn::Ignored,
        },
        None => Turn::Text(content_text(message)),
    }
}

/// The name of the function that a tool call names.
pub open spec fn call_name(call: JsonView) -> Option<Seq<char>> {
    match call.member("function"@) {
        Some(f) => f.text_member("name"@),
        None => None,
    }
}

/// Whether a tool call names `final_answer`.
pub open spec fn names_final_answer(call: JsonView) -> bool {
    call_name(call) == Some("final_answer"@)
}

/// Whether one of the calls names `final_answer`.
pub open spec fn has_final_answer_call(calls: Seq<JsonView>) -> bool {
    exists|i: int| 0 <= i < calls.len() && names_final_answer(#[trigger] calls[i])
}

/// The id of a tool call, empty where it has none.
pub open spec fn call_id(call: JsonView) -> Seq<char> {
    match call.text_member("id"@) {
        Some(id) => id,
        None => Seq::empty(),
    }
}

/// What a tool call asks for, as far as its envelope tells.
pub enum Envelope {
    /// The call has no `function`.
    NoFunction,
    /// The function has no name, or an empty one.
    NoName,
    /// The text of the arguments is no JSON; holds the parser's message.
    BadArguments { name: Seq<char>, error: Seq<char> },
    /// A call of `name` with `arguments`.
    Call { name: Seq<char>, arguments: JsonView },
}

/// The text of the arguments of a function, empty where there is none.
pub open spec fn arguments_text(function: JsonView) -> Seq<char> {
    match function.text_member("arguments"@) {
        Some(a) => a,
        None => Seq::empty(),
    }
}

/// What a tool call asks for.
pub open spec fn envelope_of(call: JsonView) -> Envelope {
    match call.member("function"@) {
        None => Envelope::NoFunction,
        Some(function) => match function.text_member("name"@) {
            None => Envelope::NoName,
            Some(name) => if name.len() == 0 {
                Envelope::NoName
            } else {
                match parsed_json(arguments_text(function)) {
                    Ok(arguments) => Envelope::Call { name, arguments },
                    Err(error) => Envelope::BadArguments { name, error },
                }
            },
        },
    }
}

/// What the machine says of one new step: the step itself, or that it is the error
/// observation for a call that was turned down, whose message the validator may word.
pub enum Recorded {
    Step(StepView),
    Rejection { tool_call_id: Seq<char>, judgement: Judgement, tool: Seq<char>, schema_name: Seq<char> },
}

/// Whether `step` is what `record` says.
pub open spec fn recorded_as(step: StepView, record: Recorded) -> bool {
    match record {
        Recorded::Step(s) => step == s,
        Recorded::Rejection { tool_call_id, judgement, tool, schema_name } => is_rejection(
            step,
            tool_call_id,
            judgement,
            tool,
            schema_name,
        ),
    }
}

/// Whether `steps` are what `records` say, one by one.
pub open spec fn recorded_all(steps: Seq<StepView>, records: Seq<Recorded>) -> bool {
    &&& steps.len() == records.len()
    &&& forall|i: int| 0 <= i < steps.len() ==> recorded_as(#[trigger] steps[i], records[i])
}

/// How the handling of tool calls ends.
pub enum CallEnd {
    /// Go on with the next call.
    Next,
    /// Have the tool executed; the run waits for its result.
    Execute { tool_name: Seq<char>, arguments: JsonView },
    /// The run is over, with this text, payload and schema.
    Finish { output: Seq<char>, structured: Option<JsonView>, schema: Option<SchemaView> },
}

/// What the handling of one tool call does: the steps it records, the negotiation after it,
/// and how it ends.
pub struct CallEffect {
    pub records: Seq<Recorded>,
    pub negotiation: NegotiationView,
    pub end: CallEnd,
}

/// The error observation with the given text.
pub open spec fn error_observation(tool_call_id: Seq<char>, result: Seq<char>) -> Recorded {
    Recorded::Step(StepView::Observation { tool_call_id, result, is_error: true })
}

/// The text of the payload that reports a tool that is not registered.
pub open spec fn not_found_text(name: Seq<char>) -> Seq<char> {
    json_text(error_payload("TOOL_NOT_FOUND"@, "Tool not found: "@ + name, false))
}

/// What the handling of one tool call does, in a run that keeps its steps.
///
/// A call without function or name, or with arguments that are no JSON, records one error
/// observation. `final_answer` and `structured_response` are judged; turned down, they
/// record one error observation; accepted, `final_answer` records a receipt and ends the
/// run unless a structured payload is still awaited, and `structured_response` ends the run.
/// Any other call records an action; a tool that is registered is then to be executed, one
/// that is not records an error observation.
pub open spec fn steps_call_effect(agent: AgentView, call: JsonView, negotiation: NegotiationView) -> CallEffect {
    let id = call_id(call);
    match envelope_of(call) {
        Envelope::NoFunction => CallEffect {
            records: seq![error_observation(id, "Tool call missing function"@)],
            negotiation,
            end: CallEnd::Next,
        },
        Envelope::NoName => CallEffect {
            records: seq![error_observation(id, "Tool call missing function name"@)],
            negotiation,
            end: CallEnd::Next,
        },
        Envelope::BadArguments { name, error } => CallEffect {
            records: seq![
                error_observation(
                    id,
                    call_fault_text("Failed to parse arguments for tool '"@ + name + "': "@ + error),
                ),
            ],
            negotiation,
            end: CallEnd::Next,
        },
        Envelope::Call { name, arguments } => if name == "final_answer"@ {
            let j = judge_final_answer(
                arguments,
                agent.completion_schema,
                negotiation.has_final_answer,
            );
            if j is Accepted {
                let structured = optional_member(arguments, "structured"@);
                CallEffect {
                    records: seq![
                        Recorded::Step(
                            StepView::Observation {
                                tool_call_id: id,
                                result: answer_receipt(answer_text(arguments)),
                                is_error: false,
                            },
                        ),
                    ],
                    negotiation: NegotiationView {
                        has_final_answer: true,
                        final_answer_value: Some(answer_text(arguments)),
                    },
                    end: if structured is Some || agent.completion_schema is None {
                        CallEnd::Finish {
                            output: answer_text(arguments),
                            structured,
                            schema: agent.completion_schema,
                        }
                    } else {
                        CallEnd::Next
                    },
                }
            } else {
                CallEffect {
                    records: seq![
                        Recorded::Rejection {
                            tool_call_id: id,
                            judgement: j,
                            tool: "final_answer"@,
                            schema_name: schema_name_of(agent.completion_schema),
                        },
                    ],
                    negotiation,
                    end: CallEnd::Next,
                }
            }
        } else if name == "structured_response"@ {
            match agent.completion_schema {
                None => CallEffect {
                    records: seq![
                        error_observation(
                            id,
                            call_fault_text(
                                "No completion schema is active for structured response"@,
                            ),
                        ),
                    ],
                    negotiation,
                    end: CallEnd::Next,
                },
                Some(schema) => {
                    let j = judge_structured_response(arguments, schema);
                    if j is Accepted {
                        CallEffect {
                            records: Seq::empty(),
                            negotiation,
                            end: CallEnd::Finish {
                                output: structured_output(negotiation),
                                structured: arguments.member("structured"@),
                                schema: Some(schema),
                            },
                        }
                    } else {
                        CallEffect {
                            records: seq![
                                Recorded::Rejection {
                                    tool_call_id: id,
                                    judgement: j,
                                    tool: "structured_response"@,
                                    schema_name: schema.name,
                                },
                            ],
                            negotiation,
                            end: CallEnd::Next,
                        }
                    }
                },
            }
        } else {
            let action = Recorded::Step(
                StepView::Action { tool_name: name, tool_call_id: id, arguments },
            );
            if position_of(agent.tools, name) >= 0 {
                CallEffect {
                    records: seq![action],
                    negotiation,
                    end: CallEnd::Execute { tool_name: name, arguments },
                }
            } else {
                CallEffect {
                    records: seq![action, error_observation(id, not_found_text(name))],
                    negotiation,
                    end: CallEnd::Next,
                }
            }
        },
    }
}

/// What the handling of the calls of a turn does, from one call on.
pub struct DrainEffect {
    /// The steps recorded.
    pub records: Seq<Recorded>,
    /// The negotiation after the last call handled.
    pub negotiation: NegotiationView,
    /// How many calls of the turn are done.
    pub next: nat,
    /// How the handling ends; `Next` where all calls are done.
    pub stop: CallEnd,
    /// How many steps were recorded before the call that ended the run.
    pub snapshot: nat,
}

/// What the handling of `calls` does from the call at `from` on: each call is handled in its
/// turn, with the negotiation that the calls before it left, until one ends the run or has a
/// tool executed.
pub open spec fn drain_effect(
    agent: AgentView,
    calls: Seq<JsonView>,
    from: nat,
    negotiation: NegotiationView,
) -> DrainEffect
    decreases calls.len() - from,
{
    if from >= calls.len() {
        DrainEffect {
            records: Seq::empty(),
            negotiation,
            next: from,
            stop: CallEnd::Next,
            snapshot: 0,
        }
    } else {
        let e = steps_call_effect(agent, calls[from as int], negotiation);
        if e.end is Next {
            let rest = drain_effect(agent, calls, from + 1, e.negotiation);
            DrainEffect {
                records: e.records + rest.records,
                negotiation: rest.negotiation,
                next: rest.next,
                stop: rest.stop,
                snapshot: e.records.len() + rest.snapshot,
            }
        } else {
            DrainEffect {
                records: e.records,
                negotiation: e.negotiation,
                next: from + 1,
                stop: e.end,
                snapshot: 0,
            }
        }
    }
}

/// The tools that a request offers: the registered tools, then the one terminal tool,
/// `structured_response` where a completion schema is active, else `final_answer`.
pub open spec fn offered_tools(agent: AgentView) -> Seq<JsonView> {
    wire_tools(agent.tools).push(
        match agent.completion_schema {
            Some(s) => structured_response_tool(s),
            None => final_answer_tool(),
        },
    )
}

/// The messages that a request sends for a memory: the memory's messages, with the
/// instruction for the completion schema where one is active.
pub open spec fn request_messages(agent: AgentView, messages: Seq<JsonView>) -> Seq<JsonView> {
    match agent.completion_schema {
        Some(s) => with_instruction(messages, s.name),
        None => messages,
    }
}

/// The body of the request that asks for the next turn after `messages`.
pub open spec fn request_body(agent: AgentView, messages: Seq<JsonView>) -> JsonView {
    (RequestView {
        model: agent.model,
        messages: request_messages(agent, messages),
        tools: offered_tools(agent),
        tool_choice: Some(JsonView::String("auto"@)),
        max_tokens: agent.max_tokens,
        response_format: None,
    }).body()
}

/// A run that keeps its steps.
#[derive(Debug)]
pub struct StepsRun {
    memory: AgentMemory,
    negotiation: Negotiation,
    iteration: usize,
    token_usage: Option<TokenUsage>,
    pending: Vec<Json>,
    next: usize,
    phase: Phase,
}

/// The mathematical value of a run that keeps its steps.
pub struct StepsRunView {
    /// The steps so far.
    pub memory: MemoryView,
    /// What the run knows of the final answer.
    pub negotiation: NegotiationView,
    /// How many completion requests were made.
    pub iteration: usize,
    /// The tokens of the last response.
    pub token_usage: Option<TokenUsage>,
    /// The tool calls of the turn at hand.
    pub pending: Seq<JsonView>,
    /// How many of them are done.
    pub next: usize,
    /// What the run waits for.
    pub phase: PhaseView,
}

impl View for StepsRun {
    type V = StepsRunView;

    closed spec fn view(&self) -> StepsRunView {
        StepsRunView {
            memory: self.memory@,
            negotiation: self.negotiation@,
            iteration: self.iteration,
            token_usage: self.token_usage,
            pending: items_view(self.pending@),
            next: self.next,
            phase: self.phase@,
        }
    }
}

/// The text of the observation that turns down a turn without tool calls: a reminder of the
/// tool that is to be called, with the text received where there was any.
pub open spec fn plain_text_reminder(has_final_answer: bool, answer: Seq<char>) -> Seq<char> {
    if !has_final_answer {
        if answer.len() == 0 {
            "Assistant must call the `final_answer` tool to conclude the task, but returned no content."@
        } else {
            "Assistant must call the `final_answer` tool to conclude the task. Received plain response: "@
                + answer
        }
    } else if answer.len() == 0 {
        "Assistant must call the `structured_response` tool with the structured schema payload, but returned no content."@
    } else {
        "Assistant must call the `structured_response` tool with the structured schema payload instead of responding directly: "@
            + answer
    }
}

/// The name of the terminal tool of an agent.
pub open spec fn terminal_tool_name(agent: AgentView) -> Seq<char> {
    if agent.completion_schema is Some {
        "structured_response"@
    } else {
        "final_answer"@
    }
}

/// The text of the payload that turns down a turn in which `final_answer` is not alone.
pub open spec fn not_alone_text() -> Seq<char> {
    call_fault_text("`final_answer` must be the only tool call in a single turn"@)
}

/// Whether the run goes on to its next iteration as it should: while the budget lasts, one
/// more request is made, for the memory as it is; once the budget is used up the run fails
/// and tells the budget.
pub open spec fn proceeds(
    agent: AgentView,
    iteration: usize,
    after: StepsRunView,
    action: RunAction,
) -> bool {
    if iteration < agent.max_iterations {
        &&& after.iteration == iteration + 1
        &&& after.phase is AwaitingCompletion
        &&& action matches RunAction::Request(body) && body@ == request_body(
            agent,
            after.memory.messages(),
        )
    } else {
        &&& after.iteration == iteration
        &&& after.phase is Over
        &&& action == RunAction::Fail(AgentError::MaxIterations(agent.max_iterations))
    }
}

/// Whether a run has handled the calls of a turn as it should, from the call at `from` on:
/// the memory has grown by the steps that `drain_effect` tells, the negotiation is the one
/// it tells, and the run has stopped where it tells. Where all calls are done the run
/// proceeds; where a tool is to be executed the run waits for it; where the run has ended
/// its record holds the steps from before the call that ended it.
pub open spec fn drained(
    agent: AgentView,
    memory: MemoryView,
    negotiation: NegotiationView,
    iteration: usize,
    tokens: Option<TokenUsage>,
    calls: Seq<JsonView>,
    from: nat,
    elapsed: Duration,
    after: StepsRunView,
    action: RunAction,
) -> bool {
    let d = drain_effect(agent, calls, from, negotiation);
    let before = memory.steps.len() as int;
    &&& after.memory.system_prompt == memory.system_prompt
    &&& after.memory.steps.len() == before + d.records.len()
    &&& after.memory.steps.take(before) == memory.steps
    &&& recorded_all(after.memory.steps.skip(before), d.records)
    &&& after.negotiation == d.negotiation
    &&& after.token_usage == tokens
    &&& match d.stop {
        CallEnd::Next => proceeds(agent, iteration, after, action),
        CallEnd::Execute { tool_name, arguments } => {
            &&& action matches RunAction::Execute { tool_name: n, arguments: a } && n@ == tool_name
                && a@ == arguments
            &&& after.phase == (PhaseView::AwaitingTool {
                tool_call_id: call_id(calls[d.next - 1]),
            })
            &&& after.pending == calls
            &&& after.next == d.next
            &&& after.iteration == iteration
        },
        CallEnd::Finish { output, structured, schema } => {
            &&& after.phase is Over
            &&& after.iteration == iteration
            &&& action matches RunAction::Finish(r) && r@ == (RunResultView {
                output,
                structured,
                schema,
                steps: after.memory.steps.take(before + d.snapshot),
                tokens,
                duration: elapsed,
                iterations: iteration,
            })
        },
    }
}

/// Whether `step` is the observation of the action `action`: it echoes the action's id.
pub open spec fn observes(step: StepView, action: StepView) -> bool {
    action matches StepView::Action { tool_name, tool_call_id: id, arguments }
        && step matches StepView::Observation { tool_call_id, result, is_error } && tool_call_id
        == id
}

/// Whether every action among `steps` has its observation right after it; the last step may
/// be an action whose observation is still to come.
pub open spec fn actions_observed(steps: Seq<StepView>) -> bool {
    forall|i: int|
        0 <= i < steps.len() - 1 && (#[trigger] steps[i]) is Action ==> observes(
            steps[i + 1],
            steps[i],
        )
}

/// Whether the last of `steps` is an action.
pub open spec fn ends_with_action(steps: Seq<StepView>) -> bool {
    steps.len() > 0 && steps.last() is Action
}

/// Whether the actions of a run and their observations go in pairs: each action is followed
/// by its observation, and an action is the last step exactly while the run waits for the
/// tool called under its id.
pub open spec fn run_paired(run: StepsRunView) -> bool {
    &&& actions_observed(run.memory.steps)
    &&& match run.phase {
        PhaseView::AwaitingTool { tool_call_id } => ends_with_action(run.memory.steps)
            && run.memory.steps.last()->Action_tool_call_id == tool_call_id,
        _ => !ends_with_action(run.memory.steps),
    }
}

proof fn lemma_pairs_join(first: Seq<StepView>, second: Seq<StepView>)
    requires
        actions_observed(first),
        actions_observed(second),
        !ends_with_action(first),
    ensures
        actions_observed(first + second),
        ends_with_action(first + second) == ends_with_action(second),
{
    let all = first + second;
    assert forall|i: int| 0 <= i < all.len() - 1 && (#[trigger] all[i]) is Action implies observes(
        all[i + 1],
        all[i],
    ) by {
        if i < first.len() {
            assert(all[i] == first[i]);
            assert(i < first.len() - 1);
            assert(all[i + 1] == first[i + 1]);
        } else {
            assert(all[i] == second[i - first.len()]);
            assert(all[i + 1] == second[i - first.len() + 1]);
        }
    }
    if second.len() > 0 {
        assert(all.last() == second.last());
    } else {
        assert(all =~= first);
    }
}

proof fn lemma_call_pairs(
    agent: AgentView,
    call: JsonView,
    negotiation: NegotiationView,
    steps: Seq<StepView>,
)
    requires
        recorded_all(steps, steps_call_effect(agent, call, negotiation).records),
    ensures
        actions_observed(steps),
        ends_with_action(steps) <==> steps_call_effect(agent, call, negotiation).end is Execute,
        ends_with_action(steps) ==> steps.last()->Action_tool_call_id == call_id(call),
{
    let e = steps_call_effect(agent, call, negotiation);
    assert forall|i: int| 0 <= i < steps.len() implies recorded_as(
        #[trigger] steps[i],
        e.records[i],
    ) by {}
    if steps.len() > 0 {
        assert(recorded_as(steps[0], e.records[0]));
    }
    if steps.len() > 1 {
        assert(recorded_as(steps[1], e.records[1]));
    }
}

proof fn lemma_drain_pairs(
    agent: AgentView,
    calls: Seq<JsonView>,
    from: nat,
    negotiation: NegotiationView,
    steps: Seq<StepView>,
)
    requires
        recorded_all(steps, drain_effect(agent, calls, from, negotiation).records),
    ensures
        actions_observed(steps),
        ends_with_action(steps) <==> drain_effect(agent, calls, from, negotiation).stop is Execute,
        ends_with_action(steps) ==> steps.last()->Action_tool_call_id == call_id(
            calls[drain_effect(agent, calls, from, negotiation).next - 1],
        ),
    decreases calls.len() - from,
{
    if from < calls.len() {
        let e = steps_call_effect(agent, calls[from as int], negotiation);
        let d = drain_effect(agent, calls, from, negotiation);
        if e.end is Next {
            let rest = drain_effect(agent, calls, from + 1, e.negotiation);
            let k = e.records.len() as int;
            let first = steps.take(k);
            let second = steps.skip(k);
            assert forall|i: int| 0 <= i < first.len() implies recorded_as(
                #[trigger] first[i],
                e.records[i],
            ) by {
                assert(recorded_as(steps[i], d.records[i]));
            }
            assert forall|i: int| 0 <= i < second.len() implies recorded_as(
                #[trigger] second[i],
                rest.records[i],
            ) by {
                assert(recorded_as(steps[k + i], d.records[k + i]));
            }
            lemma_call_pairs(agent, calls[from as int], negotiation, first);
            lemma_drain_pairs(agent, calls, from + 1, e.negotiation, second);
            lemma_pairs_join(first, second);
            assert(first + second =~= steps);
        } else {
            lemma_call_pairs(agent, calls[from as int], negotiation, steps);
        }
    }
}

/// A run that has handled calls as `drained` tells keeps its actions and observations in
/// pairs, if the steps before were in pairs and did not end with an action.
pub proof fn lemma_drained_keeps_pairs(
    agent: AgentView,
    memory: MemoryView,
    negotiation: NegotiationView,
    iteration: usize,
    tokens: Option<TokenUsage>,
    calls: Seq<JsonView>,
    from: nat,
    elapsed: Duration,
    after: StepsRunView,
    action: RunAction,
)
    requires
        drained(agent, memory, negotiation, iteration, tokens, calls, from, elapsed, after, action),
        actions_observed(memory.steps),
        !ends_with_action(memory.steps),
    ensures
        run_paired(after),
{
    let before = memory.steps.len() as int;
    let new = after.memory.steps.skip(before);
    lemma_drain_pairs(agent, calls, from, negotiation, new);
    lemma_pairs_join(memory.steps, new);
    assert(after.memory.steps =~= after.memory.steps.take(before) + new);
}

/// What the handling of one tool call comes to.
#[derive(Debug)]
pub enum CallOutcome {
    /// Go on with the next call.
    Next,
    /// Have the tool executed.
    Execute { tool_call_id: String, tool_name: String, arguments: Json },
    /// The run is over.
    Finish(RunResult),
}

/// What a tool call asks for, as far as its envelope tells.
#[derive(Debug)]
pub enum CallEnvelope {
    NoFunction,
    NoName,
    BadArguments { name: String, error: String },
    Call { name: String, arguments: Json },
}

impl View for CallEnvelope {
    type V = Envelope;

    open spec fn view(&self) -> Envelope {
        match *self {
            CallEnvelope::NoFunction => Envelope::NoFunction,
            CallEnvelope::NoName => Envelope::NoName,
            CallEnvelope::BadArguments { name, error } => Envelope::BadArguments {
                name: name@,
                error: error@,
            },
            CallEnvelope::Call { name, arguments } => Envelope::Call {
                name: name@,
                arguments: arguments@,
            },
        }
    }
}

/// The id of a tool call, empty where it has none.
pub fn extract_tool_call_id(call: &Json) -> (id: &str)
    ensures
        id@ == call_id(call@),
{
    match call.get_str("id") {
        Some(id) => id,
        None => {
            proof {
                reveal_strlit("");
                assert(""@ =~= Seq::<char>::empty());
            }
            ""
        },
    }
}

/// The function of a tool call and its name.
pub fn extract_function_info(call: &Json) -> (info: Option<(&Json, Option<&str>)>)
    ensures
        match info {
            Some((function, name)) => call@.member("function"@) == Some(function@) && (match name {
                Some(n) => function@.text_member("name"@) == Some(n@),
                None => function@.text_member("name"@) is None,
            }),
            None => call@.member("function"@) is None,
        },
{
    match call.get("function") {
        Some(function) => Some((function, function.get_str("name"))),
        None => None,
    }
}

/// The text of the arguments of a function, empty where there is none.
pub fn extract_arguments_str(function: &Json) -> (text: &str)
    ensures
        text@ == arguments_text(function@),
{
    match function.get_str("arguments") {
        Some(a) => a,
        None => {
            proof {
                reveal_strlit("");
                assert(""@ =~= Seq::<char>::empty());
            }
            ""
        },
    }
}

/// Reads the arguments of a call of `function_name` from their text.
pub fn parse_function_arguments(arguments_str: &str, function_name: &str) -> (r: Result<
    Json,
    AgentError,
>)
    ensures
        match parsed_json(arguments_str@) {
            Ok(v) => r matches Ok(j) && j@ == v,
            Err(e) => r matches Err(AgentError::InvalidFunctionCall(m)) && m@
                == "Failed to parse arguments for tool '"@ + function_name@ + "': "@ + e,
        },
{
    match Json::parse(arguments_str) {
        Ok(j) => Ok(j),
        Err(e) => {
            let reason = json_error_message(&e);
            let mut message = append("Failed to parse arguments for tool '", function_name);
            message.push_str("': ");
            message.push_str(reason.as_str());
            Err(AgentError::InvalidFunctionCall(message))
        },
    }
}

/// Reads the envelope of a tool call.
pub fn read_call(call: &Json) -> (envelope: CallEnvelope)
    ensures
        envelope@ == envelope_of(call@),
{
    match extract_function_info(call) {
        None => CallEnvelope::NoFunction,
        Some((function, name)) => match name {
            None => CallEnvelope::NoName,
            Some(n) => {
                if n.is_empty() {
                    return CallEnvelope::NoName;
                }
                match Json::parse(extract_arguments_str(function)) {
                    Ok(arguments) => CallEnvelope::Call { name: n.to_owned(), arguments },
                    Err(e) => CallEnvelope::BadArguments {
                        name: n.to_owned(),
                        error: json_error_message(&e),
                    },
                }
            },
        },
    }
}

/// Adding a step that is what `record` says keeps what was recorded and adds the record.
proof fn lemma_record(
    before: Seq<StepView>,
    mid: Seq<StepView>,
    records: Seq<Recorded>,
    step: StepView,
    record: Recorded,
)
    requires
        mid.len() == before.len() + records.len(),
        mid.take(before.len() as int) == before,
        recorded_all(mid.skip(before.len() as int), records),
        recorded_as(step, record),
    ensures
        mid.push(step).take(before.len() as int) == before,
        recorded_all(mid.push(step).skip(before.len() as int), records.push(record)),
{
    let n = before.len() as int;
    assert(mid.push(step).take(n) =~= mid.take(n));
    let new = mid.push(step).skip(n);
    assert(new =~= mid.skip(n).push(step));
    assert forall|i: int| 0 <= i < new.len() implies recorded_as(
        #[trigger] new[i],
        records.push(record)[i],
    ) by {
        if i < records.len() {
            assert(new[i] == mid.skip(n)[i]);
        }
    }
}

/// What was recorded after what was recorded is what both say together.
proof fn lemma_records_join(
    before: Seq<StepView>,
    mid: Seq<StepView>,
    after: Seq<StepView>,
    first: Seq<Recorded>,
    second: Seq<Recorded>,
)
    requires
        mid.len() == before.len() + first.len(),
        mid.take(before.len() as int) == before,
        recorded_all(mid.skip(before.len() as int), first),
        after.len() == mid.len() + second.len(),
        after.take(mid.len() as int) == mid,
        recorded_all(after.skip(mid.len() as int), second),
    ensures
        after.take(before.len() as int) == before,
        recorded_all(after.skip(before.len() as int), first + second),
{
    let n = before.len() as int;
    let m = mid.len() as int;
    assert(after.take(n) =~= after.take(m).take(n));
    let new = after.skip(n);
    assert forall|i: int| 0 <= i < new.len() implies recorded_as(
        #[trigger] new[i],
        (first + second)[i],
    ) by {
        if i < first.len() {
            assert(new[i] == after.take(m)[n + i]);
            assert(mid.skip(n)[i] == mid[n + i]);
        } else {
            assert(new[i] == after.skip(m)[i - first.len()]);
        }
    }
}

fn record_error(memory: &mut AgentMemory, tool_call_id: &str, result: String)
    ensures
        final(memory)@ == old(memory)@.push(
            StepView::Observation { tool_call_id: tool_call_id@, result: result@, is_error: true },
        ),
{
    memory.add_step(
        AgentStep::Observation { tool_call_id: tool_call_id.to_owned(), result, is_error: true },
    );
}

impl StepsRun {
    /// The steps so far.
    pub fn memory(&self) -> (memory: &AgentMemory)
        ensures
            memory@ == self@.memory,
    {
        &self.memory
    }

    /// What the run knows of the final answer.
    pub fn negotiation(&self) -> (negotiation: &Negotiation)
        ensures
            negotiation@ == self@.negotiation,
    {
        &self.negotiation
    }

    /// How many completion requests were made.
    pub fn iteration(&self) -> (n: usize)
        ensures
            n == self@.iteration,
    {
        self.iteration
    }

    /// What the run waits for.
    pub fn phase(&self) -> (phase: &Phase)
        ensures
            phase@ == self@.phase,
    {
        &self.phase
    }

    /// Whether the run waits for the response to a completion request.
    pub fn awaits_completion(&self) -> (waits: bool)
        ensures
            waits == (self@.phase is AwaitingCompletion),
    {
        match &self.phase {
            Phase::AwaitingCompletion => true,
            _ => false,
        }
    }

    /// Whether the run waits for the result of a tool.
    pub fn awaits_tool(&self) -> (waits: bool)
        ensures
            waits == (self@.phase is AwaitingTool),
    {
        match &self.phase {
            Phase::AwaitingTool { .. } => true,
            _ => false,
        }
    }
}

impl Agent {
    /// The tools that a request offers.
    pub fn offered_tools(&self) -> (tools: Vec<Json>)
        ensures
            items_view(tools@) == offered_tools(self@),
    {
        let mut tools = self.function_factory().get_openai_tools();
        let terminal = match self.completion_schema() {
            Some(schema) => structured_response_tool_definition(schema),
            None => final_answer_tool_definition(),
        };
        proof {
            lemma_items_view_push(tools@, terminal);
        }
        tools.push(terminal);
        tools
    }

    /// The body of the request that asks for the next turn after `messages`.
    pub fn request_for(&self, messages: Vec<Json>) -> (body: Json)
        ensures
            body@ == request_body(self@, items_view(messages@)),
    {
        let mut messages = messages;
        match self.completion_schema() {
            Some(schema) => {
                inject_schema_instructions(&mut messages, schema);
            },
            None => {},
        }
        let tools = self.offered_tools();
        proof {
            lemma_items_view(tools@);
        }
        let mut request = ChatCompletionRequest::new(self.model(), messages).with_max_tokens(
            self.max_tokens(),
        );
        if tools.len() > 0 {
            request = request.with_tools(tools).with_tool_choice(Json::string("auto"));
        }
        request.into_value()
    }

    /// Goes on to the next iteration of a run that keeps its steps.
    fn steps_proceed(&self, run: &mut StepsRun) -> (action: RunAction)
        ensures
            proceeds(self@, old(run)@.iteration, final(run)@, action),
            final(run)@.memory == old(run)@.memory,
            final(run)@.negotiation == old(run)@.negotiation,
            final(run)@.token_usage == old(run)@.token_usage,
    {
        if run.iteration < self.max_iterations() {
            run.iteration = run.iteration + 1;
            run.phase = Phase::AwaitingCompletion;
            RunAction::Request(self.request_for(run.memory.as_messages()))
        } else {
            run.phase = Phase::Over;
            RunAction::Fail(AgentError::MaxIterations(self.max_iterations()))
        }
    }

    /// Starts a run that keeps its steps on `prompt`: the memory holds the default system
    /// prompt and the task, and the first request is made, unless the budget is zero.
    pub fn start_steps(&self, prompt: &str) -> (started: (StepsRun, RunAction))
        ensures
            started.0@.memory == MemoryView::empty(Some(crate::memory::DEFAULT_SYSTEM_PROMPT@)).push(
                StepView::Task { content: prompt@ },
            ),
            started.0@.negotiation == (NegotiationView {
                has_final_answer: false,
                final_answer_value: None,
            }),
            proceeds(self@, 0, started.0@, started.1),
            run_paired(started.0@),
    {
        let mut memory = AgentMemory::with_default_system();
        memory.add_step(AgentStep::Task { content: prompt.to_owned() });
        let mut run = StepsRun {
            memory,
            negotiation: Negotiation::new(),
            iteration: 0,
            token_usage: None,
            pending: Vec::new(),
            next: 0,
            phase: Phase::AwaitingCompletion,
        };
        let action = self.steps_proceed(&mut run);
        (run, action)
    }

    /// Handles one tool call in a run that keeps its steps.
    pub fn steps_call(
        &self,
        call: &Json,
        memory: &mut AgentMemory,
        negotiation: &mut Negotiation,
        tokens: Option<TokenUsage>,
        elapsed: Duration,
        iteration: usize,
    ) -> (outcome: CallOutcome)
        ensures
            ({
                let e = steps_call_effect(self@, call@, old(negotiation)@);
                let before = old(memory)@.steps.len() as int;
                &&& final(memory)@.system_prompt == old(memory)@.system_prompt
                &&& final(memory)@.steps.len() == before + e.records.len()
                &&& final(memory)@.steps.take(before) == old(memory)@.steps
                &&& recorded_all(final(memory)@.steps.skip(before), e.records)
                &&& final(negotiation)@ == e.negotiation
                &&& match e.end {
                    CallEnd::Next => outcome is Next,
                    CallEnd::Execute { tool_name, arguments } => outcome matches CallOutcome::Execute {
                        tool_call_id,
                        tool_name: n,
                        arguments: a,
                    } && tool_call_id@ == call_id(call@) && n@ == tool_name && a@ == arguments,
                    CallEnd::Finish { output, structured, schema } => outcome matches CallOutcome::Finish(
                        r,
                    ) && r@ == (RunResultView {
                        output,
                        structured,
                        schema,
                        steps: old(memory)@.steps,
                        tokens,
                        duration: elapsed,
                        iterations: iteration,
                    }),
                }
            }),
    {
        let id = extract_tool_call_id(call);
        let ghost before = memory@.steps;
        let ghost none = Seq::<Recorded>::empty();
        proof {
            assert(before.take(before.len() as int) =~= before);
            assert(before.skip(before.len() as int) =~= Seq::<StepView>::empty());
        }
        match read_call(call) {
            CallEnvelope::NoFunction => {
                record_error(memory, id, "Tool call missing function".to_owned());
                proof {
                    lemma_record(
                        before,
                        before,
                        none,
                        memory@.steps.last(),
                        error_observation(id@, "Tool call missing function"@),
                    );
                }
                CallOutcome::Next
            },
            CallEnvelope::NoName => {
                record_error(memory, id, "Tool call missing function name".to_owned());
                proof {
                    lemma_record(
                        before,
                        before,
                        none,
                        memory@.steps.last(),
                        error_observation(id@, "Tool call missing function name"@),
                    );
                }
                CallOutcome::Next
            },
            CallEnvelope::BadArguments { name, error } => {
                let mut message = append("Failed to parse arguments for tool '", name.as_str());
                message.push_str("': ");
                message.push_str(error.as_str());
                let e = AgentError::InvalidFunctionCall(message);
                record_error(memory, id, payload_text(&e));
                proof {
                    lemma_record(
                        before,
                        before,
                        none,
                        memory@.steps.last(),
                        error_observation(
                            id@,
                            call_fault_text(
                                "Failed to parse arguments for tool '"@ + name@ + "': "@ + error@,
                            ),
                        ),
                    );
                }
                CallOutcome::Next
            },
            CallEnvelope::Call { name, arguments } => {
                if same_text(name.as_str(), "final_answer") {
                    let ghost j = judge_final_answer(
                        arguments@,
                        self@.completion_schema,
                        negotiation@.has_final_answer,
                    );
                    let outcome = handle_final_answer_steps(
                        id,
                        &arguments,
                        self.completion_schema(),
                        negotiation,
                        memory,
                        tokens,
                        elapsed,
                        iteration,
                    );
                    proof {
                        let record = if j is Accepted {
                            Recorded::Step(
                                StepView::Observation {
                                    tool_call_id: id@,
                                    result: answer_receipt(answer_text(arguments@)),
                                    is_error: false,
                                },
                            )
                        } else {
                            Recorded::Rejection {
                                tool_call_id: id@,
                                judgement: j,
                                tool: "final_answer"@,
                                schema_name: schema_name_of(self@.completion_schema),
                            }
                        };
                        assert(memory@.steps =~= before.push(memory@.steps.last()));
                        lemma_record(before, before, none, memory@.steps.last(), record);
                    }
                    match outcome {
                        HandlerOutcome::ReturnResult(r) => CallOutcome::Finish(r),
                        _ => CallOutcome::Next,
                    }
                } else if same_text(name.as_str(), "structured_response") {
                    match self.completion_schema() {
                        None => {
                            let e = AgentError::InvalidFunctionCall(
                                "No completion schema is active for structured response".to_owned(),
                            );
                            record_error(memory, id, payload_text(&e));
                            proof {
                                lemma_record(
                                    before,
                                    before,
                                    none,
                                    memory@.steps.last(),
                                    error_observation(
                                        id@,
                                        call_fault_text(
                                            "No completion schema is active for structured response"@,
                                        ),
                                    ),
                                );
                            }
                            CallOutcome::Next
                        },
                        Some(schema) => {
                            let ghost j = judge_structured_response(arguments@, schema@);
                            let outcome = handle_structured_response_steps(
                                id,
                                &arguments,
                                schema,
                                negotiation,
                                memory,
                                tokens,
                                elapsed,
                                iteration,
                            );
                            proof {
                                if !(j is Accepted) {
                                    assert(memory@.steps =~= before.push(memory@.steps.last()));
                                    lemma_record(
                                        before,
                                        before,
                                        none,
                                        memory@.steps.last(),
                                        Recorded::Rejection {
                                            tool_call_id: id@,
                                            judgement: j,
                                            tool: "structured_response"@,
                                            schema_name: schema@.name,
                                        },
                                    );
                                }
                            }
                            match outcome {
                                HandlerOutcome::ReturnResult(r) => CallOutcome::Finish(r),
                                _ => CallOutcome::Next,
                            }
                        },
                    }
                } else {
                    let registered = self.function_factory().has_function(name.as_str());
                    memory.add_step(
                        AgentStep::Action {
                            tool_name: name.clone(),
                            tool_call_id: id.to_owned(),
                            arguments: arguments.clone(),
                        },
                    );
                    let ghost action = Recorded::Step(
                        StepView::Action {
                            tool_name: name@,
                            tool_call_id: id@,
                            arguments: arguments@,
                        },
                    );
                    let ghost mid = memory@.steps;
                    proof {
                        lemma_record(before, before, none, mid.last(), action);
                        assert(none.push(action) =~= seq![action]);
                    }
                    if registered {
                        CallOutcome::Execute { tool_call_id: id.to_owned(), tool_name: name, arguments }
                    } else {
                        let e = AgentError::ToolNotFound(name);
                        record_error(memory, id, payload_text(&e));
                        proof {
                            let missing = error_observation(id@, not_found_text(name@));
                            lemma_record(before, mid, seq![action], memory@.steps.last(), missing);
                            assert(seq![action].push(missing) =~= seq![action, missing]);
                        }
                        CallOutcome::Next
                    }
                }
            },
        }
    }
}

fn count_of(usage: &Json, key: &str) -> (n: Option<u32>)
    ensures
        n == token_count(usage@, key@),
{
    match usage.get(key) {
        Some(v) => match v.as_u64() {
            Some(n) => Some((n % 0x1_0000_0000) as u32),
            None => None,
        },
        None => None,
    }
}

/// The tokens that a response counts.
pub fn token_usage_of(response: &Json) -> (usage: Option<TokenUsage>)
    ensures
        usage == usage_of(response@),
{
    match response.get("usage") {
        Some(usage) => {
            let p = count_of(usage, "prompt_tokens");
            let c = count_of(usage, "completion_tokens");
            let t = count_of(usage, "total_tokens");
            match (p, c, t) {
                (Some(p), Some(c), Some(t)) => Some(
                    TokenUsage { prompt_tokens: p, completion_tokens: c, total_tokens: t },
                ),
                _ => None,
            }
        },
        None => None,
    }
}

/// The message of a response: that of its first choice.
pub fn assistant_message_of(response: &Json) -> (r: Result<&Json, AgentError>)
    ensures
        match assistant_message(response@) {
            Ok(m) => r matches Ok(j) && j@ == m,
            Err(text) => r matches Err(AgentError::Unknown(t)) && t@ == text,
        },
{
    let choices = match response.get("choices") {
        Some(c) => match c.as_array() {
            Some(items) => items,
            None => {
                return Err(
                    AgentError::Unknown(
                        "Missing 'choices' array in completion response".to_owned(),
                    ),
                );
            },
        },
        None => {
            return Err(
                AgentError::Unknown("Missing 'choices' array in completion response".to_owned()),
            );
        },
    };
    proof {
        lemma_items_view(choices@);
    }
    if choices.len() == 0 {
        return Err(AgentError::Unknown("Completion response contained no choices".to_owned()));
    }
    match choices[0].get("message") {
        Some(m) => Ok(m),
        None => Err(
            AgentError::Unknown("Completion response missing assistant message".to_owned()),
        ),
    }
}

/// Whether one of the calls names `final_answer`.
pub fn turn_has_final_answer(calls: &Vec<Json>) -> (found: bool)
    ensures
        found == has_final_answer_call(items_view(calls@)),
{
    proof {
        lemma_items_view(calls@);
    }
    let mut i: usize = 0;
    while i < calls.len()
        invariant
            i <= calls.len(),
            items_view(calls@).len() == calls.len(),
            forall|k: int| 0 <= k < calls.len() ==> #[trigger] items_view(calls@)[k] == calls@[k]@,
            forall|k: int| 0 <= k < i ==> !names_final_answer(#[trigger] items_view(calls@)[k]),
        decreases calls.len() - i,
    {
        let named = match calls[i].get("function") {
            Some(f) => match f.get_str("name") {
                Some(n) => same_text(n, "final_answer"),
                None => false,
            },
            None => false,
        };
        if named {
            assert(names_final_answer(items_view(calls@)[i as int]));
            return true;
        }
        i = i + 1;
    }
    false
}

/// The text of a message, without white space around it, empty where there is none.
pub fn content_of(message: &Json) -> (text: String)
    ensures
        text@ == content_text(message@),
{
    match message.get_str("content") {
        Some(c) => trim(c),
        None => String::new(),
    }
}

fn reminder(has_final_answer: bool, answer: &str) -> (text: String)
    ensures
        text@ == plain_text_reminder(has_final_answer, answer@),
{
    if !has_final_answer {
        if answer.is_empty() {
            "Assistant must call the `final_answer` tool to conclude the task, but returned no content.".to_owned()
        } else {
            append(
                "Assistant must call the `final_answer` tool to conclude the task. Received plain response: ",
                answer,
            )
        }
    } else if answer.is_empty() {
        "Assistant must call the `structured_response` tool with the structured schema payload, but returned no content.".to_owned()
    } else {
        append(
            "Assistant must call the `structured_response` tool with the structured schema payload instead of responding directly: ",
            answer,
        )
    }
}

impl Agent {
    /// Handles the calls of the turn at hand that are not yet done.
    fn steps_drain(&self, run: &mut StepsRun, elapsed: Duration) -> (action: RunAction)
        ensures
            drained(
                self@,
                old(run)@.memory,
                old(run)@.negotiation,
                old(run)@.iteration,
                old(run)@.token_usage,
                old(run)@.pending,
                old(run)@.next as nat,
                elapsed,
                final(run)@,
                action,
            ),
    {
        let ghost calls = items_view(run.pending@);
        let ghost start = run.memory@;
        let ghost from = run.next as nat;
        let ghost whole = drain_effect(self@, calls, from, run.negotiation@);
        let ghost mut done = Seq::<Recorded>::empty();
        let mut i: usize = run.next;
        proof {
            lemma_items_view(run.pending@);
            assert(start.steps.take(start.steps.len() as int) =~= start.steps);
            assert(start.steps.skip(start.steps.len() as int) =~= Seq::<StepView>::empty());
            assert(done + whole.records =~= whole.records);
        }
        while i < run.pending.len()
            invariant
                calls == items_view(run.pending@),
                calls.len() == run.pending.len(),
                run.pending == old(run).pending,
                run.iteration == old(run).iteration,
                run.token_usage == old(run).token_usage,
                whole == drain_effect(self@, calls, from, old(run)@.negotiation),
                start == old(run)@.memory,
                from == old(run).next,
                from <= i,
                ({
                    let rest = drain_effect(self@, calls, i as nat, run.negotiation@);
                    &&& whole.records == done + rest.records
                    &&& whole.negotiation == rest.negotiation
                    &&& whole.next == rest.next
                    &&& whole.stop == rest.stop
                    &&& whole.snapshot == done.len() + rest.snapshot
                }),
                run.memory@.system_prompt == start.system_prompt,
                run.memory@.steps.len() == start.steps.len() + done.len(),
                run.memory@.steps.take(start.steps.len() as int) == start.steps,
                recorded_all(run.memory@.steps.skip(start.steps.len() as int), done),
            decreases run.pending.len() - i,
        {
            let ghost mid = run.memory@;
            let ghost e = steps_call_effect(self@, calls[i as int], run.negotiation@);
            let ghost after = drain_effect(self@, calls, (i + 1) as nat, e.negotiation);
            proof {
                lemma_items_view(run.pending@);
            }
            let outcome = self.steps_call(
                &run.pending[i],
                &mut run.memory,
                &mut run.negotiation,
                run.token_usage,
                elapsed,
                run.iteration,
            );
            proof {
                lemma_records_join(
                    start.steps,
                    mid.steps,
                    run.memory@.steps,
                    done,
                    e.records,
                );
                if e.end is Next {
                    assert(done + (e.records + after.records) =~= (done + e.records)
                        + after.records);
                }
                done = done + e.records;
            }
            match outcome {
                CallOutcome::Next => {
                    i = i + 1;
                },
                CallOutcome::Execute { tool_call_id, tool_name, arguments } => {
                    run.next = i + 1;
                    run.phase = Phase::AwaitingTool { tool_call_id };
                    return RunAction::Execute { tool_name, arguments };
                },
                CallOutcome::Finish(r) => {
                    run.phase = Phase::Over;
                    proof {
                        assert(run.memory@.steps.take(mid.steps.len() as int) == mid.steps);
                    }
                    return RunAction::Finish(r);
                },
            }
        }
        run.next = run.pending.len();
        proof {
            assert(done + Seq::<Recorded>::empty() =~= done);
        }
        self.steps_proceed(run)
    }

    /// Takes the response to the completion request of a run that keeps its steps.
    ///
    /// A response without a first choice or without its message fails the run. A turn
    /// without tool calls is turned down with one error observation that reminds of the
    /// terminal tool, and so is a turn in which `final_answer` stands beside other calls,
    /// wherever it stands; the run then proceeds. Any other turn has its calls handled in
    /// order.
    pub fn steps_on_completion(&self, run: &mut StepsRun, response: &Json, elapsed: Duration) -> (action:
        RunAction)
        requires
            old(run)@.phase is AwaitingCompletion,
        ensures
            old(run)@.negotiation.has_final_answer ==> final(run)@.negotiation.has_final_answer,
            old(run)@.iteration <= self@.max_iterations ==> final(run)@.iteration
                <= self@.max_iterations,
            final(run)@.iteration == old(run)@.iteration + (if action is Request {
                1int
            } else {
                0int
            }),
            run_paired(old(run)@) ==> run_paired(final(run)@),
            old(run)@.memory.steps.len() <= final(run)@.memory.steps.len(),
            final(run)@.memory.steps.take(old(run)@.memory.steps.len() as int)
                == old(run)@.memory.steps,
            match assistant_message(response@) {
                Err(text) => {
                    &&& action matches RunAction::Fail(AgentError::Unknown(t)) && t@ == text
                    &&& final(run)@.phase is Over
                    &&& final(run)@.memory == old(run)@.memory
                    &&& final(run)@.negotiation == old(run)@.negotiation
                    &&& final(run)@.iteration == old(run)@.iteration
                },
                Ok(message) => match turn_of(message) {
                    Turn::Text(answer) => {
                        &&& final(run)@.memory == old(run)@.memory.push(
                            StepView::Observation {
                                tool_call_id: terminal_tool_name(self@),
                                result: plain_text_reminder(
                                    old(run)@.negotiation.has_final_answer,
                                    answer,
                                ),
                                is_error: true,
                            },
                        )
                        &&& final(run)@.negotiation == old(run)@.negotiation
                        &&& proceeds(self@, old(run)@.iteration, final(run)@, action)
                    },
                    Turn::Ignored => {
                        &&& final(run)@.memory == old(run)@.memory
                        &&& final(run)@.negotiation == old(run)@.negotiation
                        &&& proceeds(self@, old(run)@.iteration, final(run)@, action)
                    },
                    Turn::Calls(calls) => if calls.len() > 1 && has_final_answer_call(calls) {
                        &&& final(run)@.memory == old(run)@.memory.push(
                            StepView::Observation {
                                tool_call_id: "final_answer"@,
                                result: not_alone_text(),
                                is_error: true,
                            },
                        )
                        &&& final(run)@.negotiation == old(run)@.negotiation
                        &&& proceeds(self@, old(run)@.iteration, final(run)@, action)
                    } else {
                        drained(
                            self@,
                            old(run)@.memory,
                            old(run)@.negotiation,
                            old(run)@.iteration,
                            usage_of(response@),
                            calls,
                            0,
                            elapsed,
                            final(run)@,
                            action,
                        )
                    },
                },
            },
    {
        let message = match assistant_message_of(response) {
            Ok(m) => m,
            Err(e) => {
                run.phase = Phase::Over;
                return RunAction::Fail(e);
            },
        };
        run.token_usage = token_usage_of(response);
        match message.get("tool_calls") {
            Some(tool_calls) => match tool_calls.as_array() {
                Some(calls) => {
                    proof {
                        lemma_items_view(calls@);
                    }
                    if calls.len() > 1 && turn_has_final_answer(calls) {
                        let e = AgentError::InvalidFunctionCall(
                            "`final_answer` must be the only tool call in a single turn".to_owned(),
                        );
                        record_error(&mut run.memory, "final_answer", payload_text(&e));
                        return self.steps_proceed(run);
                    }
                    proof {
                        lemma_items_view(calls@);
                        lemma_negotiation_kept(self@, items_view(calls@), 0, run.negotiation@);
                    }
                    run.pending = crate::json::clone_items(calls);
                    run.next = 0;
                    let ghost before = run@;
                    let action = self.steps_drain(run, elapsed);
                    proof {
                        if run_paired(old(run)@) {
                            lemma_drained_keeps_pairs(
                                self@,
                                before.memory,
                                before.negotiation,
                                before.iteration,
                                before.token_usage,
                                before.pending,
                                0,
                                elapsed,
                                run@,
                                action,
                            );
                        }
                    }
                    action
                },
                None => self.steps_proceed(run),
            },
            None => {
                let answer = content_of(message);
                let text = reminder(run.negotiation.has_final_answer, answer.as_str());
                let id: &str = if self.completion_schema().is_some() {
                    "structured_response"
                } else {
                    "final_answer"
                };
                record_error(&mut run.memory, id, text);
                self.steps_proceed(run)
            },
        }
    }

    /// Takes the result of the tool that a run that keeps its steps waits for: it is
    /// recorded as an observation under the call's id, the tool's output as JSON text or
    /// the error's payload, and the calls that are left are handled.
    pub fn steps_on_tool_result(
        &self,
        run: &mut StepsRun,
        result: Result<Json, AgentError>,
        elapsed: Duration,
    ) -> (action: RunAction)
        requires
            old(run)@.phase is AwaitingTool,
        ensures
            old(run)@.negotiation.has_final_answer ==> final(run)@.negotiation.has_final_answer,
            old(run)@.iteration <= self@.max_iterations ==> final(run)@.iteration
                <= self@.max_iterations,
            final(run)@.iteration == old(run)@.iteration + (if action is Request {
                1int
            } else {
                0int
            }),
            run_paired(old(run)@) ==> run_paired(final(run)@),
            old(run)@.memory.steps.len() < final(run)@.memory.steps.len(),
            final(run)@.memory.steps.take(old(run)@.memory.steps.len() as int)
                == old(run)@.memory.steps,
            drained(
                self@,
                old(run)@.memory.push(
                    match result {
                        Ok(v) => StepView::Observation {
                            tool_call_id: old(run)@.phase->AwaitingTool_tool_call_id,
                            result: json_text(v@),
                            is_error: false,
                        },
                        Err(e) => StepView::Observation {
                            tool_call_id: old(run)@.phase->AwaitingTool_tool_call_id,
                            result: json_text(e.payload()),
                            is_error: true,
                        },
                    },
                ),
                old(run)@.negotiation,
                old(run)@.iteration,
                old(run)@.token_usage,
                old(run)@.pending,
                old(run)@.next as nat,
                elapsed,
                final(run)@,
                action,
            ),
    {
        let id: String = match &run.phase {
            Phase::AwaitingTool { tool_call_id } => tool_call_id.clone(),
            _ => String::new(),
        };
        let step = match result {
            Ok(v) => AgentStep::Observation {
                tool_call_id: id,
                result: v.to_text(),
                is_error: false,
            },
            Err(e) => AgentStep::Observation {
                tool_call_id: id,
                result: payload_text(&e),
                is_error: true,
            },
        };
        run.memory.add_step(step);
        proof {
            lemma_negotiation_kept(self@, run@.pending, run@.next as nat, run.negotiation@);
        }
        let ghost before = run@;
        let action = self.steps_drain(run, elapsed);
        proof {
            if run_paired(old(run)@) {
                let earlier = old(run)@.memory.steps;
                assert forall|i: int|
                    0 <= i < before.memory.steps.len() - 1 && (
                    #[trigger] before.memory.steps[i]) is Action implies observes(
                    before.memory.steps[i + 1],
                    before.memory.steps[i],
                ) by {
                    if i < earlier.len() - 1 {
                        assert(earlier[i] is Action);
                    }
                }
                lemma_drained_keeps_pairs(
                    self@,
                    before.memory,
                    before.negotiation,
                    before.iteration,
                    before.token_usage,
                    before.pending,
                    before.next as nat,
                    elapsed,
                    run@,
                    action,
                );
            }
        }
        action
    }
}

/// No tool call takes back that a final answer was accepted.
pub proof fn lemma_call_keeps_final_answer(agent: AgentView, call: JsonView, negotiation: NegotiationView)
    requires
        negotiation.has_final_answer,
    ensures
        steps_call_effect(agent, call, negotiation).negotiation.has_final_answer,
{
}

/// Handling the calls of a turn does not take back that a final answer was accepted.
pub proof fn lemma_negotiation_kept(
    agent: AgentView,
    calls: Seq<JsonView>,
    from: nat,
    negotiation: NegotiationView,
)
    ensures
        negotiation.has_final_answer ==> drain_effect(
            agent,
            calls,
            from,
            negotiation,
        ).negotiation.has_final_answer,
    decreases calls.len() - from,
{
    if from < calls.len() && negotiation.has_final_answer {
        let e = steps_call_effect(agent, calls[from as int], negotiation);
        lemma_call_keeps_final_answer(agent, calls[from as int], negotiation);
        if e.end is Next {
            lemma_negotiation_kept(agent, calls, from + 1, e.negotiation);
        }
    }
}

/// A final answer is accepted at most once in a run: once one is accepted, every call of
/// `final_answer` is turned down, whatever its arguments. The call records one error
/// observation that says so, the negotiation stays as it is, and the run goes on.
pub proof fn lemma_final_answer_accepted_once(
    agent: AgentView,
    call: JsonView,
    negotiation: NegotiationView,
)
    requires
        negotiation.has_final_answer,
        envelope_of(call) matches Envelope::Call { name, arguments } && name == "final_answer"@,
    ensures
        steps_call_effect(agent, call, negotiation) == (CallEffect {
            records: seq![
                Recorded::Rejection {
                    tool_call_id: call_id(call),
                    judgement: Judgement::AlreadyAnswered,
                    tool: "final_answer"@,
                    schema_name: schema_name_of(agent.completion_schema),
                },
            ],
            negotiation,
            end: CallEnd::Next,
        }),
{
}

/// With a completion schema, a final answer that is in order but brings no structured
/// payload does not end the run: it is accepted and kept, and the run goes on.
pub proof fn lemma_final_answer_awaits_payload(
    agent: AgentView,
    call: JsonView,
    negotiation: NegotiationView,
)
    requires
        agent.completion_schema is Some,
        envelope_of(call) matches Envelope::Call { name, arguments } && name == "final_answer"@
            && optional_member(arguments, "structured"@) is None && judge_final_answer(
            arguments,
            agent.completion_schema,
            negotiation.has_final_answer,
        ) is Accepted,
    ensures
        steps_call_effect(agent, call, negotiation).end is Next,
        steps_call_effect(agent, call, negotiation).negotiation == (NegotiationView {
            has_final_answer: true,
            final_answer_value: Some(answer_text(envelope_of(call)->Call_arguments)),
        }),
{
}

/// With a completion schema, once a final answer is accepted only a `structured_response`
/// whose payload is fit for the schema ends the run.
pub proof fn lemma_only_structured_response_ends(
    agent: AgentView,
    call: JsonView,
    negotiation: NegotiationView,
)
    requires
        agent.completion_schema is Some,
        negotiation.has_final_answer,
        steps_call_effect(agent, call, negotiation).end is Finish,
    ensures
        envelope_of(call) matches Envelope::Call { name, arguments } && name
            == "structured_response"@ && judge_structured_response(
            arguments,
            agent.completion_schema->Some_0,
        ) is Accepted,
{
}

/// Arguments that are no JSON never stop the run: the call records exactly one error
/// observation, whose payload has the code `INVALID_FUNCTION_CALL`, and the run goes on to
/// the next call.
pub proof fn lemma_unparsed_arguments_recorded(
    agent: AgentView,
    call: JsonView,
    negotiation: NegotiationView,
)
    requires
        envelope_of(call) is BadArguments,
    ensures
        steps_call_effect(agent, call, negotiation) == (CallEffect {
            records: seq![
                Recorded::Step(
                    StepView::Observation {
                        tool_call_id: call_id(call),
                        result: json_text(
                            error_payload(
                                "INVALID_FUNCTION_CALL"@,
                                "Invalid function call: "@ + ("Failed to parse arguments for tool '"@
                                    + envelope_of(call)->BadArguments_name + "': "@ + envelope_of(
                                    call,
                                )->BadArguments_error),
                                false,
                            ),
                        ),
                        is_error: true,
                    },
                ),
            ],
            negotiation,
            end: CallEnd::Next,
        }),
{
}

/// A turn has a `final_answer` call wherever among its calls that call stands.
pub proof fn lemma_final_answer_found_anywhere(calls: Seq<JsonView>, at: int)
    requires
        0 <= at < calls.len(),
        names_final_answer(calls[at]),
    ensures
        has_final_answer_call(calls),
{
}

/// A run whose budget is used up does not ask again: it fails and tells the budget.
pub proof fn lemma_budget_used_up(
    agent: AgentView,
    iteration: usize,
    after: StepsRunView,
    action: RunAction,
)
    requires
        proceeds(agent, iteration, after, action),
        iteration >= agent.max_iterations,
    ensures
        action == RunAction::Fail(AgentError::MaxIterations(agent.max_iterations)),
        after.phase is Over,
{
}

/// What a request offers as its last tool is the one terminal tool: a function tool with a
/// name, a description and an object as its parameters, called `structured_response` where a
/// completion schema is active and `final_answer` where none is.
pub proof fn lemma_terminal_tool_is_offered(agent: AgentView)
    ensures
        offered_tools(agent).len() == agent.tools.len() + 1,
        forall|i: int|
            0 <= i < agent.tools.len() ==> (#[trigger] offered_tools(agent)[i])
                == agent.tools[i].wire(),
        offered_tools(agent).last().text_member("type"@) == Some("function"@),
        terminal_tool_name(agent).len() > 0,
        ({
            let function = offered_tools(agent).last().member("function"@);
            &&& function is Some
            &&& function->Some_0.text_member("name"@) == Some(terminal_tool_name(agent))
            &&& function->Some_0.text_member("description"@) is Some
            &&& function->Some_0.text_member("description"@)->Some_0.len() > 0
            &&& function->Some_0.member("parameters"@) is Some
            &&& function->Some_0.member("parameters"@)->Some_0 is Object
        }),
{
    reveal_strlit("type");
    reveal_strlit("function");
    reveal_strlit("name");
    reveal_strlit("description");
    reveal_strlit("parameters");
    reveal_strlit("final_answer");
    reveal_strlit("structured_response");
    reveal_strlit("Signal that the agent has completed the task by providing the final answer.");
    reveal_strlit("Complete the task by providing a ");
    assert("type"@.len() == 4 && "function"@.len() == 8 && "name"@.len() == 4);
    assert("description"@.len() == 11 && "parameters"@.len() == 10);
    assert("type"@ != "function"@);
    assert("name"@ != "description"@);
    assert("name"@ != "parameters"@);
    assert("description"@ != "parameters"@);
    assert("final_answer"@.len() == 12 && "structured_response"@.len() == 19);
    assert("Complete the task by providing a "@.len() == 33);
    assert("Signal that the agent has completed the task by providing the final answer."@.len()
        == 75);
}

} // verus!
