//! The run of an agent that keeps raw messages, as a machine: each completion and each tool
//! result moves the run on and tells what to do next.

use crate::agent::{Agent, AgentView};
use crate::error::AgentError;
use crate::execution::{
    assistant_message, assistant_message_of, call_id, content_of, envelope_of,
    extract_tool_call_id, has_final_answer_call, not_alone_text, not_found_text, read_call,
    request_body, request_messages, turn_has_final_answer, turn_of, CallEnvelope, Envelope, Phase,
    PhaseView, RunAction, Turn,
};
use crate::json::{
    clone_items, items_view, json_text, lemma_items_view, lemma_items_view_push, Json, JsonView,
};
use crate::response_handler::{
    accepted_text, acknowledged_text, answer_text, call_fault_text,
    handle_final_answer_messages, handle_structured_response_messages, judge_final_answer,
    judge_structured_response, reports_judgement, schema_name_of, structured_output,
    HandlerOutcome, Judgement, Negotiation, NegotiationView,
};
use crate::steps::{make_text_message, make_tool_message, text_message, tool_message};
use crate::text::{append, same_text};
use crate::tools::position_of;
use crate::validation::{inject_schema_instructions, optional_member};
use vstd::prelude::*;

verus! {

/// What the machine says of one new message: the message itself, or that it is the tool
/// message for a call that was turned down, whose text the validator may word.
pub enum Sent {
    Message(JsonView),
    Rejection { tool_call_id: Seq<char>, judgement: Judgement, tool: Seq<char>, schema_name: Seq<char> },
}

/// Whether `message` is what `sent` says.
pub open spec fn sent_as(message: JsonView, sent: Sent) -> bool {
    match sent {
        Sent::Message(m) => message == m,
        Sent::Rejection { tool_call_id, judgement, tool, schema_name } => exists|text: Seq<char>|
            message == tool_message(tool_call_id, text) && reports_judgement(
                judgement,
                tool,
                schema_name,
                text,
            ),
    }
}

/// Whether `messages` are what `sent` says, one by one.
pub open spec fn sent_all(messages: Seq<JsonView>, sent: Seq<Sent>) -> bool {
    &&& messages.len() == sent.len()
    &&& forall|i: int| 0 <= i < messages.len() ==> sent_as(#[trigger] messages[i], sent[i])
}

/// How the handling of tool calls ends.
pub enum MessageEnd {
    /// Go on with the next call.
    Next,
    /// Have the tool executed; the run waits for its result.
    Execute { tool_name: Seq<char>, arguments: JsonView },
    /// The run is over, with this text.
    Answer(Seq<char>),
}

/// What the handling of one tool call does: the messages it adds, the negotiation after it,
/// and how it ends.
pub struct MessageEffect {
    pub sent: Seq<Sent>,
    pub negotiation: NegotiationView,
    pub end: MessageEnd,
}

/// The tool message with the payload of an invalid function call.
pub open spec fn call_fault(tool_call_id: Seq<char>, message: Seq<char>) -> Sent {
    Sent::Message(tool_message(tool_call_id, call_fault_text(message)))
}

/// The message of the error for a `structured_response` without completion schema.
pub open spec fn no_schema_message() -> Seq<char> {
    "No completion schema is active for structured response"@
}

/// What the handling of one tool call does, in a run that keeps raw messages.
///
/// A call without function or name adds one tool message with the error. A
/// `structured_response` without completion schema adds one, whatever its arguments; else
/// arguments that are no JSON add one. `final_answer` and `structured_response` are judged;
/// turned down, they add one tool message with the error; accepted, `final_answer` ends the
/// run with its text unless a structured payload is still awaited, which a tool message
/// acknowledges, and `structured_response` adds a tool message and ends the run. Any other
/// call has its tool executed if one is registered, else it adds a tool message with the
/// error.
pub open spec fn messages_call_effect(
    agent: AgentView,
    call: JsonView,
    negotiation: NegotiationView,
) -> MessageEffect {
    let id = call_id(call);
    let go_on = |sent: Sent| MessageEffect { sent: seq![sent], negotiation, end: MessageEnd::Next };
    match envelope_of(call) {
        Envelope::NoFunction => go_on(call_fault(id, "Tool call missing function"@)),
        Envelope::NoName => go_on(call_fault(id, "Tool call missing function name"@)),
        Envelope::BadArguments { name, error } => if name != "final_answer"@ && name
            == "structured_response"@ && agent.completion_schema is None {
            go_on(call_fault(id, no_schema_message()))
        } else {
            go_on(
                call_fault(id, "Failed to parse arguments for tool '"@ + name + "': "@ + error),
            )
        },
        Envelope::Call { name, arguments } => if name == "final_answer"@ {
            let j = judge_final_answer(
                arguments,
                agent.completion_schema,
                negotiation.has_final_answer,
            );
            if j is Accepted {
                let accepted = NegotiationView {
                    has_final_answer: true,
                    final_answer_value: Some(answer_text(arguments)),
                };
                if optional_member(arguments, "structured"@) is Some || agent.completion_schema
                    is None {
                    MessageEffect {
                        sent: Seq::empty(),
                        negotiation: accepted,
                        end: MessageEnd::Answer(answer_text(arguments)),
                    }
                } else {
                    MessageEffect {
                        sent: seq![Sent::Message(tool_message(id, acknowledged_text()))],
                        negotiation: accepted,
                        end: MessageEnd::Next,
                    }
                }
            } else {
                go_on(
                    Sent::Rejection {
                        tool_call_id: id,
                        judgement: j,
                        tool: "final_answer"@,
                        schema_name: schema_name_of(agent.completion_schema),
                    },
                )
            }
        } else if name == "structured_response"@ {
            match agent.completion_schema {
                None => go_on(call_fault(id, no_schema_message())),
                Some(schema) => {
                    let j = judge_structured_response(arguments, schema);
                    if j is Accepted {
                        MessageEffect {
                            sent: seq![Sent::Message(tool_message(id, accepted_text()))],
                            negotiation,
                            end: MessageEnd::Answer(structured_output(negotiation)),
                        }
                    } else {
                        go_on(
                            Sent::Rejection {
                                tool_call_id: id,
                                judgement: j,
                                tool: "structured_response"@,
                                schema_name: schema.name,
                            },
                        )
                    }
                },
            }
        } else if position_of(agent.tools, name) >= 0 {
            MessageEffect {
                sent: Seq::empty(),
                negotiation,
                end: MessageEnd::Execute { tool_name: name, arguments },
            }
        } else {
            go_on(Sent::Message(tool_message(id, not_found_text(name))))
        },
    }
}

/// What the handling of the calls of a turn does, from one call on.
pub struct MessageDrain {
    /// The messages added.
    pub sent: Seq<Sent>,
    /// The negotiation after the last call handled.
    pub negotiation: NegotiationView,
    /// How many calls of the turn are done.
    pub next: nat,
    /// How the handling ends; `Next` where all calls are done.
    pub stop: MessageEnd,
}

/// What the handling of `calls` does from the call at `from` on: each call is handled in its
/// turn, with the negotiation that the calls before it left, until one ends the run or has a
/// tool executed.
pub open spec fn messages_drain_effect(
    agent: AgentView,
    calls: Seq<JsonView>,
    from: nat,
    negotiation: NegotiationView,
) -> MessageDrain
    decreases calls.len() - from,
{
    if from >= calls.len() {
        MessageDrain { sent: Seq::empty(), negotiation, next: from, stop: MessageEnd::Next }
    } else {
        let e = messages_call_effect(agent, calls[from as int], negotiation);
        if e.end is Next {
            let rest = messages_drain_effect(agent, calls, from + 1, e.negotiation);
            MessageDrain {
                sent: e.sent + rest.sent,
                negotiation: rest.negotiation,
                next: rest.next,
                stop: rest.stop,
            }
        } else {
            MessageDrain { sent: e.sent, negotiation: e.negotiation, next: from + 1, stop: e.end }
        }
    }
}

/// A run that keeps raw messages.
#[derive(Debug)]
pub struct MessagesRun {
    messages: Vec<Json>,
    negotiation: Negotiation,
    iteration: usize,
    pending: Vec<Json>,
    next: usize,
    phase: Phase,
}

/// The mathematical value of a run that keeps raw messages.
pub struct MessagesRunView {
    /// The conversation so far.
    pub messages: Seq<JsonView>,
    /// What the run knows of the final answer.
    pub negotiation: NegotiationView,
    /// How many completion requests were made.
    pub iteration: usize,
    /// The tool calls of the turn at hand.
    pub pending: Seq<JsonView>,
    /// How many of them are done.
    pub next: usize,
    /// What the run waits for.
    pub phase: PhaseView,
}

impl View for MessagesRun {
    type V = MessagesRunView;

    closed spec fn view(&self) -> MessagesRunView {
        MessagesRunView {
            messages: items_view(self.messages@),
            negotiation: self.negotiation@,
            iteration: self.iteration,
            pending: items_view(self.pending@),
            next: self.next,
            phase: self.phase@,
        }
    }
}

/// The text of the system message that turns down a turn without tool calls: a reminder of
/// the terminal tool, with the text received where there was any.
pub open spec fn direct_reply_reminder(schema_active: bool, answer: Seq<char>) -> Seq<char> {
    if schema_active {
        if answer.len() == 0 {
            "Reminder: Call the `structured_response` tool with the structured schema payload to complete the task."@
        } else {
            "Reminder: Provide the structured schema by calling the `structured_response` tool instead of responding directly: "@
                + answer
        }
    } else if answer.len() == 0 {
        "Reminder: You must call the `final_answer` tool with the completed answer to finish."@
    } else {
        "Reminder: Do not respond directly. Call the `final_answer` tool with the final answer instead of: "@
            + answer
    }
}

/// The assistant's turn as it is kept in the conversation: its content, an empty string
/// where it has none, and its tool calls.
pub open spec fn assistant_echo(message: JsonView) -> JsonView {
    JsonView::object3(
        "role"@,
        JsonView::String("assistant"@),
        "content"@,
        match message.member("content"@) {
            Some(c) => c,
            None => JsonView::String(Seq::empty()),
        },
        "tool_calls"@,
        match message.member("tool_calls"@) {
            Some(calls) => calls,
            None => JsonView::Null,
        },
    )
}

/// Whether the run goes on to its next iteration as it should, from the conversation
/// `before`: while the budget lasts, the instruction for the completion schema is put into
/// the conversation, where it is due, and one more request is made; once the budget is used
/// up the run fails and tells the budget.
pub open spec fn messages_proceeds(
    agent: AgentView,
    iteration: usize,
    before: Seq<JsonView>,
    after: MessagesRunView,
    action: RunAction,
) -> bool {
    if iteration < agent.max_iterations {
        &&& after.iteration == iteration + 1
        &&& after.phase is AwaitingCompletion
        &&& after.messages == request_messages(agent, before)
        &&& action matches RunAction::Request(body) && body@ == request_body(agent, before)
    } else {
        &&& after.iteration == iteration
        &&& after.phase is Over
        &&& after.messages == before
        &&& action == RunAction::Fail(AgentError::MaxIterations(agent.max_iterations))
    }
}

/// Whether the run has ended the handling of a turn's calls as it should, with the
/// conversation `mid` at that point.
pub open spec fn messages_stopped(
    agent: AgentView,
    iteration: usize,
    calls: Seq<JsonView>,
    d: MessageDrain,
    mid: Seq<JsonView>,
    after: MessagesRunView,
    action: RunAction,
) -> bool {
    match d.stop {
        MessageEnd::Next => messages_proceeds(agent, iteration, mid, after, action),
        MessageEnd::Execute { tool_name, arguments } => {
            &&& action matches RunAction::Execute { tool_name: n, arguments: a } && n@ == tool_name
                && a@ == arguments
            &&& after.phase == (PhaseView::AwaitingTool {
                tool_call_id: call_id(calls[d.next - 1]),
            })
            &&& after.messages == mid
            &&& after.pending == calls
            &&& after.next == d.next
            &&& after.iteration == iteration
        },
        MessageEnd::Answer(text) => {
            &&& after.phase is Over
            &&& after.messages == mid
            &&& after.iteration == iteration
            &&& action matches RunAction::Answer(a) && a@ == text
        },
    }
}

/// Whether a run has handled the calls of a turn as it should, from the call at `from` on:
/// the conversation has grown by the messages that `messages_drain_effect` tells, the
/// negotiation is the one it tells, and the run has stopped where it tells.
pub open spec fn messages_drained(
    agent: AgentView,
    messages: Seq<JsonView>,
    negotiation: NegotiationView,
    iteration: usize,
    calls: Seq<JsonView>,
    from: nat,
    after: MessagesRunView,
    action: RunAction,
) -> bool {
    let d = messages_drain_effect(agent, calls, from, negotiation);
    &&& after.negotiation == d.negotiation
    &&& exists|mid: Seq<JsonView>|
        {
            &&& mid.len() == messages.len() + d.sent.len()
            &&& mid.take(messages.len() as int) == messages
            &&& sent_all(mid.skip(messages.len() as int), d.sent)
            &&& #[trigger] messages_stopped(agent, iteration, calls, d, mid, after, action)
        }
}

/// What the handling of one tool call comes to.
#[derive(Debug)]
pub enum MessageOutcome {
    /// Go on with the next call.
    Next,
    /// Have the tool executed.
    Execute { tool_call_id: String, tool_name: String, arguments: Json },
    /// The run is over, with this text.
    Answer(String),
}

proof fn lemma_sent(
    before: Seq<JsonView>,
    mid: Seq<JsonView>,
    sent: Seq<Sent>,
    message: JsonView,
    one: Sent,
)
    requires
        mid.len() == before.len() + sent.len(),
        mid.take(before.len() as int) == before,
        sent_all(mid.skip(before.len() as int), sent),
        sent_as(message, one),
    ensures
        mid.push(message).take(before.len() as int) == before,
        sent_all(mid.push(message).skip(before.len() as int), sent.push(one)),
{
    let n = before.len() as int;
    assert(mid.push(message).take(n) =~= mid.take(n));
    let new = mid.push(message).skip(n);
    assert(new =~= mid.skip(n).push(message));
    assert forall|i: int| 0 <= i < new.len() implies sent_as(#[trigger] new[i], sent.push(one)[i]) by {
        if i < sent.len() {
            assert(new[i] == mid.skip(n)[i]);
        }
    }
}

proof fn lemma_sent_join(
    before: Seq<JsonView>,
    mid: Seq<JsonView>,
    after: Seq<JsonView>,
    first: Seq<Sent>,
    second: Seq<Sent>,
)
    requires
        mid.len() == before.len() + first.len(),
        mid.take(before.len() as int) == before,
        sent_all(mid.skip(before.len() as int), first),
        after.len() == mid.len() + second.len(),
        after.take(mid.len() as int) == mid,
        sent_all(after.skip(mid.len() as int), second),
    ensures
        after.take(before.len() as int) == before,
        sent_all(after.skip(before.len() as int), first + second),
{
    let n = before.len() as int;
    let m = mid.len() as int;
    assert(after.take(n) =~= after.take(m).take(n));
    let new = after.skip(n);
    assert forall|i: int| 0 <= i < new.len() implies sent_as(
        #[trigger] new[i],
        (first + second)[i],
    ) by {
        if i < first.len() {
            assert(new[i] == after.take(m)[n + i]);
            assert(mid.skip(n)[i] == mid[n + i]);
        } else {
            assert(new[i] == after.skip(m)[i - first.len()]);
        }
    }
}

fn push_message(messages: &mut Vec<Json>, message: Json)
    ensures
        items_view(final(messages)@) == items_view(old(messages)@).push(message@),
{
    proof {
        lemma_items_view_push(messages@, message);
    }
    messages.push(message);
}

fn push_call_fault(messages: &mut Vec<Json>, tool_call_id: &str, message: &str)
    ensures
        items_view(final(messages)@) == items_view(old(messages)@).push(
            tool_message(tool_call_id@, call_fault_text(message@)),
        ),
{
    let e = AgentError::InvalidFunctionCall(message.to_owned());
    let text = e.to_error_payload().to_text();
    push_message(messages, make_tool_message(tool_call_id, text.as_str()));
}

fn direct_reminder(schema_active: bool, answer: &str) -> (text: String)
    ensures
        text@ == direct_reply_reminder(schema_active, answer@),
{
    if schema_active {
        if answer.is_empty() {
            "Reminder: Call the `structured_response` tool with the structured schema payload to complete the task.".to_owned()
        } else {
            append(
                "Reminder: Provide the structured schema by calling the `structured_response` tool instead of responding directly: ",
                answer,
            )
        }
    } else if answer.is_empty() {
        "Reminder: You must call the `final_answer` tool with the completed answer to finish.".to_owned()
    } else {
        append(
            "Reminder: Do not respond directly. Call the `final_answer` tool with the final answer instead of: ",
            answer,
        )
    }
}

fn echo_of(message: &Json) -> (echo: Json)
    ensures
        echo@ == assistant_echo(message@),
{
    let content = match message.get("content") {
        Some(c) => c.clone(),
        None => {
            proof {
                reveal_strlit("");
                assert(""@ =~= Seq::<char>::empty());
            }
            Json::string("")
        },
    };
    let calls = match message.get("tool_calls") {
        Some(c) => c.clone(),
        None => Json::Null,
    };
    Json::object().with("role", Json::string("assistant")).with("content", content).with(
        "tool_calls",
        calls,
    )
}

impl MessagesRun {
    /// The conversation so far.
    pub fn messages(&self) -> (messages: &[Json])
        ensures
            items_view(messages@) == self@.messages,
    {
        self.messages.as_slice()
    }

    /// What the run knows of the final answer.
    pub fn negotiation(&self) -> (negotiation: &Negotiation)
        ensures
            negotiation@ == self@.negotiation,
    {
        &self.negotiation
    }

    /// How many completion requests were made.
    pub fn iteration(&self) -> (n: usize)
        ensures
            n == self@.iteration,
    {
        self.iteration
    }

    /// What the run waits for.
    pub fn phase(&self) -> (phase: &Phase)
        ensures
            phase@ == self@.phase,
    {
        &self.phase
    }

    /// Whether the run waits for the response to a completion request.
    pub fn awaits_completion(&self) -> (waits: bool)
        ensures
            waits == (self@.phase is AwaitingCompletion),
    {
        match &self.phase {
            Phase::AwaitingCompletion => true,
            _ => false,
        }
    }

    /// Whether the run waits for the result of a tool.
    pub fn awaits_tool(&self) -> (waits: bool)
        ensures
            waits == (self@.phase is AwaitingTool),
    {
        match &self.phase {
            Phase::AwaitingTool { .. } => true,
            _ => false,
        }
    }
}

impl Agent {
    /// Goes on to the next iteration of a run that keeps raw messages.
    fn messages_proceed(&self, run: &mut MessagesRun) -> (action: RunAction)
        ensures
            messages_proceeds(
                self@,
                old(run)@.iteration,
                old(run)@.messages,
                final(run)@,
                action,
            ),
            final(run)@.negotiation == old(run)@.negotiation,
    {
        if run.iteration < self.max_iterations() {
            run.iteration = run.iteration + 1;
            run.phase = Phase::AwaitingCompletion;
            let body = self.request_for(clone_items(&run.messages));
            match self.completion_schema() {
                Some(schema) => {
                    inject_schema_instructions(&mut run.messages, schema);
                },
                None => {},
            }
            RunAction::Request(body)
        } else {
            run.phase = Phase::Over;
            RunAction::Fail(AgentError::MaxIterations(self.max_iterations()))
        }
    }

    /// Starts a run that keeps raw messages on the conversation `messages`: the first
    /// request is made, unless the budget is zero.
    pub fn start_messages(&self, messages: Vec<Json>) -> (started: (MessagesRun, RunAction))
        ensures
            started.0@.negotiation == (NegotiationView {
                has_final_answer: false,
                final_answer_value: None,
            }),
            messages_proceeds(self@, 0, items_view(messages@), started.0@, started.1),
    {
        let mut run = MessagesRun {
            messages,
            negotiation: Negotiation::new(),
            iteration: 0,
            pending: Vec::new(),
            next: 0,
            phase: Phase::AwaitingCompletion,
        };
        let action = self.messages_proceed(&mut run);
        (run, action)
    }

    /// Starts a run that keeps raw messages on `prompt`, after the default system prompt.
    pub fn start_run(&self, prompt: &str) -> (started: (MessagesRun, RunAction))
        ensures
            started.0@.negotiation == (NegotiationView {
                has_final_answer: false,
                final_answer_value: None,
            }),
            messages_proceeds(
                self@,
                0,
                crate::agent::opening_messages(prompt@),
                started.0@,
                started.1,
            ),
    {
        self.start_messages(Agent::opening_messages(prompt))
    }

    /// Handles one tool call in a run that keeps raw messages.
    pub fn messages_call(
        &self,
        call: &Json,
        messages: &mut Vec<Json>,
        negotiation: &mut Negotiation,
    ) -> (outcome: MessageOutcome)
        ensures
            ({
                let e = messages_call_effect(self@, call@, old(negotiation)@);
                let before = items_view(old(messages)@);
                let after = items_view(final(messages)@);
                &&& after.len() == before.len() + e.sent.len()
                &&& after.take(before.len() as int) == before
                &&& sent_all(after.skip(before.len() as int), e.sent)
                &&& final(negotiation)@ == e.negotiation
                &&& match e.end {
                    MessageEnd::Next => outcome is Next,
                    MessageEnd::Execute { tool_name, arguments } => outcome matches MessageOutcome::Execute {
                        tool_call_id,
                        tool_name: n,
                        arguments: a,
                    } && tool_call_id@ == call_id(call@) && n@ == tool_name && a@ == arguments,
                    MessageEnd::Answer(text) => outcome matches MessageOutcome::Answer(a) && a@
                        == text,
                }
            }),
    {
        let id = extract_tool_call_id(call);
        let ghost before = items_view(messages@);
        let ghost none = Seq::<Sent>::empty();
        proof {
            assert(before.take(before.len() as int) =~= before);
            assert(before.skip(before.len() as int) =~= Seq::<JsonView>::empty());
        }
        match read_call(call) {
            CallEnvelope::NoFunction => {
                push_call_fault(messages, id, "Tool call missing function");
                proof {
                    let sent = call_fault(id@, "Tool call missing function"@);
                    lemma_sent(before, before, none, items_view(messages@).last(), sent);
                }
                MessageOutcome::Next
            },
            CallEnvelope::NoName => {
                push_call_fault(messages, id, "Tool call missing function name");
                proof {
                    let sent = call_fault(id@, "Tool call missing function name"@);
                    lemma_sent(before, before, none, items_view(messages@).last(), sent);
                }
                MessageOutcome::Next
            },
            CallEnvelope::BadArguments { name, error } => {
                if !same_text(name.as_str(), "final_answer") && same_text(
                    name.as_str(),
                    "structured_response",
                ) && self.completion_schema().is_none() {
                    push_call_fault(
                        messages,
                        id,
                        "No completion schema is active for structured response",
                    );
                    proof {
                        let sent = call_fault(id@, no_schema_message());
                        lemma_sent(before, before, none, items_view(messages@).last(), sent);
                    }
                } else {
                    let mut message = append("Failed to parse arguments for tool '", name.as_str());
                    message.push_str("': ");
                    message.push_str(error.as_str());
                    push_call_fault(messages, id, message.as_str());
                    proof {
                        let sent = call_fault(
                            id@,
                            "Failed to parse arguments for tool '"@ + name@ + "': "@ + error@,
                        );
                        lemma_sent(before, before, none, items_view(messages@).last(), sent);
                    }
                }
                MessageOutcome::Next
            },
            CallEnvelope::Call { name, arguments } => {
                if same_text(name.as_str(), "final_answer") {
                    let ghost j = judge_final_answer(
                        arguments@,
                        self@.completion_schema,
                        negotiation@.has_final_answer,
                    );
                    let outcome = handle_final_answer_messages(
                        id,
                        &arguments,
                        self.completion_schema(),
                        negotiation,
                        messages,
                    );
                    proof {
                        let after = items_view(messages@);
                        if j is Accepted {
                            if !(optional_member(arguments@, "structured"@) is Some
                                || self@.completion_schema is None) {
                                lemma_sent(
                                    before,
                                    before,
                                    none,
                                    after.last(),
                                    Sent::Message(tool_message(id@, acknowledged_text())),
                                );
                            }
                        } else {
                            lemma_sent(
                                before,
                                before,
                                none,
                                after.last(),
                                Sent::Rejection {
                                    tool_call_id: id@,
                                    judgement: j,
                                    tool: "final_answer"@,
                                    schema_name: schema_name_of(self@.completion_schema),
                                },
                            );
                        }
                    }
                    match outcome {
                        HandlerOutcome::ReturnAnswer(a) => MessageOutcome::Answer(a),
                        _ => MessageOutcome::Next,
                    }
                } else if same_text(name.as_str(), "structured_response") {
                    match self.completion_schema() {
                        None => {
                            push_call_fault(
                                messages,
                                id,
                                "No completion schema is active for structured response",
                            );
                            proof {
                                let sent = call_fault(id@, no_schema_message());
                                lemma_sent(
                                    before,
                                    before,
                                    none,
                                    items_view(messages@).last(),
                                    sent,
                                );
                            }
                            MessageOutcome::Next
                        },
                        Some(schema) => {
                            let ghost j = judge_structured_response(arguments@, schema@);
                            let outcome = handle_structured_response_messages(
                                id,
                                &arguments,
                                schema,
                                negotiation,
                                messages,
                            );
                            proof {
                                let after = items_view(messages@);
                                if j is Accepted {
                                    lemma_sent(
                                        before,
                                        before,
                                        none,
                                        after.last(),
                                        Sent::Message(tool_message(id@, accepted_text())),
                                    );
                                } else {
                                    lemma_sent(
                                        before,
                                        before,
                                        none,
                                        after.last(),
                                        Sent::Rejection {
                                            tool_call_id: id@,
                                            judgement: j,
                                            tool: "structured_response"@,
                                            schema_name: schema@.name,
                                        },
                                    );
                                }
                            }
                            match outcome {
                                HandlerOutcome::ReturnAnswer(a) => MessageOutcome::Answer(a),
                                _ => MessageOutcome::Next,
                            }
                        },
                    }
                } else if self.function_factory().has_function(name.as_str()) {
                    MessageOutcome::Execute { tool_call_id: id.to_owned(), tool_name: name, arguments }
                } else {
                    let e = AgentError::ToolNotFound(name);
                    let text = e.to_error_payload().to_text();
                    push_message(messages, make_tool_message(id, text.as_str()));
                    proof {
                        let sent = Sent::Message(
                            tool_message(id@, not_found_text(e->ToolNotFound_0@)),
                        );
                        lemma_sent(before, before, none, items_view(messages@).last(), sent);
                    }
                    MessageOutcome::Next
                }
            },
        }
    }

    /// Handles the calls of the turn at hand that are not yet done.
    fn messages_drain(&self, run: &mut MessagesRun) -> (action: RunAction)
        ensures
            messages_drained(
                self@,
                old(run)@.messages,
                old(run)@.negotiation,
                old(run)@.iteration,
                old(run)@.pending,
                old(run)@.next as nat,
                final(run)@,
                action,
            ),
    {
        let ghost calls = items_view(run.pending@);
        let ghost start = items_view(run.messages@);
        let ghost from = run.next as nat;
        let ghost whole = messages_drain_effect(self@, calls, from, run.negotiation@);
        let ghost mut done = Seq::<Sent>::empty();
        let mut i: usize = run.next;
        proof {
            lemma_items_view(run.pending@);
            assert(start.take(start.len() as int) =~= start);
            assert(start.skip(start.len() as int) =~= Seq::<JsonView>::empty());
            assert(done + whole.sent =~= whole.sent);
        }
        while i < run.pending.len()
            invariant
                calls == items_view(run.pending@),
                calls.len() == run.pending.len(),
                run.pending == old(run).pending,
                run.iteration == old(run).iteration,
                whole == messages_drain_effect(self@, calls, from, old(run)@.negotiation),
                start == old(run)@.messages,
                from == old(run).next,
                from <= i,
                ({
                    let rest = messages_drain_effect(self@, calls, i as nat, run.negotiation@);
                    &&& whole.sent == done + rest.sent
                    &&& whole.negotiation == rest.negotiation
                    &&& whole.next == rest.next
                    &&& whole.stop == rest.stop
                }),
                items_view(run.messages@).len() == start.len() + done.len(),
                items_view(run.messages@).take(start.len() as int) == start,
                sent_all(items_view(run.messages@).skip(start.len() as int), done),
            decreases run.pending.len() - i,
        {
            let ghost mid = items_view(run.messages@);
            let ghost e = messages_call_effect(self@, calls[i as int], run.negotiation@);
            let ghost after = messages_drain_effect(self@, calls, (i + 1) as nat, e.negotiation);
            proof {
                lemma_items_view(run.pending@);
            }
            let outcome = self.messages_call(&run.pending[i], &mut run.messages, &mut run.negotiation);
            proof {
                lemma_sent_join(start, mid, items_view(run.messages@), done, e.sent);
                if e.end is Next {
                    assert(done + (e.sent + after.sent) =~= (done + e.sent) + after.sent);
                }
                done = done + e.sent;
            }
            match outcome {
                MessageOutcome::Next => {
                    i = i + 1;
                },
                MessageOutcome::Execute { tool_call_id, tool_name, arguments } => {
                    run.next = i + 1;
                    run.phase = Phase::AwaitingTool { tool_call_id };
                    let action = RunAction::Execute { tool_name, arguments };
                    proof {
                        assert(messages_stopped(
                            self@,
                            old(run)@.iteration,
                            calls,
                            whole,
                            items_view(run.messages@),
                            run@,
                            action,
                        ));
                    }
                    return action;
                },
                MessageOutcome::Answer(text) => {
                    run.phase = Phase::Over;
                    let action = RunAction::Answer(text);
                    proof {
                        assert(messages_stopped(
                            self@,
                            old(run)@.iteration,
                            calls,
                            whole,
                            items_view(run.messages@),
                            run@,
                            action,
                        ));
                    }
                    return action;
                },
            }
        }
        run.next = run.pending.len();
        let ghost mid = items_view(run.messages@);
        proof {
            assert(done + Seq::<Sent>::empty() =~= done);
        }
        let action = self.messages_proceed(run);
        proof {
            assert(messages_stopped(self@, old(run)@.iteration, calls, whole, mid, run@, action));
        }
        action
    }

    /// Takes the response to the completion request of a run that keeps raw messages.
    ///
    /// A response without a first choice or without its message fails the run. A turn
    /// without tool calls is turned down with a system message that reminds of the terminal
    /// tool. A turn with tool calls is kept in the conversation; where `final_answer`
    /// stands beside other calls, wherever it stands, the turn is turned down with one tool
    /// message and the run proceeds; else its calls are handled in order.
    pub fn messages_on_completion(&self, run: &mut MessagesRun, response: &Json) -> (action:
        RunAction)
        requires
            old(run)@.phase is AwaitingCompletion,
        ensures
            old(run)@.negotiation.has_final_answer ==> final(run)@.negotiation.has_final_answer,
            old(run)@.iteration <= self@.max_iterations ==> final(run)@.iteration
                <= self@.max_iterations,
            final(run)@.iteration == old(run)@.iteration + (if action is Request {
                1int
            } else {
                0int
            }),
            match assistant_message(response@) {
                Err(text) => {
                    &&& action matches RunAction::Fail(AgentError::Unknown(t)) && t@ == text
                    &&& final(run)@.phase is Over
                    &&& final(run)@.messages == old(run)@.messages
                    &&& final(run)@.negotiation == old(run)@.negotiation
                    &&& final(run)@.iteration == old(run)@.iteration
                },
                Ok(message) => match turn_of(message) {
                    Turn::Text(answer) => {
                        &&& final(run)@.negotiation == old(run)@.negotiation
                        &&& messages_proceeds(
                            self@,
                            old(run)@.iteration,
                            old(run)@.messages.push(
                                text_message(
                                    "system"@,
                                    direct_reply_reminder(self@.completion_schema is Some, answer),
                                ),
                            ),
                            final(run)@,
                            action,
                        )
                    },
                    Turn::Ignored => {
                        &&& final(run)@.negotiation == old(run)@.negotiation
                        &&& messages_proceeds(
                            self@,
                            old(run)@.iteration,
                            old(run)@.messages,
                            final(run)@,
                            action,
                        )
                    },
                    Turn::Calls(calls) => if calls.len() > 1 && has_final_answer_call(calls) {
                        &&& final(run)@.negotiation == old(run)@.negotiation
                        &&& messages_proceeds(
                            self@,
                            old(run)@.iteration,
                            old(run)@.messages.push(assistant_echo(message)).push(
                                tool_message("final_answer"@, not_alone_text()),
                            ),
                            final(run)@,
                            action,
                        )
                    } else {
                        messages_drained(
                            self@,
                            old(run)@.messages.push(assistant_echo(message)),
                            old(run)@.negotiation,
                            old(run)@.iteration,
                            calls,
                            0,
                            final(run)@,
                            action,
                        )
                    },
                },
            },
    {
        let message = match assistant_message_of(response) {
            Ok(m) => m,
            Err(e) => {
                run.phase = Phase::Over;
                return RunAction::Fail(e);
            },
        };
        match message.get("tool_calls") {
            Some(tool_calls) => match tool_calls.as_array() {
                Some(calls) => {
                    proof {
                        lemma_items_view(calls@);
                    }
                    push_message(&mut run.messages, echo_of(message));
                    if calls.len() > 1 && turn_has_final_answer(calls) {
                        push_call_fault(
                            &mut run.messages,
                            "final_answer",
                            "`final_answer` must be the only tool call in a single turn",
                        );
                        return self.messages_proceed(run);
                    }
                    proof {
                        lemma_messages_negotiation_kept(
                            self@,
                            items_view(calls@),
                            0,
                            run.negotiation@,
                        );
                    }
                    run.pending = clone_items(calls);
                    run.next = 0;
                    self.messages_drain(run)
                },
                None => self.messages_proceed(run),
            },
            None => {
                let answer = content_of(message);
                let text = direct_reminder(self.completion_schema().is_some(), answer.as_str());
                push_message(&mut run.messages, make_text_message("system", text.as_str()));
                self.messages_proceed(run)
            },
        }
    }

    /// Takes the result of the tool that a run that keeps raw messages waits for: it is
    /// added as a tool message under the call's id, the tool's output as JSON text or the
    /// error's payload, and the calls that are left are handled.
    pub fn messages_on_tool_result(&self, run: &mut MessagesRun, result: Result<Json, AgentError>) -> (action:
        RunAction)
        requires
            old(run)@.phase is AwaitingTool,
        ensures
            old(run)@.negotiation.has_final_answer ==> final(run)@.negotiation.has_final_answer,
            old(run)@.iteration <= self@.max_iterations ==> final(run)@.iteration
                <= self@.max_iterations,
            final(run)@.iteration == old(run)@.iteration + (if action is Request {
                1int
            } else {
                0int
            }),
            messages_drained(
                self@,
                old(run)@.messages.push(
                    tool_message(
                        old(run)@.phase->AwaitingTool_tool_call_id,
                        match result {
                            Ok(v) => json_text(v@),
                            Err(e) => json_text(e.payload()),
                        },
                    ),
                ),
                old(run)@.negotiation,
                old(run)@.iteration,
                old(run)@.pending,
                old(run)@.next as nat,
                final(run)@,
                action,
            ),
    {
        let id: String = match &run.phase {
            Phase::AwaitingTool { tool_call_id } => tool_call_id.clone(),
            _ => String::new(),
        };
        let text = match result {
            Ok(v) => v.to_text(),
            Err(e) => e.to_error_payload().to_text(),
        };
        push_message(&mut run.messages, make_tool_message(id.as_str(), text.as_str()));
        proof {
            lemma_messages_negotiation_kept(self@, run@.pending, run@.next as nat, run.negotiation@);
        }
        self.messages_drain(run)
    }
}

/// No tool call takes back that a final answer was accepted.
pub proof fn lemma_message_call_keeps_final_answer(
    agent: AgentView,
    call: JsonView,
    negotiation: NegotiationView,
)
    requires
        negotiation.has_final_answer,
    ensures
        messages_call_effect(agent, call, negotiation).negotiation.has_final_answer,
{
}

/// Handling the calls of a turn does not take back that a final answer was accepted.
pub proof fn lemma_messages_negotiation_kept(
    agent: AgentView,
    calls: Seq<JsonView>,
    from: nat,
    negotiation: NegotiationView,
)
    ensures
        negotiation.has_final_answer ==> messages_drain_effect(
            agent,
            calls,
            from,
            negotiation,
        ).negotiation.has_final_answer,
    decreases calls.len() - from,
{
    if from < calls.len() && negotiation.has_final_answer {
        let e = messages_call_effect(agent, calls[from as int], negotiation);
        lemma_message_call_keeps_final_answer(agent, calls[from as int], negotiation);
        if e.end is Next {
            lemma_messages_negotiation_kept(agent, calls, from + 1, e.negotiation);
        }
    }
}

/// A final answer is accepted at most once in a run that keeps raw messages: once one is
/// accepted, every call of `final_answer` is turned down with one tool message, the
/// negotiation stays as it is, and the run goes on.
pub proof fn lemma_messages_final_answer_accepted_once(
    agent: AgentView,
    call: JsonView,
    negotiation: NegotiationView,
)
    requires
        negotiation.has_final_answer,
        envelope_of(call) matches Envelope::Call { name, arguments } && name == "final_answer"@,
    ensures
        messages_call_effect(agent, call, negotiation) == (MessageEffect {
            sent: seq![
                Sent::Rejection {
                    tool_call_id: call_id(call),
                    judgement: Judgement::AlreadyAnswered,
                    tool: "final_answer"@,
                    schema_name: schema_name_of(agent.completion_schema),
                },
            ],
            negotiation,
            end: MessageEnd::Next,
        }),
{
}

/// With a completion schema, a final answer that is in order but brings no structured
/// payload does not end a run that keeps raw messages: it is acknowledged, and the run goes
/// on.
pub proof fn lemma_messages_final_answer_awaits_payload(
    agent: AgentView,
    call: JsonView,
    negotiation: NegotiationView,
)
    requires
        agent.completion_schema is Some,
        envelope_of(call) matches Envelope::Call { name, arguments } && name == "final_answer"@
            && optional_member(arguments, "structured"@) is None && judge_final_answer(
            arguments,
            agent.completion_schema,
            negotiation.has_final_answer,
        ) is Accepted,
    ensures
        messages_call_effect(agent, call, negotiation).end is Next,
        messages_call_effect(agent, call, negotiation).negotiation.has_final_answer,
        messages_call_effect(agent, call, negotiation).sent == seq![
            Sent::Message(tool_message(call_id(call), acknowledged_text())),
        ],
{
}

/// With a completion schema, once a final answer is accepted only a `structured_response`
/// whose payload is fit for the schema ends a run that keeps raw messages.
pub proof fn lemma_messages_only_structured_response_ends(
    agent: AgentView,
    call: JsonView,
    negotiation: NegotiationView,
)
    requires
        agent.completion_schema is Some,
        negotiation.has_final_answer,
        messages_call_effect(agent, call, negotiation).end is Answer,
    ensures
        envelope_of(call) matches Envelope::Call { name, arguments } && name
            == "structured_response"@ && judge_structured_response(
            arguments,
            agent.completion_schema->Some_0,
        ) is Accepted,
{
}

/// Arguments that are no JSON never stop a run that keeps raw messages: the call adds
/// exactly one tool message, whose payload has the code `INVALID_FUNCTION_CALL`, and the run
/// goes on to the next call.
pub proof fn lemma_messages_unparsed_arguments_answered(
    agent: AgentView,
    call: JsonView,
    negotiation: NegotiationView,
)
    requires
        envelope_of(call) is BadArguments,
    ensures
        messages_call_effect(agent, call, negotiation).end is Next,
        messages_call_effect(agent, call, negotiation).negotiation == negotiation,
        messages_call_effect(agent, call, negotiation).sent.len() == 1,
        exists|message: Seq<char>|
            messages_call_effect(agent, call, negotiation).sent[0] == Sent::Message(
                tool_message(
                    call_id(call),
                    json_text(
                        crate::error::error_payload(
                            "INVALID_FUNCTION_CALL"@,
                            "Invalid function call: "@ + message,
                            false,
                        ),
                    ),
                ),
            ),
{
    let name = envelope_of(call)->BadArguments_name;
    let error = envelope_of(call)->BadArguments_error;
    if name != "final_answer"@ && name == "structured_response"@ && agent.completion_schema
        is None {
        assert(messages_call_effect(agent, call, negotiation).sent[0] == call_fault(
            call_id(call),
            no_schema_message(),
        ));
    } else {
        assert(messages_call_effect(agent, call, negotiation).sent[0] == call_fault(
            call_id(call),
            "Failed to parse arguments for tool '"@ + name + "': "@ + error,
        ));
    }
}

} // verus!
