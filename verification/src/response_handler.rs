//! How a call of one of the two terminal tools is judged, and what it does to a run.

use crate::error::{error_payload, AgentError};
use crate::json::{json_text, lemma_items_view_push, items_view, Json, JsonView};
use crate::memory::AgentMemory;
use crate::result::{optional_json, RunResult, RunResultView, TokenUsage};
use crate::schema::{
    schema_accepts, schema_builds, validate_structured_payload, validation_result, SchemaHandle,
    SchemaView,
};
use crate::steps::{clone_steps, make_tool_message, tool_message, AgentStep, StepView};
use crate::text::{append, trim, trimmed};
use crate::validation::{
    final_answer_fault, optional_member, parse_final_answer_arguments,
    parse_structured_response_arguments, structured_response_fault,
};
use std::time::Duration;
use vstd::prelude::*;

verus! {

/// What the loop does after a terminal tool was handled.
#[derive(Debug)]
pub enum HandlerOutcome {
    /// Go on with the run.
    Continue,
    /// End the run with its full record.
    ReturnResult(RunResult),
    /// End the run with its final text.
    ReturnAnswer(String),
}

/// What a run remembers of the final answer: whether one was accepted, and its text.
#[derive(Debug)]
pub struct Negotiation {
    pub has_final_answer: bool,
    pub final_answer_value: Option<String>,
}

/// The mathematical value of a negotiation.
pub struct NegotiationView {
    pub has_final_answer: bool,
    pub final_answer_value: Option<Seq<char>>,
}

impl View for Negotiation {
    type V = NegotiationView;

    open spec fn view(&self) -> NegotiationView {
        NegotiationView {
            has_final_answer: self.has_final_answer,
            final_answer_value: match self.final_answer_value {
                Some(a) => Some(a@),
                None => None,
            },
        }
    }
}

impl Negotiation {
    /// The negotiation at the start of a run: no final answer yet.
    pub fn new() -> (state: Negotiation)
        ensures
            state@ == (NegotiationView { has_final_answer: false, final_answer_value: None }),
    {
        Negotiation { has_final_answer: false, final_answer_value: None }
    }
}

/// How a call of a terminal tool is judged.
pub enum Judgement {
    /// The call is in order.
    Accepted,
    /// A final answer was accepted before in this run.
    AlreadyAnswered,
    /// The arguments do not have the tool's shape; holds what is wrong.
    BadArguments(Seq<char>),
    /// The answer is empty or white space.
    EmptyAnswer,
    /// The structured payload is not an object.
    NotAnObject,
    /// The structured payload does not match the completion schema.
    Mismatch,
}

/// The name of an optional schema, empty without one.
pub open spec fn schema_name_of(schema: Option<SchemaView>) -> Seq<char> {
    match schema {
        Some(s) => s.name,
        None => Seq::empty(),
    }
}

/// The text of the answer that a `final_answer` call gives: its `answer` without white space
/// around it.
pub open spec fn answer_text(arguments: JsonView) -> Seq<char> {
    match arguments.text_member("answer"@) {
        Some(a) => trimmed(a),
        None => Seq::empty(),
    }
}

/// Whether a payload is fit for a schema: an object that the schema, once built, accepts.
pub open spec fn payload_judgement(schema: SchemaView, payload: JsonView) -> Judgement {
    if !(payload is Object) {
        Judgement::NotAnObject
    } else if schema_builds(schema.document) && schema_accepts(schema.document, payload) {
        Judgement::Accepted
    } else {
        Judgement::Mismatch
    }
}

/// How a `final_answer` call is judged. It is turned down where a final answer was accepted
/// before, where the arguments lack a string `answer`, where the answer is blank, and where
/// a completion schema is active and a structured payload comes with the answer that is not
/// fit for the schema.
pub open spec fn judge_final_answer(
    arguments: JsonView,
    schema: Option<SchemaView>,
    has_final_answer: bool,
) -> Judgement {
    if has_final_answer {
        Judgement::AlreadyAnswered
    } else {
        match final_answer_fault(arguments) {
            Some(fault) => Judgement::BadArguments(fault),
            None => if answer_text(arguments).len() == 0 {
                Judgement::EmptyAnswer
            } else {
                match (schema, optional_member(arguments, "structured"@)) {
                    (Some(s), Some(payload)) => payload_judgement(s, payload),
                    _ => Judgement::Accepted,
                }
            },
        }
    }
}

/// How a `structured_response` call is judged: the arguments must have a member
/// `structured` that is fit for the schema.
pub open spec fn judge_structured_response(arguments: JsonView, schema: SchemaView) -> Judgement {
    match structured_response_fault(arguments) {
        Some(fault) => Judgement::BadArguments(fault),
        None => payload_judgement(schema, arguments.member("structured"@)->Some_0),
    }
}

/// The text of the payload of an invalid function call with the message `m`.
pub open spec fn call_fault_text(m: Seq<char>) -> Seq<char> {
    json_text(error_payload("INVALID_FUNCTION_CALL"@, "Invalid function call: "@ + m, false))
}

/// The text of the payload of a validation error with the message `m`.
pub open spec fn validation_fault_text(m: Seq<char>) -> Seq<char> {
    json_text(error_payload("VALIDATION_ERROR"@, "Validation error: "@ + m, true))
}

/// Whether `text` is the error payload that reports the judgement `j` on a call of `tool`.
/// For a mismatch the message is worded from what the validator reported, whatever that
/// was.
pub open spec fn reports_judgement(
    j: Judgement,
    tool: Seq<char>,
    schema_name: Seq<char>,
    text: Seq<char>,
) -> bool {
    match j {
        Judgement::Accepted => false,
        Judgement::AlreadyAnswered => text == call_fault_text(
            "`final_answer` was already provided for this run"@,
        ),
        Judgement::BadArguments(fault) => text == call_fault_text(
            "Invalid "@ + tool + " arguments: "@ + fault,
        ),
        Judgement::EmptyAnswer => text == call_fault_text(
            "final_answer requires a non-empty `answer` field"@,
        ),
        Judgement::NotAnObject => text == validation_fault_text(
            "`"@ + tool + ".structured` must be a JSON object that matches the `"@ + schema_name
                + "` schema"@,
        ),
        Judgement::Mismatch => exists|checked: Result<Vec<(String, String)>, String>|
            (#[trigger] validation_result(schema_name, checked)) matches Err(m) && text
                == validation_fault_text(m),
    }
}

/// The outcome of judging a call.
#[derive(Debug)]
pub enum Verdict {
    /// The call is in order; holds the answer's text, empty for `structured_response`, and
    /// the structured payload.
    Accepted { answer: String, structured: Option<Json> },
    /// The call is in order if the payload matches the schema, which is still to be checked.
    Unchecked { answer: String, payload: Json },
    /// The call is turned down for the reason given.
    Rejected(AgentError),
}

fn not_an_object(tool: &str, schema_name: &str) -> (e: AgentError)
    ensures
        e matches AgentError::Validation(m) && m@ == "`"@ + tool@
            + ".structured` must be a JSON object that matches the `"@ + schema_name@ + "` schema"@,
{
    let mut message = append("`", tool);
    message.push_str(".structured` must be a JSON object that matches the `");
    message.push_str(schema_name);
    message.push_str("` schema");
    AgentError::Validation(message)
}

fn bad_arguments(tool: &str, fault: &str) -> (e: AgentError)
    ensures
        e matches AgentError::InvalidFunctionCall(m) && m@ == "Invalid "@ + tool@ + " arguments: "@
            + fault@,
{
    let mut message = append("Invalid ", tool);
    message.push_str(" arguments: ");
    message.push_str(fault);
    AgentError::InvalidFunctionCall(message)
}

/// Judges a `final_answer` call as far as the arguments alone tell. With a completion schema
/// and an object as payload the verdict is `Unchecked`: the payload must still be validated.
pub fn screen_final_answer(
    arguments: &Json,
    schema_name: Option<&str>,
    has_final_answer: bool,
) -> (verdict: Verdict)
    ensures
        has_final_answer ==> (verdict matches Verdict::Rejected(e) && reports_judgement(
            Judgement::AlreadyAnswered,
            "final_answer"@,
            Seq::empty(),
            json_text(e.payload()),
        )),
        !has_final_answer ==> match final_answer_fault(arguments@) {
            Some(fault) => verdict matches Verdict::Rejected(e) && reports_judgement(
                Judgement::BadArguments(fault),
                "final_answer"@,
                Seq::empty(),
                json_text(e.payload()),
            ),
            None => if answer_text(arguments@).len() == 0 {
                verdict matches Verdict::Rejected(e) && reports_judgement(
                    Judgement::EmptyAnswer,
                    "final_answer"@,
                    Seq::empty(),
                    json_text(e.payload()),
                )
            } else {
                match (schema_name, optional_member(arguments@, "structured"@)) {
                    (Some(name), Some(payload)) => if payload is Object {
                        verdict matches Verdict::Unchecked { answer, payload: p } && answer@
                            == answer_text(arguments@) && p@ == payload
                    } else {
                        verdict matches Verdict::Rejected(e) && reports_judgement(
                            Judgement::NotAnObject,
                            "final_answer"@,
                            name@,
                            json_text(e.payload()),
                        )
                    },
                    (_, payload) => verdict matches Verdict::Accepted { answer, structured }
                        && answer@ == answer_text(arguments@) && optional_json(structured)
                        == payload,
                }
            },
        },
{
    if has_final_answer {
        return Verdict::Rejected(
            AgentError::InvalidFunctionCall(
                "`final_answer` was already provided for this run".to_owned(),
            ),
        );
    }
    let parsed = match parse_final_answer_arguments(arguments) {
        Ok(a) => a,
        Err(fault) => {
            return Verdict::Rejected(bad_arguments("final_answer", fault.as_str()));
        },
    };
    let answer = trim(parsed.answer.as_str());
    if answer.as_str().is_empty() {
        return Verdict::Rejected(
            AgentError::InvalidFunctionCall(
                "final_answer requires a non-empty `answer` field".to_owned(),
            ),
        );
    }
    match schema_name {
        Some(name) => match parsed.structured {
            Some(payload) => {
                if payload.is_object() {
                    Verdict::Unchecked { answer, payload }
                } else {
                    Verdict::Rejected(not_an_object("final_answer", name))
                }
            },
            None => Verdict::Accepted { answer, structured: None },
        },
        None => Verdict::Accepted { answer, structured: parsed.structured },
    }
}

/// Judges a `structured_response` call as far as the arguments alone tell: where the payload
/// is an object the verdict is `Unchecked`.
pub fn screen_structured_response(arguments: &Json, schema_name: &str) -> (verdict: Verdict)
    ensures
        match structured_response_fault(arguments@) {
            Some(fault) => verdict matches Verdict::Rejected(e) && reports_judgement(
                Judgement::BadArguments(fault),
                "structured_response"@,
                schema_name@,
                json_text(e.payload()),
            ),
            None => if arguments@.member("structured"@)->Some_0 is Object {
                verdict matches Verdict::Unchecked { answer, payload } && payload@
                    == arguments@.member("structured"@)->Some_0
            } else {
                verdict matches Verdict::Rejected(e) && reports_judgement(
                    Judgement::NotAnObject,
                    "structured_response"@,
                    schema_name@,
                    json_text(e.payload()),
                )
            },
        },
{
    match parse_structured_response_arguments(arguments) {
        Err(fault) => Verdict::Rejected(bad_arguments("structured_response", fault.as_str())),
        Ok(parsed) => {
            if parsed.structured.is_object() {
                Verdict::Unchecked { answer: String::new(), payload: parsed.structured }
            } else {
                Verdict::Rejected(not_an_object("structured_response", schema_name))
            }
        },
    }
}

/// A call that was accepted: the answer's text, empty for `structured_response`, and the
/// structured payload.
#[derive(Debug)]
pub struct Acceptance {
    pub answer: String,
    pub structured: Option<Json>,
}

/// Settles a verdict. Where it is `Unchecked`, the outcome of validating its payload
/// decides; every other verdict stands.
pub fn settle(verdict: Verdict, validation: Result<(), AgentError>) -> (settled: Result<
    Acceptance,
    AgentError,
>)
    ensures
        match verdict {
            Verdict::Unchecked { answer, payload } => match validation {
                Ok(_) => settled matches Ok(a) && a.answer@ == answer@ && optional_json(a.structured)
                    == Some(payload@),
                Err(e) => settled == Err::<Acceptance, AgentError>(e),
            },
            Verdict::Accepted { answer, structured } => settled matches Ok(a) && a.answer@
                == answer@ && optional_json(a.structured) == optional_json(structured),
            Verdict::Rejected(e) => settled == Err::<Acceptance, AgentError>(e),
        },
{
    match verdict {
        Verdict::Unchecked { answer, payload } => match validation {
            Ok(_) => Ok(Acceptance { answer, structured: Some(payload) }),
            Err(e) => Err(e),
        },
        Verdict::Accepted { answer, structured } => Ok(Acceptance { answer, structured }),
        Verdict::Rejected(e) => Err(e),
    }
}

/// What a decision says of a call that is judged `j`: it accepts with the data given, or it
/// turns the call down with an error whose payload reports `j`.
pub open spec fn decision_fits(
    decision: Result<Acceptance, AgentError>,
    j: Judgement,
    tool: Seq<char>,
    schema_name: Seq<char>,
    answer: Seq<char>,
    structured: Option<JsonView>,
) -> bool {
    match j {
        Judgement::Accepted => decision matches Ok(a) && a.answer@ == answer && optional_json(
            a.structured,
        ) == structured,
        _ => decision matches Err(e) && reports_judgement(
            j,
            tool,
            schema_name,
            json_text(e.payload()),
        ),
    }
}

/// The value of an optional schema handle that is borrowed.
pub open spec fn borrowed_schema(schema: Option<&SchemaHandle>) -> Option<SchemaView> {
    match schema {
        Some(s) => Some(s@),
        None => None,
    }
}

/// Validates the payload of an `Unchecked` verdict against `schema`; every other verdict
/// needs no validation.
fn validate_unchecked(verdict: &Verdict, schema: &SchemaHandle) -> (validation: Result<
    (),
    AgentError,
>)
    ensures
        match *verdict {
            Verdict::Unchecked { answer, payload } => {
                &&& validation is Ok <==> schema_builds(schema@.document) && schema_accepts(
                    schema@.document,
                    payload@,
                )
                &&& validation matches Err(e) ==> reports_judgement(
                    Judgement::Mismatch,
                    Seq::empty(),
                    schema@.name,
                    json_text(e.payload()),
                )
            },
            _ => validation is Ok,
        },
{
    match verdict {
        Verdict::Unchecked { payload, .. } => {
            let validation = validate_structured_payload(schema, payload);
            proof {
                if validation is Err {
                    let e = validation->Err_0;
                    let m = e->Validation_0@;
                    let checked = choose|checked: Result<Vec<(String, String)>, String>|
                        #[trigger] validation_result(schema@.name, checked) == Err::<
                            (),
                            Seq<char>,
                        >(m);
                    assert(validation_result(schema@.name, checked) matches Err(worded)
                        && json_text(e.payload()) == validation_fault_text(worded));
                }
            }
            validation
        },
        _ => Ok(()),
    }
}

/// Judges a `final_answer` call.
pub fn check_final_answer(
    arguments: &Json,
    completion_schema: Option<&SchemaHandle>,
    has_final_answer: bool,
) -> (decision: Result<Acceptance, AgentError>)
    ensures
        decision_fits(
            decision,
            judge_final_answer(arguments@, borrowed_schema(completion_schema), has_final_answer),
            "final_answer"@,
            schema_name_of(borrowed_schema(completion_schema)),
            answer_text(arguments@),
            optional_member(arguments@, "structured"@),
        ),
{
    match completion_schema {
        Some(schema) => {
            let screened = screen_final_answer(
                arguments,
                Some(schema.schema_name()),
                has_final_answer,
            );
            let validation = validate_unchecked(&screened, schema);
            settle(screened, validation)
        },
        None => settle(screen_final_answer(arguments, None, has_final_answer), Ok(())),
    }
}

/// Judges a `structured_response` call.
pub fn check_structured_response(arguments: &Json, schema: &SchemaHandle) -> (decision: Result<
    Acceptance,
    AgentError,
>)
    ensures
        match judge_structured_response(arguments@, schema@) {
            Judgement::Accepted => decision matches Ok(a) && optional_json(a.structured)
                == arguments@.member("structured"@),
            j => decision matches Err(e) && reports_judgement(
                j,
                "structured_response"@,
                schema@.name,
                json_text(e.payload()),
            ),
        },
{
    let screened = screen_structured_response(arguments, schema.schema_name());
    let validation = validate_unchecked(&screened, schema);
    settle(screened, validation)
}

/// The observation that reports an accepted answer: `{"answer": ...}` with the answer as a
/// JSON string.
pub open spec fn answer_receipt(answer: Seq<char>) -> Seq<char> {
    "{\"answer\":"@ + json_text(JsonView::String(answer)) + "}"@
}

/// The text that stands for the answer where `structured_response` ends a run that has no
/// final answer.
pub const STRUCTURED_FALLBACK: &'static str = "Task completed with structured response";

/// The text of a run that ends with `structured_response`: the final answer accepted
/// before, or the fallback.
pub open spec fn structured_output(state: NegotiationView) -> Seq<char> {
    match state.final_answer_value {
        Some(a) => a,
        None => STRUCTURED_FALLBACK@,
    }
}

/// Whether `step` is the error observation for call `id` that reports the judgement `j`.
pub open spec fn is_rejection(
    step: StepView,
    id: Seq<char>,
    j: Judgement,
    tool: Seq<char>,
    schema_name: Seq<char>,
) -> bool {
    step matches StepView::Observation { tool_call_id, result, is_error } && tool_call_id == id
        && is_error && reports_judgement(j, tool, schema_name, result)
}

/// The text of the payload of an error.
pub(crate) fn payload_text(e: &AgentError) -> (text: String)
    ensures
        text@ == json_text(e.payload()),
{
    e.to_error_payload().to_text()
}

fn copy_schema(schema: Option<&SchemaHandle>) -> (copy: Option<SchemaHandle>)
    ensures
        crate::schema::optional_schema(copy) == borrowed_schema(schema),
{
    match schema {
        Some(s) => Some(s.clone()),
        None => None,
    }
}

/// Handles a `final_answer` call in a run that keeps its steps.
///
/// A call that is turned down leaves one error observation in the memory and the run goes
/// on; so does every call after a final answer was accepted. An accepted call marks the
/// negotiation, keeps the answer's text and leaves a receipt in the memory. It ends the run
/// where no completion schema is active or a structured payload came with the answer;
/// else the run goes on and waits for `structured_response`. The record of the run holds the
/// steps from before the call.
pub fn handle_final_answer_steps(
    tool_call_id: &str,
    arguments: &Json,
    completion_schema: Option<&SchemaHandle>,
    state: &mut Negotiation,
    memory: &mut AgentMemory,
    token_usage: Option<TokenUsage>,
    elapsed: Duration,
    iteration: usize,
) -> (outcome: HandlerOutcome)
    ensures
        !(outcome is ReturnAnswer),
        final(memory)@.system_prompt == old(memory)@.system_prompt,
        final(memory)@.steps.len() == old(memory)@.steps.len() + 1,
        final(memory)@.steps.drop_last() == old(memory)@.steps,
        old(state).has_final_answer ==> final(state).has_final_answer,
        ({
            let schema = borrowed_schema(completion_schema);
            let j = judge_final_answer(arguments@, schema, old(state).has_final_answer);
            let step = final(memory)@.steps.last();
            if j is Accepted {
                let structured = optional_member(arguments@, "structured"@);
                &&& final(state)@ == (NegotiationView {
                    has_final_answer: true,
                    final_answer_value: Some(answer_text(arguments@)),
                })
                &&& step == (StepView::Observation {
                    tool_call_id: tool_call_id@,
                    result: answer_receipt(answer_text(arguments@)),
                    is_error: false,
                })
                &&& if structured is Some || schema is None {
                    outcome matches HandlerOutcome::ReturnResult(r) && r@ == (RunResultView {
                        output: answer_text(arguments@),
                        structured,
                        schema,
                        steps: old(memory)@.steps,
                        tokens: token_usage,
                        duration: elapsed,
                        iterations: iteration,
                    })
                } else {
                    outcome is Continue
                }
            } else {
                &&& outcome is Continue
                &&& final(state)@ == old(state)@
                &&& is_rejection(step, tool_call_id@, j, "final_answer"@, schema_name_of(schema))
            }
        }),
{
    let decision = check_final_answer(arguments, completion_schema, state.has_final_answer);
    match decision {
        Err(e) => {
            memory.add_step(
                AgentStep::Observation {
                    tool_call_id: tool_call_id.to_owned(),
                    result: payload_text(&e),
                    is_error: true,
                },
            );
            proof {
                assert(memory@.steps.drop_last() =~= old(memory)@.steps);
            }
            HandlerOutcome::Continue
        },
        Ok(Acceptance { answer, structured }) => {
            let steps = clone_steps(memory.steps_vec());
            state.has_final_answer = true;
            state.final_answer_value = Some(answer.clone());
            let quoted = Json::string(answer.as_str()).to_text();
            let mut receipt = append("{\"answer\":", quoted.as_str());
            receipt.push_str("}");
            memory.add_step(
                AgentStep::Observation {
                    tool_call_id: tool_call_id.to_owned(),
                    result: receipt,
                    is_error: false,
                },
            );
            proof {
                assert(memory@.steps.drop_last() =~= old(memory)@.steps);
            }
            if structured.is_some() || completion_schema.is_none() {
                HandlerOutcome::ReturnResult(
                    RunResult::new(
                        answer,
                        structured,
                        copy_schema(completion_schema),
                        steps,
                        token_usage,
                        elapsed,
                        iteration,
                    ),
                )
            } else {
                HandlerOutcome::Continue
            }
        },
    }
}

/// Handles a `structured_response` call in a run that keeps its steps.
///
/// A call that is turned down leaves one error observation in the memory and the run goes
/// on. An accepted call ends the run: its record holds the payload, the schema, the final
/// answer accepted before as text, or the fallback, and the steps of the memory, which does
/// not change.
pub fn handle_structured_response_steps(
    tool_call_id: &str,
    arguments: &Json,
    schema: &SchemaHandle,
    state: &Negotiation,
    memory: &mut AgentMemory,
    token_usage: Option<TokenUsage>,
    elapsed: Duration,
    iteration: usize,
) -> (outcome: HandlerOutcome)
    ensures
        !(outcome is ReturnAnswer),
        final(memory)@.system_prompt == old(memory)@.system_prompt,
        ({
            let j = judge_structured_response(arguments@, schema@);
            if j is Accepted {
                &&& final(memory)@ == old(memory)@
                &&& outcome matches HandlerOutcome::ReturnResult(r) && r@ == (RunResultView {
                    output: structured_output(state@),
                    structured: arguments@.member("structured"@),
                    schema: Some(schema@),
                    steps: old(memory)@.steps,
                    tokens: token_usage,
                    duration: elapsed,
                    iterations: iteration,
                })
            } else {
                &&& outcome is Continue
                &&& final(memory)@.steps.len() == old(memory)@.steps.len() + 1
                &&& final(memory)@.steps.drop_last() == old(memory)@.steps
                &&& is_rejection(
                    final(memory)@.steps.last(),
                    tool_call_id@,
                    j,
                    "structured_response"@,
                    schema@.name,
                )
            }
        }),
{
    let decision = check_structured_response(arguments, schema);
    match decision {
        Ok(Acceptance { answer, structured }) => {
            let output = match &state.final_answer_value {
                Some(a) => a.clone(),
                None => STRUCTURED_FALLBACK.to_owned(),
            };
            let steps = clone_steps(memory.steps_vec());
            HandlerOutcome::ReturnResult(
                RunResult::new(
                    output,
                    structured,
                    Some(schema.clone()),
                    steps,
                    token_usage,
                    elapsed,
                    iteration,
                ),
            )
        },
        Err(e) => {
            memory.add_step(
                AgentStep::Observation {
                    tool_call_id: tool_call_id.to_owned(),
                    result: payload_text(&e),
                    is_error: true,
                },
            );
            proof {
                assert(memory@.steps.drop_last() =~= old(memory)@.steps);
            }
            HandlerOutcome::Continue
        },
    }
}

/// The text of the tool message that acknowledges a final answer while the structured
/// payload is awaited.
pub open spec fn acknowledged_text() -> Seq<char> {
    json_text(JsonView::object1("status"@, JsonView::String("acknowledged"@)))
}

/// The text of the tool message that accepts a structured payload.
pub open spec fn accepted_text() -> Seq<char> {
    json_text(JsonView::object1("status"@, JsonView::String("accepted"@)))
}

fn push_tool_message(messages: &mut Vec<Json>, tool_call_id: &str, content: &str)
    ensures
        items_view(final(messages)@) == items_view(old(messages)@).push(
            tool_message(tool_call_id@, content@),
        ),
{
    let m = make_tool_message(tool_call_id, content);
    proof {
        lemma_items_view_push(messages@, m);
    }
    messages.push(m);
}

fn status_text(status: &str) -> (text: String)
    ensures
        text@ == json_text(JsonView::object1("status"@, JsonView::String(status@))),
{
    Json::object().with("status", Json::string(status)).to_text()
}

/// Handles a `final_answer` call in a run that keeps raw messages.
///
/// A call that is turned down adds one tool message with the error and the run goes on. An
/// accepted call marks the negotiation and keeps the answer's text; it ends the run with
/// that text where no completion schema is active or a structured payload came with the
/// answer, else it adds a tool message that acknowledges the answer and the run goes on.
pub fn handle_final_answer_messages(
    tool_call_id: &str,
    arguments: &Json,
    completion_schema: Option<&SchemaHandle>,
    state: &mut Negotiation,
    messages: &mut Vec<Json>,
) -> (outcome: HandlerOutcome)
    ensures
        !(outcome is ReturnResult),
        old(state).has_final_answer ==> final(state).has_final_answer,
        ({
            let schema = borrowed_schema(completion_schema);
            let j = judge_final_answer(arguments@, schema, old(state).has_final_answer);
            let before = items_view(old(messages)@);
            let after = items_view(final(messages)@);
            if j is Accepted {
                &&& final(state)@ == (NegotiationView {
                    has_final_answer: true,
                    final_answer_value: Some(answer_text(arguments@)),
                })
                &&& if optional_member(arguments@, "structured"@) is Some || schema is None {
                    &&& outcome matches HandlerOutcome::ReturnAnswer(a) && a@ == answer_text(
                        arguments@,
                    )
                    &&& after == before
                } else {
                    &&& outcome is Continue
                    &&& after == before.push(tool_message(tool_call_id@, acknowledged_text()))
                }
            } else {
                &&& outcome is Continue
                &&& final(state)@ == old(state)@
                &&& exists|text: Seq<char>|
                    after == before.push(tool_message(tool_call_id@, text)) && reports_judgement(
                        j,
                        "final_answer"@,
                        schema_name_of(schema),
                        text,
                    )
            }
        }),
{
    let decision = check_final_answer(arguments, completion_schema, state.has_final_answer);
    match decision {
        Err(e) => {
            let text = payload_text(&e);
            push_tool_message(messages, tool_call_id, text.as_str());
            HandlerOutcome::Continue
        },
        Ok(Acceptance { answer, structured }) => {
            state.has_final_answer = true;
            state.final_answer_value = Some(answer.clone());
            if structured.is_some() || completion_schema.is_none() {
                HandlerOutcome::ReturnAnswer(answer)
            } else {
                let text = status_text("acknowledged");
                push_tool_message(messages, tool_call_id, text.as_str());
                HandlerOutcome::Continue
            }
        },
    }
}

/// Handles a `structured_response` call in a run that keeps raw messages.
///
/// A call that is turned down adds one tool message with the error and the run goes on. An
/// accepted call adds a tool message that accepts the payload and ends the run with the
/// final answer accepted before, or the fallback.
pub fn handle_structured_response_messages(
    tool_call_id: &str,
    arguments: &Json,
    schema: &SchemaHandle,
    state: &Negotiation,
    messages: &mut Vec<Json>,
) -> (outcome: HandlerOutcome)
    ensures
        !(outcome is ReturnResult),
        ({
            let j = judge_structured_response(arguments@, schema@);
            let before = items_view(old(messages)@);
            let after = items_view(final(messages)@);
            if j is Accepted {
                &&& outcome matches HandlerOutcome::ReturnAnswer(a) && a@ == structured_output(
                    state@,
                )
                &&& after == before.push(tool_message(tool_call_id@, accepted_text()))
            } else {
                &&& outcome is Continue
                &&& exists|text: Seq<char>|
                    after == before.push(tool_message(tool_call_id@, text)) && reports_judgement(
                        j,
                        "structured_response"@,
                        schema@.name,
                        text,
                    )
            }
        }),
{
    let decision = check_structured_response(arguments, schema);
    match decision {
        Ok(_) => {
            let output = match &state.final_answer_value {
                Some(a) => a.clone(),
                None => STRUCTURED_FALLBACK.to_owned(),
            };
            let text = status_text("accepted");
            push_tool_message(messages, tool_call_id, text.as_str());
            HandlerOutcome::ReturnAnswer(output)
        },
        Err(e) => {
            let text = payload_text(&e);
            push_tool_message(messages, tool_call_id, text.as_str());
            HandlerOutcome::Continue
        },
    }
}

} // verus!
