//! The record of a finished run, and its projections for a reader.

use crate::error::AgentError;
use crate::json::{json_text, Json, JsonView};
use crate::memory::{count_actions_in, count_observations_in};
use crate::schema::{optional_schema, SchemaHandle, SchemaView};
use crate::steps::{steps_view, AgentStep, StepView};
use crate::text::{append, decimal, decimal_text, join, joined, texts};
use std::time::Duration;
use vstd::prelude::*;

verus! {

/// What `{:.2}` prints for the seconds of a duration.
pub uninterp spec fn seconds_text(d: Duration) -> Seq<char>;

/// `format!` with `{:.2}` on `Duration::as_secs_f64`: the seconds with two decimals.
#[verifier::external_body]
fn format_seconds(d: &Duration) -> (s: String)
    ensures
        s@ == seconds_text(*d),
{
    format!("{:.2}", d.as_secs_f64())
}

/// The tokens that the endpoint counted for a request.
#[derive(Debug, Clone, Copy, PartialEq, Eq)]
pub struct TokenUsage {
    pub prompt_tokens: u32,
    pub completion_tokens: u32,
    pub total_tokens: u32,
}

/// The record of a finished run.
#[derive(Debug)]
pub struct RunResult {
    /// The final text.
    pub output: String,
    /// The structured payload that came with the final answer.
    pub structured: Option<Json>,
    /// The schema that the payload was validated against.
    pub schema: Option<SchemaHandle>,
    /// The steps of the run, in order.
    pub steps: Vec<AgentStep>,
    /// The tokens used, where the endpoint told.
    pub tokens: Option<TokenUsage>,
    /// How long the run took.
    pub duration: Duration,
    /// How many iterations the run used.
    pub iterations: usize,
}

/// The mathematical value of a run result.
pub struct RunResultView {
    pub output: Seq<char>,
    pub structured: Option<JsonView>,
    pub schema: Option<SchemaView>,
    pub steps: Seq<StepView>,
    pub tokens: Option<TokenUsage>,
    pub duration: Duration,
    pub iterations: usize,
}

/// The value of an optional document.
pub open spec fn optional_json(j: Option<Json>) -> Option<JsonView> {
    match j {
        Some(v) => Some(v@),
        None => None,
    }
}

impl View for RunResult {
    type V = RunResultView;

    open spec fn view(&self) -> RunResultView {
        RunResultView {
            output: self.output@,
            structured: optional_json(self.structured),
            schema: optional_schema(self.schema),
            steps: steps_view(self.steps@),
            tokens: self.tokens,
            duration: self.duration,
            iterations: self.iterations,
        }
    }
}

/// The line that tells the tokens used.
pub open spec fn tokens_line(t: TokenUsage) -> Seq<char> {
    "Tokens: "@ + decimal_text(t.prompt_tokens as nat) + " prompt + "@ + decimal_text(
        t.completion_tokens as nat,
    ) + " completion = "@ + decimal_text(t.total_tokens as nat) + " total"@
}

/// The first lines of a report: the title, the duration, the iterations and, where known,
/// the tokens.
pub open spec fn report_head(title: Seq<char>, r: RunResultView) -> Seq<Seq<char>> {
    let base = seq![
        title,
        "Duration: "@ + seconds_text(r.duration) + "s"@,
        "Iterations: "@ + decimal_text(r.iterations as nat),
    ];
    match r.tokens {
        Some(t) => base.push(tokens_line(t)),
        None => base,
    }
}

/// The last lines of a report: the final output and, where there is one, the structured
/// payload.
pub open spec fn report_tail(r: RunResultView) -> Seq<Seq<char>> {
    let base = seq![Seq::empty(), "--- Final Output ---"@, r.output];
    match r.structured {
        Some(s) => base.push(Seq::empty()).push("--- Structured Output ---"@).push(json_text(s)),
        None => base,
    }
}

/// One numbered line for each step.
pub open spec fn replay_lines(steps: Seq<StepView>) -> Seq<Seq<char>>
    decreases steps.len(),
{
    if steps.len() == 0 {
        Seq::empty()
    } else {
        replay_lines(steps.drop_last()).push(
            decimal_text(steps.len()) + ". "@ + steps.last().description(),
        )
    }
}

/// The lines that spell out one step's fields.
pub open spec fn detail_lines(step: StepView) -> Seq<Seq<char>> {
    match step {
        StepView::Task { content } => seq!["   Content: "@ + content],
        StepView::Planning { plan } => seq!["   Plan: "@ + plan],
        StepView::Action { tool_name, tool_call_id, arguments } => seq![
            "   Tool: "@ + tool_name,
            "   Call ID: "@ + tool_call_id,
            "   Arguments: "@ + json_text(arguments),
        ],
        StepView::Observation { tool_call_id, result, is_error } => seq![
            "   Call ID: "@ + tool_call_id,
            "   Error: "@ + (if is_error {
                "true"@
            } else {
                "false"@
            }),
            "   Result: "@ + result,
        ],
        StepView::FinalAnswer { answer, structured } => seq!["   Answer: "@ + answer],
    }
}

/// For each step a numbered line after an empty one, then the step's fields.
pub open spec fn explain_lines(steps: Seq<StepView>) -> Seq<Seq<char>>
    decreases steps.len(),
{
    if steps.len() == 0 {
        Seq::empty()
    } else {
        explain_lines(steps.drop_last()).push(
            "\n"@ + decimal_text(steps.len()) + ". "@ + steps.last().description(),
        ) + detail_lines(steps.last())
    }
}

/// The results of the observations among `steps` that are errors, in order.
pub open spec fn error_results(steps: Seq<StepView>) -> Seq<Seq<char>>
    decreases steps.len(),
{
    if steps.len() == 0 {
        Seq::empty()
    } else {
        match steps.last() {
            StepView::Observation { tool_call_id, result, is_error } => if is_error {
                error_results(steps.drop_last()).push(result)
            } else {
                error_results(steps.drop_last())
            },
            _ => error_results(steps.drop_last()),
        }
    }
}

/// The texts of a list of string slices.
pub open spec fn slice_texts(parts: Seq<&str>) -> Seq<Seq<char>> {
    parts.map_values(|s: &str| s@)
}

impl RunResultView {
    /// The trace of the run, for a reader: head, one line for each step, tail.
    pub open spec fn replay(self) -> Seq<char> {
        joined(
            report_head("=== Agent Execution Trace ==="@, self).push(Seq::empty()).push(
                "--- Steps ---"@,
            ) + replay_lines(self.steps) + report_tail(self),
            "\n"@,
        )
    }

    /// The trace of the run with each step's fields spelled out.
    pub open spec fn explain(self) -> Seq<char> {
        joined(
            report_head("=== Agent Execution Explanation ==="@, self).push(Seq::empty()).push(
                "--- Detailed Steps ---"@,
            ) + explain_lines(self.steps) + report_tail(self),
            "\n"@,
        )
    }

    /// Whether a final answer is among the steps.
    pub open spec fn is_success(self) -> bool {
        exists|i: int| 0 <= i < self.steps.len() && #[trigger] self.steps[i] is FinalAnswer
    }
}

fn push_line(lines: &mut Vec<String>, line: String)
    ensures
        texts(final(lines)@) == texts(old(lines)@).push(line@),
{
    proof {
        assert(texts(lines@.push(line)) =~= texts(lines@).push(line@));
    }
    lines.push(line);
}

fn push_text(lines: &mut Vec<String>, line: &str)
    ensures
        texts(final(lines)@) == texts(old(lines)@).push(line@),
{
    push_line(lines, line.to_owned());
}

fn tokens_text(t: &TokenUsage) -> (line: String)
    ensures
        line@ == tokens_line(*t),
{
    let prompt = decimal(t.prompt_tokens as u64);
    let completion = decimal(t.completion_tokens as u64);
    let total = decimal(t.total_tokens as u64);
    let mut line = append("Tokens: ", prompt.as_str());
    line.push_str(" prompt + ");
    line.push_str(completion.as_str());
    line.push_str(" completion = ");
    line.push_str(total.as_str());
    line.push_str(" total");
    line
}

fn numbered(prefix: &str, number: usize, text: &str) -> (line: String)
    ensures
        line@ == prefix@ + decimal_text(number as nat) + ". "@ + text@,
{
    let digits = decimal(number as u64);
    let mut line = append(prefix, digits.as_str());
    line.push_str(". ");
    line.push_str(text);
    line
}

impl RunResult {
    /// The record of a run.
    pub fn new(
        output: String,
        structured: Option<Json>,
        schema: Option<SchemaHandle>,
        steps: Vec<AgentStep>,
        tokens: Option<TokenUsage>,
        duration: Duration,
        iterations: usize,
    ) -> (result: RunResult)
        ensures
            result@ == (RunResultView {
                output: output@,
                structured: optional_json(structured),
                schema: optional_schema(schema),
                steps: steps_view(steps@),
                tokens,
                duration,
                iterations,
            }),
    {
        RunResult { output, structured, schema, steps, tokens, duration, iterations }
    }

    fn head(&self, title: &str) -> (lines: Vec<String>)
        ensures
            texts(lines@) == report_head(title@, self@),
    {
        let mut lines: Vec<String> = Vec::new();
        proof {
            assert(texts(lines@) =~= Seq::<Seq<char>>::empty());
        }
        push_text(&mut lines, title);
        let seconds = format_seconds(&self.duration);
        let mut duration = append("Duration: ", seconds.as_str());
        duration.push_str("s");
        push_line(&mut lines, duration);
        let count = decimal(self.iterations as u64);
        push_line(&mut lines, append("Iterations: ", count.as_str()));
        match &self.tokens {
            Some(t) => {
                push_line(&mut lines, tokens_text(t));
            },
            None => {},
        }
        lines
    }

    fn tail(&self, lines: &mut Vec<String>)
        ensures
            texts(final(lines)@) == texts(old(lines)@) + report_tail(self@),
    {
        let ghost before = texts(lines@);
        push_text(lines, "");
        proof {
            reveal_strlit("");
            assert(""@ =~= Seq::<char>::empty());
        }
        push_text(lines, "--- Final Output ---");
        push_text(lines, self.output.as_str());
        match &self.structured {
            Some(s) => {
                push_text(lines, "");
                push_text(lines, "--- Structured Output ---");
                push_line(lines, s.to_text());
                proof {
                    assert(texts(lines@) =~= before + report_tail(self@));
                }
            },
            None => {
                proof {
                    assert(texts(lines@) =~= before + report_tail(self@));
                }
            },
        }
    }

    /// The trace of the run, for a reader.
    pub fn replay(&self) -> (text: String)
        ensures
            text@ == self@.replay(),
    {
        let mut lines = self.head("=== Agent Execution Trace ===");
        push_text(&mut lines, "");
        proof {
            reveal_strlit("");
            assert(""@ =~= Seq::<char>::empty());
        }
        push_text(&mut lines, "--- Steps ---");
        let ghost start = texts(lines@);
        let mut i: usize = 0;
        proof {
            assert(start + replay_lines(steps_view(self.steps@).take(0)) =~= start);
        }
        while i < self.steps.len()
            invariant
                i <= self.steps.len(),
                texts(lines@) == start + replay_lines(steps_view(self.steps@).take(i as int)),
            decreases self.steps.len() - i,
        {
            let description = self.steps[i].describe();
            let line = numbered("", i + 1, description.as_str());
            proof {
                reveal_strlit("");
                let all = steps_view(self.steps@);
                assert(all.take(i + 1).drop_last() =~= all.take(i as int));
                assert(""@ + decimal_text((i + 1) as nat) =~= decimal_text((i + 1) as nat));
                assert((start + replay_lines(all.take(i as int))).push(line@) =~= start
                    + replay_lines(all.take(i + 1)));
            }
            push_line(&mut lines, line);
            i = i + 1;
        }
        proof {
            let all = steps_view(self.steps@);
            assert(all.take(self.steps.len() as int) =~= all);
        }
        self.tail(&mut lines);
        join(lines.as_slice(), "\n")
    }

    fn details(step: &AgentStep, lines: &mut Vec<String>)
        ensures
            texts(final(lines)@) == texts(old(lines)@) + detail_lines(step@),
    {
        let ghost before = texts(lines@);
        match step {
            AgentStep::Task { content } => {
                push_line(lines, append("   Content: ", content.as_str()));
            },
            AgentStep::Planning { plan } => {
                push_line(lines, append("   Plan: ", plan.as_str()));
            },
            AgentStep::Action { tool_name, tool_call_id, arguments } => {
                push_line(lines, append("   Tool: ", tool_name.as_str()));
                push_line(lines, append("   Call ID: ", tool_call_id.as_str()));
                let text = arguments.to_text();
                push_line(lines, append("   Arguments: ", text.as_str()));
            },
            AgentStep::Observation { tool_call_id, result, is_error } => {
                push_line(lines, append("   Call ID: ", tool_call_id.as_str()));
                let flag: &str = if *is_error {
                    "true"
                } else {
                    "false"
                };
                push_line(lines, append("   Error: ", flag));
                push_line(lines, append("   Result: ", result.as_str()));
            },
            AgentStep::FinalAnswer { answer, .. } => {
                push_line(lines, append("   Answer: ", answer.as_str()));
            },
        }
        proof {
            assert(texts(lines@) =~= before + detail_lines(step@));
        }
    }

    /// The trace of the run with each step's fields spelled out.
    pub fn explain(&self) -> (text: String)
        ensures
            text@ == self@.explain(),
    {
        let mut lines = self.head("=== Agent Execution Explanation ===");
        push_text(&mut lines, "");
        proof {
            reveal_strlit("");
            assert(""@ =~= Seq::<char>::empty());
        }
        push_text(&mut lines, "--- Detailed Steps ---");
        let ghost start = texts(lines@);
        let mut i: usize = 0;
        proof {
            assert(start + explain_lines(steps_view(self.steps@).take(0)) =~= start);
        }
        while i < self.steps.len()
            invariant
                i <= self.steps.len(),
                texts(lines@) == start + explain_lines(steps_view(self.steps@).take(i as int)),
            decreases self.steps.len() - i,
        {
            let description = self.steps[i].describe();
            let line = numbered("\n", i + 1, description.as_str());
            let ghost sofar = texts(lines@);
            push_line(&mut lines, line);
            RunResult::details(&self.steps[i], &mut lines);
            proof {
                let all = steps_view(self.steps@);
                assert(all.take(i + 1).drop_last() =~= all.take(i as int));
                assert(all.take(i + 1).last() == self.steps@[i as int]@);
                assert(sofar.push(line@) + detail_lines(self.steps@[i as int]@) =~= start + (
                explain_lines(all.take(i as int)).push(line@) + detail_lines(
                    self.steps@[i as int]@,
                )));
            }
            i = i + 1;
        }
        proof {
            let all = steps_view(self.steps@);
            assert(all.take(self.steps.len() as int) =~= all);
        }
        self.tail(&mut lines);
        join(lines.as_slice(), "\n")
    }

    /// The structured payload.
    pub fn structured(&self) -> (payload: Option<&Json>)
        ensures
            match payload {
                Some(p) => self@.structured == Some(p@),
                None => self@.structured is None,
            },
    {
        self.structured.as_ref()
    }

    /// The schema that the structured payload was validated against.
    pub fn schema(&self) -> (schema: Option<&SchemaHandle>)
        ensures
            match schema {
                Some(s) => self@.schema == Some(s@),
                None => self@.schema is None,
            },
    {
        self.schema.as_ref()
    }

    /// Whether there is a structured payload.
    pub fn has_structured(&self) -> (has: bool)
        ensures
            has == (self@.structured is Some),
    {
        self.structured.is_some()
    }

    /// The structured payload and its schema, for reading the payload as a typed value.
    /// Fails with a validation error where either is missing, the payload first.
    pub fn structured_parts(&self) -> (parts: Result<(&Json, &SchemaHandle), AgentError>)
        ensures
            match parts {
                Ok((payload, schema)) => self@.structured == Some(payload@) && self@.schema == Some(
                    schema@,
                ),
                Err(e) => e matches AgentError::Validation(m) && if self@.structured is None {
                    m@ == "No structured response available on this run"@
                } else {
                    self@.schema is None && m@
                        == "Missing completion schema metadata for structured response"@
                },
            },
    {
        match &self.structured {
            None => Err(
                AgentError::Validation("No structured response available on this run".to_owned()),
            ),
            Some(payload) => match &self.schema {
                None => Err(
                    AgentError::Validation(
                        "Missing completion schema metadata for structured response".to_owned(),
                    ),
                ),
                Some(schema) => Ok((payload, schema)),
            },
        }
    }

    /// Number of actions among the steps.
    pub fn action_count(&self) -> (n: usize)
        ensures
            n == count_actions_in(self@.steps),
    {
        let mut n: usize = 0;
        let mut i: usize = 0;
        while i < self.steps.len()
            invariant
                i <= self.steps.len(),
                n <= i,
                n == count_actions_in(steps_view(self.steps@).take(i as int)),
            decreases self.steps.len() - i,
        {
            proof {
                let all = steps_view(self.steps@);
                assert(all.take(i + 1).drop_last() =~= all.take(i as int));
            }
            match &self.steps[i] {
                AgentStep::Action { .. } => {
                    n = n + 1;
                },
                _ => {},
            }
            i = i + 1;
        }
        proof {
            let all = steps_view(self.steps@);
            assert(all.take(self.steps.len() as int) =~= all);
        }
        n
    }

    /// Number of observations among the steps.
    pub fn observation_count(&self) -> (n: usize)
        ensures
            n == count_observations_in(self@.steps),
    {
        let mut n: usize = 0;
        let mut i: usize = 0;
        while i < self.steps.len()
            invariant
                i <= self.steps.len(),
                n <= i,
                n == count_observations_in(steps_view(self.steps@).take(i as int)),
            decreases self.steps.len() - i,
        {
            proof {
                let all = steps_view(self.steps@);
                assert(all.take(i + 1).drop_last() =~= all.take(i as int));
            }
            match &self.steps[i] {
                AgentStep::Observation { .. } => {
                    n = n + 1;
                },
                _ => {},
            }
            i = i + 1;
        }
        proof {
            let all = steps_view(self.steps@);
            assert(all.take(self.steps.len() as int) =~= all);
        }
        n
    }

    /// Whether a final answer is among the steps.
    pub fn is_success(&self) -> (success: bool)
        ensures
            success == self@.is_success(),
    {
        let mut i: usize = 0;
        while i < self.steps.len()
            invariant
                i <= self.steps.len(),
                forall|k: int| 0 <= k < i ==> !(#[trigger] steps_view(self.steps@)[k] is FinalAnswer),
            decreases self.steps.len() - i,
        {
            match &self.steps[i] {
                AgentStep::FinalAnswer { .. } => {
                    assert(steps_view(self.steps@)[i as int] is FinalAnswer);
                    return true;
                },
                _ => {},
            }
            i = i + 1;
        }
        false
    }

    /// The results of the observations that are errors, in order.
    pub fn errors(&self) -> (results: Vec<&str>)
        ensures
            slice_texts(results@) == error_results(self@.steps),
    {
        let mut results: Vec<&str> = Vec::new();
        let mut i: usize = 0;
        proof {
            assert(slice_texts(results@) =~= Seq::<Seq<char>>::empty());
        }
        while i < self.steps.len()
            invariant
                i <= self.steps.len(),
                slice_texts(results@) == error_results(steps_view(self.steps@).take(i as int)),
            decreases self.steps.len() - i,
        {
            proof {
                let all = steps_view(self.steps@);
                assert(all.take(i + 1).drop_last() =~= all.take(i as int));
            }
            match &self.steps[i] {
                AgentStep::Observation { result, is_error, .. } => {
                    if *is_error {
                        let text: &str = result.as_str();
                        proof {
                            assert(slice_texts(results@.push(text)) =~= slice_texts(results@).push(
                                result@,
                            ));
                        }
                        results.push(text);
                    }
                },
                _ => {},
            }
            i = i + 1;
        }
        proof {
            let all = steps_view(self.steps@);
            assert(all.take(self.steps.len() as int) =~= all);
        }
        results
    }
}

} // verus!
