//! The memory of one run: an ordered, append-only log of steps and an optional system prompt.

use crate::json::{items_view, lemma_items_view_push, parsed_json, Json, JsonView};
use crate::json::json_text;
use crate::steps::{
    make_text_message, steps_view, text_message, tool_call_entry, tool_message, AgentStep, StepView,
};
use crate::text::same_text;
use vstd::prelude::*;

verus! {

/// The system prompt of a run that sets none of its own.
pub const DEFAULT_SYSTEM_PROMPT: &'static str =
    "You are a helpful assistant with access to tools. Use tools when necessary to provide accurate information. Be concise and helpful. When you are ready to give the final response, you MUST call the `final_answer` tool with an `answer` string instead of replying directly.";

/// The steps of a run, in the order in which they happened, and the system prompt.
#[derive(Debug)]
pub struct AgentMemory {
    steps: Vec<AgentStep>,
    system_prompt: Option<String>,
}

/// The mathematical value of a memory.
pub struct MemoryView {
    pub steps: Seq<StepView>,
    pub system_prompt: Option<Seq<char>>,
}

/// The text that an optional string holds.
pub open spec fn optional_text(s: Option<String>) -> Option<Seq<char>> {
    match s {
        Some(t) => Some(t@),
        None => None,
    }
}

/// The values of a list of borrowed steps.
pub open spec fn borrowed_steps_view(steps: Seq<&AgentStep>) -> Seq<StepView> {
    steps.map_values(|s: &AgentStep| s@)
}

/// Whether `predicate` may give `verdict` for a step with the value `step`.
pub open spec fn may_answer<F: Fn(&AgentStep) -> bool>(
    predicate: F,
    step: StepView,
    verdict: bool,
) -> bool {
    exists|s: &AgentStep| s@ == step && #[trigger] call_ensures(predicate, (s,), verdict)
}

/// Those of `steps` whose verdict is true, in order.
pub open spec fn selected(steps: Seq<StepView>, verdicts: Seq<bool>) -> Seq<StepView>
    recommends
        steps.len() == verdicts.len(),
    decreases steps.len(),
{
    if steps.len() == 0 || verdicts.len() == 0 {
        Seq::empty()
    } else if verdicts.last() {
        selected(steps.drop_last(), verdicts.drop_last()).push(steps.last())
    } else {
        selected(steps.drop_last(), verdicts.drop_last())
    }
}

/// Number of actions among `steps`.
pub open spec fn count_actions_in(steps: Seq<StepView>) -> nat
    decreases steps.len(),
{
    if steps.len() == 0 {
        0
    } else {
        count_actions_in(steps.drop_last()) + if steps.last() is Action {
            1nat
        } else {
            0nat
        }
    }
}

/// Number of observations among `steps`.
pub open spec fn count_observations_in(steps: Seq<StepView>) -> nat
    decreases steps.len(),
{
    if steps.len() == 0 {
        0
    } else {
        count_observations_in(steps.drop_last()) + if steps.last() is Observation {
            1nat
        } else {
            0nat
        }
    }
}

/// Index of the last final answer among `steps`, or -1.
pub open spec fn last_final_answer(steps: Seq<StepView>) -> int
    decreases steps.len(),
{
    if steps.len() == 0 {
        -1
    } else if steps.last() is FinalAnswer {
        steps.len() - 1
    } else {
        last_final_answer(steps.drop_last())
    }
}

/// Whether a tool's output, read as JSON, is an object with an `error` member that is not
/// `null`.
pub open spec fn reports_error(document: JsonView) -> bool {
    match document.member("error"@) {
        Some(e) => !(e is Null),
        None => false,
    }
}

/// Whether the text of a tool's output reports an error: it must parse as JSON for that.
pub open spec fn text_reports_error(content: Seq<char>) -> bool {
    match parsed_json(content) {
        Ok(document) => reports_error(document),
        Err(_) => false,
    }
}

/// What the text of a tool call's arguments holds: the value it parses to, `null` where it
/// does not parse.
pub open spec fn arguments_of_text(text: Seq<char>) -> JsonView {
    match parsed_json(text) {
        Ok(v) => v,
        Err(_) => JsonView::Null,
    }
}

/// The action that a wire tool call stands for: it needs a string `id` and a `function`; a
/// missing name reads as `unknown`, missing arguments as `{}`.
pub open spec fn call_action(call: JsonView) -> Option<StepView> {
    match (call.text_member("id"@), call.member("function"@)) {
        (Some(id), Some(function)) => Some(
            StepView::Action {
                tool_name: match function.text_member("name"@) {
                    Some(n) => n,
                    None => "unknown"@,
                },
                tool_call_id: id,
                arguments: arguments_of_text(
                    match function.text_member("arguments"@) {
                        Some(a) => a,
                        None => "{}"@,
                    },
                ),
            },
        ),
        _ => None,
    }
}

/// The actions of a list of wire tool calls, in order; calls that stand for none are left out.
pub open spec fn call_actions(calls: Seq<JsonView>) -> Seq<StepView>
    decreases calls.len(),
{
    if calls.len() == 0 {
        Seq::empty()
    } else {
        match call_action(calls.last()) {
            Some(a) => call_actions(calls.drop_last()).push(a),
            None => call_actions(calls.drop_last()),
        }
    }
}

impl MemoryView {
    /// The memory without steps.
    pub open spec fn empty(system_prompt: Option<Seq<char>>) -> MemoryView {
        MemoryView { steps: Seq::empty(), system_prompt }
    }

    /// This memory with `step` added at the end.
    pub open spec fn push(self, step: StepView) -> MemoryView {
        MemoryView { steps: self.steps.push(step), system_prompt: self.system_prompt }
    }

    /// The wire messages of the memory: the system prompt first, where there is one, then one
    /// message for each step, in order.
    pub open spec fn messages(self) -> Seq<JsonView> {
        let head = match self.system_prompt {
            Some(p) => seq![text_message("system"@, p)],
            None => Seq::empty(),
        };
        head + self.steps.map_values(|s: StepView| s.message())
    }

    /// This memory after it has read one wire message. A `system` message sets the prompt, a
    /// `user` message is a task, an `assistant` message gives its tool calls as actions or,
    /// without tool calls, its text as a final answer unless that is empty, a `tool` message
    /// is an observation; anything else is passed over.
    pub open spec fn absorb(self, message: JsonView) -> MemoryView {
        match message.text_member("role"@) {
            None => self,
            Some(role) => if role == "system"@ {
                match message.text_member("content"@) {
                    Some(c) => MemoryView { steps: self.steps, system_prompt: Some(c) },
                    None => self,
                }
            } else if role == "user"@ {
                match message.text_member("content"@) {
                    Some(c) => self.push(StepView::Task { content: c }),
                    None => self,
                }
            } else if role == "assistant"@ {
                match message.member("tool_calls"@) {
                    Some(calls) => match calls.items() {
                        Some(items) => MemoryView {
                            steps: self.steps + call_actions(items),
                            system_prompt: self.system_prompt,
                        },
                        None => self,
                    },
                    None => match message.text_member("content"@) {
                        Some(c) => if c.len() > 0 {
                            self.push(StepView::FinalAnswer { answer: c, structured: None })
                        } else {
                            self
                        },
                        None => self,
                    },
                }
            } else if role == "tool"@ {
                match (message.text_member("tool_call_id"@), message.text_member("content"@)) {
                    (Some(id), Some(c)) => self.push(
                        StepView::Observation {
                            tool_call_id: id,
                            result: c,
                            is_error: text_reports_error(c),
                        },
                    ),
                    _ => self,
                }
            } else {
                self
            },
        }
    }

    /// The memory that a list of wire messages gives, read in order.
    pub open spec fn of_messages(messages: Seq<JsonView>) -> MemoryView
        decreases messages.len(),
    {
        if messages.len() == 0 {
            MemoryView::empty(None)
        } else {
            MemoryView::of_messages(messages.drop_last()).absorb(messages.last())
        }
    }
}

impl View for AgentMemory {
    type V = MemoryView;

    closed spec fn view(&self) -> MemoryView {
        MemoryView { steps: steps_view(self.steps@), system_prompt: optional_text(self.system_prompt) }
    }
}

/// Whether a tool's output, read as JSON, reports an error.
pub fn has_error_member(document: &Json) -> (found: bool)
    ensures
        found == reports_error(document@),
{
    match document.get("error") {
        Some(e) => !e.is_null(),
        None => false,
    }
}

/// Whether the text of a tool's output reports an error.
pub fn detect_tool_error(content: &str) -> (found: bool)
    ensures
        found == text_reports_error(content@),
{
    match Json::parse(content) {
        Ok(document) => has_error_member(&document),
        Err(_) => false,
    }
}

/// The arguments that the text of a tool call holds.
pub fn parse_arguments_or_null(text: &str) -> (arguments: Json)
    ensures
        arguments@ == arguments_of_text(text@),
{
    match Json::parse(text) {
        Ok(v) => v,
        Err(_) => Json::Null,
    }
}

/// The action that a wire tool call stands for.
pub fn action_of_call(call: &Json) -> (step: Option<AgentStep>)
    ensures
        match step {
            Some(s) => call_action(call@) == Some(s@),
            None => call_action(call@) is None,
        },
{
    match call.get_str("id") {
        Some(id) => match call.get("function") {
            Some(function) => {
                let name = match function.get_str("name") {
                    Some(n) => n,
                    None => "unknown",
                };
                let text = match function.get_str("arguments") {
                    Some(a) => a,
                    None => "{}",
                };
                Some(
                    AgentStep::Action {
                        tool_name: name.to_owned(),
                        tool_call_id: id.to_owned(),
                        arguments: parse_arguments_or_null(text),
                    },
                )
            },
            None => None,
        },
        None => None,
    }
}

impl AgentMemory {
    /// A memory without steps.
    pub fn new(system_prompt: Option<String>) -> (memory: AgentMemory)
        ensures
            memory@ == MemoryView::empty(optional_text(system_prompt)),
    {
        let steps: Vec<AgentStep> = Vec::new();
        proof {
            assert(steps_view(steps@) =~= Seq::<StepView>::empty());
        }
        AgentMemory { steps, system_prompt }
    }

    /// A memory without steps, with the default system prompt.
    pub fn with_default_system() -> (memory: AgentMemory)
        ensures
            memory@ == MemoryView::empty(Some(DEFAULT_SYSTEM_PROMPT@)),
    {
        AgentMemory::new(Some(DEFAULT_SYSTEM_PROMPT.to_owned()))
    }

    /// Adds a step at the end.
    pub fn add_step(&mut self, step: AgentStep)
        ensures
            final(self)@ == old(self)@.push(step@),
    {
        proof {
            assert(steps_view(self.steps@.push(step)) =~= steps_view(self.steps@).push(step@));
        }
        self.steps.push(step);
    }

    /// The steps, in order.
    pub fn steps(&self) -> (steps: &[AgentStep])
        ensures
            steps_view(steps@) == self@.steps,
    {
        self.steps.as_slice()
    }

    /// The steps, in order, as the vector that holds them.
    pub(crate) fn steps_vec(&self) -> (steps: &Vec<AgentStep>)
        ensures
            steps_view(steps@) == self@.steps,
    {
        &self.steps
    }

    /// The last step.
    pub fn last_step(&self) -> (last: Option<&AgentStep>)
        ensures
            match last {
                Some(s) => self@.steps.len() > 0 && s@ == self@.steps.last(),
                None => self@.steps.len() == 0,
            },
    {
        if self.steps.len() == 0 {
            None
        } else {
            Some(&self.steps[self.steps.len() - 1])
        }
    }

    /// The system prompt.
    pub fn system_prompt(&self) -> (prompt: Option<&String>)
        ensures
            match prompt {
                Some(p) => self@.system_prompt == Some(p@),
                None => self@.system_prompt is None,
            },
    {
        self.system_prompt.as_ref()
    }

    /// The wire messages of the memory.
    pub fn as_messages(&self) -> (messages: Vec<Json>)
        ensures
            items_view(messages@) == self@.messages(),
    {
        let mut messages: Vec<Json> = Vec::new();
        match &self.system_prompt {
            Some(p) => {
                let m = make_text_message("system", p.as_str());
                proof {
                    lemma_items_view_push(messages@, m);
                }
                messages.push(m);
            },
            None => {},
        }
        let ghost head = items_view(messages@);
        let mut i: usize = 0;
        while i < self.steps.len()
            invariant
                i <= self.steps.len(),
                items_view(messages@) == head + steps_view(self.steps@).take(i as int).map_values(
                    |s: StepView| s.message(),
                ),
            decreases self.steps.len() - i,
        {
            let m = self.steps[i].to_message();
            proof {
                lemma_items_view_push(messages@, m);
                let all = steps_view(self.steps@);
                assert(head + all.take(i + 1).map_values(|s: StepView| s.message()) =~= (head
                    + all.take(i as int).map_values(|s: StepView| s.message())).push(m@));
            }
            messages.push(m);
            i = i + 1;
        }
        proof {
            let all = steps_view(self.steps@);
            assert(all.take(self.steps.len() as int) =~= all);
        }
        messages
    }

    /// Drops all steps and keeps the system prompt.
    pub fn clear_steps(&mut self)
        ensures
            final(self)@ == MemoryView::empty(old(self)@.system_prompt),
    {
        self.steps.clear();
        proof {
            assert(steps_view(self.steps@) =~= Seq::<StepView>::empty());
        }
    }

    /// Number of steps.
    pub fn step_count(&self) -> (n: usize)
        ensures
            n == self@.steps.len(),
    {
        self.steps.len()
    }

    /// Whether there is no step.
    pub fn is_empty(&self) -> (empty: bool)
        ensures
            empty == (self@.steps.len() == 0),
    {
        self.steps.len() == 0
    }

    /// The steps for which `predicate` holds, in order.
    pub fn filter_steps<F: Fn(&AgentStep) -> bool>(&self, predicate: F) -> (kept: Vec<&AgentStep>)
        requires
            forall|s: &AgentStep| #[trigger] call_requires(predicate, (s,)),
        ensures
            exists|verdicts: Seq<bool>|
                {
                    &&& verdicts.len() == self@.steps.len()
                    &&& forall|i: int|
                        0 <= i < verdicts.len() ==> may_answer(
                            predicate,
                            self@.steps[i],
                            #[trigger] verdicts[i],
                        )
                    &&& #[trigger] selected(self@.steps, verdicts) == borrowed_steps_view(kept@)
                },
    {
        let mut kept: Vec<&AgentStep> = Vec::new();
        let ghost mut verdicts = Seq::<bool>::empty();
        let mut i: usize = 0;
        proof {
            assert(borrowed_steps_view(kept@) =~= Seq::<StepView>::empty());
        }
        while i < self.steps.len()
            invariant
                i <= self.steps.len(),
                forall|s: &AgentStep| #[trigger] call_requires(predicate, (s,)),
                verdicts.len() == i,
                forall|k: int|
                    0 <= k < i ==> may_answer(
                        predicate,
                        steps_view(self.steps@)[k],
                        #[trigger] verdicts[k],
                    ),
                selected(steps_view(self.steps@).take(i as int), verdicts) == borrowed_steps_view(
                    kept@,
                ),
            decreases self.steps.len() - i,
        {
            let step = &self.steps[i];
            let keep = predicate(step);
            proof {
                let all = steps_view(self.steps@);
                let before = verdicts;
                verdicts = verdicts.push(keep);
                assert(all.take(i + 1).drop_last() =~= all.take(i as int));
                assert(verdicts.drop_last() =~= before);
                assert forall|k: int| 0 <= k < i + 1 implies may_answer(
                    predicate,
                    all[k],
                    #[trigger] verdicts[k],
                ) by {
                    if k < i {
                        assert(verdicts[k] == before[k]);
                    } else {
                        assert(step@ == all[k] && call_ensures(predicate, (step,), verdicts[k]));
                    }
                }
                if keep {
                    assert(borrowed_steps_view(kept@.push(step)) =~= borrowed_steps_view(
                        kept@,
                    ).push(step@));
                }
            }
            if keep {
                kept.push(step);
            }
            i = i + 1;
        }
        proof {
            let all = steps_view(self.steps@);
            assert(all.take(self.steps.len() as int) =~= all);
            assert(selected(self@.steps, verdicts) == borrowed_steps_view(kept@));
        }
        kept
    }

    /// Number of actions among the steps.
    pub fn count_actions(&self) -> (n: usize)
        ensures
            n == count_actions_in(self@.steps),
    {
        let mut n: usize = 0;
        let mut i: usize = 0;
        while i < self.steps.len()
            invariant
                i <= self.steps.len(),
                n <= i,
                n == count_actions_in(steps_view(self.steps@).take(i as int)),
            decreases self.steps.len() - i,
        {
            proof {
                let all = steps_view(self.steps@);
                assert(all.take(i + 1).drop_last() =~= all.take(i as int));
            }
            match &self.steps[i] {
                AgentStep::Action { .. } => {
                    n = n + 1;
                },
                _ => {},
            }
            i = i + 1;
        }
        proof {
            let all = steps_view(self.steps@);
            assert(all.take(self.steps.len() as int) =~= all);
        }
        n
    }

    /// Number of observations among the steps.
    pub fn count_observations(&self) -> (n: usize)
        ensures
            n == count_observations_in(self@.steps),
    {
        let mut n: usize = 0;
        let mut i: usize = 0;
        while i < self.steps.len()
            invariant
                i <= self.steps.len(),
                n <= i,
                n == count_observations_in(steps_view(self.steps@).take(i as int)),
            decreases self.steps.len() - i,
        {
            proof {
                let all = steps_view(self.steps@);
                assert(all.take(i + 1).drop_last() =~= all.take(i as int));
            }
            match &self.steps[i] {
                AgentStep::Observation { .. } => {
                    n = n + 1;
                },
                _ => {},
            }
            i = i + 1;
        }
        proof {
            let all = steps_view(self.steps@);
            assert(all.take(self.steps.len() as int) =~= all);
        }
        n
    }

    /// Sets the structured payload of the last final answer among the steps; without a final
    /// answer nothing changes.
    pub fn set_final_answer_structured(&mut self, structured: Json)
        ensures
            final(self)@.system_prompt == old(self)@.system_prompt,
            ({
                let at = last_final_answer(old(self)@.steps);
                if at < 0 {
                    final(self)@.steps == old(self)@.steps
                } else {
                    final(self)@.steps == old(self)@.steps.update(
                        at,
                        StepView::FinalAnswer {
                            answer: old(self)@.steps[at]->FinalAnswer_answer,
                            structured: Some(structured@),
                        },
                    )
                }
            }),
    {
        let mut i: usize = self.steps.len();
        proof {
            let all = steps_view(self.steps@);
            assert(all.take(i as int) =~= all);
        }
        while i > 0
            invariant
                i <= self.steps.len(),
                *self == *old(self),
                last_final_answer(steps_view(self.steps@)) == last_final_answer(
                    steps_view(self.steps@).take(i as int),
                ),
            decreases i,
        {
            proof {
                let all = steps_view(self.steps@);
                assert(all.take(i as int).drop_last() =~= all.take(i - 1));
            }
            i = i - 1;
            let found: Option<String> = match &self.steps[i] {
                AgentStep::FinalAnswer { answer, .. } => Some(answer.clone()),
                _ => None,
            };
            match found {
                Some(answer) => {
                    let ghost before = steps_view(self.steps@);
                    let step = AgentStep::FinalAnswer { answer, structured: Some(structured) };
                    self.steps.set(i, step);
                    proof {
                        assert(steps_view(self.steps@) =~= before.update(i as int, step@));
                    }
                    return ;
                },
                None => {},
            }
        }
        proof {
            let all = steps_view(self.steps@);
            assert(all.take(0) =~= Seq::<StepView>::empty());
        }
    }

    /// Reads one wire message into the memory.
    fn absorb_message(&mut self, message: &Json)
        ensures
            final(self)@ == old(self)@.absorb(message@),
    {
        let role = match message.get_str("role") {
            Some(r) => r,
            None => {
                return ;
            },
        };
        if same_text(role, "system") {
            match message.get_str("content") {
                Some(c) => {
                    self.system_prompt = Some(c.to_owned());
                },
                None => {},
            }
        } else if same_text(role, "user") {
            match message.get_str("content") {
                Some(c) => {
                    self.add_step(AgentStep::Task { content: c.to_owned() });
                },
                None => {},
            }
        } else if same_text(role, "assistant") {
            match message.get("tool_calls") {
                Some(calls) => match calls.as_array() {
                    Some(items) => {
                        self.add_actions(items);
                    },
                    None => {},
                },
                None => match message.get_str("content") {
                    Some(c) => {
                        if !c.is_empty() {
                            self.add_step(
                                AgentStep::FinalAnswer { answer: c.to_owned(), structured: None },
                            );
                        }
                    },
                    None => {},
                },
            }
        } else if same_text(role, "tool") {
            match message.get_str("tool_call_id") {
                Some(id) => match message.get_str("content") {
                    Some(c) => {
                        let is_error = detect_tool_error(c);
                        self.add_step(
                            AgentStep::Observation {
                                tool_call_id: id.to_owned(),
                                result: c.to_owned(),
                                is_error,
                            },
                        );
                    },
                    None => {},
                },
                None => {},
            }
        }
    }

    /// Adds the actions of a list of wire tool calls.
    fn add_actions(&mut self, calls: &Vec<Json>)
        ensures
            final(self)@ == (MemoryView {
                steps: old(self)@.steps + call_actions(items_view(calls@)),
                system_prompt: old(self)@.system_prompt,
            }),
    {
        let mut i: usize = 0;
        proof {
            assert(old(self)@.steps + call_actions(items_view(calls@.take(0))) =~= old(self)@.steps);
        }
        while i < calls.len()
            invariant
                i <= calls.len(),
                self@ == (MemoryView {
                    steps: old(self)@.steps + call_actions(items_view(calls@.take(i as int))),
                    system_prompt: old(self)@.system_prompt,
                }),
            decreases calls.len() - i,
        {
            proof {
                lemma_items_view_push(calls@.take(i as int), calls@[i as int]);
                assert(calls@.take(i as int).push(calls@[i as int]) =~= calls@.take(i + 1));
                let upto = items_view(calls@.take(i + 1));
                assert(upto.drop_last() =~= items_view(calls@.take(i as int)));
            }
            match action_of_call(&calls[i]) {
                Some(step) => {
                    proof {
                        let done = call_actions(items_view(calls@.take(i as int)));
                        assert((old(self)@.steps + done).push(step@) =~= old(self)@.steps
                            + done.push(step@));
                    }
                    self.add_step(step);
                },
                None => {},
            }
            i = i + 1;
        }
        proof {
            assert(calls@.take(calls.len() as int) =~= calls@);
        }
    }

    /// The memory that a list of wire messages gives, read in order.
    pub fn from_messages(messages: Vec<Json>) -> (memory: AgentMemory)
        ensures
            memory@ == MemoryView::of_messages(items_view(messages@)),
    {
        let mut memory = AgentMemory::new(None);
        let mut i: usize = 0;
        while i < messages.len()
            invariant
                i <= messages.len(),
                memory@ == MemoryView::of_messages(items_view(messages@.take(i as int))),
            decreases messages.len() - i,
        {
            proof {
                lemma_items_view_push(messages@.take(i as int), messages@[i as int]);
                assert(messages@.take(i as int).push(messages@[i as int]) =~= messages@.take(
                    i + 1,
                ));
                let upto = items_view(messages@.take(i + 1));
                assert(upto.drop_last() =~= items_view(messages@.take(i as int)));
            }
            memory.absorb_message(&messages[i]);
            i = i + 1;
        }
        proof {
            assert(messages@.take(messages.len() as int) =~= messages@);
        }
        memory
    }
}

impl Clone for AgentMemory {
    fn clone(&self) -> (copy: Self)
        ensures
            copy@ == self@,
    {
        AgentMemory {
            steps: crate::steps::clone_steps(&self.steps),
            system_prompt: match &self.system_prompt {
                Some(p) => Some(p.clone()),
                None => None,
            },
        }
    }
}

impl From<Vec<Json>> for AgentMemory {
    fn from(messages: Vec<Json>) -> (memory: AgentMemory)
        ensures
            memory@ == MemoryView::of_messages(items_view(messages@)),
    {
        AgentMemory::from_messages(messages)
    }
}

impl vstd::std_specs::convert::FromSpecImpl<Vec<Json>> for AgentMemory {
    /// The conversion is known by the value of its result, not by the very memory that
    /// comes back.
    open spec fn obeys_from_spec() -> bool {
        false
    }

    /// A memory with the value that the messages give.
    open spec fn from_spec(messages: Vec<Json>) -> AgentMemory {
        choose|memory: AgentMemory| memory@ == MemoryView::of_messages(items_view(messages@))
    }
}

impl Default for AgentMemory {
    fn default() -> (memory: AgentMemory)
        ensures
            memory@ == MemoryView::empty(Some(DEFAULT_SYSTEM_PROMPT@)),
    {
        AgentMemory::with_default_system()
    }
}

impl StepView {
    /// The role under which the step's message speaks.
    pub open spec fn role(self) -> Seq<char> {
        match self {
            StepView::Task { .. } => "user"@,
            StepView::Observation { .. } => "tool"@,
            _ => "assistant"@,
        }
    }

    /// Whether a reader of the step's message keeps it: the text of an assistant must not be
    /// empty.
    pub open spec fn survives(self) -> bool {
        match self {
            StepView::Planning { plan } => plan.len() > 0,
            StepView::FinalAnswer { answer, structured } => answer.len() > 0,
            _ => true,
        }
    }

    /// The step as it comes back from its own message: a task and an observation's id and
    /// result come back as they are; the arguments of an action come back as their text
    /// parses; the text of a plan or a final answer comes back as a final answer without
    /// payload; whether an observation is an error is decided anew from its result.
    pub open spec fn reread(self) -> StepView {
        match self {
            StepView::Task { content } => StepView::Task { content },
            StepView::Planning { plan } => StepView::FinalAnswer { answer: plan, structured: None },
            StepView::Action { tool_name, tool_call_id, arguments } => StepView::Action {
                tool_name,
                tool_call_id,
                arguments: arguments_of_text(json_text(arguments)),
            },
            StepView::Observation { tool_call_id, result, is_error } => StepView::Observation {
                tool_call_id,
                result,
                is_error: text_reports_error(result),
            },
            StepView::FinalAnswer { answer, structured } => StepView::FinalAnswer {
                answer,
                structured: None,
            },
        }
    }
}

proof fn lemma_keys_differ()
    ensures
        "role"@ != "content"@,
        "role"@ != "tool_calls"@,
        "role"@ != "tool_call_id"@,
        "content"@ != "tool_calls"@,
        "content"@ != "tool_call_id"@,
        "id"@ != "type"@,
        "id"@ != "function"@,
        "type"@ != "function"@,
        "name"@ != "arguments"@,
        "system"@ != "user"@,
        "system"@ != "assistant"@,
        "system"@ != "tool"@,
        "user"@ != "assistant"@,
        "user"@ != "tool"@,
        "assistant"@ != "tool"@,
{
    reveal_strlit("role");
    reveal_strlit("content");
    reveal_strlit("tool_calls");
    reveal_strlit("tool_call_id");
    reveal_strlit("id");
    reveal_strlit("type");
    reveal_strlit("function");
    reveal_strlit("name");
    reveal_strlit("arguments");
    reveal_strlit("system");
    reveal_strlit("user");
    reveal_strlit("assistant");
    reveal_strlit("tool");
    assert("tool_calls"@[9] != "tool_call_id"@[9]);
    assert("user"@[0] != "tool"@[0]);
    assert("role"@.len() == 4 && "type"@.len() == 4 && "name"@.len() == 4);
    assert("content"@.len() == 7 && "tool_calls"@.len() == 10 && "tool_call_id"@.len() == 12);
    assert("id"@.len() == 2 && "function"@.len() == 8 && "arguments"@.len() == 9);
    assert("system"@.len() == 6 && "assistant"@.len() == 9 && "user"@.len() == 4);
    assert("tool"@.len() == 4);
}

proof fn lemma_text_message_members(role: Seq<char>, content: Seq<char>)
    ensures
        text_message(role, content).text_member("role"@) == Some(role),
        text_message(role, content).text_member("content"@) == Some(content),
        text_message(role, content).member("tool_calls"@) is None,
{
    lemma_keys_differ();
}

proof fn lemma_absorb_step(memory: MemoryView, step: StepView)
    requires
        step.survives(),
    ensures
        memory.absorb(step.message()) == memory.push(step.reread()),
        step.message().text_member("role"@) == Some(step.role()),
{
    lemma_keys_differ();
    match step {
        StepView::Task { content } => {
            lemma_text_message_members("user"@, content);
        },
        StepView::Planning { plan } => {
            lemma_text_message_members("assistant"@, plan);
        },
        StepView::FinalAnswer { answer, structured } => {
            lemma_text_message_members("assistant"@, answer);
        },
        StepView::Observation { tool_call_id, result, is_error } => {
            let m = tool_message(tool_call_id, result);
            assert(m.text_member("role"@) == Some("tool"@));
            assert(m.text_member("tool_call_id"@) == Some(tool_call_id));
            assert(m.text_member("content"@) == Some(result));
        },
        StepView::Action { tool_name, tool_call_id, arguments } => {
            let entry = tool_call_entry(tool_call_id, tool_name, arguments);
            let m = step.message();
            assert(m.text_member("role"@) == Some("assistant"@));
            assert(m.member("tool_calls"@) == Some(JsonView::Array(seq![entry])));
            assert(entry.text_member("id"@) == Some(tool_call_id));
            let function = JsonView::object2(
                "name"@,
                JsonView::String(tool_name),
                "arguments"@,
                JsonView::String(json_text(arguments)),
            );
            assert(entry.member("function"@) == Some(function));
            assert(function.text_member("name"@) == Some(tool_name));
            assert(function.text_member("arguments"@) == Some(json_text(arguments)));
            assert(call_action(entry) == Some(step.reread()));
            let calls = seq![entry];
            assert(calls.drop_last() =~= Seq::<JsonView>::empty());
            assert(call_actions(calls.drop_last()) =~= Seq::<StepView>::empty());
            assert(call_actions(calls) =~= seq![step.reread()]);
            assert(memory.steps + seq![step.reread()] =~= memory.steps.push(step.reread()));
        },
    }
}

impl StepView {
    /// Whether the arguments of an action print again as they were printed once they were
    /// read back from their text. Every other step does.
    pub open spec fn reprints(self) -> bool {
        match self {
            StepView::Action { tool_name, tool_call_id, arguments } => json_text(
                arguments_of_text(json_text(arguments)),
            ) == json_text(arguments),
            _ => true,
        }
    }
}

proof fn lemma_reread_message(step: StepView)
    requires
        step.reprints(),
    ensures
        step.reread().message() == step.message(),
{
}

/// Reading back the messages of a memory and writing them again gives the very same
/// messages, one by one: the same roles, contents, ids and tool calls. This holds where
/// every plan and final answer has a text that is not empty and the arguments of every
/// action print again as they were printed once they were read back.
pub proof fn lemma_messages_round_trip_exact(memory: MemoryView)
    requires
        forall|i: int| 0 <= i < memory.steps.len() ==> (#[trigger] memory.steps[i]).survives(),
        forall|i: int| 0 <= i < memory.steps.len() ==> (#[trigger] memory.steps[i]).reprints(),
    ensures
        MemoryView::of_messages(memory.messages()).messages() == memory.messages(),
{
    lemma_messages_round_trip(memory);
    let back = MemoryView::of_messages(memory.messages());
    assert forall|i: int| 0 <= i < memory.steps.len() implies (#[trigger] back.steps[i]).message()
        == memory.steps[i].message() by {
        lemma_reread_message(memory.steps[i]);
    }
    assert(back.steps.map_values(|s: StepView| s.message()) =~= memory.steps.map_values(
        |s: StepView| s.message(),
    ));
}

/// Reading back the messages of a memory gives the memory back, step for step: the same
/// system prompt, and for each step the step that `reread` describes, which speaks under the
/// same role and is the very same step where it is a task. This holds where every plan and
/// final answer has a text that is not empty; the reader passes over an empty one.
pub proof fn lemma_messages_round_trip(memory: MemoryView)
    requires
        forall|i: int| 0 <= i < memory.steps.len() ==> (#[trigger] memory.steps[i]).survives(),
    ensures
        MemoryView::of_messages(memory.messages()).system_prompt == memory.system_prompt,
        MemoryView::of_messages(memory.messages()).steps == memory.steps.map_values(
            |s: StepView| s.reread(),
        ),
        forall|i: int|
            0 <= i < memory.steps.len() ==> (#[trigger] MemoryView::of_messages(
                memory.messages(),
            ).steps[i]).role() == memory.steps[i].role(),
        forall|i: int|
            0 <= i < memory.steps.len() && memory.steps[i] is Task ==> (
            #[trigger] MemoryView::of_messages(memory.messages()).steps[i]) == memory.steps[i],
    decreases memory.steps.len(),
{
    let messages = memory.messages();
    if memory.steps.len() == 0 {
        match memory.system_prompt {
            Some(p) => {
                lemma_keys_differ();
                lemma_text_message_members("system"@, p);
                assert(messages =~= seq![text_message("system"@, p)]);
                assert(messages.drop_last() =~= Seq::<JsonView>::empty());
                assert(MemoryView::of_messages(messages.drop_last()) == MemoryView::empty(None));
                assert(MemoryView::of_messages(messages).steps =~= memory.steps.map_values(
                    |s: StepView| s.reread(),
                ));
            },
            None => {
                assert(messages =~= Seq::<JsonView>::empty());
                assert(MemoryView::of_messages(messages).steps =~= memory.steps.map_values(
                    |s: StepView| s.reread(),
                ));
            },
        }
    } else {
        let shorter = MemoryView {
            steps: memory.steps.drop_last(),
            system_prompt: memory.system_prompt,
        };
        let last = memory.steps.last();
        lemma_messages_round_trip(shorter);
        assert(messages.drop_last() =~= shorter.messages());
        assert(messages.last() == last.message());
        let back = MemoryView::of_messages(shorter.messages());
        lemma_absorb_step(back, last);
        assert(MemoryView::of_messages(messages) == back.push(last.reread()));
        assert(back.push(last.reread()).steps =~= memory.steps.map_values(
            |s: StepView| s.reread(),
        ));
    }
}

} // verus!
