//! Prompts that ask a model to plan before it acts, and a test for answers that plan.

use crate::text::{
    append, contains, contains_text, decimal, decimal_text, join, joined, lowercase_of, texts,
    to_lowercase,
};
use crate::tools::{FunctionFactory, ToolView};
use vstd::prelude::*;

verus! {

/// How the tools on offer are listed in a prompt: their names with commas between, or a note
/// that there are none.
pub open spec fn tools_list(tools: Seq<Seq<char>>) -> Seq<char> {
    if tools.len() == 0 {
        "No tools available"@
    } else {
        joined(tools, ", "@)
    }
}

/// The prompt that asks for a plan. The first iteration introduces the task; a later one
/// tells its number and asks for the next step.
pub open spec fn planning_prompt(task: Seq<char>, tools: Seq<Seq<char>>, iteration: usize) -> Seq<
    char,
> {
    if iteration == 1 {
        "Task: "@ + task + "\n\nAvailable tools: "@ + tools_list(tools)
            + "\n\nThink step-by-step about how to solve this"@
            + " task. What tools will you need? What's your approach?"@
    } else {
        "Continuing task: "@ + task + "\n\nIteration "@ + decimal_text(iteration as nat)
            + "\nAvailable tools: "@ + tools_list(tools)
            + "\n\nBased on previous observations, what should be the next step?"@
    }
}

/// The prompt that asks for a plan, for `task` with the tools named in `available_tools`.
pub fn generate_planning_prompt(task: &str, available_tools: &[String], iteration: usize) -> (prompt:
    String)
    ensures
        prompt@ == planning_prompt(task@, texts(available_tools@), iteration),
{
    let list: String = if available_tools.len() == 0 {
        "No tools available".to_owned()
    } else {
        join(available_tools, ", ")
    };
    if iteration == 1 {
        let mut prompt = append("Task: ", task);
        prompt.push_str("\n\nAvailable tools: ");
        prompt.push_str(list.as_str());
        prompt.push_str("\n\nThink step-by-step about how to solve this");
        prompt.push_str(" task. What tools will you need? What's your approach?");
        prompt
    } else {
        let number = decimal(iteration as u64);
        let mut prompt = append("Continuing task: ", task);
        prompt.push_str("\n\nIteration ");
        prompt.push_str(number.as_str());
        prompt.push_str("\nAvailable tools: ");
        prompt.push_str(list.as_str());
        prompt.push_str("\n\nBased on previous observations, what should be the next step?");
        prompt
    }
}

/// The names of `tools`, in order.
pub open spec fn tool_names(tools: Seq<ToolView>) -> Seq<Seq<char>> {
    tools.map_values(|t: ToolView| t.name)
}

/// The names of the tools of `factory`, in order.
pub fn get_tool_names(factory: &FunctionFactory) -> (names: Vec<String>)
    ensures
        texts(names@) == tool_names(factory@),
{
    let tools = factory.tools();
    let mut names: Vec<String> = Vec::new();
    let mut i: usize = 0;
    proof {
        assert(texts(names@) =~= tool_names(factory@.take(0)));
    }
    while i < tools.len()
        invariant
            i <= tools.len(),
            crate::tools::tools_view(tools@) == factory@,
            texts(names@) == tool_names(factory@.take(i as int)),
        decreases tools.len() - i,
    {
        let name = tools[i].name.clone();
        proof {
            assert(factory@[i as int] == tools@[i as int]@);
            assert(texts(names@).len() == names@.len());
            assert forall|j: int| 0 <= j < i + 1 implies texts(names@.push(name))[j] == tool_names(
                factory@.take(i + 1),
            )[j] by {
                if j < i {
                    assert(texts(names@)[j] == tool_names(factory@.take(i as int))[j]);
                }
            }
            assert(texts(names@.push(name)) =~= tool_names(factory@.take(i + 1)));
        }
        names.push(name);
        i = i + 1;
    }
    proof {
        assert(factory@.take(tools.len() as int) =~= factory@);
    }
    names
}

/// One line for each tool: a dash, the name, a colon and the description.
pub open spec fn tool_lines(tools: Seq<ToolView>) -> Seq<Seq<char>> {
    tools.map_values(|t: ToolView| "- "@ + t.name + ": "@ + t.description)
}

/// The prompt that asks for a plan and describes the tools.
pub open spec fn tool_planning_prompt(task: Seq<char>, tools: Seq<ToolView>) -> Seq<char> {
    if tools.len() == 0 {
        "Task: "@ + task + "\n\nHow would you approach solving this?"@
    } else {
        "Task: "@ + task + "\n\nAvailable tools:\n"@ + joined(tool_lines(tools), "\n"@)
            + "\n\nWhat's your plan to solve this"@ + " task?"@
    }
}

/// The prompt that asks for a plan for `task` and describes the tools of `factory`.
pub fn generate_tool_planning_prompt(task: &str, factory: &FunctionFactory) -> (prompt: String)
    ensures
        prompt@ == tool_planning_prompt(task@, factory@),
{
    let tools = factory.tools();
    let mut lines: Vec<String> = Vec::new();
    let mut i: usize = 0;
    proof {
        assert(texts(lines@) =~= tool_lines(factory@.take(0)));
    }
    while i < tools.len()
        invariant
            i <= tools.len(),
            crate::tools::tools_view(tools@) == factory@,
            texts(lines@) == tool_lines(factory@.take(i as int)),
        decreases tools.len() - i,
    {
        let mut line = append("- ", tools[i].name.as_str());
        line.push_str(": ");
        line.push_str(tools[i].description.as_str());
        proof {
            assert(factory@[i as int] == tools@[i as int]@);
            assert(texts(lines@).len() == lines@.len());
            assert forall|j: int| 0 <= j < i + 1 implies texts(lines@.push(line))[j] == tool_lines(
                factory@.take(i + 1),
            )[j] by {
                if j < i {
                    assert(texts(lines@)[j] == tool_lines(factory@.take(i as int))[j]);
                }
            }
            assert(texts(lines@.push(line)) =~= tool_lines(factory@.take(i + 1)));
        }
        lines.push(line);
        i = i + 1;
    }
    proof {
        assert(factory@.take(tools.len() as int) =~= factory@);
    }
    if lines.len() == 0 {
        append(append("Task: ", task).as_str(), "\n\nHow would you approach solving this?")
    } else {
        let described = join(lines.as_slice(), "\n");
        let mut prompt = append("Task: ", task);
        prompt.push_str("\n\nAvailable tools:\n");
        prompt.push_str(described.as_str());
        prompt.push_str("\n\nWhat's your plan to solve this");
        prompt.push_str(" task?");
        prompt
    }
}

/// Whether a text in lower case holds one of the words by which a plan is known.
pub open spec fn mentions_plan(lower: Seq<char>) -> bool {
    ||| contains_text(lower, "plan"@)
    ||| contains_text(lower, "approach"@)
    ||| contains_text(lower, "strategy"@)
    ||| contains_text(lower, "steps:"@)
    ||| contains_text(lower, "first,"@)
    ||| contains_text(lower, "then,"@)
    ||| contains_text(lower, "finally,"@)
    ||| contains_text(lower, "need to"@)
    ||| contains_text(lower, "should"@)
    ||| contains_text(lower, "will use"@)
}

/// Whether a text in lower case holds one of the words by which a plan is known.
pub fn mentions_planning(lower: &str) -> (found: bool)
    ensures
        found == mentions_plan(lower@),
{
    contains(lower, "plan") || contains(lower, "approach") || contains(lower, "strategy")
        || contains(lower, "steps:") || contains(lower, "first,") || contains(lower, "then,")
        || contains(lower, "finally,") || contains(lower, "need to") || contains(lower, "should")
        || contains(lower, "will use")
}

/// Whether an answer plans rather than acts: in lower case it holds one of the words by
/// which a plan is known.
pub fn is_planning_response(content: &str) -> (planning: bool)
    ensures
        planning == mentions_plan(lowercase_of(content@)),
{
    let lower = to_lowercase(content);
    mentions_planning(lower.as_str())
}

} // verus!
