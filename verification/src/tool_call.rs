//! A tool call as the endpoint asks for it, the output of a tool, and the timing of an
//! execution.

use crate::json::{json_text, parsed_json, Json, JsonView};
use crate::steps::{make_tool_call_entry, make_tool_message, tool_call_entry, tool_message};
use crate::text::append;
use crate::time::duration_millis;
use std::time::{Duration, Instant};
use vstd::prelude::*;

verus! {

/// A request of the model to call a tool.
#[derive(Debug)]
pub struct ToolCall {
    /// The id that the endpoint gave the call.
    pub id: String,
    /// The name of the tool.
    pub name: String,
    /// The arguments for the tool.
    pub arguments: Json,
}

/// The mathematical value of a tool call.
pub struct ToolCallView {
    pub id: Seq<char>,
    pub name: Seq<char>,
    pub arguments: JsonView,
}

impl View for ToolCall {
    type V = ToolCallView;

    open spec fn view(&self) -> ToolCallView {
        ToolCallView { id: self.id@, name: self.name@, arguments: self.arguments@ }
    }
}

/// The tool call that a wire tool call stands for: it must have a string `id` and a
/// `function` with a string `name` and, as a string, `arguments` that are JSON.
pub open spec fn wire_tool_call(call: JsonView) -> Option<ToolCallView> {
    match (call.text_member("id"@), call.member("function"@)) {
        (Some(id), Some(function)) => match (
            function.text_member("name"@),
            function.text_member("arguments"@),
        ) {
            (Some(name), Some(text)) => match parsed_json(text) {
                Ok(arguments) => Some(ToolCallView { id, name, arguments }),
                Err(_) => None,
            },
            _ => None,
        },
        _ => None,
    }
}

impl Clone for ToolCall {
    fn clone(&self) -> (copy: Self)
        ensures
            copy@ == self@,
    {
        ToolCall { id: self.id.clone(), name: self.name.clone(), arguments: self.arguments.clone() }
    }
}

impl ToolCall {
    /// A call of the tool `name` with `arguments`, under `id`.
    pub fn new(id: String, name: String, arguments: Json) -> (call: ToolCall)
        ensures
            call@ == (ToolCallView { id: id@, name: name@, arguments: arguments@ }),
    {
        ToolCall { id, name, arguments }
    }

    /// Reads a tool call from its wire form.
    pub fn from_openai_format(tool_call: &Json) -> (call: Option<ToolCall>)
        ensures
            match call {
                Some(c) => wire_tool_call(tool_call@) == Some(c@),
                None => wire_tool_call(tool_call@) is None,
            },
    {
        let id = match tool_call.get_str("id") {
            Some(id) => id,
            None => {
                return None;
            },
        };
        let function = match tool_call.get("function") {
            Some(f) => f,
            None => {
                return None;
            },
        };
        let name = match function.get_str("name") {
            Some(n) => n,
            None => {
                return None;
            },
        };
        let text = match function.get_str("arguments") {
            Some(t) => t,
            None => {
                return None;
            },
        };
        match Json::parse(text) {
            Ok(arguments) => Some(ToolCall { id: id.to_owned(), name: name.to_owned(), arguments }),
            Err(_) => None,
        }
    }

    /// The wire form of the call.
    pub fn to_openai_format(&self) -> (entry: Json)
        ensures
            entry@ == tool_call_entry(self@.id, self@.name, self@.arguments),
    {
        make_tool_call_entry(self.id.as_str(), self.name.as_str(), &self.arguments)
    }

    /// The call as a reader sees it: the name, and the arguments in brackets.
    pub fn describe(&self) -> (line: String)
        ensures
            line@ == self@.name + "("@ + json_text(self@.arguments) + ")"@,
    {
        let text = self.arguments.to_text();
        let mut line = append(self.name.as_str(), "(");
        line.push_str(text.as_str());
        line.push_str(")");
        line
    }
}

/// What a tool returned for a call.
#[derive(Debug)]
pub struct ToolOutput {
    /// The id of the call.
    pub tool_call_id: String,
    /// The name of the tool.
    pub tool_name: String,
    /// What the tool returned.
    pub output: Json,
    /// Whether the output is the final answer.
    pub is_final: bool,
    /// Whether the tool failed.
    pub is_error: bool,
    /// How long the tool ran, in milliseconds.
    pub duration_ms: Option<u128>,
}

/// The mathematical value of a tool's output.
pub struct ToolOutputView {
    pub tool_call_id: Seq<char>,
    pub tool_name: Seq<char>,
    pub output: JsonView,
    pub is_final: bool,
    pub is_error: bool,
    pub duration_ms: Option<u128>,
}

impl View for ToolOutput {
    type V = ToolOutputView;

    open spec fn view(&self) -> ToolOutputView {
        ToolOutputView {
            tool_call_id: self.tool_call_id@,
            tool_name: self.tool_name@,
            output: self.output@,
            is_final: self.is_final,
            is_error: self.is_error,
            duration_ms: self.duration_ms,
        }
    }
}

/// The output of a tool that failed with `message`.
pub open spec fn failure_output(message: Seq<char>) -> JsonView {
    JsonView::object1("error"@, JsonView::object1("message"@, JsonView::String(message)))
}

impl ToolOutputView {
    /// The output as the content of a message: a string as it is, anything else as JSON
    /// text.
    pub open spec fn content(self) -> Seq<char> {
        match self.output {
            JsonView::String(s) => s,
            other => json_text(other),
        }
    }
}

impl ToolOutput {
    /// The output of a tool that succeeded.
    pub fn success(tool_call_id: String, tool_name: String, output: Json) -> (result: ToolOutput)
        ensures
            result@ == (ToolOutputView {
                tool_call_id: tool_call_id@,
                tool_name: tool_name@,
                output: output@,
                is_final: false,
                is_error: false,
                duration_ms: None,
            }),
    {
        ToolOutput {
            tool_call_id,
            tool_name,
            output,
            is_final: false,
            is_error: false,
            duration_ms: None,
        }
    }

    /// The output of a tool that failed.
    pub fn error(tool_call_id: String, tool_name: String, error_msg: String) -> (result: ToolOutput)
        ensures
            result@ == (ToolOutputView {
                tool_call_id: tool_call_id@,
                tool_name: tool_name@,
                output: failure_output(error_msg@),
                is_final: false,
                is_error: true,
                duration_ms: None,
            }),
    {
        let output = Json::object().with(
            "error",
            Json::object().with("message", Json::String(error_msg)),
        );
        ToolOutput {
            tool_call_id,
            tool_name,
            output,
            is_final: false,
            is_error: true,
            duration_ms: None,
        }
    }

    /// The output with the time that the tool ran.
    pub fn with_duration(self, duration: Duration) -> (result: ToolOutput)
        ensures
            result@ == (ToolOutputView { duration_ms: Some(duration_millis(duration)), ..self@ }),
    {
        let mut result = self;
        result.duration_ms = Some(duration.as_millis());
        result
    }

    /// The output, marked as the final answer.
    pub fn as_final(self) -> (result: ToolOutput)
        ensures
            result@ == (ToolOutputView { is_final: true, ..self@ }),
    {
        let mut result = self;
        result.is_final = true;
        result
    }

    /// The output as the content of a message.
    pub fn as_string(&self) -> (content: String)
        ensures
            content@ == self@.content(),
    {
        match &self.output {
            Json::String(s) => s.clone(),
            other => other.to_text(),
        }
    }

    /// The tool message that carries the output.
    pub fn to_openai_message(&self) -> (message: Json)
        ensures
            message@ == tool_message(self@.tool_call_id, self@.content()),
    {
        let content = self.as_string();
        make_tool_message(self.tool_call_id.as_str(), content.as_str())
    }
}

/// A tool call that is being executed, with the moment at which it started.
#[derive(Debug)]
pub struct ToolExecution {
    pub tool_call: ToolCall,
    start_time: Instant,
}

impl View for ToolExecution {
    type V = ToolCallView;

    /// The call that is being executed.
    closed spec fn view(&self) -> ToolCallView {
        self.tool_call@
    }
}

impl ToolExecution {
    /// Starts the clock for `tool_call`.
    pub fn start(tool_call: ToolCall) -> (execution: ToolExecution)
        ensures
            execution@ == tool_call@,
    {
        ToolExecution { tool_call, start_time: Instant::now() }
    }

    /// Ends the execution with `output`: the result carries the call's id and name and the
    /// time that has passed.
    pub fn complete(self, output: Json, is_error: bool) -> (result: ToolOutput)
        ensures
            result@.tool_call_id == self@.id,
            result@.tool_name == self@.name,
            result@.output == output@,
            !result@.is_final,
            result@.is_error == is_error,
            result@.duration_ms is Some,
    {
        let duration = self.start_time.elapsed();
        ToolOutput {
            tool_call_id: self.tool_call.id,
            tool_name: self.tool_call.name,
            output,
            is_final: false,
            is_error,
            duration_ms: Some(duration.as_millis()),
        }
    }

    /// Ends the execution with a failure.
    pub fn complete_with_error(self, error_msg: String) -> (result: ToolOutput)
        ensures
            result@.tool_call_id == self@.id,
            result@.tool_name == self@.name,
            result@.output == failure_output(error_msg@),
            !result@.is_final,
            result@.is_error,
            result@.duration_ms is Some,
    {
        let duration = self.start_time.elapsed();
        ToolOutput::error(self.tool_call.id, self.tool_call.name, error_msg).with_duration(duration)
    }
}

} // verus!
