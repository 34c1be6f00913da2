//! The two tools that end a run, `final_answer` and `structured_response`: their definitions
//! on the wire, their arguments, and the instruction that announces a completion schema.

use crate::json::{items_view, lemma_items_view, lemma_items_view_push, Json, JsonView};
use crate::schema::{SchemaHandle, SchemaView};
use crate::text::{append, contains, contains_text, occurs_at, same_text};
use vstd::prelude::*;

verus! {

/// Name of the tool through which a schema-bound answer is delivered.
pub fn structured_response_tool_name() -> (name: &'static str)
    ensures
        name@ == "structured_response"@,
{
    "structured_response"
}

/// The wire form of a tool: `{"type": "function", "function": {"name", "description",
/// "parameters"}}`.
pub open spec fn function_tool(
    name: Seq<char>,
    description: Seq<char>,
    parameters: JsonView,
) -> JsonView {
    JsonView::object2(
        "type"@,
        JsonView::String("function"@),
        "function"@,
        JsonView::object3(
            "name"@,
            JsonView::String(name),
            "description"@,
            JsonView::String(description),
            "parameters"@,
            parameters,
        ),
    )
}

/// Builds the wire form of a tool.
pub fn make_function_tool(name: &str, description: &str, parameters: Json) -> (tool: Json)
    ensures
        tool@ == function_tool(name@, description@, parameters@),
{
    let function = Json::object().with("name", Json::string(name)).with(
        "description",
        Json::string(description),
    ).with("parameters", parameters);
    Json::object().with("type", Json::string("function")).with("function", function)
}

/// A schema `{"type": type, "description": description}`.
pub open spec fn described(kind: Seq<char>, description: Seq<char>) -> JsonView {
    JsonView::object2("type"@, JsonView::String(kind), "description"@, JsonView::String(description))
}

/// A schema of any object, with a description.
pub open spec fn open_object(description: Seq<char>) -> JsonView {
    described("object"@, description).with("additionalProperties"@, JsonView::Bool(true))
}

/// The definition of `final_answer`: it takes a required string `answer`, and optional
/// objects `structured` and `meta`.
pub open spec fn final_answer_tool() -> JsonView {
    function_tool(
        "final_answer"@,
        "Signal that the agent has completed the task by providing the final answer."@,
        JsonView::object3(
            "type"@,
            JsonView::String("object"@),
            "properties"@,
            JsonView::object3(
                "answer"@,
                described("string"@, "Final response for the user"@),
                "structured"@,
                open_object("Structured payload matching the active completion schema"@),
                "meta"@,
                open_object("Optional metadata about the answer"@),
            ),
            "required"@,
            JsonView::Array(seq![JsonView::String("answer"@)]),
        ),
    )
}

/// The schema of the `structured` argument of `structured_response`: an object with the
/// properties and the required names of the completion schema, and nothing else.
pub open spec fn structured_parameter(schema: SchemaView) -> JsonView {
    let base = described(
        "object"@,
        "The "@ + schema.name + " data structure. This must match the schema exactly."@,
    );
    let with_properties = match schema.document.member("properties"@) {
        Some(p) => base.with("properties"@, p),
        None => base,
    };
    let with_required = match schema.document.member("required"@) {
        Some(r) => with_properties.with("required"@, r),
        None => with_properties,
    };
    with_required.with("additionalProperties"@, JsonView::Bool(false))
}

/// The definition of `structured_response` for a completion schema: it takes one required
/// argument, `structured`, and nothing else.
pub open spec fn structured_response_tool(schema: SchemaView) -> JsonView {
    function_tool(
        "structured_response"@,
        "Complete the task by providing a "@ + schema.name + " object with all required fields."@,
        JsonView::object3(
            "type"@,
            JsonView::String("object"@),
            "properties"@,
            JsonView::object1("structured"@, structured_parameter(schema)),
            "required"@,
            JsonView::Array(seq![JsonView::String("structured"@)]),
        ).with("additionalProperties"@, JsonView::Bool(false)),
    )
}

fn make_described(kind: &str, description: &str) -> (schema: Json)
    ensures
        schema@ == described(kind@, description@),
{
    Json::object().with("type", Json::string(kind)).with("description", Json::string(description))
}

fn make_open_object(description: &str) -> (schema: Json)
    ensures
        schema@ == open_object(description@),
{
    make_described("object", description).with("additionalProperties", Json::Bool(true))
}

fn one_name(name: &str) -> (names: Json)
    ensures
        names@ == JsonView::Array(seq![JsonView::String(name@)]),
{
    let mut names: Vec<Json> = Vec::new();
    let entry = Json::string(name);
    proof {
        lemma_items_view_push(names@, entry);
    }
    names.push(entry);
    Json::array(names)
}

/// The definition of the `final_answer` tool.
pub fn final_answer_tool_definition() -> (tool: Json)
    ensures
        tool@ == final_answer_tool(),
{
    let properties = Json::object().with(
        "answer",
        make_described("string", "Final response for the user"),
    ).with(
        "structured",
        make_open_object("Structured payload matching the active completion schema"),
    ).with("meta", make_open_object("Optional metadata about the answer"));
    let parameters = Json::object().with("type", Json::string("object")).with(
        "properties",
        properties,
    ).with("required", one_name("answer"));
    make_function_tool(
        "final_answer",
        "Signal that the agent has completed the task by providing the final answer.",
        parameters,
    )
}

/// The definition of the `structured_response` tool for a completion schema.
pub fn structured_response_tool_definition(schema: &SchemaHandle) -> (tool: Json)
    ensures
        tool@ == structured_response_tool(schema@),
{
    let mut about = append("The ", schema.schema_name());
    about.push_str(" data structure. This must match the schema exactly.");
    let mut structured = make_described("object", about.as_str());
    match schema.schema_json().get("properties") {
        Some(p) => {
            structured = structured.with("properties", p.clone());
        },
        None => {},
    }
    match schema.schema_json().get("required") {
        Some(r) => {
            structured = structured.with("required", r.clone());
        },
        None => {},
    }
    structured = structured.with("additionalProperties", Json::Bool(false));
    let properties = Json::object().with("structured", structured);
    let parameters = Json::object().with("type", Json::string("object")).with(
        "properties",
        properties,
    ).with("required", one_name("structured")).with("additionalProperties", Json::Bool(false));
    let mut description = append("Complete the task by providing a ", schema.schema_name());
    description.push_str(" object with all required fields.");
    make_function_tool("structured_response", description.as_str(), parameters)
}

/// The phrase by which an instruction that is already in place is known.
pub const INSTRUCTION_MARKER: &'static str = "Structured response requirement:";

/// The instruction that announces the completion schema named `name`.
pub open spec fn schema_instruction(name: Seq<char>) -> Seq<char> {
    "\n\n"@ + INSTRUCTION_MARKER@
        + " when you finish the task, you MUST call the `structured_response` tool with a JSON payload that strictly conforms to the `"@
        + name + "` schema. This is the ONLY way to complete the task."@
}

/// The content of the leading system message to which the instruction is still to be added:
/// the first message must speak as `system` and have a text that lacks the marker.
pub open spec fn awaits_instruction(messages: Seq<JsonView>) -> Option<Seq<char>> {
    if messages.len() == 0 {
        None
    } else if messages[0].text_member("role"@) == Some("system"@) {
        match messages[0].text_member("content"@) {
            Some(c) => if contains_text(c, INSTRUCTION_MARKER@) {
                None
            } else {
                Some(c)
            },
            None => None,
        }
    } else {
        None
    }
}

/// The messages with the instruction for the schema named `name` added to the leading system
/// message, unless it is there already or there is no such message.
pub open spec fn with_instruction(messages: Seq<JsonView>, name: Seq<char>) -> Seq<JsonView> {
    match awaits_instruction(messages) {
        Some(c) => messages.update(
            0,
            messages[0].with("content"@, JsonView::String(c + schema_instruction(name))),
        ),
        None => messages,
    }
}

/// Adds the instruction that announces `schema` to the leading system message, once.
pub fn inject_schema_instructions(messages: &mut Vec<Json>, schema: &SchemaHandle)
    ensures
        items_view(final(messages)@) == with_instruction(items_view(old(messages)@), schema@.name),
{
    proof {
        lemma_items_view(messages@);
    }
    if messages.len() == 0 {
        return ;
    }
    let updated: Option<String> = match messages[0].get_str("role") {
        Some(role) => if same_text(role, "system") {
            match messages[0].get_str("content") {
                Some(c) => if contains(c, INSTRUCTION_MARKER) {
                    None
                } else {
                    let mut text = append(c, "\n\n");
                    text.push_str(INSTRUCTION_MARKER);
                    text.push_str(
                        " when you finish the task, you MUST call the `structured_response` tool with a JSON payload that strictly conforms to the `",
                    );
                    text.push_str(schema.schema_name());
                    text.push_str("` schema. This is the ONLY way to complete the task.");
                    Some(text)
                },
                None => None,
            }
        } else {
            None
        },
        None => None,
    };
    match updated {
        Some(text) => {
            let ghost before = messages@;
            let ghost content = before[0]@.text_member("content"@)->Some_0;
            proof {
                assert(text@ =~= content + schema_instruction(schema@.name));
            }
            let mut first = messages[0].clone();
            first.put("content", Json::String(text));
            messages.set(0, first);
            proof {
                lemma_items_view(messages@);
                assert(items_view(messages@) =~= with_instruction(items_view(before), schema@.name));
            }
        },
        None => {},
    }
}

/// Adding the instruction a second time changes nothing: the first addition leaves the
/// marker in the system message.
pub proof fn lemma_instruction_added_once(messages: Seq<JsonView>, name: Seq<char>)
    ensures
        with_instruction(with_instruction(messages, name), name) == with_instruction(
            messages,
            name,
        ),
{
    match awaits_instruction(messages) {
        Some(c) => {
            let once = with_instruction(messages, name);
            let content = c + schema_instruction(name);
            reveal_strlit("\n\n");
            reveal_strlit("role");
            reveal_strlit("content");
            assert("role"@ != "content"@) by {
                assert("role"@.len() == 4 && "content"@.len() == 7);
            }
            assert(once[0].text_member("content"@) == Some(content));
            assert(once[0].text_member("role"@) == Some("system"@));
            let at = c.len() as int + 2;
            assert(content.subrange(at, at + INSTRUCTION_MARKER@.len()) =~= INSTRUCTION_MARKER@);
            assert(occurs_at(content, INSTRUCTION_MARKER@, at));
            assert(awaits_instruction(once) is None);
        },
        None => {},
    }
}

/// The arguments of a `final_answer` call.
#[derive(Debug)]
pub struct FinalAnswerArguments {
    pub answer: String,
    pub structured: Option<Json>,
    pub meta: Option<Json>,
}

/// The arguments of a `structured_response` call.
#[derive(Debug)]
pub struct StructuredResponseArguments {
    pub structured: Json,
    pub meta: Option<Json>,
}

/// The member under `key` unless it is missing or `null`.
pub open spec fn optional_member(arguments: JsonView, key: Seq<char>) -> Option<JsonView> {
    match arguments.member(key) {
        Some(v) => if v is Null {
            None
        } else {
            Some(v)
        },
        None => None,
    }
}

/// What is wrong with the arguments of a `final_answer` call, if anything: they must be an
/// object with a string `answer`.
pub open spec fn final_answer_fault(arguments: JsonView) -> Option<Seq<char>> {
    if !(arguments is Object) {
        Some("invalid type: expected an object"@)
    } else {
        match arguments.member("answer"@) {
            None => Some("missing field `answer`"@),
            Some(v) => if v is String {
                None
            } else {
                Some("invalid type for `answer`: expected a string"@)
            },
        }
    }
}

/// What is wrong with the arguments of a `structured_response` call, if anything: they must
/// be an object with a member `structured`.
pub open spec fn structured_response_fault(arguments: JsonView) -> Option<Seq<char>> {
    if !(arguments is Object) {
        Some("invalid type: expected an object"@)
    } else if arguments.member("structured"@) is None {
        Some("missing field `structured`"@)
    } else {
        None
    }
}

fn optional_copy(arguments: &Json, key: &str) -> (value: Option<Json>)
    ensures
        match value {
            Some(v) => optional_member(arguments@, key@) == Some(v@),
            None => optional_member(arguments@, key@) is None,
        },
{
    match arguments.get(key) {
        Some(v) => if v.is_null() {
            None
        } else {
            Some(v.clone())
        },
        None => None,
    }
}

/// Reads the arguments of a `final_answer` call.
pub fn parse_final_answer_arguments(arguments: &Json) -> (r: Result<FinalAnswerArguments, String>)
    ensures
        match r {
            Ok(a) => final_answer_fault(arguments@) is None && arguments@.text_member("answer"@)
                == Some(a.answer@) && optional_member(arguments@, "structured"@) == (match a.structured {
                Some(s) => Some(s@),
                None => None,
            }) && optional_member(arguments@, "meta"@) == (match a.meta {
                Some(m) => Some(m@),
                None => None,
            }),
            Err(fault) => final_answer_fault(arguments@) == Some(fault@),
        },
{
    if !arguments.is_object() {
        return Err("invalid type: expected an object".to_owned());
    }
    match arguments.get("answer") {
        None => Err("missing field `answer`".to_owned()),
        Some(v) => match v.as_str() {
            None => Err("invalid type for `answer`: expected a string".to_owned()),
            Some(answer) => Ok(
                FinalAnswerArguments {
                    answer: answer.to_owned(),
                    structured: optional_copy(arguments, "structured"),
                    meta: optional_copy(arguments, "meta"),
                },
            ),
        },
    }
}

/// Reads the arguments of a `structured_response` call.
pub fn parse_structured_response_arguments(arguments: &Json) -> (r: Result<
    StructuredResponseArguments,
    String,
>)
    ensures
        match r {
            Ok(a) => structured_response_fault(arguments@) is None && arguments@.member(
                "structured"@,
            ) == Some(a.structured@) && optional_member(arguments@, "meta"@) == (match a.meta {
                Some(m) => Some(m@),
                None => None,
            }),
            Err(fault) => structured_response_fault(arguments@) == Some(fault@),
        },
{
    if !arguments.is_object() {
        return Err("invalid type: expected an object".to_owned());
    }
    match arguments.get("structured") {
        None => Err("missing field `structured`".to_owned()),
        Some(v) => Ok(
            StructuredResponseArguments {
                structured: v.clone(),
                meta: optional_copy(arguments, "meta"),
            },
        ),
    }
}

} // verus!
