//! What the calculator tool tells of itself. The arithmetic is done outside this library.

use crate::json::{items_view, lemma_items_view_push, Json, JsonView};
use crate::text::same_text;
use crate::tools::{ToolDescriptor, ToolView};
use vstd::prelude::*;

verus! {

/// The operations of the calculator.
#[derive(Debug, Clone, Copy, PartialEq, Eq)]
pub enum Operation {
    Add,
    Subtract,
    Multiply,
    Divide,
    Power,
}

impl Operation {
    /// The name of the operation in a tool call.
    pub open spec fn wire_name(self) -> Seq<char> {
        match self {
            Operation::Add => "add"@,
            Operation::Subtract => "subtract"@,
            Operation::Multiply => "multiply"@,
            Operation::Divide => "divide"@,
            Operation::Power => "power"@,
        }
    }

    /// The operation that `name` names.
    pub open spec fn named(name: Seq<char>) -> Option<Operation> {
        if name == "add"@ {
            Some(Operation::Add)
        } else if name == "subtract"@ {
            Some(Operation::Subtract)
        } else if name == "multiply"@ {
            Some(Operation::Multiply)
        } else if name == "divide"@ {
            Some(Operation::Divide)
        } else if name == "power"@ {
            Some(Operation::Power)
        } else {
            None
        }
    }

    /// The name of the operation in a tool call.
    pub fn name(&self) -> (name: &'static str)
        ensures
            name@ == self.wire_name(),
    {
        match self {
            Operation::Add => "add",
            Operation::Subtract => "subtract",
            Operation::Multiply => "multiply",
            Operation::Divide => "divide",
            Operation::Power => "power",
        }
    }

    /// The operation that `name` names.
    pub fn from_name(name: &str) -> (operation: Option<Operation>)
        ensures
            operation == Operation::named(name@),
    {
        if same_text(name, "add") {
            Some(Operation::Add)
        } else if same_text(name, "subtract") {
            Some(Operation::Subtract)
        } else if same_text(name, "multiply") {
            Some(Operation::Multiply)
        } else if same_text(name, "divide") {
            Some(Operation::Divide)
        } else if same_text(name, "power") {
            Some(Operation::Power)
        } else {
            None
        }
    }
}

/// The schema `{"type": kind}`.
pub open spec fn of_type(kind: Seq<char>) -> JsonView {
    JsonView::object1("type"@, JsonView::String(kind))
}

/// The array of the strings `names`.
pub open spec fn strings(names: Seq<Seq<char>>) -> JsonView {
    JsonView::Array(names.map_values(|n: Seq<char>| JsonView::String(n)))
}

/// The schema of a string that is one of `names`.
pub open spec fn one_of(names: Seq<Seq<char>>) -> JsonView {
    of_type("string"@).with("enum"@, strings(names))
}

/// The schema of an object with `properties`, of which `required` must be there.
pub open spec fn object_schema(properties: JsonView, required: Seq<Seq<char>>) -> JsonView {
    JsonView::object3(
        "type"@,
        JsonView::String("object"@),
        "properties"@,
        properties,
        "required"@,
        strings(required),
    )
}

/// The schema of the calculator's parameters: an operation and two numbers.
pub open spec fn calculator_schema() -> JsonView {
    object_schema(
        JsonView::object3(
            "operation"@,
            one_of(seq!["add"@, "subtract"@, "multiply"@, "divide"@, "power"@]),
            "a"@,
            of_type("number"@),
            "b"@,
            of_type("number"@),
        ),
        seq!["operation"@, "a"@, "b"@],
    )
}

/// Builds the schema `{"type": kind}`.
pub fn make_of_type(kind: &str) -> (schema: Json)
    ensures
        schema@ == of_type(kind@),
{
    Json::object().with("type", Json::string(kind))
}

/// The texts of a list of string slices.
pub open spec fn names_of(names: Seq<&'static str>) -> Seq<Seq<char>> {
    names.map_values(|n: &'static str| n@)
}

/// Builds the array of the strings `names`.
pub fn make_strings(names: &[&'static str]) -> (array: Json)
    ensures
        array@ == strings(names_of(names@)),
{
    let mut items: Vec<Json> = Vec::new();
    let mut i: usize = 0;
    proof {
        assert(items_view(items@) =~= names_of(names@.take(0)).map_values(
            |n: Seq<char>| JsonView::String(n),
        ));
    }
    while i < names.len()
        invariant
            i <= names.len(),
            items_view(items@) == names_of(names@.take(i as int)).map_values(
                |n: Seq<char>| JsonView::String(n),
            ),
        decreases names.len() - i,
    {
        let item = Json::string(names[i]);
        proof {
            lemma_items_view_push(items@, item);
            assert(names_of(names@.take(i as int)).map_values(
                |n: Seq<char>| JsonView::String(n),
            ).push(item@) =~= names_of(names@.take(i + 1)).map_values(
                |n: Seq<char>| JsonView::String(n),
            ));
        }
        items.push(item);
        i = i + 1;
    }
    proof {
        assert(names@.take(names.len() as int) =~= names@);
    }
    Json::array(items)
}

/// Builds the schema of an object with `properties`, of which `required` must be there.
pub fn make_object_schema(properties: Json, required: &[&'static str]) -> (schema: Json)
    ensures
        schema@ == object_schema(properties@, names_of(required@)),
{
    Json::object().with("type", Json::string("object")).with("properties", properties).with(
        "required",
        make_strings(required),
    )
}

/// The calculator: arithmetic on two numbers.
#[derive(Debug)]
pub struct CalculatorTool;

impl CalculatorTool {
    /// The calculator.
    pub fn new() -> (tool: CalculatorTool)
        ensures
            tool == CalculatorTool,
    {
        CalculatorTool
    }

    /// The name under which the calculator is called.
    pub fn name(&self) -> (name: &'static str)
        ensures
            name@ == "calculator"@,
    {
        "calculator"
    }

    /// What the calculator does.
    pub fn description(&self) -> (description: &'static str)
        ensures
            description@
                == "Perform basic arithmetic operations (add, subtract, multiply, divide, power)"@,
    {
        "Perform basic arithmetic operations (add, subtract, multiply, divide, power)"
    }

    /// The schema of the calculator's parameters.
    pub fn parameters_schema(&self) -> (schema: Json)
        ensures
            schema@ == calculator_schema(),
    {
        let operations: [&'static str; 5] = ["add", "subtract", "multiply", "divide", "power"];
        let required: [&'static str; 3] = ["operation", "a", "b"];
        proof {
            assert(names_of(operations@) =~= seq![
                "add"@,
                "subtract"@,
                "multiply"@,
                "divide"@,
                "power"@,
            ]);
            assert(names_of(required@) =~= seq!["operation"@, "a"@, "b"@]);
        }
        let operation = make_of_type("string").with("enum", make_strings(operations.as_slice()));
        let properties = Json::object().with("operation", operation).with(
            "a",
            make_of_type("number"),
        ).with("b", make_of_type("number"));
        make_object_schema(properties, required.as_slice())
    }

    /// What the calculator tells of itself.
    pub fn descriptor(&self) -> (tool: ToolDescriptor)
        ensures
            tool@ == (ToolView {
                name: "calculator"@,
                description: "Perform basic arithmetic operations (add, subtract, multiply, divide, power)"@,
                parameters: calculator_schema(),
            }),
    {
        ToolDescriptor::new(self.name(), self.description(), self.parameters_schema())
    }
}

impl Default for CalculatorTool {
    fn default() -> (tool: CalculatorTool)
        ensures
            tool == CalculatorTool,
    {
        CalculatorTool::new()
    }
}

} // verus!
