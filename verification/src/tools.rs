//! The registry of tools: what each is called, what it does and what it takes, and the form
//! in which the tools are offered to the completion endpoint.

use crate::json::{items_view, lemma_items_view_push, Json, JsonView};
use crate::text::same_text;
use crate::validation::{function_tool, make_function_tool};
use vstd::prelude::*;

verus! {

/// What a tool tells of itself: the name under which it is called, a description, and the
/// JSON schema of its parameters.
#[derive(Debug)]
pub struct ToolDescriptor {
    pub name: String,
    pub description: String,
    pub parameters: Json,
}

/// The mathematical value of a tool descriptor.
pub struct ToolView {
    pub name: Seq<char>,
    pub description: Seq<char>,
    pub parameters: JsonView,
}

impl View for ToolDescriptor {
    type V = ToolView;

    open spec fn view(&self) -> ToolView {
        ToolView { name: self.name@, description: self.description@, parameters: self.parameters@ }
    }
}

impl ToolView {
    /// The wire form of the tool.
    pub open spec fn wire(self) -> JsonView {
        function_tool(self.name, self.description, self.parameters)
    }

    /// Whether the tool can be offered: it has a name, a description, and an object as the
    /// schema of its parameters.
    pub open spec fn well_described(self) -> bool {
        self.name.len() > 0 && self.description.len() > 0 && self.parameters is Object
    }
}

impl Clone for ToolDescriptor {
    fn clone(&self) -> (copy: Self)
        ensures
            copy@ == self@,
    {
        ToolDescriptor {
            name: self.name.clone(),
            description: self.description.clone(),
            parameters: self.parameters.clone(),
        }
    }
}

impl ToolDescriptor {
    /// A descriptor of the tool called `name`.
    pub fn new(name: &str, description: &str, parameters: Json) -> (tool: ToolDescriptor)
        ensures
            tool@ == (ToolView { name: name@, description: description@, parameters: parameters@ }),
    {
        ToolDescriptor { name: name.to_owned(), description: description.to_owned(), parameters }
    }

    /// The wire form of the tool.
    pub fn to_openai_tool(&self) -> (tool: Json)
        ensures
            tool@ == self@.wire(),
    {
        make_function_tool(self.name.as_str(), self.description.as_str(), self.parameters.clone())
    }
}

/// The values of a list of descriptors.
pub open spec fn tools_view(tools: Seq<ToolDescriptor>) -> Seq<ToolView> {
    tools.map_values(|t: ToolDescriptor| t@)
}

/// Index of the tool called `name` among `tools`, or -1.
pub open spec fn position_of(tools: Seq<ToolView>, name: Seq<char>) -> int
    decreases tools.len(),
{
    if tools.len() == 0 {
        -1
    } else if tools.last().name == name {
        tools.len() - 1
    } else {
        position_of(tools.drop_last(), name)
    }
}

/// Whether no two of `tools` have one name.
pub open spec fn names_differ(tools: Seq<ToolView>) -> bool {
    forall|i: int, j: int|
        0 <= i < j < tools.len() ==> (#[trigger] tools[i]).name != (#[trigger] tools[j]).name
}

/// `tools` after `tool` was registered: in the place of the tool that had its name, or at
/// the end.
pub open spec fn registered(tools: Seq<ToolView>, tool: ToolView) -> Seq<ToolView> {
    let at = position_of(tools, tool.name);
    if at >= 0 {
        tools.update(at, tool)
    } else {
        tools.push(tool)
    }
}

/// The wire forms of `tools`, in order.
pub open spec fn wire_tools(tools: Seq<ToolView>) -> Seq<JsonView> {
    tools.map_values(|t: ToolView| t.wire())
}

proof fn lemma_position(tools: Seq<ToolView>, name: Seq<char>)
    ensures
        -1 <= position_of(tools, name) < tools.len(),
        position_of(tools, name) >= 0 ==> tools[position_of(tools, name)].name == name,
        position_of(tools, name) < 0 ==> forall|i: int|
            0 <= i < tools.len() ==> (#[trigger] tools[i]).name != name,
        forall|i: int|
            position_of(tools, name) < i < tools.len() ==> (#[trigger] tools[i]).name != name,
    decreases tools.len(),
{
    if tools.len() > 0 {
        lemma_position(tools.drop_last(), name);
        if tools.last().name != name {
            assert forall|i: int| position_of(tools, name) < i < tools.len() implies (
            #[trigger] tools[i]).name != name by {
                if i < tools.len() - 1 {
                    assert(tools.drop_last()[i].name != name);
                }
            }
            if position_of(tools, name) < 0 {
                assert forall|i: int| 0 <= i < tools.len() implies (#[trigger] tools[i]).name
                    != name by {
                    if i < tools.len() - 1 {
                        assert(tools.drop_last()[i].name != name);
                    }
                }
            }
        }
    }
}

/// The tools of an agent, each under its own name, in the order in which their names were
/// first registered.
#[derive(Debug)]
pub struct ToolRegistry {
    tools: Vec<ToolDescriptor>,
}

impl View for ToolRegistry {
    type V = Seq<ToolView>;

    closed spec fn view(&self) -> Seq<ToolView> {
        tools_view(self.tools@)
    }
}

impl ToolRegistry {
    #[verifier::type_invariant]
    spec fn names_are_distinct(self) -> bool {
        names_differ(tools_view(self.tools@))
    }

    /// A registry without tools.
    pub fn new() -> (registry: ToolRegistry)
        ensures
            registry@ == Seq::<ToolView>::empty(),
    {
        let tools: Vec<ToolDescriptor> = Vec::new();
        proof {
            assert(tools_view(tools@) =~= Seq::<ToolView>::empty());
        }
        ToolRegistry { tools }
    }

    #[verifier::loop_isolation(false)]
    fn find(&self, name: &str) -> (at: Option<usize>)
        ensures
            match at {
                Some(i) => i == position_of(self@, name@) && i < self@.len(),
                None => position_of(self@, name@) < 0,
            },
    {
        proof {
            use_type_invariant(self);
            lemma_position(self@, name@);
        }
        let mut i: usize = 0;
        while i < self.tools.len()
            invariant
                i <= self.tools.len(),
                forall|k: int| 0 <= k < i ==> (#[trigger] tools_view(self.tools@)[k]).name != name@,
            decreases self.tools.len() - i,
        {
            if same_text(self.tools[i].name.as_str(), name) {
                proof {
                    let tools = tools_view(self.tools@);
                    let at = position_of(tools, name@);
                    assert(tools[i as int].name == name@);
                    assert(at >= i);
                    if at > i {
                        assert(tools[i as int].name != tools[at].name);
                    }
                }
                return Some(i);
            }
            i = i + 1;
        }
        None
    }

    /// Registers `tool` under its name; a tool registered before under that name is replaced.
    pub fn register(&mut self, tool: ToolDescriptor)
        ensures
            final(self)@ == registered(old(self)@, tool@),
            names_differ(final(self)@),
    {
        proof {
            use_type_invariant(&*self);
            lemma_position(self@, tool@.name);
        }
        let ghost before = tools_view(self.tools@);
        let at = self.find(tool.name.as_str());
        let mut tools: Vec<ToolDescriptor> = Vec::new();
        proof {
            assert(tools_view(tools@) =~= Seq::<ToolView>::empty());
        }
        std::mem::swap(&mut self.tools, &mut tools);
        match at {
            Some(i) => {
                proof {
                    assert(tools_view(tools@.update(i as int, tool)) =~= before.update(
                        i as int,
                        tool@,
                    ));
                    let after = before.update(i as int, tool@);
                    assert forall|a: int, b: int| 0 <= a < b < after.len() implies (
                    #[trigger] after[a]).name != (#[trigger] after[b]).name by {
                        assert(before[a].name != before[b].name);
                    }
                }
                tools.set(i, tool);
            },
            None => {
                proof {
                    assert(tools_view(tools@.push(tool)) =~= before.push(tool@));
                    let after = before.push(tool@);
                    assert forall|a: int, b: int| 0 <= a < b < after.len() implies (
                    #[trigger] after[a]).name != (#[trigger] after[b]).name by {
                        if b < before.len() {
                            assert(before[a].name != before[b].name);
                        } else {
                            assert(before[a].name != tool@.name);
                        }
                    }
                }
                tools.push(tool);
            },
        }
        self.tools = tools;
    }

    /// The tool registered under `name`.
    pub fn get(&self, name: &str) -> (tool: Option<&ToolDescriptor>)
        ensures
            match tool {
                Some(t) => position_of(self@, name@) >= 0 && t@ == self@[position_of(self@, name@)],
                None => position_of(self@, name@) < 0,
            },
    {
        match self.find(name) {
            Some(i) => Some(&self.tools[i]),
            None => None,
        }
    }

    /// The registered tools, in order.
    pub fn list(&self) -> (tools: &[ToolDescriptor])
        ensures
            tools_view(tools@) == self@,
            names_differ(self@),
    {
        proof {
            use_type_invariant(self);
        }
        self.tools.as_slice()
    }

    /// The registered tools in their wire form, one entry for each tool, in order.
    pub fn to_openai_tools(&self) -> (tools: Vec<Json>)
        ensures
            items_view(tools@) == wire_tools(self@),
    {
        let mut tools: Vec<Json> = Vec::new();
        let mut i: usize = 0;
        proof {
            assert(items_view(tools@) =~= wire_tools(self@.take(0)));
        }
        while i < self.tools.len()
            invariant
                i <= self.tools.len(),
                items_view(tools@) == wire_tools(self@.take(i as int)),
            decreases self.tools.len() - i,
        {
            let entry = self.tools[i].to_openai_tool();
            proof {
                lemma_items_view_push(tools@, entry);
                assert(wire_tools(self@.take(i as int)).push(entry@) =~= wire_tools(
                    self@.take(i + 1),
                ));
            }
            tools.push(entry);
            i = i + 1;
        }
        proof {
            assert(self@.take(self.tools.len() as int) =~= self@);
        }
        tools
    }
}

/// The tools that an agent may call.
#[derive(Debug)]
pub struct FunctionFactory {
    registry: ToolRegistry,
}

impl View for FunctionFactory {
    type V = Seq<ToolView>;

    closed spec fn view(&self) -> Seq<ToolView> {
        self.registry@
    }
}

impl FunctionFactory {
    /// A factory without tools.
    pub fn new() -> (factory: FunctionFactory)
        ensures
            factory@ == Seq::<ToolView>::empty(),
    {
        FunctionFactory { registry: ToolRegistry::new() }
    }

    /// Registers `tool` under its name; a tool registered before under that name is replaced.
    pub fn register_tool(&mut self, tool: ToolDescriptor)
        ensures
            final(self)@ == registered(old(self)@, tool@),
            names_differ(final(self)@),
    {
        self.registry.register(tool);
    }

    /// The registered tools in their wire form.
    pub fn get_openai_tools(&self) -> (tools: Vec<Json>)
        ensures
            items_view(tools@) == wire_tools(self@),
    {
        self.registry.to_openai_tools()
    }

    /// The registered tools, in order.
    pub fn tools(&self) -> (tools: &[ToolDescriptor])
        ensures
            tools_view(tools@) == self@,
    {
        self.registry.list()
    }

    /// Whether a tool is registered under `name`.
    pub fn has_function(&self, name: &str) -> (has: bool)
        ensures
            has == (position_of(self@, name@) >= 0),
    {
        self.registry.get(name).is_some()
    }

    /// The tool registered under `name`.
    pub fn get(&self, name: &str) -> (tool: Option<&ToolDescriptor>)
        ensures
            match tool {
                Some(t) => position_of(self@, name@) >= 0 && t@ == self@[position_of(self@, name@)],
                None => position_of(self@, name@) < 0,
            },
    {
        self.registry.get(name)
    }
}

impl Default for ToolRegistry {
    fn default() -> (registry: ToolRegistry)
        ensures
            registry@ == Seq::<ToolView>::empty(),
    {
        ToolRegistry::new()
    }
}

impl Default for FunctionFactory {
    fn default() -> (factory: FunctionFactory)
        ensures
            factory@ == Seq::<ToolView>::empty(),
    {
        FunctionFactory::new()
    }
}

/// Every entry of the wire list is a function tool that carries the name, the description and
/// the parameters of its tool: where the tool is well described, the entry has a name and a
/// description that are not empty and an object as its parameters.
pub proof fn lemma_wire_tools_are_function_tools(tools: Seq<ToolView>, i: int)
    requires
        0 <= i < tools.len(),
    ensures
        wire_tools(tools).len() == tools.len(),
        wire_tools(tools)[i].text_member("type"@) == Some("function"@),
        wire_tools(tools)[i].member("function"@) matches Some(f) && f.text_member("name"@) == Some(
            tools[i].name,
        ) && f.text_member("description"@) == Some(tools[i].description) && f.member(
            "parameters"@,
        ) == Some(tools[i].parameters),
        tools[i].well_described() ==> (wire_tools(tools)[i].member("function"@) matches Some(f)
            && f.text_member("name"@)->Some_0.len() > 0 && f.text_member(
            "description"@,
        )->Some_0.len() > 0 && f.member("parameters"@)->Some_0 is Object),
{
    reveal_strlit("type");
    reveal_strlit("function");
    reveal_strlit("name");
    reveal_strlit("description");
    reveal_strlit("parameters");
    assert("type"@.len() == 4 && "function"@.len() == 8 && "name"@.len() == 4);
    assert("description"@.len() == 11 && "parameters"@.len() == 10);
    assert("type"@ != "function"@);
    assert("name"@ != "description"@);
    assert("name"@ != "parameters"@);
    assert("description"@ != "parameters"@);
}

} // verus!
