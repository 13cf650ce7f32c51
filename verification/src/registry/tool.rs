//! Tools: named operations that a client can call.

use vstd::prelude::*;
use vstd::string::*;
use crate::assoc::{distinct, find, lemma_put, put};
use crate::error::{Error, ErrorView};
use crate::json::{members_view, Json, JsonView};
use crate::message::{
    views, CallToolParams, CallToolResult, CallToolResultView, Content, ListToolsResult,
    ToolDefinition, ToolDefinitionView,
};
use crate::registry::HandlerRegistry;
use crate::text::{clone_opt, opt_view};

verus! {

/// A tool: its name, what it is for, the JSON Schema of its input, and the
/// handler that does the work. The handler is the caller's; the crate
/// stores it and hands it back for a call.
pub struct Tool<H> {
    name: String,
    description: Option<String>,
    schema: Json,
    handler: H,
}

/// What a [`Tool`] holds.
pub struct ToolView<H> {
    pub name: Seq<char>,
    pub description: Option<Seq<char>>,
    pub schema: JsonView,
    pub handler: H,
}

impl<H> View for Tool<H> {
    type V = ToolView<H>;

    closed spec fn view(&self) -> ToolView<H> {
        ToolView {
            name: self.name@,
            description: opt_view(self.description),
            schema: self.schema@,
            handler: self.handler,
        }
    }
}

/// A tool as a listing shows it.
pub open spec fn definition_of<H>(tool: ToolView<H>) -> ToolDefinitionView {
    ToolDefinitionView {
        name: tool.name,
        description: tool.description,
        input_schema: tool.schema,
    }
}

/// The result of a call whose handler returned `content`: the content as
/// it is, and no error.
pub open spec fn call_result(content: Seq<Content>) -> CallToolResultView {
    CallToolResultView { content: views(content), is_error: false }
}

impl<H> Tool<H> {
    /// A builder with nothing set.
    pub fn builder() -> (r: ToolBuilder<H>)
        ensures
            r@ == ToolBuilderView::<H>::empty(),
    {
        ToolBuilder::new()
    }

    /// The tool's name.
    pub fn name(&self) -> (r: &String)
        ensures
            r@ == self@.name,
    {
        &self.name
    }

    /// The tool's description, if it has one.
    pub fn description(&self) -> (r: &Option<String>)
        ensures
            opt_view(*r) == self@.description,
    {
        &self.description
    }

    /// The tool's JSON Schema of its handler's input.
    pub fn schema(&self) -> (r: &Json)
        ensures
            r@ == self@.schema,
    {
        &self.schema
    }

    /// The tool's handler.
    pub fn handler(&self) -> (r: &H)
        ensures
            *r == self@.handler,
    {
        &self.handler
    }

    /// The tool as a listing shows it.
    pub fn definition(&self) -> (r: ToolDefinition)
        ensures
            r@ == definition_of(self@),
    {
        ToolDefinition {
            name: self.name.clone(),
            description: clone_opt(&self.description),
            input_schema: self.schema.duplicate(),
        }
    }

    /// Wraps what the tool's handler returned into the result of the call:
    /// the content in its order, and no error.
    pub fn run(&self, content: Vec<Content>) -> (r: CallToolResult)
        ensures
            r@ == call_result(content@),
    {
        CallToolResult { content, is_error: false }
    }
}

/// Collects the fields of a [`Tool`].
pub struct ToolBuilder<H> {
    name: Option<String>,
    description: Option<String>,
    schema: Option<Json>,
    handler: Option<H>,
}

/// What a [`ToolBuilder`] has been given so far.
pub struct ToolBuilderView<H> {
    pub name: Option<Seq<char>>,
    pub description: Option<Seq<char>>,
    pub schema: Option<JsonView>,
    pub handler: Option<H>,
}

impl<H> ToolBuilderView<H> {
    /// What a builder holds when nothing is set.
    pub open spec fn empty() -> Self {
        ToolBuilderView { name: None, description: None, schema: None, handler: None }
    }

    /// What `build` returns: the tool, or the first field that is missing,
    /// in the order name, schema, handler.
    pub open spec fn built(self) -> Result<ToolView<H>, ErrorView> {
        if self.name is None {
            Err(ErrorView { message: "missing name"@, code: 500 })
        } else if self.schema is None {
            Err(ErrorView { message: "missing handler input schema"@, code: 500 })
        } else if self.handler is None {
            Err(ErrorView { message: "missing handler"@, code: 500 })
        } else {
            Ok(
                ToolView {
                    name: self.name->0,
                    description: self.description,
                    schema: self.schema->0,
                    handler: self.handler->0,
                },
            )
        }
    }
}

impl<H> View for ToolBuilder<H> {
    type V = ToolBuilderView<H>;

    closed spec fn view(&self) -> ToolBuilderView<H> {
        ToolBuilderView {
            name: opt_view(self.name),
            description: opt_view(self.description),
            schema: match self.schema {
                Some(s) => Some(s@),
                None => None,
            },
            handler: self.handler,
        }
    }
}

impl<H> ToolBuilder<H> {
    /// A builder with nothing set.
    pub fn new() -> (r: Self)
        ensures
            r@ == ToolBuilderView::<H>::empty(),
    {
        ToolBuilder { name: None, description: None, schema: None, handler: None }
    }

    /// Sets the name.
    pub fn name(self, name: &str) -> (r: Self)
        ensures
            r@ == (ToolBuilderView { name: Some(name@), ..self@ }),
    {
        let mut this = self;
        this.name = Some(name.to_owned());
        this
    }

    /// Sets the description.
    pub fn description(self, description: &str) -> (r: Self)
        ensures
            r@ == (ToolBuilderView { description: Some(description@), ..self@ }),
    {
        let mut this = self;
        this.description = Some(description.to_owned());
        this
    }

    /// Sets the handler together with the JSON Schema of its input.
    pub fn handler(self, schema: Json, handler: H) -> (r: Self)
        ensures
            r@ == (ToolBuilderView { schema: Some(schema@), handler: Some(handler), ..self@ }),
    {
        let mut this = self;
        this.schema = Some(schema);
        this.handler = Some(handler);
        this
    }

    /// Builds the tool. Fails with the code 500 where the name, the schema
    /// or the handler was not set.
    pub fn build(self) -> (r: Result<Tool<H>, Error>)
        ensures
            match r {
                Ok(tool) => self@.built() == Ok::<ToolView<H>, ErrorView>(tool@),
                Err(e) => self@.built() == Err::<ToolView<H>, ErrorView>(e@),
            },
    {
        let name = match self.name {
            Some(name) => name,
            None => {
                return Err(Error::construction("missing name"));
            },
        };
        let schema = match self.schema {
            Some(schema) => schema,
            None => {
                return Err(Error::construction("missing handler input schema"));
            },
        };
        let handler = match self.handler {
            Some(handler) => handler,
            None => {
                return Err(Error::construction("missing handler"));
            },
        };
        Ok(Tool { name, description: self.description, schema, handler })
    }
}

impl<H> Default for ToolBuilder<H> {
    fn default() -> (r: Self)
        ensures
            r@ == ToolBuilderView::<H>::empty(),
    {
        ToolBuilder::new()
    }
}

/// A tool that was found for a call, with the arguments to hand to its
/// handler.
pub struct ToolCall<'a, H> {
    pub tool: &'a Tool<H>,
    pub arguments: Vec<(String, Json)>,
}

/// The members of the arguments of a call: those of the request, or none
/// where the request has no arguments.
pub open spec fn arguments_or_empty(arguments: Option<Seq<(Seq<char>, JsonView)>>) -> Seq<
    (Seq<char>, JsonView),
> {
    match arguments {
        Some(members) => members,
        None => Seq::empty(),
    }
}

/// The tools of a server, each under its name, in the order in which the
/// names were first registered.
pub struct ToolRegistry<H> {
    registry: HandlerRegistry<Tool<H>>,
}

impl<H> View for ToolRegistry<H> {
    type V = Seq<(Seq<char>, Tool<H>)>;

    closed spec fn view(&self) -> Seq<(Seq<char>, Tool<H>)> {
        self.registry@
    }
}

/// The listing of the tools `tools`.
pub open spec fn definitions<H>(tools: Seq<(Seq<char>, Tool<H>)>) -> Seq<ToolDefinitionView> {
    Seq::new(tools.len(), |i: int| definition_of(tools[i].1@))
}

impl<H> ToolRegistry<H> {
    /// The registry's invariant: no name occurs twice, and every tool
    /// stands under its own name.
    pub open spec fn wf(&self) -> bool {
        &&& distinct(self@)
        &&& forall|i: int| 0 <= i < self@.len() ==> (#[trigger] self@[i]).0 == self@[i].1@.name
    }

    /// The empty registry.
    pub fn new() -> (r: Self)
        ensures
            r.wf(),
            r@ == Seq::<(Seq<char>, Tool<H>)>::empty(),
    {
        ToolRegistry { registry: HandlerRegistry::new() }
    }

    /// Registers `tool` under its name. A tool that stood under that name is
    /// replaced and keeps its place.
    pub fn register(&mut self, tool: Tool<H>)
        requires
            old(self).wf(),
        ensures
            final(self).wf(),
            final(self)@ == put(old(self)@, tool@.name, tool),
            find(final(self)@, tool@.name) == Some(tool),
            forall|other: Seq<char>|
                other != tool@.name ==> find(final(self)@, other) == find(old(self)@, other),
    {
        proof {
            lemma_put(self@, tool@.name, tool);
            let after = put(self@, tool@.name, tool);
            assert forall|i: int| 0 <= i < after.len() implies (#[trigger] after[i]).0
                == after[i].1@.name by {
                if i < self@.len() && after[i] == self@[i] {
                    assert(self@[i].0 == self@[i].1@.name);
                }
            }
        }
        let name = tool.name.clone();
        self.registry.register(name, tool);
    }

    /// Finds the tool that `request` names and settles the arguments of the
    /// call: those of the request, or the empty object. An unknown name
    /// gives the error 404 with the message `Tool '<name>' not found`.
    pub fn call_tool(&self, request: CallToolParams) -> (r: Result<ToolCall<'_, H>, Error>)
        requires
            self.wf(),
        ensures
            match r {
                Ok(call) => find(self@, request@.name) == Some(*call.tool) && members_view(
                    call.arguments@,
                ) == arguments_or_empty(request@.arguments),
                Err(e) => find(self@, request@.name) is None && e@ == Error::not_found_view(
                    "Tool"@,
                    request@.name,
                ),
            },
    {
        match self.registry.get(request.name.as_str()) {
            Some(tool) => {
                let arguments = match request.arguments {
                    Some(members) => members,
                    None => {
                        let none: Vec<(String, Json)> = Vec::new();
                        assert(members_view(none@) =~= Seq::empty());
                        none
                    },
                };
                Ok(ToolCall { tool, arguments })
            },
            None => Err(Error::not_found("Tool", request.name.as_str())),
        }
    }

    /// Every name with its tool, in the registry's order.
    pub fn tools_iter(&self) -> (r: Vec<(&String, &Tool<H>)>)
        ensures
            r.len() == self@.len(),
            forall|i: int|
                0 <= i < r.len() ==> (#[trigger] r[i]).0@ == self@[i].0 && *r[i].1 == self@[i].1,
    {
        self.registry.handlers_iter()
    }

    /// The listing of the registry: one entry for each registered name, in
    /// the registry's order.
    pub fn list_tools(&self) -> (r: ListToolsResult)
        ensures
            views(r.tools@) == definitions(self@),
    {
        let entries = self.registry.handlers_iter();
        let mut tools: Vec<ToolDefinition> = Vec::new();
        let mut i: usize = 0;
        while i < entries.len()
            invariant
                0 <= i <= entries.len(),
                entries.len() == self@.len(),
                tools.len() == i,
                forall|k: int| 0 <= k < entries.len() ==> *(#[trigger] entries[k]).1 == self@[k].1,
                forall|k: int| 0 <= k < i ==> (#[trigger] tools[k])@ == definition_of(self@[k].1@),
            decreases entries.len() - i,
        {
            tools.push(entries[i].1.definition());
            i += 1;
        }
        assert(views(tools@) =~= definitions(self@));
        ListToolsResult { tools }
    }
}

impl<H> Default for ToolRegistry<H> {
    fn default() -> (r: Self)
        ensures
            r.wf(),
            r@ == Seq::<(Seq<char>, Tool<H>)>::empty(),
    {
        ToolRegistry::new()
    }
}


/// The listing holds exactly the tools that were registered, one entry for
/// each name: after a tool is registered, the names of the listing are
/// those of before and the tool's, no name is listed twice, the entry
/// under the tool's name shows that tool, and every other entry shows what
/// it showed before.
pub proof fn lemma_listing_after_register<H>(registry: ToolRegistry<H>, tool: Tool<H>)
    requires
        registry.wf(),
    ensures
        ({
            let after = put(registry@, tool@.name, tool);
            let listed = definitions(after);
            &&& listed.len() == after.len()
            &&& forall|i: int| 0 <= i < listed.len() ==> (#[trigger] listed[i]).name == after[i].0
            &&& forall|i: int, j: int|
                0 <= i < j < listed.len() ==> (#[trigger] listed[i]).name != (
                #[trigger] listed[j]).name
            &&& forall|name: Seq<char>|
                crate::assoc::has_key(after, name) <==> (crate::assoc::has_key(registry@, name)
                    || name == tool@.name)
            &&& find(after, tool@.name) == Some(tool)
            &&& forall|name: Seq<char>| name != tool@.name ==> find(after, name) == find(
                registry@,
                name,
            )
        }),
{
    let before = registry@;
    let after = put(before, tool@.name, tool);
    let listed = definitions(after);
    lemma_put(before, tool@.name, tool);
    assert forall|i: int| 0 <= i < after.len() implies (#[trigger] after[i]).0
        == after[i].1@.name by {
        if i < before.len() && after[i] == before[i] {
            assert(before[i].0 == before[i].1@.name);
        }
    }
    assert forall|i: int| 0 <= i < listed.len() implies (#[trigger] listed[i]).name
        == after[i].0 by {}
    assert forall|i: int, j: int| 0 <= i < j < listed.len() implies (#[trigger] listed[i]).name
        != (#[trigger] listed[j]).name by {
        assert(after[i].0 != after[j].0);
    }
    assert forall|name: Seq<char>|
        crate::assoc::has_key(after, name) <==> (crate::assoc::has_key(before, name) || name
            == tool@.name) by {
        assert(crate::assoc::key_set(after).contains(name) == crate::assoc::key_set(
            before,
        ).insert(tool@.name).contains(name));
    }
}

} // verus!
