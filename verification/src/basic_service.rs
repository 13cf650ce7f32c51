//! The service: what the server is called, and the tools, prompts and
//! resources that it offers, with the answer to each method of the
//! protocol that needs nothing from outside.

use vstd::prelude::*;
use vstd::string::*;
use crate::assoc::{find, put};
use crate::error::{Error, ErrorView};
use crate::json::members_view;
use crate::message::{
    views, CallToolParams, GetPromptParams, InitializeParams, InitializeResult,
    InitializeResultView, ListToolsResult, PromptDefinition, ResourceDefinition,
    ServerCapabilities,
};
use crate::protocol::latest_protocol_version;
use crate::registry::prompt::{
    prompt_definitions, string_members, Prompt, PromptCall, PromptRegistry,
};
use crate::registry::resource::{
    fixed_definitions, no_resource, resolve, template_definitions, FixedResourceUri, Resource,
    ResourceRegistry, TemplateResourceUri,
};
use crate::registry::tool::{arguments_or_empty, definitions, Tool, ToolCall, ToolRegistry};
use crate::subscription::{exhausted_error, Subscribed, Subscriptions};
use crate::text::{clone_opt, opt_view};

verus! {

/// What this server can do: it serves tools, prompts and resources, takes
/// subscriptions to resources, and never announces a change of its lists.
pub open spec fn capabilities() -> ServerCapabilities {
    ServerCapabilities {
        prompts_list_changed: false,
        resources_subscribe: true,
        resources_list_changed: false,
        tools_list_changed: false,
    }
}

/// A service with tool handlers of type `T`, prompt handlers of type `P`
/// and resource sources of type `S`.
pub struct BasicService<T, P, S> {
    name: String,
    version: String,
    instructions: Option<String>,
    tool_registry: ToolRegistry<T>,
    prompt_registry: PromptRegistry<P>,
    resource_registry: ResourceRegistry<S>,
}

/// A source that was found for a subscription, with the watcher to start
/// on it and the watcher to stop.
pub struct Subscription<'a, S> {
    pub source: &'a S,
    pub change: Subscribed,
}

impl<T, P, S> BasicService<T, P, S> {
    /// The name that the service announces.
    pub closed spec fn server_name(&self) -> Seq<char> {
        self.name@
    }

    /// The version that the service announces.
    pub closed spec fn server_version(&self) -> Seq<char> {
        self.version@
    }

    /// The instructions that the service announces, if it has any.
    pub closed spec fn server_instructions(&self) -> Option<Seq<char>> {
        opt_view(self.instructions)
    }

    /// The tools of the service.
    pub closed spec fn tools(&self) -> ToolRegistry<T> {
        self.tool_registry
    }

    /// The prompts of the service.
    pub closed spec fn prompts(&self) -> PromptRegistry<P> {
        self.prompt_registry
    }

    /// The resources of the service.
    pub closed spec fn resources(&self) -> ResourceRegistry<S> {
        self.resource_registry
    }

    /// The service's invariant: that of its three registries.
    pub open spec fn wf(&self) -> bool {
        &&& self.tools().wf()
        &&& self.prompts().wf()
        &&& self.resources().wf()
    }

    /// The result of `initialize`: the capabilities, the instructions if
    /// any were set, the protocol version that the server speaks, and the
    /// server's name and version.
    pub open spec fn initialize_result(&self) -> InitializeResultView {
        InitializeResultView {
            capabilities: capabilities(),
            instructions: self.server_instructions(),
            protocol_version: "2024-11-05"@,
            server_name: self.server_name(),
            server_version: self.server_version(),
        }
    }

    /// The service `unnamed`, version `0.1.0`, that offers nothing.
    pub fn new() -> (r: Self)
        ensures
            r.wf(),
            r.server_name() == "unnamed"@,
            r.server_version() == "0.1.0"@,
            r.server_instructions() is None,
            r.tools()@ == Seq::<(Seq<char>, Tool<T>)>::empty(),
            r.prompts()@ == Seq::<(Seq<char>, Prompt<P>)>::empty(),
            r.resources().fixed() == Seq::<(Seq<char>, Resource<S, FixedResourceUri>)>::empty(),
            r.resources().templates() == Seq::<Resource<S, TemplateResourceUri>>::empty(),
    {
        BasicService {
            name: "unnamed".to_owned(),
            version: "0.1.0".to_owned(),
            instructions: None,
            tool_registry: ToolRegistry::new(),
            prompt_registry: PromptRegistry::new(),
            resource_registry: ResourceRegistry::new(),
        }
    }

    /// The same service under another version.
    pub fn version(self, version: String) -> (r: Self)
        ensures
            r.server_version() == version@,
            r.server_name() == self.server_name(),
            r.server_instructions() == self.server_instructions(),
            r.tools() == self.tools(),
            r.prompts() == self.prompts(),
            r.resources() == self.resources(),
    {
        let mut this = self;
        this.version = version;
        this
    }

    /// The same service under another name.
    pub fn name(self, name: String) -> (r: Self)
        ensures
            r.server_name() == name@,
            r.server_version() == self.server_version(),
            r.server_instructions() == self.server_instructions(),
            r.tools() == self.tools(),
            r.prompts() == self.prompts(),
            r.resources() == self.resources(),
    {
        let mut this = self;
        this.name = name;
        this
    }

    /// The same service with instructions for its clients.
    pub fn instructions(self, instructions: String) -> (r: Self)
        ensures
            r.server_instructions() == Some(instructions@),
            r.server_name() == self.server_name(),
            r.server_version() == self.server_version(),
            r.tools() == self.tools(),
            r.prompts() == self.prompts(),
            r.resources() == self.resources(),
    {
        let mut this = self;
        this.instructions = Some(instructions);
        this
    }

    /// The tools of the service.
    pub fn tool_registry(&self) -> (r: &ToolRegistry<T>)
        ensures
            *r == self.tools(),
    {
        &self.tool_registry
    }

    /// The tools of the service, to change them.
    pub fn tool_registry_mut(&mut self) -> (r: &mut ToolRegistry<T>)
        ensures
            *r == old(self).tools(),
            final(self).tools() == *final(r),
            final(self).prompts() == old(self).prompts(),
            final(self).resources() == old(self).resources(),
            final(self).server_name() == old(self).server_name(),
            final(self).server_version() == old(self).server_version(),
            final(self).server_instructions() == old(self).server_instructions(),
    {
        &mut self.tool_registry
    }

    /// The prompts of the service.
    pub fn prompt_registry(&self) -> (r: &PromptRegistry<P>)
        ensures
            *r == self.prompts(),
    {
        &self.prompt_registry
    }

    /// The prompts of the service, to change them.
    pub fn prompt_registry_mut(&mut self) -> (r: &mut PromptRegistry<P>)
        ensures
            *r == old(self).prompts(),
            final(self).prompts() == *final(r),
            final(self).tools() == old(self).tools(),
            final(self).resources() == old(self).resources(),
            final(self).server_name() == old(self).server_name(),
            final(self).server_version() == old(self).server_version(),
            final(self).server_instructions() == old(self).server_instructions(),
    {
        &mut self.prompt_registry
    }

    /// The resources of the service.
    pub fn resource_registry(&self) -> (r: &ResourceRegistry<S>)
        ensures
            *r == self.resources(),
    {
        &self.resource_registry
    }

    /// The resources of the service, to change them.
    pub fn resource_registry_mut(&mut self) -> (r: &mut ResourceRegistry<S>)
        ensures
            *r == old(self).resources(),
            final(self).resources() == *final(r),
            final(self).tools() == old(self).tools(),
            final(self).prompts() == old(self).prompts(),
            final(self).server_name() == old(self).server_name(),
            final(self).server_version() == old(self).server_version(),
            final(self).server_instructions() == old(self).server_instructions(),
    {
        &mut self.resource_registry
    }

    /// The same service with `tool` registered.
    pub fn tool(self, tool: Tool<T>) -> (r: Self)
        requires
            self.wf(),
        ensures
            r.wf(),
            r.tools()@ == put(self.tools()@, tool@.name, tool),
            find(r.tools()@, tool@.name) == Some(tool),
            forall|other: Seq<char>|
                other != tool@.name ==> find(r.tools()@, other) == find(self.tools()@, other),
            r.server_name() == self.server_name(),
            r.server_version() == self.server_version(),
            r.server_instructions() == self.server_instructions(),
            r.prompts() == self.prompts(),
            r.resources() == self.resources(),
    {
        let mut this = self;
        this.tool_registry.register(tool);
        this
    }

    /// The same service with `prompt` registered.
    pub fn prompt(self, prompt: Prompt<P>) -> (r: Self)
        requires
            self.wf(),
        ensures
            r.wf(),
            r.prompts()@ == put(self.prompts()@, prompt@.name, prompt),
            find(r.prompts()@, prompt@.name) == Some(prompt),
            forall|other: Seq<char>|
                other != prompt@.name ==> find(r.prompts()@, other) == find(
                    self.prompts()@,
                    other,
                ),
            r.server_name() == self.server_name(),
            r.server_version() == self.server_version(),
            r.server_instructions() == self.server_instructions(),
            r.tools() == self.tools(),
            r.resources() == self.resources(),
    {
        let mut this = self;
        this.prompt_registry.register(prompt);
        this
    }

    /// The same service with `resource` registered under its address.
    pub fn fixed_resource(self, resource: Resource<S, FixedResourceUri>) -> (r: Self)
        requires
            self.wf(),
        ensures
            r.wf(),
            r.resources().fixed() == put(self.resources().fixed(), resource@.uri.0@, resource),
            r.resources().templates() == self.resources().templates(),
            find(r.resources().fixed(), resource@.uri.0@) == Some(resource),
            forall|other: Seq<char>|
                other != resource@.uri.0@ ==> find(r.resources().fixed(), other) == find(
                    self.resources().fixed(),
                    other,
                ),
            r.server_name() == self.server_name(),
            r.server_version() == self.server_version(),
            r.server_instructions() == self.server_instructions(),
            r.tools() == self.tools(),
            r.prompts() == self.prompts(),
    {
        let mut this = self;
        this.resource_registry.register_fixed(resource);
        this
    }

    /// The same service with the family `resource` registered after the
    /// families that it has.
    pub fn template_resource(self, resource: Resource<S, TemplateResourceUri>) -> (r: Self)
        requires
            self.wf(),
        ensures
            r.wf(),
            r.resources().fixed() == self.resources().fixed(),
            r.resources().templates() == self.resources().templates().push(resource),
            r.server_name() == self.server_name(),
            r.server_version() == self.server_version(),
            r.server_instructions() == self.server_instructions(),
            r.tools() == self.tools(),
            r.prompts() == self.prompts(),
    {
        let mut this = self;
        this.resource_registry.register_template(resource);
        this
    }

    /// Answers `initialize`. What the client claims of itself is not
    /// looked at.
    pub fn init(&self, request: &InitializeParams) -> (r: InitializeResult)
        ensures
            r@ == self.initialize_result(),
    {
        InitializeResult {
            capabilities: ServerCapabilities {
                prompts_list_changed: false,
                resources_subscribe: true,
                resources_list_changed: false,
                tools_list_changed: false,
            },
            instructions: clone_opt(&self.instructions),
            protocol_version: latest_protocol_version().to_owned(),
            server_name: self.name.clone(),
            server_version: self.version.clone(),
        }
    }

    /// Answers `listResources`: the resources at a fixed address.
    pub fn list_resources(&self) -> (r: Vec<ResourceDefinition>)
        ensures
            views(r@) == fixed_definitions(self.resources().fixed()),
    {
        self.resource_registry.list_resources()
    }

    /// Answers `listResourceTemplates`: the families.
    pub fn list_resource_templates(&self) -> (r: Vec<ResourceDefinition>)
        ensures
            views(r@) == template_definitions(self.resources().templates()),
    {
        self.resource_registry.list_resource_templates()
    }

    /// Answers `listPrompts`.
    pub fn list_prompts(&self) -> (r: Vec<PromptDefinition>)
        ensures
            views(r@) == prompt_definitions(self.prompts()@),
    {
        self.prompt_registry.list_prompts()
    }

    /// Answers `listTools`.
    pub fn list_tools(&self) -> (r: ListToolsResult)
        ensures
            views(r.tools@) == definitions(self.tools()@),
    {
        self.tool_registry.list_tools()
    }

    /// The source to read `uri` from, or the error 404.
    pub fn read_resource(&self, uri: &str) -> (r: Result<&S, Error>)
        requires
            self.wf(),
        ensures
            match r {
                Ok(source) => resolve(
                    self.resources().fixed(),
                    self.resources().templates(),
                    uri@,
                ) == Some(*source),
                Err(e) => resolve(self.resources().fixed(), self.resources().templates(), uri@)
                    is None && e@ == no_resource(uri@),
            },
    {
        self.resource_registry.read_resource(uri)
    }

    /// The prompt to render for `request`, with its arguments, or the
    /// error 404.
    pub fn get_prompt(&self, request: GetPromptParams) -> (r: Result<PromptCall<'_, P>, Error>)
        requires
            self.wf(),
        ensures
            match r {
                Ok(call) => find(self.prompts()@, request@.name) == Some(*call.prompt)
                    && members_view(call.arguments@) == string_members(request@.arguments),
                Err(e) => find(self.prompts()@, request@.name) is None && e@
                    == Error::not_found_view("Prompt"@, request@.name),
            },
    {
        self.prompt_registry.get_prompt(request)
    }

    /// The tool to run for `request`, with its arguments, or the error 404.
    pub fn call_tool(&self, request: CallToolParams) -> (r: Result<ToolCall<'_, T>, Error>)
        requires
            self.wf(),
        ensures
            match r {
                Ok(call) => find(self.tools()@, request@.name) == Some(*call.tool)
                    && members_view(call.arguments@) == arguments_or_empty(request@.arguments),
                Err(e) => find(self.tools()@, request@.name) is None && e@
                    == Error::not_found_view("Tool"@, request@.name),
            },
    {
        self.tool_registry.call_tool(request)
    }

    /// Answers `setLevel`: the error 501, as log levels are not
    /// implemented.
    pub fn set_level(&self) -> (r: Error)
        ensures
            r@ == (ErrorView { message: "not implemented"@, code: 501 }),
    {
        Error::not_implemented()
    }

    /// What becomes of `table` when `uri` is subscribed, and what comes
    /// back: with no source for the address the error 404 and the table as
    /// it was; else what the table itself says.
    pub open spec fn subscribed(
        &self,
        table: Subscriptions,
        uri: Seq<char>,
        after: Subscriptions,
        r: Result<Subscription<'_, S>, Error>,
    ) -> bool {
        match resolve(self.resources().fixed(), self.resources().templates(), uri) {
            None => r is Err && r->Err_0@ == no_resource(uri) && after@ == table@
                && after.next_watcher() == table.next_watcher(),
            Some(source) => if table.exhausted() {
                r is Err && r->Err_0@ == exhausted_error() && after@ == table@
                    && after.next_watcher() == table.next_watcher()
            } else {
                &&& r is Ok
                &&& *r->Ok_0.source == source
                &&& r->Ok_0.change.watcher == table.next_watcher()
                &&& r->Ok_0.change.replaced == find(table@, uri)
                &&& after@ == put(table@, uri, table.next_watcher())
                &&& find(after@, uri) == Some(table.next_watcher())
                &&& after.next_watcher() == table.next_watcher() + 1
            },
        }
    }

    /// Subscribes `uri`. The address has to have a source; it then gets a
    /// new watcher in `table`, in place of the one that it had.
    pub fn subscribe(&self, table: &mut Subscriptions, uri: &str) -> (r: Result<
        Subscription<'_, S>,
        Error,
    >)
        requires
            self.wf(),
            old(table).wf(),
        ensures
            final(table).wf(),
            self.subscribed(*old(table), uri@, *final(table), r),
    {
        let source = match self.resource_registry.get_source(uri) {
            Ok(source) => source,
            Err(e) => {
                return Err(e);
            },
        };
        match table.subscribe(uri) {
            Ok(change) => Ok(Subscription { source, change }),
            Err(e) => Err(e),
        }
    }

    /// Ends the subscription of `uri` in `table` and returns the watcher to
    /// stop. An address that is not subscribed is no error and changes
    /// nothing.
    pub fn unsubscribe(&self, table: &mut Subscriptions, uri: &str) -> (r: Option<u64>)
        requires
            old(table).wf(),
        ensures
            final(table).wf(),
            r == find(old(table)@, uri@),
            final(table)@ == crate::assoc::remove(old(table)@, uri@),
            final(table).next_watcher() == old(table).next_watcher(),
            r is None ==> final(table)@ == old(table)@,
    {
        table.unsubscribe(uri)
    }
}

impl<T, P, S> Default for BasicService<T, P, S> {
    fn default() -> (r: Self)
        ensures
            r.wf(),
            r.server_name() == "unnamed"@,
            r.server_version() == "0.1.0"@,
            r.server_instructions() is None,
            r.tools()@ == Seq::<(Seq<char>, Tool<T>)>::empty(),
            r.prompts()@ == Seq::<(Seq<char>, Prompt<P>)>::empty(),
            r.resources().fixed() == Seq::<(Seq<char>, Resource<S, FixedResourceUri>)>::empty(),
            r.resources().templates() == Seq::<Resource<S, TemplateResourceUri>>::empty(),
    {
        BasicService::new()
    }
}

} // verus!
