//! The data that travels in requests and results.

use vstd::prelude::*;
use vstd::string::*;
use crate::json::{members_view, opt_json_view, Json, JsonView};
use crate::text::opt_view;

verus! {

/// The views of a sequence of values.
pub open spec fn views<T: View>(s: Seq<T>) -> Seq<T::V> {
    Seq::new(s.len(), |i: int| s[i]@)
}

/// The parameters of `initialize`.
#[derive(Debug, Clone, PartialEq)]
pub struct InitializeParams {
    /// The protocol version that the client asks for.
    pub protocol_version: String,
}

/// Plain text.
#[derive(Debug, Clone, PartialEq)]
pub struct TextContent {
    pub text: String,
}

/// An image, by its address and media type.
#[derive(Debug, Clone, PartialEq)]
pub struct ImageContent {
    pub url: String,
    pub mime_type: String,
}

/// Any other resource, by its address.
#[derive(Debug, Clone, PartialEq)]
pub struct ResourceContent {
    pub url: String,
    pub mime_type: Option<String>,
}

/// One item of what a tool or a prompt hands back.
#[derive(Debug, Clone, PartialEq)]
pub enum Content {
    Text(TextContent),
    Image(ImageContent),
    Resource(ResourceContent),
}

/// What a [`Content`] holds.
#[allow(inconsistent_fields)]
pub enum ContentView {
    Text { text: Seq<char> },
    Image { url: Seq<char>, mime_type: Seq<char> },
    Resource { url: Seq<char>, mime_type: Option<Seq<char>> },
}

impl View for Content {
    type V = ContentView;

    open spec fn view(&self) -> ContentView {
        match self {
            Content::Text(t) => ContentView::Text { text: t.text@ },
            Content::Image(i) => ContentView::Image { url: i.url@, mime_type: i.mime_type@ },
            Content::Resource(r) => ContentView::Resource {
                url: r.url@,
                mime_type: opt_view(r.mime_type),
            },
        }
    }
}

/// A text item.
pub fn text_content(text: &str) -> (r: Content)
    ensures
        r@ == (ContentView::Text { text: text@ }),
{
    Content::Text(TextContent { text: text.to_owned() })
}

/// An image item.
pub fn image_content(url: &str, mime_type: &str) -> (r: Content)
    ensures
        r@ == (ContentView::Image { url: url@, mime_type: mime_type@ }),
{
    Content::Image(ImageContent { url: url.to_owned(), mime_type: mime_type.to_owned() })
}

/// A resource item.
pub fn resource_content(url: &str, mime_type: Option<String>) -> (r: Content)
    ensures
        r@ == (ContentView::Resource { url: url@, mime_type: opt_view(mime_type) }),
{
    Content::Resource(ResourceContent { url: url.to_owned(), mime_type })
}

/// The result of `callTool`.
#[derive(Debug, Clone, PartialEq)]
pub struct CallToolResult {
    /// What the tool returned, in its order.
    pub content: Vec<Content>,
    /// Whether the tool itself reports a failure.
    pub is_error: bool,
}

/// What a [`CallToolResult`] holds.
pub struct CallToolResultView {
    pub content: Seq<ContentView>,
    pub is_error: bool,
}

impl View for CallToolResult {
    type V = CallToolResultView;

    open spec fn view(&self) -> CallToolResultView {
        CallToolResultView { content: views(self.content@), is_error: self.is_error }
    }
}

/// The parameters of `callTool`.
#[derive(Debug, Clone, PartialEq)]
pub struct CallToolParams {
    pub name: String,
    /// The members of the arguments object, if the request has one.
    pub arguments: Option<Vec<(String, Json)>>,
}

/// What a [`CallToolParams`] holds.
pub struct CallToolParamsView {
    pub name: Seq<char>,
    pub arguments: Option<Seq<(Seq<char>, JsonView)>>,
}

impl View for CallToolParams {
    type V = CallToolParamsView;

    open spec fn view(&self) -> CallToolParamsView {
        CallToolParamsView {
            name: self.name@,
            arguments: match self.arguments {
                Some(members) => Some(members_view(members@)),
                None => None,
            },
        }
    }
}

/// The parameters of `getPrompt`.
#[derive(Debug, Clone, PartialEq)]
pub struct GetPromptParams {
    pub name: String,
    /// The arguments by name, if the request has any.
    pub arguments: Option<Vec<(String, String)>>,
}

/// The characters of a sequence of pairs of strings.
pub open spec fn pairs_view(pairs: Seq<(String, String)>) -> Seq<(Seq<char>, Seq<char>)> {
    Seq::new(pairs.len(), |i: int| (pairs[i].0@, pairs[i].1@))
}

/// What a [`GetPromptParams`] holds.
pub struct GetPromptParamsView {
    pub name: Seq<char>,
    pub arguments: Option<Seq<(Seq<char>, Seq<char>)>>,
}

impl View for GetPromptParams {
    type V = GetPromptParamsView;

    open spec fn view(&self) -> GetPromptParamsView {
        GetPromptParamsView {
            name: self.name@,
            arguments: match self.arguments {
                Some(pairs) => Some(pairs_view(pairs@)),
                None => None,
            },
        }
    }
}

/// A tool as `listTools` shows it.
#[derive(Debug, Clone, PartialEq)]
pub struct ToolDefinition {
    pub name: String,
    pub description: Option<String>,
    /// The JSON Schema of the tool's input.
    pub input_schema: Json,
}

/// What a [`ToolDefinition`] holds.
pub struct ToolDefinitionView {
    pub name: Seq<char>,
    pub description: Option<Seq<char>>,
    pub input_schema: JsonView,
}

impl View for ToolDefinition {
    type V = ToolDefinitionView;

    open spec fn view(&self) -> ToolDefinitionView {
        ToolDefinitionView {
            name: self.name@,
            description: opt_view(self.description),
            input_schema: self.input_schema@,
        }
    }
}

/// The result of `listTools`.
#[derive(Debug, Clone, PartialEq)]
pub struct ListToolsResult {
    pub tools: Vec<ToolDefinition>,
}

/// The detail of a JSON-RPC error.
#[derive(Debug, Clone, PartialEq)]
pub struct ErrorData {
    pub code: i32,
    pub message: String,
    pub data: Option<Json>,
}

/// Who speaks a prompt message.
#[derive(Debug, Clone, Copy, PartialEq, Eq)]
pub enum Role {
    User,
    Assistant,
}

/// One message of a rendered prompt.
#[derive(Debug, Clone, PartialEq)]
pub struct PromptMessage {
    pub role: Role,
    pub content: Content,
}

/// What a [`PromptMessage`] holds.
pub struct PromptMessageView {
    pub role: Role,
    pub content: ContentView,
}

impl View for PromptMessage {
    type V = PromptMessageView;

    open spec fn view(&self) -> PromptMessageView {
        PromptMessageView { role: self.role, content: self.content@ }
    }
}

/// The result of `getPrompt`.
#[derive(Debug, Clone, PartialEq)]
pub struct GetPromptResult {
    pub description: Option<String>,
    pub messages: Vec<PromptMessage>,
}

/// What a [`GetPromptResult`] holds.
pub struct GetPromptResultView {
    pub description: Option<Seq<char>>,
    pub messages: Seq<PromptMessageView>,
}

impl View for GetPromptResult {
    type V = GetPromptResultView;

    open spec fn view(&self) -> GetPromptResultView {
        GetPromptResultView {
            description: opt_view(self.description),
            messages: views(self.messages@),
        }
    }
}

/// One argument of a prompt.
#[derive(Debug, Clone, PartialEq)]
pub struct PromptArgument {
    pub name: String,
    pub description: Option<String>,
    pub required: bool,
}

/// What a [`PromptArgument`] holds.
pub struct PromptArgumentView {
    pub name: Seq<char>,
    pub description: Option<Seq<char>>,
    pub required: bool,
}

impl View for PromptArgument {
    type V = PromptArgumentView;

    open spec fn view(&self) -> PromptArgumentView {
        PromptArgumentView {
            name: self.name@,
            description: opt_view(self.description),
            required: self.required,
        }
    }
}

/// A prompt as `listPrompts` shows it.
#[derive(Debug, Clone, PartialEq)]
pub struct PromptDefinition {
    pub name: String,
    pub description: Option<String>,
    pub arguments: Vec<PromptArgument>,
}

/// What a [`PromptDefinition`] holds.
pub struct PromptDefinitionView {
    pub name: Seq<char>,
    pub description: Option<Seq<char>>,
    pub arguments: Seq<PromptArgumentView>,
}

impl View for PromptDefinition {
    type V = PromptDefinitionView;

    open spec fn view(&self) -> PromptDefinitionView {
        PromptDefinitionView {
            name: self.name@,
            description: opt_view(self.description),
            arguments: views(self.arguments@),
        }
    }
}

/// A resource, or a family of resources, as the listings show it. `uri` is
/// the address of a fixed resource and the template of a family.
#[derive(Debug, Clone, PartialEq)]
pub struct ResourceDefinition {
    pub uri: String,
    pub name: String,
    pub description: Option<String>,
    pub mime_type: Option<String>,
    /// Whom the resource is meant for and how much it matters, as a JSON
    /// document that is passed on as it is.
    pub annotations: Option<Json>,
}

/// What a [`ResourceDefinition`] holds.
pub struct ResourceDefinitionView {
    pub uri: Seq<char>,
    pub name: Seq<char>,
    pub description: Option<Seq<char>>,
    pub mime_type: Option<Seq<char>>,
    pub annotations: Option<JsonView>,
}

impl View for ResourceDefinition {
    type V = ResourceDefinitionView;

    open spec fn view(&self) -> ResourceDefinitionView {
        ResourceDefinitionView {
            uri: self.uri@,
            name: self.name@,
            description: opt_view(self.description),
            mime_type: opt_view(self.mime_type),
            annotations: opt_json_view(self.annotations),
        }
    }
}

/// What reading a resource yields: text, or binary data in base 64.
#[derive(Debug, Clone, PartialEq)]
pub enum ResourceContents {
    Text { uri: String, mime_type: Option<String>, text: String },
    Blob { uri: String, mime_type: Option<String>, blob: String },
}

/// What a [`ResourceContents`] holds.
pub enum ResourceContentsView {
    Text { uri: Seq<char>, mime_type: Option<Seq<char>>, text: Seq<char> },
    Blob { uri: Seq<char>, mime_type: Option<Seq<char>>, blob: Seq<char> },
}

impl View for ResourceContents {
    type V = ResourceContentsView;

    open spec fn view(&self) -> ResourceContentsView {
        match self {
            ResourceContents::Text { uri, mime_type, text } => ResourceContentsView::Text {
                uri: uri@,
                mime_type: opt_view(*mime_type),
                text: text@,
            },
            ResourceContents::Blob { uri, mime_type, blob } => ResourceContentsView::Blob {
                uri: uri@,
                mime_type: opt_view(*mime_type),
                blob: blob@,
            },
        }
    }
}

/// What the server can do, as `initialize` announces it.
#[derive(Debug, Clone, Copy, PartialEq, Eq)]
pub struct ServerCapabilities {
    pub prompts_list_changed: bool,
    pub resources_subscribe: bool,
    pub resources_list_changed: bool,
    pub tools_list_changed: bool,
}

/// The result of `initialize`.
#[derive(Debug, Clone, PartialEq)]
pub struct InitializeResult {
    pub capabilities: ServerCapabilities,
    pub instructions: Option<String>,
    pub protocol_version: String,
    pub server_name: String,
    pub server_version: String,
}

/// What a [`InitializeResult`] holds.
pub struct InitializeResultView {
    pub capabilities: ServerCapabilities,
    pub instructions: Option<Seq<char>>,
    pub protocol_version: Seq<char>,
    pub server_name: Seq<char>,
    pub server_version: Seq<char>,
}

impl View for InitializeResult {
    type V = InitializeResultView;

    open spec fn view(&self) -> InitializeResultView {
        InitializeResultView {
            capabilities: self.capabilities,
            instructions: opt_view(self.instructions),
            protocol_version: self.protocol_version@,
            server_name: self.server_name@,
            server_version: self.server_version@,
        }
    }
}

/// The result of a request, by the method that was asked.
#[derive(Debug, Clone, PartialEq)]
pub enum ServerResult {
    Empty,
    Initialize(InitializeResult),
    ListResources(Vec<ResourceDefinition>),
    ListResourceTemplates(Vec<ResourceDefinition>),
    ReadResource(Vec<ResourceContents>),
    ListPrompts(Vec<PromptDefinition>),
    GetPrompt(GetPromptResult),
    CallTool(CallToolResult),
    ListTools(ListToolsResult),
}

/// What a [`ServerResult`] holds.
pub enum ServerResultView {
    Empty,
    Initialize(InitializeResultView),
    ListResources(Seq<ResourceDefinitionView>),
    ListResourceTemplates(Seq<ResourceDefinitionView>),
    ReadResource(Seq<ResourceContentsView>),
    ListPrompts(Seq<PromptDefinitionView>),
    GetPrompt(GetPromptResultView),
    CallTool(CallToolResultView),
    ListTools(Seq<ToolDefinitionView>),
}

impl View for ServerResult {
    type V = ServerResultView;

    open spec fn view(&self) -> ServerResultView {
        match self {
            ServerResult::Empty => ServerResultView::Empty,
            ServerResult::Initialize(r) => ServerResultView::Initialize(r@),
            ServerResult::ListResources(r) => ServerResultView::ListResources(views(r@)),
            ServerResult::ListResourceTemplates(r) => ServerResultView::ListResourceTemplates(
                views(r@),
            ),
            ServerResult::ReadResource(r) => ServerResultView::ReadResource(views(r@)),
            ServerResult::ListPrompts(r) => ServerResultView::ListPrompts(views(r@)),
            ServerResult::GetPrompt(r) => ServerResultView::GetPrompt(r@),
            ServerResult::CallTool(r) => ServerResultView::CallTool(r@),
            ServerResult::ListTools(r) => ServerResultView::ListTools(views(r.tools@)),
        }
    }
}

} // verus!
