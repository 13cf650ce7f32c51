//! The wire form of what the server sends: replies and notifications as
//! JSON documents.

use vstd::prelude::*;
use vstd::string::*;
use crate::codec::{id_json, id_to_json, DecodeError, DecodeErrorView};
use crate::error::{Error, ErrorView, INVALID_PARAMS, METHOD_NOT_FOUND};
use crate::json::{
    items_view, with_optional_member, with_optional_string, Json, JsonView, ObjectBuilder,
};
use crate::message::{
    views, CallToolResult, CallToolResultView, Content, ContentView, GetPromptResult,
    GetPromptResultView, InitializeResult, InitializeResultView, PromptArgument,
    PromptArgumentView, PromptDefinition, PromptDefinitionView, PromptMessage, PromptMessageView,
    ResourceContents, ResourceContentsView, ResourceDefinition, ResourceDefinitionView, Role,
    ServerResult, ServerResultView, ToolDefinition, ToolDefinitionView,
};
use crate::rpc::{respond, ServerNotification, ServerResponse, ServerResponseView};

verus! {

/// No members.
pub open spec fn none() -> Seq<(Seq<char>, JsonView)> {
    Seq::empty()
}

/// The document for one item of content.
pub open spec fn content_json(c: ContentView) -> JsonView {
    match c {
        ContentView::Text { text } => JsonView::Object(
            none().push(("type"@, JsonView::Str("text"@))).push(("text"@, JsonView::Str(text))),
        ),
        ContentView::Image { url, mime_type } => JsonView::Object(
            none().push(("type"@, JsonView::Str("image"@))).push(("url"@, JsonView::Str(url))).push(
                ("mimeType"@, JsonView::Str(mime_type)),
            ),
        ),
        ContentView::Resource { url, mime_type } => JsonView::Object(
            with_optional_string(
                none().push(("type"@, JsonView::Str("resource"@))).push(
                    ("url"@, JsonView::Str(url)),
                ),
                "mimeType"@,
                mime_type,
            ),
        ),
    }
}

/// The document for the result of a tool call.
pub open spec fn call_tool_json(r: CallToolResultView) -> JsonView {
    JsonView::Object(
        none().push(
            ("content"@, JsonView::Array(Seq::new(r.content.len(), |i: int| content_json(r.content[i])))),
        ).push(("isError"@, JsonView::Bool(r.is_error))),
    )
}

/// The document for a tool in a listing.
pub open spec fn tool_json(t: ToolDefinitionView) -> JsonView {
    JsonView::Object(
        with_optional_string(
            none().push(("name"@, JsonView::Str(t.name))),
            "description"@,
            t.description,
        ).push(("inputSchema"@, t.input_schema)),
    )
}

/// The document for a resource in a listing; its address stands under
/// `key`.
pub open spec fn resource_json(key: Seq<char>, r: ResourceDefinitionView) -> JsonView {
    JsonView::Object(
        with_optional_member(
            with_optional_string(
                with_optional_string(
                    none().push((key, JsonView::Str(r.uri))).push(("name"@, JsonView::Str(r.name))),
                    "description"@,
                    r.description,
                ),
                "mimeType"@,
                r.mime_type,
            ),
            "annotations"@,
            r.annotations,
        ),
    )
}

/// The document for what was read from a resource.
pub open spec fn contents_json(c: ResourceContentsView) -> JsonView {
    match c {
        ResourceContentsView::Text { uri, mime_type, text } => JsonView::Object(
            with_optional_string(none().push(("uri"@, JsonView::Str(uri))), "mimeType"@, mime_type).push(
                ("text"@, JsonView::Str(text)),
            ),
        ),
        ResourceContentsView::Blob { uri, mime_type, blob } => JsonView::Object(
            with_optional_string(none().push(("uri"@, JsonView::Str(uri))), "mimeType"@, mime_type).push(
                ("blob"@, JsonView::Str(blob)),
            ),
        ),
    }
}

/// The document for an argument of a prompt.
pub open spec fn argument_json(a: PromptArgumentView) -> JsonView {
    JsonView::Object(
        with_optional_string(
            none().push(("name"@, JsonView::Str(a.name))),
            "description"@,
            a.description,
        ).push(("required"@, JsonView::Bool(a.required))),
    )
}

/// The document for a prompt in a listing.
pub open spec fn prompt_json(p: PromptDefinitionView) -> JsonView {
    JsonView::Object(
        with_optional_string(
            none().push(("name"@, JsonView::Str(p.name))),
            "description"@,
            p.description,
        ).push(
            (
                "arguments"@,
                JsonView::Array(Seq::new(p.arguments.len(), |i: int| argument_json(p.arguments[i]))),
            ),
        ),
    )
}

/// The name that a role is written with.
pub open spec fn role_name(role: Role) -> Seq<char> {
    match role {
        Role::User => "user"@,
        Role::Assistant => "assistant"@,
    }
}

/// The document for a message of a prompt.
pub open spec fn message_json(m: PromptMessageView) -> JsonView {
    JsonView::Object(
        none().push(("role"@, JsonView::Str(role_name(m.role)))).push(
            ("content"@, content_json(m.content)),
        ),
    )
}

/// The document for a rendered prompt.
pub open spec fn get_prompt_json(r: GetPromptResultView) -> JsonView {
    JsonView::Object(
        with_optional_string(none(), "description"@, r.description).push(
            (
                "messages"@,
                JsonView::Array(Seq::new(r.messages.len(), |i: int| message_json(r.messages[i]))),
            ),
        ),
    )
}

/// The object with the one member `listChanged`.
pub open spec fn list_changed(value: bool) -> JsonView {
    JsonView::Object(none().push(("listChanged"@, JsonView::Bool(value))))
}

/// The document for the result of `initialize`.
pub open spec fn initialize_json(r: InitializeResultView) -> JsonView {
    JsonView::Object(
        with_optional_string(
            none().push(
                (
                    "capabilities"@,
                    JsonView::Object(
                        none().push(("tools"@, list_changed(r.capabilities.tools_list_changed))).push(
                            ("prompts"@, list_changed(r.capabilities.prompts_list_changed)),
                        ).push(
                            (
                                "resources"@,
                                JsonView::Object(
                                    none().push(
                                        (
                                            "subscribe"@,
                                            JsonView::Bool(r.capabilities.resources_subscribe),
                                        ),
                                    ).push(
                                        (
                                            "listChanged"@,
                                            JsonView::Bool(r.capabilities.resources_list_changed),
                                        ),
                                    ),
                                ),
                            ),
                        ),
                    ),
                ),
            ).push(("protocolVersion"@, JsonView::Str(r.protocol_version))).push(
                (
                    "serverInfo"@,
                    JsonView::Object(
                        none().push(("name"@, JsonView::Str(r.server_name))).push(
                            ("version"@, JsonView::Str(r.server_version)),
                        ),
                    ),
                ),
            ),
            "instructions"@,
            r.instructions,
        ),
    )
}

/// The object with the one member `key`, the array `items`.
pub open spec fn listing(key: Seq<char>, items: Seq<JsonView>) -> JsonView {
    JsonView::Object(none().push((key, JsonView::Array(items))))
}

/// The document for the result of a request.
pub open spec fn result_json(r: ServerResultView) -> JsonView {
    match r {
        ServerResultView::Empty => JsonView::Object(none()),
        ServerResultView::Initialize(i) => initialize_json(i),
        ServerResultView::ListResources(l) => listing(
            "resources"@,
            Seq::new(l.len(), |i: int| resource_json("uri"@, l[i])),
        ),
        ServerResultView::ListResourceTemplates(l) => listing(
            "resourceTemplates"@,
            Seq::new(l.len(), |i: int| resource_json("uriTemplate"@, l[i])),
        ),
        ServerResultView::ReadResource(l) => listing(
            "contents"@,
            Seq::new(l.len(), |i: int| contents_json(l[i])),
        ),
        ServerResultView::ListPrompts(l) => listing(
            "prompts"@,
            Seq::new(l.len(), |i: int| prompt_json(l[i])),
        ),
        ServerResultView::GetPrompt(g) => get_prompt_json(g),
        ServerResultView::CallTool(c) => call_tool_json(c),
        ServerResultView::ListTools(l) => listing(
            "tools"@,
            Seq::new(l.len(), |i: int| tool_json(l[i])),
        ),
    }
}

/// The document that the server sends for `r`, if it sends anything.
pub open spec fn response_json(r: ServerResponseView) -> Option<JsonView> {
    match r {
        ServerResponseView::Response { json_rpc, id, result } => Some(
            JsonView::Object(
                none().push(("jsonrpc"@, JsonView::Str(json_rpc))).push(("id"@, id_json(id))).push(
                    ("result"@, result_json(result)),
                ),
            ),
        ),
        ServerResponseView::ResourceUpdated { json_rpc, uri } => Some(
            JsonView::Object(
                none().push(("jsonrpc"@, JsonView::Str(json_rpc))).push(
                    ("method"@, JsonView::Str("resourceUpdated"@)),
                ).push(("params"@, JsonView::Object(none().push(("uri"@, JsonView::Str(uri)))))),
            ),
        ),
        ServerResponseView::Error { json_rpc, id, error, data } => Some(
            JsonView::Object(
                none().push(("jsonrpc"@, JsonView::Str(json_rpc))).push(("id"@, id_json(id))).push(
                    (
                        "error"@,
                        JsonView::Object(
                            with_optional_member(
                                none().push(("code"@, JsonView::Int(error.code))).push(
                                    ("message"@, JsonView::Str(error.message)),
                                ),
                                "data"@,
                                data,
                            ),
                        ),
                    ),
                ),
            ),
        ),
        ServerResponseView::Nothing => None,
    }
}


fn encode_content(c: &Content) -> (r: Json)
    ensures
        r@ == content_json(c@),
{
    match c {
        Content::Text(t) => ObjectBuilder::new().string("type", "text").string(
            "text",
            t.text.as_str(),
        ).build(),
        Content::Image(i) => ObjectBuilder::new().string("type", "image").string(
            "url",
            i.url.as_str(),
        ).string("mimeType", i.mime_type.as_str()).build(),
        Content::Resource(x) => ObjectBuilder::new().string("type", "resource").string(
            "url",
            x.url.as_str(),
        ).optional_string("mimeType", &x.mime_type).build(),
    }
}

fn encode_call_tool(result: &CallToolResult) -> (r: Json)
    ensures
        r@ == call_tool_json(result@),
{
    let mut items: Vec<Json> = Vec::new();
    let mut i: usize = 0;
    while i < result.content.len()
        invariant
            0 <= i <= result.content.len(),
            items.len() == i,
            forall|k: int| 0 <= k < i ==> (#[trigger] items[k])@ == content_json(result.content[k]@),
        decreases result.content.len() - i,
    {
        items.push(encode_content(&result.content[i]));
        i += 1;
    }
    assert(items_view(items@) =~= Seq::new(
        result@.content.len(),
        |i: int| content_json(result@.content[i]),
    ));
    ObjectBuilder::new().field("content", Json::array(items)).boolean(
        "isError",
        result.is_error,
    ).build()
}

fn encode_tool(tool: &ToolDefinition) -> (r: Json)
    ensures
        r@ == tool_json(tool@),
{
    ObjectBuilder::new().string("name", tool.name.as_str()).optional_string(
        "description",
        &tool.description,
    ).field("inputSchema", tool.input_schema.duplicate()).build()
}

fn encode_tools(tools: &Vec<ToolDefinition>) -> (r: Json)
    ensures
        r@ == listing("tools"@, Seq::new(tools.len() as nat, |i: int| tool_json(views(tools@)[i]))),
{
    let mut items: Vec<Json> = Vec::new();
    let mut i: usize = 0;
    while i < tools.len()
        invariant
            0 <= i <= tools.len(),
            items.len() == i,
            forall|k: int| 0 <= k < i ==> (#[trigger] items[k])@ == tool_json(tools[k]@),
        decreases tools.len() - i,
    {
        items.push(encode_tool(&tools[i]));
        i += 1;
    }
    assert(items_view(items@) =~= Seq::new(
        tools.len() as nat,
        |i: int| tool_json(views(tools@)[i]),
    ));
    ObjectBuilder::new().field("tools", Json::array(items)).build()
}

fn encode_resource(key: &str, resource: &ResourceDefinition) -> (r: Json)
    ensures
        r@ == resource_json(key@, resource@),
{
    ObjectBuilder::new().string(key, resource.uri.as_str()).string(
        "name",
        resource.name.as_str(),
    ).optional_string("description", &resource.description).optional_string(
        "mimeType",
        &resource.mime_type,
    ).optional_field("annotations", &resource.annotations).build()
}

fn encode_resources(list_key: &str, key: &str, resources: &Vec<ResourceDefinition>) -> (r: Json)
    ensures
        r@ == listing(
            list_key@,
            Seq::new(resources.len() as nat, |i: int| resource_json(key@, views(resources@)[i])),
        ),
{
    let mut items: Vec<Json> = Vec::new();
    let mut i: usize = 0;
    while i < resources.len()
        invariant
            0 <= i <= resources.len(),
            items.len() == i,
            forall|k: int|
                0 <= k < i ==> (#[trigger] items[k])@ == resource_json(key@, resources[k]@),
        decreases resources.len() - i,
    {
        items.push(encode_resource(key, &resources[i]));
        i += 1;
    }
    assert(items_view(items@) =~= Seq::new(
        resources.len() as nat,
        |i: int| resource_json(key@, views(resources@)[i]),
    ));
    ObjectBuilder::new().field(list_key, Json::array(items)).build()
}

fn encode_one_contents(c: &ResourceContents) -> (r: Json)
    ensures
        r@ == contents_json(c@),
{
    match c {
        ResourceContents::Text { uri, mime_type, text } => ObjectBuilder::new().string(
            "uri",
            uri.as_str(),
        ).optional_string("mimeType", mime_type).string("text", text.as_str()).build(),
        ResourceContents::Blob { uri, mime_type, blob } => ObjectBuilder::new().string(
            "uri",
            uri.as_str(),
        ).optional_string("mimeType", mime_type).string("blob", blob.as_str()).build(),
    }
}

fn encode_contents(contents: &Vec<ResourceContents>) -> (r: Json)
    ensures
        r@ == listing(
            "contents"@,
            Seq::new(contents.len() as nat, |i: int| contents_json(views(contents@)[i])),
        ),
{
    let mut items: Vec<Json> = Vec::new();
    let mut i: usize = 0;
    while i < contents.len()
        invariant
            0 <= i <= contents.len(),
            items.len() == i,
            forall|k: int| 0 <= k < i ==> (#[trigger] items[k])@ == contents_json(contents[k]@),
        decreases contents.len() - i,
    {
        items.push(encode_one_contents(&contents[i]));
        i += 1;
    }
    assert(items_view(items@) =~= Seq::new(
        contents.len() as nat,
        |i: int| contents_json(views(contents@)[i]),
    ));
    ObjectBuilder::new().field("contents", Json::array(items)).build()
}

fn encode_argument(a: &PromptArgument) -> (r: Json)
    ensures
        r@ == argument_json(a@),
{
    ObjectBuilder::new().string("name", a.name.as_str()).optional_string(
        "description",
        &a.description,
    ).boolean("required", a.required).build()
}

fn encode_prompt(p: &PromptDefinition) -> (r: Json)
    ensures
        r@ == prompt_json(p@),
{
    let mut items: Vec<Json> = Vec::new();
    let mut i: usize = 0;
    while i < p.arguments.len()
        invariant
            0 <= i <= p.arguments.len(),
            items.len() == i,
            forall|k: int| 0 <= k < i ==> (#[trigger] items[k])@ == argument_json(p.arguments[k]@),
        decreases p.arguments.len() - i,
    {
        items.push(encode_argument(&p.arguments[i]));
        i += 1;
    }
    assert(items_view(items@) =~= Seq::new(
        p@.arguments.len(),
        |i: int| argument_json(p@.arguments[i]),
    ));
    ObjectBuilder::new().string("name", p.name.as_str()).optional_string(
        "description",
        &p.description,
    ).field("arguments", Json::array(items)).build()
}

fn encode_prompts(prompts: &Vec<PromptDefinition>) -> (r: Json)
    ensures
        r@ == listing(
            "prompts"@,
            Seq::new(prompts.len() as nat, |i: int| prompt_json(views(prompts@)[i])),
        ),
{
    let mut items: Vec<Json> = Vec::new();
    let mut i: usize = 0;
    while i < prompts.len()
        invariant
            0 <= i <= prompts.len(),
            items.len() == i,
            forall|k: int| 0 <= k < i ==> (#[trigger] items[k])@ == prompt_json(prompts[k]@),
        decreases prompts.len() - i,
    {
        items.push(encode_prompt(&prompts[i]));
        i += 1;
    }
    assert(items_view(items@) =~= Seq::new(
        prompts.len() as nat,
        |i: int| prompt_json(views(prompts@)[i]),
    ));
    ObjectBuilder::new().field("prompts", Json::array(items)).build()
}

fn encode_message(m: &PromptMessage) -> (r: Json)
    ensures
        r@ == message_json(m@),
{
    let role = match m.role {
        Role::User => "user",
        Role::Assistant => "assistant",
    };
    ObjectBuilder::new().string("role", role).field("content", encode_content(&m.content)).build()
}

fn encode_get_prompt(result: &GetPromptResult) -> (r: Json)
    ensures
        r@ == get_prompt_json(result@),
{
    let mut items: Vec<Json> = Vec::new();
    let mut i: usize = 0;
    while i < result.messages.len()
        invariant
            0 <= i <= result.messages.len(),
            items.len() == i,
            forall|k: int|
                0 <= k < i ==> (#[trigger] items[k])@ == message_json(result.messages[k]@),
        decreases result.messages.len() - i,
    {
        items.push(encode_message(&result.messages[i]));
        i += 1;
    }
    assert(items_view(items@) =~= Seq::new(
        result@.messages.len(),
        |i: int| message_json(result@.messages[i]),
    ));
    ObjectBuilder::new().optional_string("description", &result.description).field(
        "messages",
        Json::array(items),
    ).build()
}

fn encode_list_changed(value: bool) -> (r: Json)
    ensures
        r@ == list_changed(value),
{
    ObjectBuilder::new().boolean("listChanged", value).build()
}

fn encode_initialize(result: &InitializeResult) -> (r: Json)
    ensures
        r@ == initialize_json(result@),
{
    let resources = ObjectBuilder::new().boolean(
        "subscribe",
        result.capabilities.resources_subscribe,
    ).boolean("listChanged", result.capabilities.resources_list_changed).build();
    let capabilities = ObjectBuilder::new().field(
        "tools",
        encode_list_changed(result.capabilities.tools_list_changed),
    ).field("prompts", encode_list_changed(result.capabilities.prompts_list_changed)).field(
        "resources",
        resources,
    ).build();
    let info = ObjectBuilder::new().string("name", result.server_name.as_str()).string(
        "version",
        result.server_version.as_str(),
    ).build();
    ObjectBuilder::new().field("capabilities", capabilities).string(
        "protocolVersion",
        result.protocol_version.as_str(),
    ).field("serverInfo", info).optional_string("instructions", &result.instructions).build()
}

/// Writes the result of a request as a document.
pub fn encode_result(result: &ServerResult) -> (r: Json)
    ensures
        r@ == result_json(result@),
{
    match result {
        ServerResult::Empty => ObjectBuilder::new().build(),
        ServerResult::Initialize(i) => encode_initialize(i),
        ServerResult::ListResources(l) => {
            assert(views(l@).len() == l.len());
            encode_resources("resources", "uri", l)
        },
        ServerResult::ListResourceTemplates(l) => {
            assert(views(l@).len() == l.len());
            encode_resources("resourceTemplates", "uriTemplate", l)
        },
        ServerResult::ReadResource(l) => {
            assert(views(l@).len() == l.len());
            encode_contents(l)
        },
        ServerResult::ListPrompts(l) => {
            assert(views(l@).len() == l.len());
            encode_prompts(l)
        },
        ServerResult::GetPrompt(g) => encode_get_prompt(g),
        ServerResult::CallTool(c) => encode_call_tool(c),
        ServerResult::ListTools(l) => {
            assert(views(l.tools@).len() == l.tools.len());
            encode_tools(&l.tools)
        },
    }
}

/// Writes what the server sends as a document; `None` where it sends
/// nothing.
pub fn encode_response(response: &ServerResponse) -> (r: Option<Json>)
    ensures
        match r {
            Some(j) => response_json(response@) == Some(j@),
            None => response_json(response@) is None,
        },
{
    match response {
        ServerResponse::Response(x) => Some(
            ObjectBuilder::new().string("jsonrpc", x.json_rpc.as_str()).field(
                "id",
                id_to_json(&x.id),
            ).field("result", encode_result(&x.result)).build(),
        ),
        ServerResponse::Notification(ServerNotification::ResourceUpdated { json_rpc, uri }) => {
            let params = ObjectBuilder::new().string("uri", uri.as_str()).build();
            Some(
                ObjectBuilder::new().string("jsonrpc", json_rpc.as_str()).string(
                    "method",
                    "resourceUpdated",
                ).field("params", params).build(),
            )
        },
        ServerResponse::Error(x) => {
            let detail = ObjectBuilder::new().field("code", Json::Int(x.error.code as i64)).string(
                "message",
                x.error.message.as_str(),
            );
            let detail = detail.optional_field("data", &x.error.data);
            Some(
                ObjectBuilder::new().string("jsonrpc", x.json_rpc.as_str()).field(
                    "id",
                    id_to_json(&x.id),
                ).field("error", detail.build()).build(),
            )
        },
        ServerResponse::Nothing => None,
    }
}

/// The reply to a document that could not be read as a message: nothing
/// for a document that is no message at all, the error -32601 for a
/// request whose method is not known, and the error -32602 for a request
/// whose parameters do not fit, each under the request's identifier.
pub open spec fn refusal(e: DecodeErrorView) -> ServerResponseView {
    match e {
        DecodeErrorView::Malformed => ServerResponseView::Nothing,
        DecodeErrorView::MethodNotFound { id, method } => ServerResponseView::Error {
            json_rpc: "2.0"@,
            id,
            error: ErrorView { message: "Method not found: "@ + method, code: -32601 },
            data: None,
        },
        DecodeErrorView::InvalidParams { id, method } => ServerResponseView::Error {
            json_rpc: "2.0"@,
            id,
            error: ErrorView { message: "Invalid params for method: "@ + method, code: -32602 },
            data: None,
        },
    }
}

impl DecodeError {
    /// The reply to the document that could not be read.
    pub fn response(self) -> (r: ServerResponse)
        ensures
            r@ == refusal(self@),
    {
        match self {
            DecodeError::Malformed => ServerResponse::Nothing,
            DecodeError::MethodNotFound { id, method } => respond(
                id,
                Err(
                    Error {
                        message: crate::text::join("Method not found: ", method.as_str()),
                        code: METHOD_NOT_FOUND,
                    },
                ),
            ),
            DecodeError::InvalidParams { id, method } => respond(
                id,
                Err(
                    Error {
                        message: crate::text::join("Invalid params for method: ", method.as_str()),
                        code: INVALID_PARAMS,
                    },
                ),
            ),
        }
    }
}

} // verus!
