//! The wire form of what the server sends, read back: the other half of
//! `encode`.
//!
//! The document of a result does not say which method it answers, so the
//! reader has to say which kind of result it awaits.

use vstd::prelude::*;
use vstd::string::*;
use crate::codec::id_of;
use crate::error::ErrorView;
use crate::encode::{
    argument_json, call_tool_json, content_json, contents_json, get_prompt_json,
    initialize_json, list_changed, listing, message_json, none, prompt_json, resource_json,
    response_json, result_json, role_name, tool_json,
};
use crate::codec::id_json;
use crate::json::{
    items_view, lemma_push_lookup, lookup, with_optional_member, with_optional_string, Json,
    JsonView,
};
use crate::message::{
    views, CallToolResult, Content, ErrorData, GetPromptResult, ImageContent,
    InitializeResult, ListToolsResult, PromptArgument, PromptDefinition, PromptMessage,
    ResourceContent, ResourceContents, ResourceDefinition, ServerResult, TextContent,
    ToolDefinition,
};
use crate::rpc::{Call, JsonRpcError, JsonRpcResponse, ServerNotification, ServerResponse};
use crate::text::opt_view;
use crate::request_id::RequestIdView;
use crate::message::{
    CallToolResultView, ContentView, GetPromptResultView, InitializeResultView,
    PromptArgumentView, PromptDefinitionView, PromptMessageView, ResourceContentsView,
    ResourceDefinitionView, Role, ServerCapabilities, ServerResultView, ToolDefinitionView,
};
use crate::rpc::{CallView, ServerResponseView};
use crate::codec::id_from_json;

verus! {

/// The kinds of result, by what they hold.
#[derive(Debug, Clone, Copy, PartialEq, Eq)]
pub enum ResultKind {
    Empty,
    Initialize,
    ListResources,
    ListResourceTemplates,
    ReadResource,
    ListPrompts,
    GetPrompt,
    CallTool,
    ListTools,
}

/// The kind of a result.
pub open spec fn kind_of(r: ServerResultView) -> ResultKind {
    match r {
        ServerResultView::Empty => ResultKind::Empty,
        ServerResultView::Initialize(_) => ResultKind::Initialize,
        ServerResultView::ListResources(_) => ResultKind::ListResources,
        ServerResultView::ListResourceTemplates(_) => ResultKind::ListResourceTemplates,
        ServerResultView::ReadResource(_) => ResultKind::ReadResource,
        ServerResultView::ListPrompts(_) => ResultKind::ListPrompts,
        ServerResultView::GetPrompt(_) => ResultKind::GetPrompt,
        ServerResultView::CallTool(_) => ResultKind::CallTool,
        ServerResultView::ListTools(_) => ResultKind::ListTools,
    }
}

/// The kind of result that answers a call.
pub open spec fn answer_kind(call: CallView) -> ResultKind {
    match call {
        CallView::Initialize { .. } => ResultKind::Initialize,
        CallView::ListResources => ResultKind::ListResources,
        CallView::ListResourceTemplates => ResultKind::ListResourceTemplates,
        CallView::ReadResource { .. } => ResultKind::ReadResource,
        CallView::ListPrompts => ResultKind::ListPrompts,
        CallView::GetPrompt(_) => ResultKind::GetPrompt,
        CallView::ListTools => ResultKind::ListTools,
        CallView::CallTool(_) => ResultKind::CallTool,
        _ => ResultKind::Empty,
    }
}

/// The string under `key`.
pub open spec fn str_at(j: JsonView, key: Seq<char>) -> Option<Seq<char>> {
    match j.get(key) {
        Some(JsonView::Str(s)) => Some(s),
        _ => None,
    }
}

/// The string under `key`, if the member is there: `None` for a member
/// that is no string, `Some(None)` for no member.
pub open spec fn optional_str_at(j: JsonView, key: Seq<char>) -> Option<Option<Seq<char>>> {
    match j.get(key) {
        None => Some(None),
        Some(JsonView::Str(s)) => Some(Some(s)),
        Some(_) => None,
    }
}

/// The truth value under `key`.
pub open spec fn bool_at(j: JsonView, key: Seq<char>) -> Option<bool> {
    match j.get(key) {
        Some(JsonView::Bool(b)) => Some(b),
        _ => None,
    }
}

/// The items of the array under `key`.
pub open spec fn array_at(j: JsonView, key: Seq<char>) -> Option<Seq<JsonView>> {
    match j.get(key) {
        Some(JsonView::Array(items)) => Some(items),
        _ => None,
    }
}

/// What `items` stand for, each read by `read`; `None` if one of them
/// cannot be read.
pub open spec fn read_list<T>(items: Seq<JsonView>, read: spec_fn(JsonView) -> Option<T>)
    -> Option<Seq<T>> {
    if forall|i: int| 0 <= i < items.len() ==> (#[trigger] read(items[i])) is Some {
        Some(Seq::new(items.len(), |i: int| read(items[i])->0))
    } else {
        None
    }
}

/// The item of content that a document stands for.
pub open spec fn read_content(j: JsonView) -> Option<ContentView> {
    match str_at(j, "type"@) {
        Some(kind) => if kind == "text"@ {
            match str_at(j, "text"@) {
                Some(text) => Some(ContentView::Text { text }),
                None => None,
            }
        } else if kind == "image"@ {
            match (str_at(j, "url"@), str_at(j, "mimeType"@)) {
                (Some(url), Some(mime_type)) => Some(ContentView::Image { url, mime_type }),
                _ => None,
            }
        } else if kind == "resource"@ {
            match (str_at(j, "url"@), optional_str_at(j, "mimeType"@)) {
                (Some(url), Some(mime_type)) => Some(ContentView::Resource { url, mime_type }),
                _ => None,
            }
        } else {
            None
        },
        None => None,
    }
}

/// The result of a tool call that a document stands for.
pub open spec fn read_call_tool(j: JsonView) -> Option<CallToolResultView> {
    match (array_at(j, "content"@), bool_at(j, "isError"@)) {
        (Some(items), Some(is_error)) => match read_list(items, |x: JsonView| read_content(x)) {
            Some(content) => Some(CallToolResultView { content, is_error }),
            None => None,
        },
        _ => None,
    }
}

/// The tool that a document of a listing stands for.
pub open spec fn read_tool(j: JsonView) -> Option<ToolDefinitionView> {
    match (str_at(j, "name"@), optional_str_at(j, "description"@), j.get("inputSchema"@)) {
        (Some(name), Some(description), Some(input_schema)) => Some(
            ToolDefinitionView { name, description, input_schema },
        ),
        _ => None,
    }
}

/// The resource that a document of a listing stands for; its address
/// stands under `key`.
pub open spec fn read_resource(key: Seq<char>, j: JsonView) -> Option<ResourceDefinitionView> {
    match (
        str_at(j, key),
        str_at(j, "name"@),
        optional_str_at(j, "description"@),
        optional_str_at(j, "mimeType"@),
    ) {
        (Some(uri), Some(name), Some(description), Some(mime_type)) => Some(
            ResourceDefinitionView {
                uri,
                name,
                description,
                mime_type,
                annotations: j.get("annotations"@),
            },
        ),
        _ => None,
    }
}

/// What was read from a resource, as a document has it: text if there is
/// a `text`, else binary data if there is a `blob`.
pub open spec fn read_contents(j: JsonView) -> Option<ResourceContentsView> {
    match (str_at(j, "uri"@), optional_str_at(j, "mimeType"@)) {
        (Some(uri), Some(mime_type)) => match str_at(j, "text"@) {
            Some(text) => Some(ResourceContentsView::Text { uri, mime_type, text }),
            None => match str_at(j, "blob"@) {
                Some(blob) => Some(ResourceContentsView::Blob { uri, mime_type, blob }),
                None => None,
            },
        },
        _ => None,
    }
}

/// The argument of a prompt that a document stands for.
pub open spec fn read_argument(j: JsonView) -> Option<PromptArgumentView> {
    match (str_at(j, "name"@), optional_str_at(j, "description"@), bool_at(j, "required"@)) {
        (Some(name), Some(description), Some(required)) => Some(
            PromptArgumentView { name, description, required },
        ),
        _ => None,
    }
}

/// The prompt that a document of a listing stands for.
pub open spec fn read_prompt(j: JsonView) -> Option<PromptDefinitionView> {
    match (str_at(j, "name"@), optional_str_at(j, "description"@), array_at(j, "arguments"@)) {
        (Some(name), Some(description), Some(items)) => match read_list(
            items,
            |x: JsonView| read_argument(x),
        ) {
            Some(arguments) => Some(PromptDefinitionView { name, description, arguments }),
            None => None,
        },
        _ => None,
    }
}

/// The role that a name stands for.
pub open spec fn read_role(name: Seq<char>) -> Option<Role> {
    if name == "user"@ {
        Some(Role::User)
    } else if name == "assistant"@ {
        Some(Role::Assistant)
    } else {
        None
    }
}

/// The message of a prompt that a document stands for.
pub open spec fn read_message(j: JsonView) -> Option<PromptMessageView> {
    match (str_at(j, "role"@), j.get("content"@)) {
        (Some(name), Some(c)) => match (read_role(name), read_content(c)) {
            (Some(role), Some(content)) => Some(PromptMessageView { role, content }),
            _ => None,
        },
        _ => None,
    }
}

/// The rendered prompt that a document stands for.
pub open spec fn read_get_prompt(j: JsonView) -> Option<GetPromptResultView> {
    match (optional_str_at(j, "description"@), array_at(j, "messages"@)) {
        (Some(description), Some(items)) => match read_list(
            items,
            |x: JsonView| read_message(x),
        ) {
            Some(messages) => Some(GetPromptResultView { description, messages }),
            None => None,
        },
        _ => None,
    }
}

/// The truth value under `listChanged` in the member `key`.
pub open spec fn list_changed_at(j: JsonView, key: Seq<char>) -> Option<bool> {
    match j.get(key) {
        Some(inner) => bool_at(inner, "listChanged"@),
        None => None,
    }
}

/// The capabilities that a document stands for.
pub open spec fn read_capabilities(j: JsonView) -> Option<ServerCapabilities> {
    match (list_changed_at(j, "tools"@), list_changed_at(j, "prompts"@), j.get("resources"@)) {
        (Some(tools_list_changed), Some(prompts_list_changed), Some(resources)) => match (
            bool_at(resources, "subscribe"@),
            bool_at(resources, "listChanged"@),
        ) {
            (Some(resources_subscribe), Some(resources_list_changed)) => Some(
                ServerCapabilities {
                    prompts_list_changed,
                    resources_subscribe,
                    resources_list_changed,
                    tools_list_changed,
                },
            ),
            _ => None,
        },
        _ => None,
    }
}

/// The result of `initialize` that a document stands for.
pub open spec fn read_initialize(j: JsonView) -> Option<InitializeResultView> {
    match (
        j.get("capabilities"@),
        str_at(j, "protocolVersion"@),
        j.get("serverInfo"@),
        optional_str_at(j, "instructions"@),
    ) {
        (Some(c), Some(protocol_version), Some(info), Some(instructions)) => match (
            read_capabilities(c),
            str_at(info, "name"@),
            str_at(info, "version"@),
        ) {
            (Some(capabilities), Some(server_name), Some(server_version)) => Some(
                InitializeResultView {
                    capabilities,
                    instructions,
                    protocol_version,
                    server_name,
                    server_version,
                },
            ),
            _ => None,
        },
        _ => None,
    }
}

/// The result of the kind `kind` that a document stands for.
pub open spec fn read_result(kind: ResultKind, j: JsonView) -> Option<ServerResultView> {
    match kind {
        ResultKind::Empty => if j is Object {
            Some(ServerResultView::Empty)
        } else {
            None
        },
        ResultKind::Initialize => match read_initialize(j) {
            Some(r) => Some(ServerResultView::Initialize(r)),
            None => None,
        },
        ResultKind::ListResources => match array_at(j, "resources"@) {
            Some(items) => match read_list(items, |x: JsonView| read_resource("uri"@, x)) {
                Some(l) => Some(ServerResultView::ListResources(l)),
                None => None,
            },
            None => None,
        },
        ResultKind::ListResourceTemplates => match array_at(j, "resourceTemplates"@) {
            Some(items) => match read_list(
                items,
                |x: JsonView| read_resource("uriTemplate"@, x),
            ) {
                Some(l) => Some(ServerResultView::ListResourceTemplates(l)),
                None => None,
            },
            None => None,
        },
        ResultKind::ReadResource => match array_at(j, "contents"@) {
            Some(items) => match read_list(items, |x: JsonView| read_contents(x)) {
                Some(l) => Some(ServerResultView::ReadResource(l)),
                None => None,
            },
            None => None,
        },
        ResultKind::ListPrompts => match array_at(j, "prompts"@) {
            Some(items) => match read_list(items, |x: JsonView| read_prompt(x)) {
                Some(l) => Some(ServerResultView::ListPrompts(l)),
                None => None,
            },
            None => None,
        },
        ResultKind::GetPrompt => match read_get_prompt(j) {
            Some(r) => Some(ServerResultView::GetPrompt(r)),
            None => None,
        },
        ResultKind::CallTool => match read_call_tool(j) {
            Some(r) => Some(ServerResultView::CallTool(r)),
            None => None,
        },
        ResultKind::ListTools => match array_at(j, "tools"@) {
            Some(items) => match read_list(items, |x: JsonView| read_tool(x)) {
                Some(l) => Some(ServerResultView::ListTools(l)),
                None => None,
            },
            None => None,
        },
    }
}

/// The error that the member `error` of a reply stands for, with its data.
pub open spec fn read_error(j: JsonView) -> Option<(ErrorView, Option<JsonView>)> {
    match (j.get("code"@), str_at(j, "message"@)) {
        (Some(JsonView::Int(code)), Some(message)) => if i32::MIN <= code <= i32::MAX {
            Some((ErrorView { message, code }, j.get("data"@)))
        } else {
            None
        },
        _ => None,
    }
}

/// What a document of the server stands for, where a result of the kind
/// `kind` is awaited.
///
/// With an `id` the document is a reply: a result if it has a `result`,
/// else an error if it has an `error`. Without an `id` it is the
/// notification `resourceUpdated`.
pub open spec fn read_response(kind: ResultKind, j: JsonView) -> Option<ServerResponseView> {
    match str_at(j, "jsonrpc"@) {
        Some(json_rpc) => match j.get("id"@) {
            Some(raw) => match id_of(raw) {
                Some(id) => match j.get("result"@) {
                    Some(r) => match read_result(kind, r) {
                        Some(result) => Some(
                            ServerResponseView::Response { json_rpc, id, result },
                        ),
                        None => None,
                    },
                    None => match j.get("error"@) {
                        Some(e) => match read_error(e) {
                            Some((error, data)) => Some(
                                ServerResponseView::Error { json_rpc, id, error, data },
                            ),
                            None => None,
                        },
                        None => None,
                    },
                },
                None => None,
            },
            None => match (str_at(j, "method"@), j.get("params"@)) {
                (Some(method), Some(params)) => if method == "resourceUpdated"@ {
                    match str_at(params, "uri"@) {
                        Some(uri) => Some(ServerResponseView::ResourceUpdated { json_rpc, uri }),
                        None => None,
                    }
                } else {
                    None
                },
                _ => None,
            },
        },
        None => None,
    }
}


/// Looking up any key after a string that may be absent.
proof fn lemma_optional_lookup(
    members: Seq<(Seq<char>, JsonView)>,
    k: Seq<char>,
    v: Option<Seq<char>>,
)
    ensures
        forall|key: Seq<char>| #[trigger]
            lookup(with_optional_string(members, k, v), key) == match lookup(members, key) {
                Some(found) => Some(found),
                None => if k == key && v is Some {
                    Some(JsonView::Str(v->0))
                } else {
                    None
                },
            },
{
    match v {
        Some(text) => {
            lemma_push_lookup(members, k, JsonView::Str(text));
        },
        None => {},
    }
}

/// A list is read back if each of its items is.
proof fn lemma_list_round_trip<T>(
    items: Seq<T>,
    written: Seq<JsonView>,
    read: spec_fn(JsonView) -> Option<T>,
)
    requires
        written.len() == items.len(),
        forall|i: int| 0 <= i < items.len() ==> read(#[trigger] written[i]) == Some(items[i]),
    ensures
        read_list(written, read) == Some(items),
{
    assert forall|i: int| 0 <= i < written.len() implies (#[trigger] read(written[i])) is Some by {
        assert(read(written[i]) == Some(items[i]));
    }
    assert(Seq::new(written.len(), |i: int| read(written[i])->0) =~= items);
}

/// An item of content is read back from its document.
pub proof fn lemma_content_round_trip(c: ContentView)
    ensures
        read_content(content_json(c)) == Some(c),
{
    reveal_strlit("type");
    reveal_strlit("text");
    reveal_strlit("url");
    reveal_strlit("mimeType");
    reveal_strlit("image");
    reveal_strlit("resource");
    assert("type"@.len() == 4 && "text"@.len() == 4 && "url"@.len() == 3 && "mimeType"@.len()
        == 8);
    assert("image"@.len() == 5 && "resource"@.len() == 8);
    assert("type"@[1] == 'y' && "text"@[1] == 'e');
    let kind = |name: Seq<char>| none().push(("type"@, JsonView::Str(name)));
    match c {
        ContentView::Text { text } => {
            lemma_push_lookup(none(), "type"@, JsonView::Str("text"@));
            lemma_push_lookup(kind("text"@), "text"@, JsonView::Str(text));
        },
        ContentView::Image { url, mime_type } => {
            lemma_push_lookup(none(), "type"@, JsonView::Str("image"@));
            lemma_push_lookup(kind("image"@), "url"@, JsonView::Str(url));
            lemma_push_lookup(
                kind("image"@).push(("url"@, JsonView::Str(url))),
                "mimeType"@,
                JsonView::Str(mime_type),
            );
        },
        ContentView::Resource { url, mime_type } => {
            lemma_push_lookup(none(), "type"@, JsonView::Str("resource"@));
            lemma_push_lookup(kind("resource"@), "url"@, JsonView::Str(url));
            lemma_optional_lookup(
                kind("resource"@).push(("url"@, JsonView::Str(url))),
                "mimeType"@,
                mime_type,
            );
        },
    }
}

/// The result of a tool call is read back from its document.
pub proof fn lemma_call_tool_round_trip(r: CallToolResultView)
    ensures
        read_call_tool(call_tool_json(r)) == Some(r),
{
    reveal_strlit("content");
    reveal_strlit("isError");
    assert("content"@.len() == 7 && "isError"@.len() == 7);
    assert("content"@[0] == 'c' && "isError"@[0] == 'i');
    let written = Seq::new(r.content.len(), |i: int| content_json(r.content[i]));
    let first = none().push(("content"@, JsonView::Array(written)));
    lemma_push_lookup(none(), "content"@, JsonView::Array(written));
    lemma_push_lookup(first, "isError"@, JsonView::Bool(r.is_error));
    assert forall|i: int| 0 <= i < r.content.len() implies read_content(#[trigger] written[i])
        == Some(r.content[i]) by {
        lemma_content_round_trip(r.content[i]);
    }
    lemma_list_round_trip(r.content, written, |x: JsonView| read_content(x));
}


/// A tool of a listing is read back from its document.
pub proof fn lemma_tool_round_trip(t: ToolDefinitionView)
    ensures
        read_tool(tool_json(t)) == Some(t),
{
    reveal_strlit("name");
    reveal_strlit("description");
    reveal_strlit("inputSchema");
    assert("name"@.len() == 4 && "description"@.len() == 11 && "inputSchema"@.len() == 11);
    assert("description"@[0] == 'd' && "inputSchema"@[0] == 'i');
    let first = none().push(("name"@, JsonView::Str(t.name)));
    let second = with_optional_string(first, "description"@, t.description);
    lemma_push_lookup(none(), "name"@, JsonView::Str(t.name));
    lemma_optional_lookup(first, "description"@, t.description);
    lemma_push_lookup(second, "inputSchema"@, t.input_schema);
}

/// A resource of a listing is read back from its document, whichever of
/// the two names its address stands under.
pub proof fn lemma_resource_round_trip(key: Seq<char>, r: ResourceDefinitionView)
    requires
        key == "uri"@ || key == "uriTemplate"@,
    ensures
        read_resource(key, resource_json(key, r)) == Some(r),
{
    reveal_strlit("uri");
    reveal_strlit("uriTemplate");
    reveal_strlit("name");
    reveal_strlit("description");
    reveal_strlit("mimeType");
    assert("uri"@.len() == 3 && "uriTemplate"@.len() == 11 && "name"@.len() == 4
        && "description"@.len() == 11 && "mimeType"@.len() == 8);
    assert("description"@[0] == 'd' && "uriTemplate"@[0] == 'u');
    reveal_strlit("annotations");
    assert("annotations"@.len() == 11 && "annotations"@[0] == 'a');
    let first = none().push((key, JsonView::Str(r.uri)));
    let second = first.push(("name"@, JsonView::Str(r.name)));
    let third = with_optional_string(second, "description"@, r.description);
    lemma_push_lookup(none(), key, JsonView::Str(r.uri));
    lemma_push_lookup(first, "name"@, JsonView::Str(r.name));
    lemma_optional_lookup(second, "description"@, r.description);
    lemma_optional_lookup(third, "mimeType"@, r.mime_type);
    let fourth = with_optional_string(third, "mimeType"@, r.mime_type);
    match r.annotations {
        Some(a) => {
            lemma_push_lookup(fourth, "annotations"@, a);
        },
        None => {},
    }
}

/// What was read from a resource is read back from its document.
pub proof fn lemma_contents_round_trip(c: ResourceContentsView)
    ensures
        read_contents(contents_json(c)) == Some(c),
{
    reveal_strlit("uri");
    reveal_strlit("mimeType");
    reveal_strlit("text");
    reveal_strlit("blob");
    assert("uri"@.len() == 3 && "mimeType"@.len() == 8 && "text"@.len() == 4 && "blob"@.len()
        == 4);
    assert("text"@[0] == 't' && "blob"@[0] == 'b');
    match c {
        ResourceContentsView::Text { uri, mime_type, text } => {
            let first = none().push(("uri"@, JsonView::Str(uri)));
            let second = with_optional_string(first, "mimeType"@, mime_type);
            lemma_push_lookup(none(), "uri"@, JsonView::Str(uri));
            lemma_optional_lookup(first, "mimeType"@, mime_type);
            lemma_push_lookup(second, "text"@, JsonView::Str(text));
        },
        ResourceContentsView::Blob { uri, mime_type, blob } => {
            let first = none().push(("uri"@, JsonView::Str(uri)));
            let second = with_optional_string(first, "mimeType"@, mime_type);
            lemma_push_lookup(none(), "uri"@, JsonView::Str(uri));
            lemma_optional_lookup(first, "mimeType"@, mime_type);
            lemma_push_lookup(second, "blob"@, JsonView::Str(blob));
        },
    }
}

/// An argument of a prompt is read back from its document.
pub proof fn lemma_argument_round_trip(a: PromptArgumentView)
    ensures
        read_argument(argument_json(a)) == Some(a),
{
    reveal_strlit("name");
    reveal_strlit("description");
    reveal_strlit("required");
    assert("name"@.len() == 4 && "description"@.len() == 11 && "required"@.len() == 8);
    let first = none().push(("name"@, JsonView::Str(a.name)));
    let second = with_optional_string(first, "description"@, a.description);
    lemma_push_lookup(none(), "name"@, JsonView::Str(a.name));
    lemma_optional_lookup(first, "description"@, a.description);
    lemma_push_lookup(second, "required"@, JsonView::Bool(a.required));
}

/// A prompt of a listing is read back from its document.
pub proof fn lemma_prompt_round_trip(p: PromptDefinitionView)
    ensures
        read_prompt(prompt_json(p)) == Some(p),
{
    reveal_strlit("name");
    reveal_strlit("description");
    reveal_strlit("arguments");
    assert("name"@.len() == 4 && "description"@.len() == 11 && "arguments"@.len() == 9);
    let written = Seq::new(p.arguments.len(), |i: int| argument_json(p.arguments[i]));
    let first = none().push(("name"@, JsonView::Str(p.name)));
    let second = with_optional_string(first, "description"@, p.description);
    lemma_push_lookup(none(), "name"@, JsonView::Str(p.name));
    lemma_optional_lookup(first, "description"@, p.description);
    lemma_push_lookup(second, "arguments"@, JsonView::Array(written));
    assert forall|i: int| 0 <= i < p.arguments.len() implies read_argument(
        #[trigger] written[i],
    ) == Some(p.arguments[i]) by {
        lemma_argument_round_trip(p.arguments[i]);
    }
    lemma_list_round_trip(p.arguments, written, |x: JsonView| read_argument(x));
}

/// A message of a prompt is read back from its document.
pub proof fn lemma_message_round_trip(m: PromptMessageView)
    ensures
        read_message(message_json(m)) == Some(m),
{
    reveal_strlit("role");
    reveal_strlit("content");
    reveal_strlit("user");
    reveal_strlit("assistant");
    assert("role"@.len() == 4 && "content"@.len() == 7);
    assert("user"@.len() == 4 && "assistant"@.len() == 9);
    let first = none().push(("role"@, JsonView::Str(role_name(m.role))));
    lemma_push_lookup(none(), "role"@, JsonView::Str(role_name(m.role)));
    lemma_push_lookup(first, "content"@, content_json(m.content));
    lemma_content_round_trip(m.content);
}

/// A rendered prompt is read back from its document.
pub proof fn lemma_get_prompt_round_trip(r: GetPromptResultView)
    ensures
        read_get_prompt(get_prompt_json(r)) == Some(r),
{
    reveal_strlit("description");
    reveal_strlit("messages");
    assert("description"@.len() == 11 && "messages"@.len() == 8);
    let written = Seq::new(r.messages.len(), |i: int| message_json(r.messages[i]));
    let first = with_optional_string(none(), "description"@, r.description);
    lemma_optional_lookup(none(), "description"@, r.description);
    lemma_push_lookup(first, "messages"@, JsonView::Array(written));
    assert forall|i: int| 0 <= i < r.messages.len() implies read_message(#[trigger] written[i])
        == Some(r.messages[i]) by {
        lemma_message_round_trip(r.messages[i]);
    }
    lemma_list_round_trip(r.messages, written, |x: JsonView| read_message(x));
}

/// The capabilities are read back from their document.
proof fn lemma_capabilities_round_trip(c: ServerCapabilities)
    ensures
        read_capabilities(
            JsonView::Object(
                none().push(("tools"@, list_changed(c.tools_list_changed))).push(
                    ("prompts"@, list_changed(c.prompts_list_changed)),
                ).push(
                    (
                        "resources"@,
                        JsonView::Object(
                            none().push(("subscribe"@, JsonView::Bool(c.resources_subscribe))).push(
                                ("listChanged"@, JsonView::Bool(c.resources_list_changed)),
                            ),
                        ),
                    ),
                ),
            ),
        ) == Some(c),
{
    reveal_strlit("tools");
    reveal_strlit("prompts");
    reveal_strlit("resources");
    reveal_strlit("subscribe");
    reveal_strlit("listChanged");
    assert("tools"@.len() == 5 && "prompts"@.len() == 7 && "resources"@.len() == 9);
    assert("subscribe"@.len() == 9 && "listChanged"@.len() == 11);
    let inner = none().push(("subscribe"@, JsonView::Bool(c.resources_subscribe)));
    let resources = JsonView::Object(
        inner.push(("listChanged"@, JsonView::Bool(c.resources_list_changed))),
    );
    let first = none().push(("tools"@, list_changed(c.tools_list_changed)));
    let second = first.push(("prompts"@, list_changed(c.prompts_list_changed)));
    lemma_push_lookup(none(), "tools"@, list_changed(c.tools_list_changed));
    lemma_push_lookup(first, "prompts"@, list_changed(c.prompts_list_changed));
    lemma_push_lookup(second, "resources"@, resources);
    lemma_push_lookup(none(), "subscribe"@, JsonView::Bool(c.resources_subscribe));
    lemma_push_lookup(inner, "listChanged"@, JsonView::Bool(c.resources_list_changed));
    lemma_push_lookup(none(), "listChanged"@, JsonView::Bool(c.tools_list_changed));
    lemma_push_lookup(none(), "listChanged"@, JsonView::Bool(c.prompts_list_changed));
}

/// The result of `initialize` is read back from its document.
pub proof fn lemma_initialize_round_trip(r: InitializeResultView)
    ensures
        read_initialize(initialize_json(r)) == Some(r),
{
    reveal_strlit("capabilities");
    reveal_strlit("protocolVersion");
    reveal_strlit("serverInfo");
    reveal_strlit("instructions");
    reveal_strlit("name");
    reveal_strlit("version");
    assert("capabilities"@.len() == 12 && "protocolVersion"@.len() == 15 && "serverInfo"@.len()
        == 10 && "instructions"@.len() == 12);
    assert("capabilities"@[0] == 'c' && "instructions"@[0] == 'i');
    assert("name"@.len() == 4 && "version"@.len() == 7);
    let c = r.capabilities;
    let capabilities = JsonView::Object(
        none().push(("tools"@, list_changed(c.tools_list_changed))).push(
            ("prompts"@, list_changed(c.prompts_list_changed)),
        ).push(
            (
                "resources"@,
                JsonView::Object(
                    none().push(("subscribe"@, JsonView::Bool(c.resources_subscribe))).push(
                        ("listChanged"@, JsonView::Bool(c.resources_list_changed)),
                    ),
                ),
            ),
        ),
    );
    lemma_capabilities_round_trip(c);
    let named = none().push(("name"@, JsonView::Str(r.server_name)));
    let info = JsonView::Object(named.push(("version"@, JsonView::Str(r.server_version))));
    lemma_push_lookup(none(), "name"@, JsonView::Str(r.server_name));
    lemma_push_lookup(named, "version"@, JsonView::Str(r.server_version));
    let first = none().push(("capabilities"@, capabilities));
    let second = first.push(("protocolVersion"@, JsonView::Str(r.protocol_version)));
    let third = second.push(("serverInfo"@, info));
    lemma_push_lookup(none(), "capabilities"@, capabilities);
    lemma_push_lookup(first, "protocolVersion"@, JsonView::Str(r.protocol_version));
    lemma_push_lookup(second, "serverInfo"@, info);
    lemma_optional_lookup(third, "instructions"@, r.instructions);
}


/// A result is read back from its document by a reader that awaits its
/// kind.
pub proof fn lemma_result_round_trip(r: ServerResultView)
    ensures
        read_result(kind_of(r), result_json(r)) == Some(r),
{
    match r {
        ServerResultView::Empty => {},
        ServerResultView::Initialize(i) => {
            lemma_initialize_round_trip(i);
        },
        ServerResultView::ListResources(l) => {
            let written = Seq::new(l.len(), |i: int| resource_json("uri"@, l[i]));
            lemma_push_lookup(none(), "resources"@, JsonView::Array(written));
            assert forall|i: int| 0 <= i < l.len() implies read_resource(
                "uri"@,
                #[trigger] written[i],
            ) == Some(l[i]) by {
                lemma_resource_round_trip("uri"@, l[i]);
            }
            lemma_list_round_trip(l, written, |x: JsonView| read_resource("uri"@, x));
        },
        ServerResultView::ListResourceTemplates(l) => {
            let written = Seq::new(l.len(), |i: int| resource_json("uriTemplate"@, l[i]));
            lemma_push_lookup(none(), "resourceTemplates"@, JsonView::Array(written));
            assert forall|i: int| 0 <= i < l.len() implies read_resource(
                "uriTemplate"@,
                #[trigger] written[i],
            ) == Some(l[i]) by {
                lemma_resource_round_trip("uriTemplate"@, l[i]);
            }
            lemma_list_round_trip(l, written, |x: JsonView| read_resource("uriTemplate"@, x));
        },
        ServerResultView::ReadResource(l) => {
            let written = Seq::new(l.len(), |i: int| contents_json(l[i]));
            lemma_push_lookup(none(), "contents"@, JsonView::Array(written));
            assert forall|i: int| 0 <= i < l.len() implies read_contents(#[trigger] written[i])
                == Some(l[i]) by {
                lemma_contents_round_trip(l[i]);
            }
            lemma_list_round_trip(l, written, |x: JsonView| read_contents(x));
        },
        ServerResultView::ListPrompts(l) => {
            let written = Seq::new(l.len(), |i: int| prompt_json(l[i]));
            lemma_push_lookup(none(), "prompts"@, JsonView::Array(written));
            assert forall|i: int| 0 <= i < l.len() implies read_prompt(#[trigger] written[i])
                == Some(l[i]) by {
                lemma_prompt_round_trip(l[i]);
            }
            lemma_list_round_trip(l, written, |x: JsonView| read_prompt(x));
        },
        ServerResultView::GetPrompt(g) => {
            lemma_get_prompt_round_trip(g);
        },
        ServerResultView::CallTool(c) => {
            lemma_call_tool_round_trip(c);
        },
        ServerResultView::ListTools(l) => {
            let written = Seq::new(l.len(), |i: int| tool_json(l[i]));
            lemma_push_lookup(none(), "tools"@, JsonView::Array(written));
            assert forall|i: int| 0 <= i < l.len() implies read_tool(#[trigger] written[i])
                == Some(l[i]) by {
                lemma_tool_round_trip(l[i]);
            }
            lemma_list_round_trip(l, written, |x: JsonView| read_tool(x));
        },
    }
}

/// Whether what the server sends can be written and read back: it is not
/// `Nothing`, for which no document is written, and the code of an error
/// is a 32-bit integer.
pub open spec fn valid_response(m: ServerResponseView) -> bool {
    match m {
        ServerResponseView::Nothing => false,
        ServerResponseView::Error { error, .. } => i32::MIN <= error.code <= i32::MAX,
        _ => true,
    }
}

/// Whether a reader that awaits `kind` can read `m`: a result has to be
/// of that kind; an error and a notification are read whatever is
/// awaited.
pub open spec fn awaited(kind: ResultKind, m: ServerResponseView) -> bool {
    match m {
        ServerResponseView::Response { result, .. } => kind == kind_of(result),
        _ => true,
    }
}

/// Writing what the server sends and reading the document back gives
/// what was sent.
pub proof fn lemma_response_round_trip(kind: ResultKind, m: ServerResponseView)
    requires
        valid_response(m),
        awaited(kind, m),
    ensures
        response_json(m) is Some,
        read_response(kind, response_json(m)->0) == Some(m),
{
    reveal_strlit("jsonrpc");
    reveal_strlit("id");
    reveal_strlit("result");
    reveal_strlit("error");
    reveal_strlit("method");
    reveal_strlit("params");
    reveal_strlit("code");
    reveal_strlit("message");
    reveal_strlit("data");
    reveal_strlit("uri");
    assert("jsonrpc"@.len() == 7 && "id"@.len() == 2 && "result"@.len() == 6 && "error"@.len()
        == 5 && "method"@.len() == 6 && "params"@.len() == 6);
    assert("result"@[0] == 'r' && "method"@[0] == 'm' && "params"@[0] == 'p');
    assert("code"@.len() == 4 && "message"@.len() == 7 && "data"@.len() == 4);
    assert("code"@[0] == 'c' && "data"@[0] == 'd');
    match m {
        ServerResponseView::Response { json_rpc, id, result } => {
            let first = none().push(("jsonrpc"@, JsonView::Str(json_rpc)));
            let second = first.push(("id"@, id_json(id)));
            lemma_push_lookup(none(), "jsonrpc"@, JsonView::Str(json_rpc));
            lemma_push_lookup(first, "id"@, id_json(id));
            lemma_push_lookup(second, "result"@, result_json(result));
            lemma_result_round_trip(result);
        },
        ServerResponseView::ResourceUpdated { json_rpc, uri } => {
            let first = none().push(("jsonrpc"@, JsonView::Str(json_rpc)));
            let second = first.push(("method"@, JsonView::Str("resourceUpdated"@)));
            let params = JsonView::Object(none().push(("uri"@, JsonView::Str(uri))));
            lemma_push_lookup(none(), "jsonrpc"@, JsonView::Str(json_rpc));
            lemma_push_lookup(first, "method"@, JsonView::Str("resourceUpdated"@));
            lemma_push_lookup(second, "params"@, params);
            lemma_push_lookup(none(), "uri"@, JsonView::Str(uri));
        },
        ServerResponseView::Error { json_rpc, id, error, data } => {
            let first = none().push(("jsonrpc"@, JsonView::Str(json_rpc)));
            let second = first.push(("id"@, id_json(id)));
            let coded = none().push(("code"@, JsonView::Int(error.code)));
            let said = coded.push(("message"@, JsonView::Str(error.message)));
            let detail = JsonView::Object(with_optional_member(said, "data"@, data));
            lemma_push_lookup(none(), "jsonrpc"@, JsonView::Str(json_rpc));
            lemma_push_lookup(first, "id"@, id_json(id));
            lemma_push_lookup(second, "error"@, detail);
            lemma_push_lookup(none(), "code"@, JsonView::Int(error.code));
            lemma_push_lookup(coded, "message"@, JsonView::Str(error.message));
            match data {
                Some(d) => {
                    lemma_push_lookup(said, "data"@, d);
                },
                None => {},
            }
        },
        ServerResponseView::Nothing => {},
    }
}


/// The kind of result that answers `call`.
pub fn result_kind(call: &Call) -> (r: ResultKind)
    ensures
        r == answer_kind(call@),
{
    match call {
        Call::Initialize(_) => ResultKind::Initialize,
        Call::ListResources => ResultKind::ListResources,
        Call::ListResourceTemplates => ResultKind::ListResourceTemplates,
        Call::ReadResource { .. } => ResultKind::ReadResource,
        Call::ListPrompts => ResultKind::ListPrompts,
        Call::GetPrompt(_) => ResultKind::GetPrompt,
        Call::ListTools => ResultKind::ListTools,
        Call::CallTool(_) => ResultKind::CallTool,
        _ => ResultKind::Empty,
    }
}

fn get_str(j: &Json, key: &str) -> (r: Option<String>)
    ensures
        opt_view(r) == str_at(j@, key@),
{
    match j.get(key) {
        Some(value) => match value.as_str() {
            Some(text) => Some(text.clone()),
            None => None,
        },
        None => None,
    }
}

fn get_optional_str(j: &Json, key: &str) -> (r: Option<Option<String>>)
    ensures
        match r {
            Some(text) => optional_str_at(j@, key@) == Some(opt_view(text)),
            None => optional_str_at(j@, key@) is None,
        },
{
    match j.get(key) {
        Some(value) => match value.as_str() {
            Some(text) => Some(Some(text.clone())),
            None => None,
        },
        None => Some(None),
    }
}

fn get_bool(j: &Json, key: &str) -> (r: Option<bool>)
    ensures
        r == bool_at(j@, key@),
{
    match j.get(key) {
        Some(Json::Bool(b)) => Some(*b),
        _ => None,
    }
}

fn get_array<'a>(j: &'a Json, key: &str) -> (r: Option<&'a Vec<Json>>)
    ensures
        match r {
            Some(items) => array_at(j@, key@) == Some(items_view(items@)),
            None => array_at(j@, key@) is None,
        },
{
    match j.get(key) {
        Some(value) => value.as_array(),
        None => None,
    }
}

fn decode_content(j: &Json) -> (r: Option<Content>)
    ensures
        match r {
            Some(c) => read_content(j@) == Some(c@),
            None => read_content(j@) is None,
        },
{
    let kind = match get_str(j, "type") {
        Some(kind) => kind,
        None => {
            return None;
        },
    };
    if *kind.as_str() == *"text" {
        match get_str(j, "text") {
            Some(text) => Some(Content::Text(TextContent { text })),
            None => None,
        }
    } else if *kind.as_str() == *"image" {
        match (get_str(j, "url"), get_str(j, "mimeType")) {
            (Some(url), Some(mime_type)) => Some(Content::Image(ImageContent { url, mime_type })),
            _ => None,
        }
    } else if *kind.as_str() == *"resource" {
        match (get_str(j, "url"), get_optional_str(j, "mimeType")) {
            (Some(url), Some(mime_type)) => Some(
                Content::Resource(ResourceContent { url, mime_type }),
            ),
            _ => None,
        }
    } else {
        None
    }
}

fn decode_content_list(items: &Vec<Json>) -> (r: Option<Vec<Content>>)
    ensures
        match r {
            Some(l) => read_list(items_view(items@), |x: JsonView| read_content(x)) == Some(
                views(l@),
            ),
            None => read_list(items_view(items@), |x: JsonView| read_content(x)) is None,
        },
{
    let ghost read = |x: JsonView| read_content(x);
    let mut out: Vec<Content> = Vec::new();
    let mut i: usize = 0;
    while i < items.len()
        invariant
            0 <= i <= items.len(),
            out.len() == i,
            read == (|x: JsonView| read_content(x)),
            forall|k: int| 0 <= k < i ==> read(#[trigger] items_view(items@)[k]) == Some(out[k]@),
        decreases items.len() - i,
    {
        match decode_content(&items[i]) {
            Some(c) => {
                out.push(c);
            },
            None => {
                assert(read(items_view(items@)[i as int]) is None);
                return None;
            },
        }
        i += 1;
    }
    proof {
        assert(views(out@).len() == items_view(items@).len());
        assert forall|k: int| 0 <= k < views(out@).len() implies read(
            #[trigger] items_view(items@)[k],
        ) == Some(views(out@)[k]) by {}
        lemma_list_round_trip(views(out@), items_view(items@), read);
    }
    Some(out)
}


fn decode_call_tool(j: &Json) -> (r: Option<CallToolResult>)
    ensures
        match r {
            Some(c) => read_call_tool(j@) == Some(c@),
            None => read_call_tool(j@) is None,
        },
{
    match (get_array(j, "content"), get_bool(j, "isError")) {
        (Some(items), Some(is_error)) => match decode_content_list(items) {
            Some(content) => Some(CallToolResult { content, is_error }),
            None => None,
        },
        _ => None,
    }
}

fn decode_tool(j: &Json) -> (r: Option<ToolDefinition>)
    ensures
        match r {
            Some(t) => read_tool(j@) == Some(t@),
            None => read_tool(j@) is None,
        },
{
    match (get_str(j, "name"), get_optional_str(j, "description"), j.get("inputSchema")) {
        (Some(name), Some(description), Some(schema)) => Some(
            ToolDefinition { name, description, input_schema: schema.duplicate() },
        ),
        _ => None,
    }
}

fn decode_tool_list(items: &Vec<Json>) -> (r: Option<Vec<ToolDefinition>>)
    ensures
        match r {
            Some(l) => read_list(items_view(items@), |x: JsonView| read_tool(x)) == Some(views(l@)),
            None => read_list(items_view(items@), |x: JsonView| read_tool(x)) is None,
        },
{
    let ghost read = |x: JsonView| read_tool(x);
    let mut out: Vec<ToolDefinition> = Vec::new();
    let mut i: usize = 0;
    while i < items.len()
        invariant
            0 <= i <= items.len(),
            out.len() == i,
            read == (|x: JsonView| read_tool(x)),
            forall|k: int| 0 <= k < i ==> read(#[trigger] items_view(items@)[k]) == Some(out[k]@),
        decreases items.len() - i,
    {
        match decode_tool(&items[i]) {
            Some(c) => {
                out.push(c);
            },
            None => {
                assert(read(items_view(items@)[i as int]) is None);
                return None;
            },
        }
        i += 1;
    }
    proof {
        assert(views(out@).len() == items_view(items@).len());
        assert forall|k: int| 0 <= k < views(out@).len() implies read(
            #[trigger] items_view(items@)[k],
        ) == Some(views(out@)[k]) by {}
        lemma_list_round_trip(views(out@), items_view(items@), read);
    }
    Some(out)
}

fn decode_resource(key: &str, j: &Json) -> (r: Option<ResourceDefinition>)
    ensures
        match r {
            Some(x) => read_resource(key@, j@) == Some(x@),
            None => read_resource(key@, j@) is None,
        },
{
    match (
        get_str(j, key),
        get_str(j, "name"),
        get_optional_str(j, "description"),
        get_optional_str(j, "mimeType"),
    ) {
        (Some(uri), Some(name), Some(description), Some(mime_type)) => {
            let annotations = match j.get("annotations") {
                Some(a) => Some(a.duplicate()),
                None => None,
            };
            Some(ResourceDefinition { uri, name, description, mime_type, annotations })
        },
        _ => None,
    }
}

fn decode_resource_list(key: &str, items: &Vec<Json>) -> (r: Option<Vec<ResourceDefinition>>)
    ensures
        match r {
            Some(l) => read_list(items_view(items@), |x: JsonView| read_resource(key@, x)) == Some(views(l@)),
            None => read_list(items_view(items@), |x: JsonView| read_resource(key@, x)) is None,
        },
{
    let ghost read = |x: JsonView| read_resource(key@, x);
    let mut out: Vec<ResourceDefinition> = Vec::new();
    let mut i: usize = 0;
    while i < items.len()
        invariant
            0 <= i <= items.len(),
            out.len() == i,
            read == (|x: JsonView| read_resource(key@, x)),
            forall|k: int| 0 <= k < i ==> read(#[trigger] items_view(items@)[k]) == Some(out[k]@),
        decreases items.len() - i,
    {
        match decode_resource(key, &items[i]) {
            Some(c) => {
                out.push(c);
            },
            None => {
                assert(read(items_view(items@)[i as int]) is None);
                return None;
            },
        }
        i += 1;
    }
    proof {
        assert(views(out@).len() == items_view(items@).len());
        assert forall|k: int| 0 <= k < views(out@).len() implies read(
            #[trigger] items_view(items@)[k],
        ) == Some(views(out@)[k]) by {}
        lemma_list_round_trip(views(out@), items_view(items@), read);
    }
    Some(out)
}

fn decode_contents(j: &Json) -> (r: Option<ResourceContents>)
    ensures
        match r {
            Some(c) => read_contents(j@) == Some(c@),
            None => read_contents(j@) is None,
        },
{
    match (get_str(j, "uri"), get_optional_str(j, "mimeType")) {
        (Some(uri), Some(mime_type)) => match get_str(j, "text") {
            Some(text) => Some(ResourceContents::Text { uri, mime_type, text }),
            None => match get_str(j, "blob") {
                Some(blob) => Some(ResourceContents::Blob { uri, mime_type, blob }),
                None => None,
            },
        },
        _ => None,
    }
}

fn decode_contents_list(items: &Vec<Json>) -> (r: Option<Vec<ResourceContents>>)
    ensures
        match r {
            Some(l) => read_list(items_view(items@), |x: JsonView| read_contents(x)) == Some(views(l@)),
            None => read_list(items_view(items@), |x: JsonView| read_contents(x)) is None,
        },
{
    let ghost read = |x: JsonView| read_contents(x);
    let mut out: Vec<ResourceContents> = Vec::new();
    let mut i: usize = 0;
    while i < items.len()
        invariant
            0 <= i <= items.len(),
            out.len() == i,
            read == (|x: JsonView| read_contents(x)),
            forall|k: int| 0 <= k < i ==> read(#[trigger] items_view(items@)[k]) == Some(out[k]@),
        decreases items.len() - i,
    {
        match decode_contents(&items[i]) {
            Some(c) => {
                out.push(c);
            },
            None => {
                assert(read(items_view(items@)[i as int]) is None);
                return None;
            },
        }
        i += 1;
    }
    proof {
        assert(views(out@).len() == items_view(items@).len());
        assert forall|k: int| 0 <= k < views(out@).len() implies read(
            #[trigger] items_view(items@)[k],
        ) == Some(views(out@)[k]) by {}
        lemma_list_round_trip(views(out@), items_view(items@), read);
    }
    Some(out)
}

fn decode_argument(j: &Json) -> (r: Option<PromptArgument>)
    ensures
        match r {
            Some(a) => read_argument(j@) == Some(a@),
            None => read_argument(j@) is None,
        },
{
    match (get_str(j, "name"), get_optional_str(j, "description"), get_bool(j, "required")) {
        (Some(name), Some(description), Some(required)) => Some(
            PromptArgument { name, description, required },
        ),
        _ => None,
    }
}

fn decode_argument_list(items: &Vec<Json>) -> (r: Option<Vec<PromptArgument>>)
    ensures
        match r {
            Some(l) => read_list(items_view(items@), |x: JsonView| read_argument(x)) == Some(views(l@)),
            None => read_list(items_view(items@), |x: JsonView| read_argument(x)) is None,
        },
{
    let ghost read = |x: JsonView| read_argument(x);
    let mut out: Vec<PromptArgument> = Vec::new();
    let mut i: usize = 0;
    while i < items.len()
        invariant
            0 <= i <= items.len(),
            out.len() == i,
            read == (|x: JsonView| read_argument(x)),
            forall|k: int| 0 <= k < i ==> read(#[trigger] items_view(items@)[k]) == Some(out[k]@),
        decreases items.len() - i,
    {
        match decode_argument(&items[i]) {
            Some(c) => {
                out.push(c);
            },
            None => {
                assert(read(items_view(items@)[i as int]) is None);
                return None;
            },
        }
        i += 1;
    }
    proof {
        assert(views(out@).len() == items_view(items@).len());
        assert forall|k: int| 0 <= k < views(out@).len() implies read(
            #[trigger] items_view(items@)[k],
        ) == Some(views(out@)[k]) by {}
        lemma_list_round_trip(views(out@), items_view(items@), read);
    }
    Some(out)
}

fn decode_prompt(j: &Json) -> (r: Option<PromptDefinition>)
    ensures
        match r {
            Some(p) => read_prompt(j@) == Some(p@),
            None => read_prompt(j@) is None,
        },
{
    match (get_str(j, "name"), get_optional_str(j, "description"), get_array(j, "arguments")) {
        (Some(name), Some(description), Some(items)) => match decode_argument_list(items) {
            Some(arguments) => Some(PromptDefinition { name, description, arguments }),
            None => None,
        },
        _ => None,
    }
}

fn decode_prompt_list(items: &Vec<Json>) -> (r: Option<Vec<PromptDefinition>>)
    ensures
        match r {
            Some(l) => read_list(items_view(items@), |x: JsonView| read_prompt(x)) == Some(views(l@)),
            None => read_list(items_view(items@), |x: JsonView| read_prompt(x)) is None,
        },
{
    let ghost read = |x: JsonView| read_prompt(x);
    let mut out: Vec<PromptDefinition> = Vec::new();
    let mut i: usize = 0;
    while i < items.len()
        invariant
            0 <= i <= items.len(),
            out.len() == i,
            read == (|x: JsonView| read_prompt(x)),
            forall|k: int| 0 <= k < i ==> read(#[trigger] items_view(items@)[k]) == Some(out[k]@),
        decreases items.len() - i,
    {
        match decode_prompt(&items[i]) {
            Some(c) => {
                out.push(c);
            },
            None => {
                assert(read(items_view(items@)[i as int]) is None);
                return None;
            },
        }
        i += 1;
    }
    proof {
        assert(views(out@).len() == items_view(items@).len());
        assert forall|k: int| 0 <= k < views(out@).len() implies read(
            #[trigger] items_view(items@)[k],
        ) == Some(views(out@)[k]) by {}
        lemma_list_round_trip(views(out@), items_view(items@), read);
    }
    Some(out)
}

fn decode_role(name: &str) -> (r: Option<Role>)
    ensures
        r == read_role(name@),
{
    if *name == *"user" {
        Some(Role::User)
    } else if *name == *"assistant" {
        Some(Role::Assistant)
    } else {
        None
    }
}

fn decode_message(j: &Json) -> (r: Option<PromptMessage>)
    ensures
        match r {
            Some(m) => read_message(j@) == Some(m@),
            None => read_message(j@) is None,
        },
{
    match (get_str(j, "role"), j.get("content")) {
        (Some(name), Some(c)) => match (decode_role(name.as_str()), decode_content(c)) {
            (Some(role), Some(content)) => Some(PromptMessage { role, content }),
            _ => None,
        },
        _ => None,
    }
}

fn decode_message_list(items: &Vec<Json>) -> (r: Option<Vec<PromptMessage>>)
    ensures
        match r {
            Some(l) => read_list(items_view(items@), |x: JsonView| read_message(x)) == Some(views(l@)),
            None => read_list(items_view(items@), |x: JsonView| read_message(x)) is None,
        },
{
    let ghost read = |x: JsonView| read_message(x);
    let mut out: Vec<PromptMessage> = Vec::new();
    let mut i: usize = 0;
    while i < items.len()
        invariant
            0 <= i <= items.len(),
            out.len() == i,
            read == (|x: JsonView| read_message(x)),
            forall|k: int| 0 <= k < i ==> read(#[trigger] items_view(items@)[k]) == Some(out[k]@),
        decreases items.len() - i,
    {
        match decode_message(&items[i]) {
            Some(c) => {
                out.push(c);
            },
            None => {
                assert(read(items_view(items@)[i as int]) is None);
                return None;
            },
        }
        i += 1;
    }
    proof {
        assert(views(out@).len() == items_view(items@).len());
        assert forall|k: int| 0 <= k < views(out@).len() implies read(
            #[trigger] items_view(items@)[k],
        ) == Some(views(out@)[k]) by {}
        lemma_list_round_trip(views(out@), items_view(items@), read);
    }
    Some(out)
}

fn decode_get_prompt(j: &Json) -> (r: Option<GetPromptResult>)
    ensures
        match r {
            Some(g) => read_get_prompt(j@) == Some(g@),
            None => read_get_prompt(j@) is None,
        },
{
    match (get_optional_str(j, "description"), get_array(j, "messages")) {
        (Some(description), Some(items)) => match decode_message_list(items) {
            Some(messages) => Some(GetPromptResult { description, messages }),
            None => None,
        },
        _ => None,
    }
}

fn get_list_changed(j: &Json, key: &str) -> (r: Option<bool>)
    ensures
        r == list_changed_at(j@, key@),
{
    match j.get(key) {
        Some(inner) => get_bool(inner, "listChanged"),
        None => None,
    }
}

fn decode_capabilities(j: &Json) -> (r: Option<ServerCapabilities>)
    ensures
        r == read_capabilities(j@),
{
    match (get_list_changed(j, "tools"), get_list_changed(j, "prompts"), j.get("resources")) {
        (Some(tools_list_changed), Some(prompts_list_changed), Some(resources)) => match (
            get_bool(resources, "subscribe"),
            get_bool(resources, "listChanged"),
        ) {
            (Some(resources_subscribe), Some(resources_list_changed)) => Some(
                ServerCapabilities {
                    prompts_list_changed,
                    resources_subscribe,
                    resources_list_changed,
                    tools_list_changed,
                },
            ),
            _ => None,
        },
        _ => None,
    }
}

fn decode_initialize(j: &Json) -> (r: Option<InitializeResult>)
    ensures
        match r {
            Some(i) => read_initialize(j@) == Some(i@),
            None => read_initialize(j@) is None,
        },
{
    match (
        j.get("capabilities"),
        get_str(j, "protocolVersion"),
        j.get("serverInfo"),
        get_optional_str(j, "instructions"),
    ) {
        (Some(c), Some(protocol_version), Some(info), Some(instructions)) => match (
            decode_capabilities(c),
            get_str(info, "name"),
            get_str(info, "version"),
        ) {
            (Some(capabilities), Some(server_name), Some(server_version)) => Some(
                InitializeResult {
                    capabilities,
                    instructions,
                    protocol_version,
                    server_name,
                    server_version,
                },
            ),
            _ => None,
        },
        _ => None,
    }
}

/// Reads a document as a result of the kind `kind`.
pub fn decode_result(kind: ResultKind, j: &Json) -> (r: Option<ServerResult>)
    ensures
        match r {
            Some(x) => read_result(kind, j@) == Some(x@),
            None => read_result(kind, j@) is None,
        },
{
    match kind {
        ResultKind::Empty => match j.as_object() {
            Some(_) => Some(ServerResult::Empty),
            None => None,
        },
        ResultKind::Initialize => match decode_initialize(j) {
            Some(i) => Some(ServerResult::Initialize(i)),
            None => None,
        },
        ResultKind::ListResources => match get_array(j, "resources") {
            Some(items) => match decode_resource_list("uri", items) {
                Some(l) => Some(ServerResult::ListResources(l)),
                None => None,
            },
            None => None,
        },
        ResultKind::ListResourceTemplates => match get_array(j, "resourceTemplates") {
            Some(items) => match decode_resource_list("uriTemplate", items) {
                Some(l) => Some(ServerResult::ListResourceTemplates(l)),
                None => None,
            },
            None => None,
        },
        ResultKind::ReadResource => match get_array(j, "contents") {
            Some(items) => match decode_contents_list(items) {
                Some(l) => Some(ServerResult::ReadResource(l)),
                None => None,
            },
            None => None,
        },
        ResultKind::ListPrompts => match get_array(j, "prompts") {
            Some(items) => match decode_prompt_list(items) {
                Some(l) => Some(ServerResult::ListPrompts(l)),
                None => None,
            },
            None => None,
        },
        ResultKind::GetPrompt => match decode_get_prompt(j) {
            Some(g) => Some(ServerResult::GetPrompt(g)),
            None => None,
        },
        ResultKind::CallTool => match decode_call_tool(j) {
            Some(c) => Some(ServerResult::CallTool(c)),
            None => None,
        },
        ResultKind::ListTools => match get_array(j, "tools") {
            Some(items) => match decode_tool_list(items) {
                Some(tools) => Some(ServerResult::ListTools(ListToolsResult { tools })),
                None => None,
            },
            None => None,
        },
    }
}

fn decode_error(j: &Json) -> (r: Option<ErrorData>)
    ensures
        match r {
            Some(e) => read_error(j@) == Some(
                (
                    ErrorView { message: e.message@, code: e.code as int },
                    match e.data {
                        Some(d) => Some(d@),
                        None => None,
                    },
                ),
            ),
            None => read_error(j@) is None,
        },
{
    let code = match j.get("code") {
        Some(Json::Int(code)) => *code,
        _ => {
            return None;
        },
    };
    let message = match get_str(j, "message") {
        Some(message) => message,
        None => {
            return None;
        },
    };
    if code < -2147483648 || code > 2147483647 {
        return None;
    }
    let data = match j.get("data") {
        Some(d) => Some(d.duplicate()),
        None => None,
    };
    Some(ErrorData { code: code as i32, message, data })
}

/// Reads a document as something that the server sent, where a result of
/// the kind `kind` is awaited.
pub fn decode_response(kind: ResultKind, j: &Json) -> (r: Option<ServerResponse>)
    ensures
        match r {
            Some(m) => read_response(kind, j@) == Some(m@),
            None => read_response(kind, j@) is None,
        },
{
    let json_rpc = match get_str(j, "jsonrpc") {
        Some(v) => v,
        None => {
            return None;
        },
    };
    match j.get("id") {
        Some(raw) => {
            let id = match id_from_json(raw) {
                Some(id) => id,
                None => {
                    return None;
                },
            };
            match j.get("result") {
                Some(r) => match decode_result(kind, r) {
                    Some(result) => Some(
                        ServerResponse::Response(JsonRpcResponse { json_rpc, id, result }),
                    ),
                    None => None,
                },
                None => match j.get("error") {
                    Some(e) => match decode_error(e) {
                        Some(error) => Some(
                            ServerResponse::Error(JsonRpcError { json_rpc, id, error }),
                        ),
                        None => None,
                    },
                    None => None,
                },
            }
        },
        None => match (get_str(j, "method"), j.get("params")) {
            (Some(method), Some(params)) => {
                if *method.as_str() == *"resourceUpdated" {
                    match get_str(params, "uri") {
                        Some(uri) => Some(
                            ServerResponse::Notification(
                                ServerNotification::ResourceUpdated { json_rpc, uri },
                            ),
                        ),
                        None => None,
                    }
                } else {
                    None
                }
            },
            _ => None,
        },
    }
}

} // verus!
