//! JSON-RPC envelopes, and the rules that hold for every request: the
//! version check and the shape of the reply.

use vstd::prelude::*;
use vstd::string::*;
use crate::error::{Error, ErrorView, BAD_REQUEST};
use crate::json::JsonView;
use crate::protocol::jsonrpc_version;
use crate::message::{
    CallToolParams, CallToolParamsView, ErrorData, GetPromptParams, GetPromptParamsView,
    InitializeParams, ServerResult, ServerResultView,
};
use crate::request_id::{RequestId, RequestIdView};
use crate::text::opt_view;

verus! {

/// What a request asks for: its method with the method's parameters.
#[derive(Debug, Clone, PartialEq)]
pub enum Call {
    Initialize(InitializeParams),
    Ping,
    ListResources,
    ListResourceTemplates,
    ReadResource { uri: String },
    Subscribe { uri: String },
    Unsubscribe { uri: String },
    ListPrompts,
    GetPrompt(GetPromptParams),
    ListTools,
    CallTool(CallToolParams),
    SetLevel { level: String },
    Complete,
}

/// What a [`Call`] holds.
pub enum CallView {
    Initialize { protocol_version: Seq<char> },
    Ping,
    ListResources,
    ListResourceTemplates,
    ReadResource { uri: Seq<char> },
    Subscribe { uri: Seq<char> },
    Unsubscribe { uri: Seq<char> },
    ListPrompts,
    GetPrompt(GetPromptParamsView),
    ListTools,
    CallTool(CallToolParamsView),
    SetLevel { level: Seq<char> },
    Complete,
}

impl View for Call {
    type V = CallView;

    open spec fn view(&self) -> CallView {
        match self {
            Call::Initialize(p) => CallView::Initialize { protocol_version: p.protocol_version@ },
            Call::Ping => CallView::Ping,
            Call::ListResources => CallView::ListResources,
            Call::ListResourceTemplates => CallView::ListResourceTemplates,
            Call::ReadResource { uri } => CallView::ReadResource { uri: uri@ },
            Call::Subscribe { uri } => CallView::Subscribe { uri: uri@ },
            Call::Unsubscribe { uri } => CallView::Unsubscribe { uri: uri@ },
            Call::ListPrompts => CallView::ListPrompts,
            Call::GetPrompt(p) => CallView::GetPrompt(p@),
            Call::ListTools => CallView::ListTools,
            Call::CallTool(p) => CallView::CallTool(p@),
            Call::SetLevel { level } => CallView::SetLevel { level: level@ },
            Call::Complete => CallView::Complete,
        }
    }
}

/// A request of the client.
#[derive(Debug, Clone, PartialEq)]
pub struct ClientRequest {
    /// The JSON-RPC version that the message claims.
    pub json_rpc: String,
    pub id: RequestId,
    pub call: Call,
}

/// What a [`ClientRequest`] holds.
pub struct ClientRequestView {
    pub json_rpc: Seq<char>,
    pub id: RequestIdView,
    pub call: CallView,
}

impl View for ClientRequest {
    type V = ClientRequestView;

    open spec fn view(&self) -> ClientRequestView {
        ClientRequestView { json_rpc: self.json_rpc@, id: self.id@, call: self.call@ }
    }
}

/// A notification of the client. Only `cancelled` means something to the
/// server; any other is taken and ignored.
#[derive(Debug, Clone, PartialEq)]
pub enum ClientNotification {
    Cancelled { json_rpc: String, request_id: RequestId, reason: Option<String> },
    Other { json_rpc: String, method: String },
}

/// What a [`ClientNotification`] holds.
pub enum ClientNotificationView {
    Cancelled { json_rpc: Seq<char>, request_id: RequestIdView, reason: Option<Seq<char>> },
    Other { json_rpc: Seq<char>, method: Seq<char> },
}

impl View for ClientNotification {
    type V = ClientNotificationView;

    open spec fn view(&self) -> ClientNotificationView {
        match self {
            ClientNotification::Cancelled {
                json_rpc,
                request_id,
                reason,
            } => ClientNotificationView::Cancelled {
                json_rpc: json_rpc@,
                request_id: request_id@,
                reason: opt_view(*reason),
            },
            ClientNotification::Other { json_rpc, method } => ClientNotificationView::Other {
                json_rpc: json_rpc@,
                method: method@,
            },
        }
    }
}

/// Anything that the client sends.
#[derive(Debug, Clone, PartialEq)]
pub enum ClientMessage {
    Request(ClientRequest),
    Notification(ClientNotification),
}

/// What a [`ClientMessage`] holds.
pub enum ClientMessageView {
    Request(ClientRequestView),
    Notification(ClientNotificationView),
}

impl View for ClientMessage {
    type V = ClientMessageView;

    open spec fn view(&self) -> ClientMessageView {
        match self {
            ClientMessage::Request(r) => ClientMessageView::Request(r@),
            ClientMessage::Notification(n) => ClientMessageView::Notification(n@),
        }
    }
}

/// The reply to a request that succeeded.
#[derive(Debug, Clone, PartialEq)]
pub struct JsonRpcResponse {
    pub json_rpc: String,
    pub id: RequestId,
    pub result: ServerResult,
}

/// The reply to a request that failed.
#[derive(Debug, Clone, PartialEq)]
pub struct JsonRpcError {
    pub json_rpc: String,
    pub id: RequestId,
    pub error: ErrorData,
}

/// A message that the server sends unasked.
#[derive(Debug, Clone, PartialEq)]
pub enum ServerNotification {
    /// The resource at `uri` has changed.
    ResourceUpdated { json_rpc: String, uri: String },
}

/// Anything that the server sends; `Nothing` where it stays silent.
#[derive(Debug, Clone, PartialEq)]
pub enum ServerResponse {
    Response(JsonRpcResponse),
    Notification(ServerNotification),
    Error(JsonRpcError),
    Nothing,
}

/// What a [`ServerResponse`] holds.
pub enum ServerResponseView {
    Response { json_rpc: Seq<char>, id: RequestIdView, result: ServerResultView },
    ResourceUpdated { json_rpc: Seq<char>, uri: Seq<char> },
    Error { json_rpc: Seq<char>, id: RequestIdView, error: ErrorView, data: Option<JsonView> },
    Nothing,
}

impl View for ServerResponse {
    type V = ServerResponseView;

    open spec fn view(&self) -> ServerResponseView {
        match self {
            ServerResponse::Response(r) => ServerResponseView::Response {
                json_rpc: r.json_rpc@,
                id: r.id@,
                result: r.result@,
            },
            ServerResponse::Notification(ServerNotification::ResourceUpdated { json_rpc, uri }) =>
                ServerResponseView::ResourceUpdated { json_rpc: json_rpc@, uri: uri@ },
            ServerResponse::Error(e) => ServerResponseView::Error {
                json_rpc: e.json_rpc@,
                id: e.id@,
                error: ErrorView { message: e.error.message@, code: e.error.code as int },
                data: match e.error.data {
                    Some(d) => Some(d@),
                    None => None,
                },
            },
            ServerResponse::Nothing => ServerResponseView::Nothing,
        }
    }
}

/// The identifier of a request.
pub fn request_id(request: &ClientRequest) -> (id: &RequestId)
    ensures
        id@ == request@.id,
{
    &request.id
}

/// The error for a request that claims the JSON-RPC version `json_rpc`.
pub open spec fn version_mismatch(json_rpc: Seq<char>) -> ErrorView {
    ErrorView {
        message: "Client is using JSON RPC version "@ + json_rpc
            + ", but server only supports version "@ + "2.0"@,
        code: 400,
    }
}

/// Accepts the version `2.0` and no other. A refusal has the code 400 and
/// names both versions.
pub fn checked_version(json_rpc: String) -> (r: Result<String, Error>)
    ensures
        match r {
            Ok(v) => json_rpc@ == "2.0"@ && v@ == json_rpc@,
            Err(e) => json_rpc@ != "2.0"@ && e@ == version_mismatch(json_rpc@),
        },
{
    let expected = jsonrpc_version();
    if *json_rpc.as_str() == *expected {
        Ok(json_rpc)
    } else {
        let mut message = "Client is using JSON RPC version ".to_owned();
        message.append(json_rpc.as_str());
        message.append(", but server only supports version ");
        message.append(expected);
        Err(Error { message, code: BAD_REQUEST })
    }
}

/// The reply to the request `id` whose handling ended in `outcome`.
pub open spec fn reply(id: RequestIdView, outcome: Result<ServerResult, Error>)
    -> ServerResponseView {
    match outcome {
        Ok(result) => ServerResponseView::Response { json_rpc: "2.0"@, id, result: result@ },
        Err(error) => ServerResponseView::Error {
            json_rpc: "2.0"@,
            id,
            error: error@,
            data: None,
        },
    }
}

/// Builds the reply to a request: the result under the request's
/// identifier, or the error with its code and message under the same
/// identifier.
pub fn respond(id: RequestId, outcome: Result<ServerResult, Error>) -> (r: ServerResponse)
    ensures
        r@ == reply(id@, outcome),
{
    match outcome {
        Ok(result) => ServerResponse::Response(
            JsonRpcResponse { json_rpc: jsonrpc_version().to_owned(), id, result },
        ),
        Err(error) => ServerResponse::Error(
            JsonRpcError {
                json_rpc: jsonrpc_version().to_owned(),
                id,
                error: ErrorData { code: error.code, message: error.message, data: None },
            },
        ),
    }
}

} // verus!
