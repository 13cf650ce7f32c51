//! The wire form of what a client sends: requests and notifications as
//! JSON documents, read and written.

use vstd::prelude::*;
use vstd::string::*;
use crate::json::{lemma_push_lookup, members_view, Json, JsonView, ObjectBuilder};
use crate::message::{
    pairs_view, CallToolParams, CallToolParamsView, GetPromptParams, GetPromptParamsView,
    InitializeParams,
};
use crate::registry::prompt::string_members;
use crate::request_id::{RequestId, RequestIdView};
use crate::rpc::{
    Call, CallView, ClientMessage, ClientMessageView, ClientNotification, ClientNotificationView,
    ClientRequest, ClientRequestView,
};
use crate::text::opt_view;

verus! {

/// Why a document is no message that the server can handle.
#[derive(Debug, Clone, PartialEq)]
pub enum DecodeError {
    /// The document is neither a request nor a notification.
    Malformed,
    /// The document is a request for a method that the server does not
    /// know.
    MethodNotFound { id: RequestId, method: String },
    /// The document is a request whose parameters do not fit its method.
    InvalidParams { id: RequestId, method: String },
}

/// What a [`DecodeError`] holds.
pub enum DecodeErrorView {
    Malformed,
    MethodNotFound { id: RequestIdView, method: Seq<char> },
    InvalidParams { id: RequestIdView, method: Seq<char> },
}

impl View for DecodeError {
    type V = DecodeErrorView;

    open spec fn view(&self) -> DecodeErrorView {
        match self {
            DecodeError::Malformed => DecodeErrorView::Malformed,
            DecodeError::MethodNotFound { id, method } => DecodeErrorView::MethodNotFound {
                id: id@,
                method: method@,
            },
            DecodeError::InvalidParams { id, method } => DecodeErrorView::InvalidParams {
                id: id@,
                method: method@,
            },
        }
    }
}

/// The identifier that a document stands for: a string or an integer.
pub open spec fn id_of(j: JsonView) -> Option<RequestIdView> {
    match j {
        JsonView::Str(s) => Some(RequestIdView::String(s)),
        JsonView::Int(n) => Some(RequestIdView::Number(n)),
        _ => None,
    }
}

/// The document that stands for an identifier.
pub open spec fn id_json(id: RequestIdView) -> JsonView {
    match id {
        RequestIdView::String(s) => JsonView::Str(s),
        RequestIdView::Number(n) => JsonView::Int(n),
    }
}

/// The name of the method of a call.
pub open spec fn method_of(call: CallView) -> Seq<char> {
    match call {
        CallView::Initialize { .. } => "initialize"@,
        CallView::Ping => "ping"@,
        CallView::ListResources => "listResources"@,
        CallView::ListResourceTemplates => "listResourceTemplates"@,
        CallView::ReadResource { .. } => "readResource"@,
        CallView::Subscribe { .. } => "subscribe"@,
        CallView::Unsubscribe { .. } => "unsubscribe"@,
        CallView::ListPrompts => "listPrompts"@,
        CallView::GetPrompt(_) => "getPrompt"@,
        CallView::ListTools => "listTools"@,
        CallView::CallTool(_) => "callTool"@,
        CallView::SetLevel { .. } => "setLevel"@,
        CallView::Complete => "complete"@,
    }
}

/// The object with the one member `key`, a string.
pub open spec fn single(key: Seq<char>, value: Seq<char>) -> JsonView {
    JsonView::Object(Seq::empty().push((key, JsonView::Str(value))))
}

/// `members` with the object of `arguments` under `arguments`, if there
/// are any.
pub open spec fn with_arguments(
    members: Seq<(Seq<char>, JsonView)>,
    arguments: Option<Seq<(Seq<char>, JsonView)>>,
) -> Seq<(Seq<char>, JsonView)> {
    match arguments {
        Some(a) => members.push(("arguments"@, JsonView::Object(a))),
        None => members,
    }
}

/// The parameters that a call is written with, if it has any.
pub open spec fn params_of(call: CallView) -> Option<JsonView> {
    match call {
        CallView::Initialize { protocol_version } => Some(
            single("protocolVersion"@, protocol_version),
        ),
        CallView::ReadResource { uri } => Some(single("uri"@, uri)),
        CallView::Subscribe { uri } => Some(single("uri"@, uri)),
        CallView::Unsubscribe { uri } => Some(single("uri"@, uri)),
        CallView::GetPrompt(p) => Some(
            JsonView::Object(
                with_arguments(
                    Seq::empty().push(("name"@, JsonView::Str(p.name))),
                    match p.arguments {
                        Some(pairs) => Some(string_members(Some(pairs))),
                        None => None,
                    },
                ),
            ),
        ),
        CallView::CallTool(p) => Some(
            JsonView::Object(
                with_arguments(Seq::empty().push(("name"@, JsonView::Str(p.name))), p.arguments),
            ),
        ),
        CallView::SetLevel { level } => Some(single("level"@, level)),
        _ => None,
    }
}

/// `members` with `params` under `params`, if there are any.
pub open spec fn with_params(members: Seq<(Seq<char>, JsonView)>, params: Option<JsonView>) -> Seq<
    (Seq<char>, JsonView),
> {
    match params {
        Some(p) => members.push(("params"@, p)),
        None => members,
    }
}

/// The document that a request is written as.
pub open spec fn encode_request(r: ClientRequestView) -> JsonView {
    JsonView::Object(
        with_params(
            Seq::empty().push(("jsonrpc"@, JsonView::Str(r.json_rpc))).push(
                ("id"@, id_json(r.id)),
            ).push(("method"@, JsonView::Str(method_of(r.call)))),
            params_of(r.call),
        ),
    )
}

/// The document that a notification is written as.
pub open spec fn encode_notification(n: ClientNotificationView) -> JsonView {
    match n {
        ClientNotificationView::Cancelled { json_rpc, request_id, reason } => JsonView::Object(
            Seq::empty().push(("jsonrpc"@, JsonView::Str(json_rpc))).push(
                ("method"@, JsonView::Str("cancelled"@)),
            ).push(
                (
                    "params"@,
                    JsonView::Object(
                        crate::json::with_optional_string(
                            Seq::empty().push(("requestId"@, id_json(request_id))),
                            "reason"@,
                            reason,
                        ),
                    ),
                ),
            ),
        ),
        ClientNotificationView::Other { json_rpc, method } => JsonView::Object(
            Seq::empty().push(("jsonrpc"@, JsonView::Str(json_rpc))).push(
                ("method"@, JsonView::Str(method)),
            ),
        ),
    }
}

/// The document that a message of the client is written as.
pub open spec fn encode_message(m: ClientMessageView) -> JsonView {
    match m {
        ClientMessageView::Request(r) => encode_request(r),
        ClientMessageView::Notification(n) => encode_notification(n),
    }
}

/// The string under `key` in the parameters, if the parameters are there
/// and hold one.
pub open spec fn string_param(params: Option<JsonView>, key: Seq<char>) -> Option<Seq<char>> {
    match params {
        Some(p) => match p.get(key) {
            Some(JsonView::Str(s)) => Some(s),
            _ => None,
        },
        None => None,
    }
}

/// Whether every member of `members` is a string.
pub open spec fn all_strings(members: Seq<(Seq<char>, JsonView)>) -> bool {
    forall|i: int| 0 <= i < members.len() ==> (#[trigger] members[i]).1 is Str
}

/// The members of `members` as pairs of strings.
pub open spec fn as_pairs(members: Seq<(Seq<char>, JsonView)>) -> Seq<(Seq<char>, Seq<char>)> {
    Seq::new(members.len(), |i: int| (members[i].0, members[i].1->Str_0))
}

/// The arguments object of the parameters: `None` where it is there and is
/// no object; else what it holds, if it is there at all.
pub open spec fn arguments_param(params: JsonView) -> Option<Option<Seq<(Seq<char>, JsonView)>>> {
    match params.get("arguments"@) {
        None => Some(None),
        Some(JsonView::Object(members)) => Some(Some(members)),
        Some(_) => None,
    }
}

/// The call that `method` and `params` stand for: `None` for a method
/// that is not known, `Some(None)` for parameters that do not fit the
/// method.
pub open spec fn decode_call(method: Seq<char>, params: Option<JsonView>) -> Option<
    Option<CallView>,
> {
    if method == "initialize"@ {
        Some(
            match string_param(params, "protocolVersion"@) {
                Some(v) => Some(CallView::Initialize { protocol_version: v }),
                None => None,
            },
        )
    } else if method == "ping"@ {
        Some(Some(CallView::Ping))
    } else if method == "listResources"@ {
        Some(Some(CallView::ListResources))
    } else if method == "listResourceTemplates"@ {
        Some(Some(CallView::ListResourceTemplates))
    } else if method == "readResource"@ {
        Some(
            match string_param(params, "uri"@) {
                Some(uri) => Some(CallView::ReadResource { uri }),
                None => None,
            },
        )
    } else if method == "subscribe"@ {
        Some(
            match string_param(params, "uri"@) {
                Some(uri) => Some(CallView::Subscribe { uri }),
                None => None,
            },
        )
    } else if method == "unsubscribe"@ {
        Some(
            match string_param(params, "uri"@) {
                Some(uri) => Some(CallView::Unsubscribe { uri }),
                None => None,
            },
        )
    } else if method == "listPrompts"@ {
        Some(Some(CallView::ListPrompts))
    } else if method == "getPrompt"@ {
        Some(
            match (string_param(params, "name"@), params) {
                (Some(name), Some(p)) => match arguments_param(p) {
                    Some(None) => Some(
                        CallView::GetPrompt(GetPromptParamsView { name, arguments: None }),
                    ),
                    Some(Some(members)) => if all_strings(members) {
                        Some(
                            CallView::GetPrompt(
                                GetPromptParamsView { name, arguments: Some(as_pairs(members)) },
                            ),
                        )
                    } else {
                        None
                    },
                    None => None,
                },
                _ => None,
            },
        )
    } else if method == "listTools"@ {
        Some(Some(CallView::ListTools))
    } else if method == "callTool"@ {
        Some(
            match (string_param(params, "name"@), params) {
                (Some(name), Some(p)) => match arguments_param(p) {
                    Some(arguments) => Some(
                        CallView::CallTool(CallToolParamsView { name, arguments }),
                    ),
                    None => None,
                },
                _ => None,
            },
        )
    } else if method == "setLevel"@ {
        Some(
            match string_param(params, "level"@) {
                Some(level) => Some(CallView::SetLevel { level }),
                None => None,
            },
        )
    } else if method == "complete"@ {
        Some(Some(CallView::Complete))
    } else {
        None
    }
}

/// The notification that a document without an identifier stands for.
pub open spec fn decode_notification(
    json_rpc: Seq<char>,
    method: Seq<char>,
    params: Option<JsonView>,
) -> Result<ClientMessageView, DecodeErrorView> {
    if method == "cancelled"@ {
        match params {
            Some(p) => match p.get("requestId"@) {
                Some(id) => match id_of(id) {
                    Some(request_id) => Ok(
                        ClientMessageView::Notification(
                            ClientNotificationView::Cancelled {
                                json_rpc,
                                request_id,
                                reason: string_param(params, "reason"@),
                            },
                        ),
                    ),
                    None => Err(DecodeErrorView::Malformed),
                },
                None => Err(DecodeErrorView::Malformed),
            },
            None => Err(DecodeErrorView::Malformed),
        }
    } else {
        Ok(ClientMessageView::Notification(ClientNotificationView::Other { json_rpc, method }))
    }
}

/// The message that a document stands for.
///
/// A message is an object with the strings `jsonrpc` and `method`. With an
/// `id`, a string or an integer, it is a request, and its method has to be
/// known and its parameters have to fit. Without an `id` it is a
/// notification.
pub open spec fn decode_message(j: JsonView) -> Result<ClientMessageView, DecodeErrorView> {
    match (j.get("jsonrpc"@), j.get("method"@)) {
        (Some(JsonView::Str(json_rpc)), Some(JsonView::Str(method))) => match j.get("id"@) {
            Some(id) => match id_of(id) {
                Some(id) => match decode_call(method, j.get("params"@)) {
                    Some(Some(call)) => Ok(
                        ClientMessageView::Request(ClientRequestView { json_rpc, id, call }),
                    ),
                    Some(None) => Err(DecodeErrorView::InvalidParams { id, method }),
                    None => Err(DecodeErrorView::MethodNotFound { id, method }),
                },
                None => Err(DecodeErrorView::Malformed),
            },
            None => decode_notification(json_rpc, method, j.get("params"@)),
        },
        _ => Err(DecodeErrorView::Malformed),
    }
}


/// The value of an optional document.
pub open spec fn opt_json(j: Option<&Json>) -> Option<JsonView> {
    match j {
        Some(x) => Some(x@),
        None => None,
    }
}

pub(crate) fn id_to_json(id: &RequestId) -> (r: Json)
    ensures
        r@ == id_json(id@),
{
    match id {
        RequestId::String(s) => Json::Str(s.clone()),
        RequestId::Number(n) => Json::Int(*n),
    }
}

pub(crate) fn id_from_json(j: &Json) -> (r: Option<RequestId>)
    ensures
        match r {
            Some(id) => id_of(j@) == Some(id@),
            None => id_of(j@) is None,
        },
{
    match j {
        Json::Str(s) => Some(RequestId::String(s.clone())),
        Json::Int(n) => Some(RequestId::Number(*n)),
        _ => None,
    }
}

/// A copy of the members of an object.
fn copy_members(members: &Vec<(String, Json)>) -> (r: Vec<(String, Json)>)
    ensures
        members_view(r@) == members_view(members@),
{
    let mut out: Vec<(String, Json)> = Vec::new();
    let mut i: usize = 0;
    while i < members.len()
        invariant
            0 <= i <= members.len(),
            out.len() == i,
            forall|k: int|
                0 <= k < i ==> (#[trigger] out[k]).0@ == members[k].0@ && out[k].1@
                    == members[k].1@,
        decreases members.len() - i,
    {
        out.push((members[i].0.clone(), members[i].1.duplicate()));
        i += 1;
    }
    assert(members_view(out@) =~= members_view(members@));
    out
}

/// The members of the object that holds `pairs`, each as a string.
fn pairs_to_members(pairs: &Vec<(String, String)>) -> (r: Vec<(String, Json)>)
    ensures
        members_view(r@) == string_members(Some(pairs_view(pairs@))),
{
    let mut out: Vec<(String, Json)> = Vec::new();
    let mut i: usize = 0;
    while i < pairs.len()
        invariant
            0 <= i <= pairs.len(),
            out.len() == i,
            forall|k: int|
                0 <= k < i ==> (#[trigger] out[k]).0@ == pairs[k].0@ && out[k].1@ == JsonView::Str(
                    pairs[k].1@,
                ),
        decreases pairs.len() - i,
    {
        out.push((pairs[i].0.clone(), Json::Str(pairs[i].1.clone())));
        i += 1;
    }
    assert(members_view(out@) =~= string_members(Some(pairs_view(pairs@))));
    out
}

fn single_object(key: &str, value: &str) -> (r: Json)
    ensures
        r@ == single(key@, value@),
{
    ObjectBuilder::new().string(key, value).build()
}

fn encode_params(call: &Call) -> (r: Option<Json>)
    ensures
        match r {
            Some(params) => params_of(call@) == Some(params@),
            None => params_of(call@) is None,
        },
{
    match call {
        Call::Initialize(p) => Some(
            single_object("protocolVersion", p.protocol_version.as_str()),
        ),
        Call::ReadResource { uri } => Some(single_object("uri", uri.as_str())),
        Call::Subscribe { uri } => Some(single_object("uri", uri.as_str())),
        Call::Unsubscribe { uri } => Some(single_object("uri", uri.as_str())),
        Call::GetPrompt(p) => {
            let named = ObjectBuilder::new().string("name", p.name.as_str());
            let all = match &p.arguments {
                Some(pairs) => named.field("arguments", Json::object(pairs_to_members(pairs))),
                None => named,
            };
            Some(all.build())
        },
        Call::CallTool(p) => {
            let named = ObjectBuilder::new().string("name", p.name.as_str());
            let all = match &p.arguments {
                Some(members) => named.field("arguments", Json::object(copy_members(members))),
                None => named,
            };
            Some(all.build())
        },
        Call::SetLevel { level } => Some(single_object("level", level.as_str())),
        _ => None,
    }
}

fn method_name(call: &Call) -> (r: &'static str)
    ensures
        r@ == method_of(call@),
{
    match call {
        Call::Initialize(_) => "initialize",
        Call::Ping => "ping",
        Call::ListResources => "listResources",
        Call::ListResourceTemplates => "listResourceTemplates",
        Call::ReadResource { .. } => "readResource",
        Call::Subscribe { .. } => "subscribe",
        Call::Unsubscribe { .. } => "unsubscribe",
        Call::ListPrompts => "listPrompts",
        Call::GetPrompt(_) => "getPrompt",
        Call::ListTools => "listTools",
        Call::CallTool(_) => "callTool",
        Call::SetLevel { .. } => "setLevel",
        Call::Complete => "complete",
    }
}

/// Writes a request as a document.
pub fn encode_client_request(request: &ClientRequest) -> (r: Json)
    ensures
        r@ == encode_request(request@),
{
    let head = ObjectBuilder::new().string("jsonrpc", request.json_rpc.as_str()).field(
        "id",
        id_to_json(&request.id),
    ).string("method", method_name(&request.call));
    let all = match encode_params(&request.call) {
        Some(params) => head.field("params", params),
        None => head,
    };
    all.build()
}

/// Writes a notification as a document.
pub fn encode_client_notification(notification: &ClientNotification) -> (r: Json)
    ensures
        r@ == encode_notification(notification@),
{
    match notification {
        ClientNotification::Cancelled { json_rpc, request_id, reason } => {
            let params = ObjectBuilder::new().field(
                "requestId",
                id_to_json(request_id),
            ).optional_string("reason", reason).build();
            ObjectBuilder::new().string("jsonrpc", json_rpc.as_str()).string(
                "method",
                "cancelled",
            ).field("params", params).build()
        },
        ClientNotification::Other { json_rpc, method } => ObjectBuilder::new().string(
            "jsonrpc",
            json_rpc.as_str(),
        ).string("method", method.as_str()).build(),
    }
}

/// Writes a message of the client as a document.
pub fn encode_client_message(message: &ClientMessage) -> (r: Json)
    ensures
        r@ == encode_message(message@),
{
    match message {
        ClientMessage::Request(r) => encode_client_request(r),
        ClientMessage::Notification(n) => encode_client_notification(n),
    }
}

fn read_string_param(params: Option<&Json>, key: &str) -> (r: Option<String>)
    ensures
        opt_view(r) == string_param(opt_json(params), key@),
{
    match params {
        Some(p) => match p.get(key) {
            Some(value) => match value.as_str() {
                Some(text) => Some(text.clone()),
                None => None,
            },
            None => None,
        },
        None => None,
    }
}

/// The members of `members` as pairs of strings, if each is a string.
fn members_to_pairs(members: &Vec<(String, Json)>) -> (r: Option<Vec<(String, String)>>)
    ensures
        match r {
            Some(pairs) => all_strings(members_view(members@)) && pairs_view(pairs@) == as_pairs(
                members_view(members@),
            ),
            None => !all_strings(members_view(members@)),
        },
{
    let ghost all = members_view(members@);
    let mut out: Vec<(String, String)> = Vec::new();
    let mut i: usize = 0;
    while i < members.len()
        invariant
            0 <= i <= members.len(),
            all == members_view(members@),
            out.len() == i,
            forall|k: int|
                0 <= k < i ==> (#[trigger] all[k]).1 == JsonView::Str(out[k].1@) && out[k].0@
                    == all[k].0,
        decreases members.len() - i,
    {
        assert(all[i as int] == (members@[i as int].0@, members@[i as int].1@));
        match members[i].1.as_str() {
            Some(text) => {
                out.push((members[i].0.clone(), text.clone()));
            },
            None => {
                assert(!(all[i as int].1 is Str));
                return None;
            },
        }
        i += 1;
    }
    assert(pairs_view(out@) =~= as_pairs(all));
    Some(out)
}

/// The arguments object of the parameters.
fn read_arguments(params: &Json) -> (r: Option<Option<&Vec<(String, Json)>>>)
    ensures
        match r {
            Some(Some(members)) => arguments_param(params@) == Some(Some(members_view(members@))),
            Some(None) => arguments_param(params@) == Some(
                None::<Seq<(Seq<char>, JsonView)>>,
            ),
            None => arguments_param(params@) is None,
        },
{
    match params.get("arguments") {
        None => Some(None),
        Some(value) => match value.as_object() {
            Some(members) => Some(Some(members)),
            None => None,
        },
    }
}

fn read_call(method: &str, params: Option<&Json>) -> (r: Option<Option<Call>>)
    ensures
        match r {
            Some(Some(call)) => decode_call(method@, opt_json(params)) == Some(Some(call@)),
            Some(None) => decode_call(method@, opt_json(params)) == Some(None::<CallView>),
            None => decode_call(method@, opt_json(params)) is None,
        },
{
    if *method == *"initialize" {
        Some(
            match read_string_param(params, "protocolVersion") {
                Some(v) => Some(Call::Initialize(InitializeParams { protocol_version: v })),
                None => None,
            },
        )
    } else if *method == *"ping" {
        Some(Some(Call::Ping))
    } else if *method == *"listResources" {
        Some(Some(Call::ListResources))
    } else if *method == *"listResourceTemplates" {
        Some(Some(Call::ListResourceTemplates))
    } else if *method == *"readResource" {
        Some(
            match read_string_param(params, "uri") {
                Some(uri) => Some(Call::ReadResource { uri }),
                None => None,
            },
        )
    } else if *method == *"subscribe" {
        Some(
            match read_string_param(params, "uri") {
                Some(uri) => Some(Call::Subscribe { uri }),
                None => None,
            },
        )
    } else if *method == *"unsubscribe" {
        Some(
            match read_string_param(params, "uri") {
                Some(uri) => Some(Call::Unsubscribe { uri }),
                None => None,
            },
        )
    } else if *method == *"listPrompts" {
        Some(Some(Call::ListPrompts))
    } else if *method == *"getPrompt" {
        let name = match read_string_param(params, "name") {
            Some(name) => name,
            None => {
                return Some(None);
            },
        };
        let p = match params {
            Some(p) => p,
            None => {
                return Some(None);
            },
        };
        match read_arguments(p) {
            Some(None) => Some(Some(Call::GetPrompt(GetPromptParams { name, arguments: None }))),
            Some(Some(members)) => match members_to_pairs(members) {
                Some(pairs) => Some(
                    Some(Call::GetPrompt(GetPromptParams { name, arguments: Some(pairs) })),
                ),
                None => Some(None),
            },
            None => Some(None),
        }
    } else if *method == *"listTools" {
        Some(Some(Call::ListTools))
    } else if *method == *"callTool" {
        let name = match read_string_param(params, "name") {
            Some(name) => name,
            None => {
                return Some(None);
            },
        };
        let p = match params {
            Some(p) => p,
            None => {
                return Some(None);
            },
        };
        match read_arguments(p) {
            Some(None) => Some(Some(Call::CallTool(CallToolParams { name, arguments: None }))),
            Some(Some(members)) => Some(
                Some(
                    Call::CallTool(
                        CallToolParams { name, arguments: Some(copy_members(members)) },
                    ),
                ),
            ),
            None => Some(None),
        }
    } else if *method == *"setLevel" {
        Some(
            match read_string_param(params, "level") {
                Some(level) => Some(Call::SetLevel { level }),
                None => None,
            },
        )
    } else if *method == *"complete" {
        Some(Some(Call::Complete))
    } else {
        None
    }
}

/// Reads a document as a message of the client.
pub fn decode_client_message(j: &Json) -> (r: Result<ClientMessage, DecodeError>)
    ensures
        match r {
            Ok(m) => decode_message(j@) == Ok::<ClientMessageView, DecodeErrorView>(m@),
            Err(e) => decode_message(j@) == Err::<ClientMessageView, DecodeErrorView>(e@),
        },
{
    let json_rpc = match j.get("jsonrpc") {
        Some(v) => match v.as_str() {
            Some(text) => text.clone(),
            None => {
                return Err(DecodeError::Malformed);
            },
        },
        None => {
            return Err(DecodeError::Malformed);
        },
    };
    let method = match j.get("method") {
        Some(v) => match v.as_str() {
            Some(text) => text.clone(),
            None => {
                return Err(DecodeError::Malformed);
            },
        },
        None => {
            return Err(DecodeError::Malformed);
        },
    };
    let params = j.get("params");
    match j.get("id") {
        Some(raw) => {
            let id = match id_from_json(raw) {
                Some(id) => id,
                None => {
                    return Err(DecodeError::Malformed);
                },
            };
            match read_call(method.as_str(), params) {
                Some(Some(call)) => Ok(
                    ClientMessage::Request(ClientRequest { json_rpc, id, call }),
                ),
                Some(None) => Err(DecodeError::InvalidParams { id, method }),
                None => Err(DecodeError::MethodNotFound { id, method }),
            }
        },
        None => {
            if *method.as_str() == *"cancelled" {
                let p = match params {
                    Some(p) => p,
                    None => {
                        return Err(DecodeError::Malformed);
                    },
                };
                let raw = match p.get("requestId") {
                    Some(raw) => raw,
                    None => {
                        return Err(DecodeError::Malformed);
                    },
                };
                let request_id = match id_from_json(raw) {
                    Some(id) => id,
                    None => {
                        return Err(DecodeError::Malformed);
                    },
                };
                let reason = read_string_param(params, "reason");
                Ok(
                    ClientMessage::Notification(
                        ClientNotification::Cancelled { json_rpc, request_id, reason },
                    ),
                )
            } else {
                Ok(ClientMessage::Notification(ClientNotification::Other { json_rpc, method }))
            }
        },
    }
}


/// Whether a message can be written and read back: a notification that is
/// kept as `Other` has a method other than `cancelled`.
pub open spec fn valid_message(m: ClientMessageView) -> bool {
    match m {
        ClientMessageView::Notification(ClientNotificationView::Other { method, .. }) => method
            != "cancelled"@,
        _ => true,
    }
}

/// The names of the members and of the methods are what they read.
proof fn lemma_names()
    ensures
        "jsonrpc"@ != "id"@,
        "jsonrpc"@ != "method"@,
        "jsonrpc"@ != "params"@,
        "id"@ != "method"@,
        "id"@ != "params"@,
        "method"@ != "params"@,
        "name"@ != "arguments"@,
        "requestId"@ != "reason"@,
{
    reveal_strlit("jsonrpc");
    reveal_strlit("id");
    reveal_strlit("method");
    reveal_strlit("params");
    reveal_strlit("name");
    reveal_strlit("arguments");
    reveal_strlit("requestId");
    reveal_strlit("reason");
    assert("jsonrpc"@.len() == 7 && "id"@.len() == 2 && "method"@.len() == 6 && "params"@.len()
        == 6);
    assert("name"@.len() == 4 && "arguments"@.len() == 9);
    assert("requestId"@.len() == 9 && "reason"@.len() == 6);
    assert("method"@[0] == 'm');
    assert("params"@[0] == 'p');
}

/// A call is read back from its method and its parameters.
proof fn lemma_call_round_trip(call: CallView)
    ensures
        decode_call(method_of(call), params_of(call)) == Some(Some(call)),
{
    reveal_strlit("initialize");
    reveal_strlit("ping");
    reveal_strlit("listResources");
    reveal_strlit("listResourceTemplates");
    reveal_strlit("readResource");
    reveal_strlit("subscribe");
    reveal_strlit("unsubscribe");
    reveal_strlit("listPrompts");
    reveal_strlit("getPrompt");
    reveal_strlit("listTools");
    reveal_strlit("callTool");
    reveal_strlit("setLevel");
    reveal_strlit("complete");
    lemma_names();
    assert("initialize"@.len() == 10 && "ping"@.len() == 4 && "listResources"@.len() == 13
        && "listResourceTemplates"@.len() == 21 && "readResource"@.len() == 12);
    assert("subscribe"@.len() == 9 && "unsubscribe"@.len() == 11 && "listPrompts"@.len() == 11
        && "getPrompt"@.len() == 9 && "listTools"@.len() == 9);
    assert("callTool"@.len() == 8 && "setLevel"@.len() == 8 && "complete"@.len() == 8);
    assert("unsubscribe"@[0] == 'u' && "listPrompts"@[0] == 'l');
    assert("subscribe"@[0] == 's' && "getPrompt"@[0] == 'g' && "listTools"@[0] == 'l');
    assert("callTool"@[0] == 'c' && "setLevel"@[0] == 's' && "complete"@[1] == 'o'
        && "callTool"@[1] == 'a');
    let none = Seq::<(Seq<char>, JsonView)>::empty();
    match call {
        CallView::Initialize { protocol_version } => {
            lemma_push_lookup(none, "protocolVersion"@, JsonView::Str(protocol_version));
        },
        CallView::ReadResource { uri } => {
            lemma_push_lookup(none, "uri"@, JsonView::Str(uri));
        },
        CallView::Subscribe { uri } => {
            lemma_push_lookup(none, "uri"@, JsonView::Str(uri));
        },
        CallView::Unsubscribe { uri } => {
            lemma_push_lookup(none, "uri"@, JsonView::Str(uri));
        },
        CallView::SetLevel { level } => {
            lemma_push_lookup(none, "level"@, JsonView::Str(level));
        },
        CallView::GetPrompt(p) => {
            let named = none.push(("name"@, JsonView::Str(p.name)));
            lemma_push_lookup(none, "name"@, JsonView::Str(p.name));
            match p.arguments {
                Some(pairs) => {
                    let members = string_members(Some(pairs));
                    lemma_push_lookup(named, "arguments"@, JsonView::Object(members));
                    assert(all_strings(members));
                    assert(as_pairs(members) =~= pairs);
                },
                None => {},
            }
        },
        CallView::CallTool(p) => {
            let named = none.push(("name"@, JsonView::Str(p.name)));
            lemma_push_lookup(none, "name"@, JsonView::Str(p.name));
            match p.arguments {
                Some(members) => {
                    lemma_push_lookup(named, "arguments"@, JsonView::Object(members));
                },
                None => {},
            }
        },
        _ => {},
    }
}

/// Writing a message and reading the document back gives the message.
pub proof fn lemma_round_trip(m: ClientMessageView)
    requires
        valid_message(m),
    ensures
        decode_message(encode_message(m)) == Ok::<ClientMessageView, DecodeErrorView>(m),
{
    lemma_names();
    let none = Seq::<(Seq<char>, JsonView)>::empty();
    match m {
        ClientMessageView::Request(r) => {
            let first = none.push(("jsonrpc"@, JsonView::Str(r.json_rpc)));
            let second = first.push(("id"@, id_json(r.id)));
            let third = second.push(("method"@, JsonView::Str(method_of(r.call))));
            lemma_push_lookup(none, "jsonrpc"@, JsonView::Str(r.json_rpc));
            lemma_push_lookup(first, "id"@, id_json(r.id));
            lemma_push_lookup(second, "method"@, JsonView::Str(method_of(r.call)));
            match params_of(r.call) {
                Some(p) => {
                    lemma_push_lookup(third, "params"@, p);
                },
                None => {},
            }
            lemma_call_round_trip(r.call);
        },
        ClientMessageView::Notification(n) => {
            match n {
                ClientNotificationView::Cancelled { json_rpc, request_id, reason } => {
                    let first = none.push(("jsonrpc"@, JsonView::Str(json_rpc)));
                    let second = first.push(("method"@, JsonView::Str("cancelled"@)));
                    let inner = none.push(("requestId"@, id_json(request_id)));
                    let params = JsonView::Object(
                        crate::json::with_optional_string(inner, "reason"@, reason),
                    );
                    lemma_push_lookup(none, "jsonrpc"@, JsonView::Str(json_rpc));
                    lemma_push_lookup(first, "method"@, JsonView::Str("cancelled"@));
                    lemma_push_lookup(second, "params"@, params);
                    lemma_push_lookup(none, "requestId"@, id_json(request_id));
                    match reason {
                        Some(text) => {
                            lemma_push_lookup(inner, "reason"@, JsonView::Str(text));
                        },
                        None => {},
                    }
                },
                ClientNotificationView::Other { json_rpc, method } => {
                    let first = none.push(("jsonrpc"@, JsonView::Str(json_rpc)));
                    lemma_push_lookup(none, "jsonrpc"@, JsonView::Str(json_rpc));
                    lemma_push_lookup(first, "method"@, JsonView::Str(method));
                },
            }
        },
    }
}

} // verus!
