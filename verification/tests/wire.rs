use mcp::codec::{
    decode_client_message, encode_client_message, encode_client_notification,
    encode_client_request, DecodeError,
};
use mcp::decode::{decode_response, decode_result, result_kind, ResultKind};
use mcp::encode::{encode_response, encode_result};
use mcp::error::Error;
use mcp::json::{Json, ObjectBuilder};
use mcp::message::{
    image_content, resource_content, text_content, CallToolParams, CallToolResult, ErrorData,
    GetPromptParams, GetPromptResult, InitializeParams, InitializeResult, ListToolsResult,
    PromptArgument, PromptDefinition, PromptMessage, ResourceContents, ResourceDefinition, Role,
    ServerCapabilities, ServerResult, ToolDefinition,
};
use mcp::request_id::RequestId;
use mcp::rpc::{
    respond, Call, ClientMessage, ClientNotification, ClientRequest, JsonRpcError,
    ServerNotification, ServerResponse,
};
use mcp::transport::{
    frame_line, SseEvent, CHANNEL_CAPACITY, EVENTS_PATH, KEEP_ALIVE_SECONDS, MESSAGE_PATH,
};

fn from_value(value: &serde_json::Value) -> Json {
    match value {
        serde_json::Value::Null => Json::Null,
        serde_json::Value::Bool(b) => Json::Bool(*b),
        serde_json::Value::Number(n) => match n.as_i64() {
            Some(i) => Json::Int(i),
            None => Json::Number(n.to_string()),
        },
        serde_json::Value::String(s) => Json::Str(s.clone()),
        serde_json::Value::Array(items) => Json::Array(items.iter().map(from_value).collect()),
        serde_json::Value::Object(members) => {
            Json::Object(members.iter().map(|(k, v)| (k.clone(), from_value(v))).collect())
        },
    }
}

fn to_value(json: &Json) -> serde_json::Value {
    match json {
        Json::Null => serde_json::Value::Null,
        Json::Bool(b) => serde_json::Value::Bool(*b),
        Json::Int(i) => serde_json::Value::from(*i),
        Json::Number(text) => serde_json::from_str(text).unwrap(),
        Json::Str(s) => serde_json::Value::String(s.clone()),
        Json::Array(items) => serde_json::Value::Array(items.iter().map(to_value).collect()),
        Json::Object(members) => serde_json::Value::Object(
            members.iter().map(|(k, v)| (k.clone(), to_value(v))).collect(),
        ),
    }
}

fn parse(text: &str) -> Json {
    from_value(&serde_json::from_str::<serde_json::Value>(text).unwrap())
}

fn value(text: &str) -> serde_json::Value {
    serde_json::from_str(text).unwrap()
}

fn decode(text: &str) -> Result<ClientMessage, DecodeError> {
    decode_client_message(&parse(text))
}

fn sent(response: &ServerResponse) -> serde_json::Value {
    to_value(&encode_response(response).unwrap())
}

fn request(id: RequestId, call: Call) -> ClientMessage {
    ClientMessage::Request(ClientRequest { json_rpc: "2.0".to_string(), id, call })
}

#[test]
fn initialize_request_is_read() {
    let text = r#"{"jsonrpc":"2.0","id":1,"method":"initialize","params":{"protocolVersion":"X"}}"#;
    assert_eq!(
        decode(text),
        Ok(request(
            RequestId::Number(1),
            Call::Initialize(InitializeParams { protocol_version: "X".to_string() })
        ))
    );
}

#[test]
fn initialize_request_is_written_with_its_method_and_version() {
    let message = request(
        RequestId::Number(1),
        Call::Initialize(InitializeParams { protocol_version: "2024-11-05".to_string() }),
    );
    let json = serde_json::to_string(&to_value(&encode_client_message(&message))).unwrap();
    assert!(json.contains("initialize"));
    assert!(json.contains("protocolVersion"));
    assert_eq!(
        value(&json),
        value(
            r#"{"jsonrpc":"2.0","id":1,"method":"initialize","params":{"protocolVersion":"2024-11-05"}}"#
        )
    );
}

#[test]
fn call_tool_request_is_read_with_its_arguments() {
    let text = r#"{"jsonrpc":"2.0","id":"a","method":"callTool","params":{"name":"weather","arguments":{"city":"London"}}}"#;
    match decode(text) {
        Ok(ClientMessage::Request(ClientRequest { id, call: Call::CallTool(params), .. })) => {
            assert_eq!(id, RequestId::String("a".to_string()));
            assert_eq!(params.name, "weather");
            assert_eq!(
                params.arguments,
                Some(vec![("city".to_string(), Json::Str("London".to_string()))])
            );
        },
        _ => panic!("Expected CallTool message"),
    }
    let bare = r#"{"jsonrpc":"2.0","id":2,"method":"callTool","params":{"name":"weather"}}"#;
    assert_eq!(
        decode(bare),
        Ok(request(
            RequestId::Number(2),
            Call::CallTool(CallToolParams { name: "weather".to_string(), arguments: None })
        ))
    );
}

#[test]
fn every_method_is_read() {
    let cases: Vec<(&str, &str, Call)> = vec![
        ("ping", "{}", Call::Ping),
        ("listResources", "{}", Call::ListResources),
        ("listResourceTemplates", "{}", Call::ListResourceTemplates),
        ("readResource", r#"{"uri":"a://1"}"#, Call::ReadResource { uri: "a://1".to_string() }),
        ("subscribe", r#"{"uri":"a://1"}"#, Call::Subscribe { uri: "a://1".to_string() }),
        ("unsubscribe", r#"{"uri":"a://1"}"#, Call::Unsubscribe { uri: "a://1".to_string() }),
        ("listPrompts", "{}", Call::ListPrompts),
        (
            "getPrompt",
            r#"{"name":"p","arguments":{"k":"v"}}"#,
            Call::GetPrompt(GetPromptParams {
                name: "p".to_string(),
                arguments: Some(vec![("k".to_string(), "v".to_string())]),
            }),
        ),
        ("listTools", "{}", Call::ListTools),
        ("setLevel", r#"{"level":"debug"}"#, Call::SetLevel { level: "debug".to_string() }),
        ("complete", r#"{"anything":1}"#, Call::Complete),
    ];
    for (method, params, call) in cases {
        let text = format!(
            r#"{{"jsonrpc":"2.0","id":9,"method":"{}","params":{}}}"#,
            method, params
        );
        assert_eq!(decode(&text), Ok(request(RequestId::Number(9), call)));
    }
    assert_eq!(
        decode(r#"{"jsonrpc":"2.0","id":9,"method":"ping"}"#),
        Ok(request(RequestId::Number(9), Call::Ping))
    );
}

#[test]
fn unknown_method_of_a_request_is_method_not_found() {
    let error = decode(r#"{"jsonrpc":"2.0","id":3,"method":"tools/call"}"#).err().unwrap();
    assert_eq!(
        error,
        DecodeError::MethodNotFound { id: RequestId::Number(3), method: "tools/call".to_string() }
    );
    match error.response() {
        ServerResponse::Error(JsonRpcError { json_rpc, id, error }) => {
            assert_eq!(json_rpc, "2.0");
            assert_eq!(id, RequestId::Number(3));
            assert_eq!(error.code, -32601);
            assert_eq!(error.message, "Method not found: tools/call");
        },
        _ => panic!("expected an error reply"),
    }
    assert!(decode(r#"{"jsonrpc":"2.0","id":3,"method":"Ping"}"#).is_err());
}

#[test]
fn parameters_that_do_not_fit_are_invalid_params() {
    let texts = vec![
        r#"{"jsonrpc":"2.0","id":"x","method":"readResource"}"#,
        r#"{"jsonrpc":"2.0","id":"x","method":"readResource","params":{"uri":1}}"#,
        r#"{"jsonrpc":"2.0","id":"x","method":"readResource","params":[]}"#,
    ];
    for text in texts {
        assert_eq!(
            decode(text),
            Err(DecodeError::InvalidParams {
                id: RequestId::String("x".to_string()),
                method: "readResource".to_string()
            })
        );
    }
    let others = vec![
        r#"{"jsonrpc":"2.0","id":1,"method":"initialize","params":{}}"#,
        r#"{"jsonrpc":"2.0","id":1,"method":"callTool","params":{"arguments":{}}}"#,
        r#"{"jsonrpc":"2.0","id":1,"method":"callTool","params":{"name":"t","arguments":[]}}"#,
        r#"{"jsonrpc":"2.0","id":1,"method":"getPrompt","params":{"name":"p","arguments":{"k":1}}}"#,
        r#"{"jsonrpc":"2.0","id":1,"method":"setLevel","params":{"level":3}}"#,
    ];
    for text in others {
        assert!(matches!(decode(text), Err(DecodeError::InvalidParams { .. })));
    }
    let refused = DecodeError::InvalidParams {
        id: RequestId::Number(1),
        method: "setLevel".to_string(),
    };
    match refused.response() {
        ServerResponse::Error(e) => {
            assert_eq!(e.error.code, -32602);
            assert_eq!(e.error.message, "Invalid params for method: setLevel");
            assert_eq!(e.id, RequestId::Number(1));
        },
        _ => panic!("expected an error reply"),
    }
}

#[test]
fn documents_that_are_no_messages_are_malformed() {
    let texts = vec![
        "null",
        "[]",
        "{}",
        r#"{"jsonrpc":"2.0"}"#,
        r#"{"method":"ping","id":1}"#,
        r#"{"jsonrpc":2,"method":"ping","id":1}"#,
        r#"{"jsonrpc":"2.0","method":7,"id":1}"#,
        r#"{"jsonrpc":"2.0","method":"ping","id":true}"#,
        r#"{"jsonrpc":"2.0","method":"ping","id":1.5}"#,
        r#"{"jsonrpc":"2.0","method":"ping","id":null}"#,
        r#"{"jsonrpc":"2.0","method":"cancelled"}"#,
        r#"{"jsonrpc":"2.0","method":"cancelled","params":{}}"#,
        r#"{"jsonrpc":"2.0","method":"cancelled","params":{"requestId":[]}}"#,
    ];
    for text in texts {
        assert_eq!(decode(text), Err(DecodeError::Malformed));
    }
    assert_eq!(DecodeError::Malformed.response(), ServerResponse::Nothing);
}

#[test]
fn wrong_version_is_read_and_left_to_the_dispatcher() {
    let text = r#"{"jsonrpc":"1.0","id":4,"method":"ping"}"#;
    assert_eq!(
        decode(text),
        Ok(ClientMessage::Request(ClientRequest {
            json_rpc: "1.0".to_string(),
            id: RequestId::Number(4),
            call: Call::Ping
        }))
    );
}

#[test]
fn notifications_are_read() {
    let text = r#"{"jsonrpc":"2.0","method":"cancelled","params":{"requestId":42,"reason":"user"}}"#;
    assert_eq!(
        decode(text),
        Ok(ClientMessage::Notification(ClientNotification::Cancelled {
            json_rpc: "2.0".to_string(),
            request_id: RequestId::Number(42),
            reason: Some("user".to_string())
        }))
    );
    let text = r#"{"jsonrpc":"2.0","method":"cancelled","params":{"requestId":"r"}}"#;
    assert_eq!(
        decode(text),
        Ok(ClientMessage::Notification(ClientNotification::Cancelled {
            json_rpc: "2.0".to_string(),
            request_id: RequestId::String("r".to_string()),
            reason: None
        }))
    );
    let text = r#"{"jsonrpc":"2.0","method":"initialized","params":{"x":1}}"#;
    assert_eq!(
        decode(text),
        Ok(ClientMessage::Notification(ClientNotification::Other {
            json_rpc: "2.0".to_string(),
            method: "initialized".to_string()
        }))
    );
}

fn messages() -> Vec<ClientMessage> {
    let mut all = vec![
        ClientMessage::Notification(ClientNotification::Cancelled {
            json_rpc: "2.0".to_string(),
            request_id: RequestId::String("id".to_string()),
            reason: Some("why".to_string()),
        }),
        ClientMessage::Notification(ClientNotification::Cancelled {
            json_rpc: "2.0".to_string(),
            request_id: RequestId::Number(-3),
            reason: None,
        }),
        ClientMessage::Notification(ClientNotification::Other {
            json_rpc: "3".to_string(),
            method: "ping".to_string(),
        }),
    ];
    let calls = vec![
        Call::Initialize(InitializeParams { protocol_version: "v".to_string() }),
        Call::Ping,
        Call::ListResources,
        Call::ListResourceTemplates,
        Call::ReadResource { uri: "u".to_string() },
        Call::Subscribe { uri: "".to_string() },
        Call::Unsubscribe { uri: "u://{x}".to_string() },
        Call::ListPrompts,
        Call::GetPrompt(GetPromptParams { name: "p".to_string(), arguments: None }),
        Call::GetPrompt(GetPromptParams {
            name: "name".to_string(),
            arguments: Some(vec![
                ("b".to_string(), "2".to_string()),
                ("a".to_string(), "1".to_string()),
            ]),
        }),
        Call::GetPrompt(GetPromptParams { name: "p".to_string(), arguments: Some(vec![]) }),
        Call::ListTools,
        Call::CallTool(CallToolParams { name: "t".to_string(), arguments: None }),
        Call::CallTool(CallToolParams {
            name: "arguments".to_string(),
            arguments: Some(vec![
                ("name".to_string(), Json::Null),
                ("n".to_string(), Json::Int(i64::MIN)),
                ("f".to_string(), Json::Number("1.5".to_string())),
                ("l".to_string(), Json::Array(vec![Json::Bool(true), Json::empty_object()])),
            ]),
        }),
        Call::SetLevel { level: "info".to_string() },
        Call::Complete,
    ];
    for (i, call) in calls.into_iter().enumerate() {
        let id = if i % 2 == 0 {
            RequestId::Number(i as i64)
        } else {
            RequestId::String(format!("r{}", i))
        };
        all.push(ClientMessage::Request(ClientRequest {
            json_rpc: if i == 3 { "1.0".to_string() } else { "2.0".to_string() },
            id,
            call,
        }));
    }
    all
}

#[test]
fn written_messages_are_read_back() {
    for message in messages() {
        let document = encode_client_message(&message);
        assert_eq!(decode_client_message(&document), Ok(message.clone()));
        let again = match &message {
            ClientMessage::Request(r) => encode_client_request(r),
            ClientMessage::Notification(n) => encode_client_notification(n),
        };
        assert_eq!(again, document);
    }
}

#[test]
fn other_notification_named_cancelled_is_not_read_back() {
    let message = ClientMessage::Notification(ClientNotification::Other {
        json_rpc: "2.0".to_string(),
        method: "cancelled".to_string(),
    });
    assert_eq!(
        decode_client_message(&encode_client_message(&message)),
        Err(DecodeError::Malformed)
    );
}

fn initialized() -> InitializeResult {
    InitializeResult {
        capabilities: ServerCapabilities {
            prompts_list_changed: false,
            resources_subscribe: true,
            resources_list_changed: false,
            tools_list_changed: false,
        },
        instructions: None,
        protocol_version: "2024-11-05".to_string(),
        server_name: "host".to_string(),
        server_version: "1.0".to_string(),
    }
}

#[test]
fn initialize_reply_is_written_as_the_protocol_shows_it() {
    let reply = respond(RequestId::Number(1), Ok(ServerResult::Initialize(initialized())));
    assert_eq!(
        sent(&reply),
        value(
            r#"{"jsonrpc":"2.0","id":1,"result":{"capabilities":{"tools":{"listChanged":false},"prompts":{"listChanged":false},"resources":{"subscribe":true,"listChanged":false}},"protocolVersion":"2024-11-05","serverInfo":{"name":"host","version":"1.0"}}}"#
        )
    );
    let mut with = initialized();
    with.instructions = Some("Be brief".to_string());
    let written = to_value(&encode_result(&ServerResult::Initialize(with)));
    assert_eq!(written["instructions"], value(r#""Be brief""#));
}

#[test]
fn member_order_of_a_reply_is_fixed() {
    let reply = respond(RequestId::Number(1), Ok(ServerResult::Initialize(initialized())));
    match encode_response(&reply).unwrap() {
        Json::Object(members) => {
            let keys: Vec<&str> = members.iter().map(|(k, _)| k.as_str()).collect();
            assert_eq!(keys, vec!["jsonrpc", "id", "result"]);
            match &members[2].1 {
                Json::Object(result) => {
                    let keys: Vec<&str> = result.iter().map(|(k, _)| k.as_str()).collect();
                    assert_eq!(keys, vec!["capabilities", "protocolVersion", "serverInfo"]);
                },
                _ => panic!("expected an object"),
            }
        },
        _ => panic!("expected an object"),
    }
}

#[test]
fn error_reply_is_written_with_code_and_message() {
    let reply = respond(
        RequestId::String("q".to_string()),
        Err(Error::new(404, "Tool 'nope' not found")),
    );
    assert_eq!(
        sent(&reply),
        value(
            r#"{"jsonrpc":"2.0","id":"q","error":{"code":404,"message":"Tool 'nope' not found"}}"#
        )
    );
    let with_data = ServerResponse::Error(JsonRpcError {
        json_rpc: "2.0".to_string(),
        id: RequestId::Number(2),
        error: ErrorData {
            code: -32603,
            message: "m".to_string(),
            data: Some(Json::Array(vec![Json::Int(1)])),
        },
    });
    assert_eq!(
        sent(&with_data),
        value(r#"{"jsonrpc":"2.0","id":2,"error":{"code":-32603,"message":"m","data":[1]}}"#)
    );
}

#[test]
fn echo_reply_is_written_with_text_content() {
    let result = CallToolResult { content: vec![text_content("Echo: hi")], is_error: false };
    let reply = respond(RequestId::Number(7), Ok(ServerResult::CallTool(result)));
    assert_eq!(
        sent(&reply),
        value(
            r#"{"jsonrpc":"2.0","id":7,"result":{"content":[{"type":"text","text":"Echo: hi"}],"isError":false}}"#
        )
    );
}

#[test]
fn every_kind_of_content_is_written() {
    let result = CallToolResult {
        content: vec![
            image_content("http://x/i.png", "image/png"),
            resource_content("http://x/r", Some("text/plain".to_string())),
            resource_content("http://x/s", None),
        ],
        is_error: true,
    };
    assert_eq!(
        to_value(&encode_result(&ServerResult::CallTool(result))),
        value(
            r#"{"content":[{"type":"image","url":"http://x/i.png","mimeType":"image/png"},{"type":"resource","url":"http://x/r","mimeType":"text/plain"},{"type":"resource","url":"http://x/s"}],"isError":true}"#
        )
    );
}

#[test]
fn notification_and_silence_are_written() {
    let updated = ServerResponse::Notification(ServerNotification::ResourceUpdated {
        json_rpc: "2.0".to_string(),
        uri: "history://x".to_string(),
    });
    assert_eq!(
        sent(&updated),
        value(r#"{"jsonrpc":"2.0","method":"resourceUpdated","params":{"uri":"history://x"}}"#)
    );
    assert_eq!(encode_response(&ServerResponse::Nothing), None);
}

#[test]
fn results_of_every_method_are_written() {
    assert_eq!(to_value(&encode_result(&ServerResult::Empty)), value("{}"));
    let schema = ObjectBuilder::new().string("type", "object").build();
    let tools = ServerResult::ListTools(ListToolsResult {
        tools: vec![
            ToolDefinition {
                name: "a".to_string(),
                description: Some("d".to_string()),
                input_schema: schema.clone(),
            },
            ToolDefinition { name: "b".to_string(), description: None, input_schema: schema },
        ],
    });
    assert_eq!(
        to_value(&encode_result(&tools)),
        value(
            r#"{"tools":[{"name":"a","description":"d","inputSchema":{"type":"object"}},{"name":"b","inputSchema":{"type":"object"}}]}"#
        )
    );
    let resource = ResourceDefinition {
        uri: "a://1".to_string(),
        name: "one".to_string(),
        description: Some("d".to_string()),
        mime_type: Some("text/plain".to_string()),
        annotations: None,
    };
    assert_eq!(
        to_value(&encode_result(&ServerResult::ListResources(vec![resource.clone()]))),
        value(
            r#"{"resources":[{"uri":"a://1","name":"one","description":"d","mimeType":"text/plain"}]}"#
        )
    );
    assert_eq!(
        to_value(&encode_result(&ServerResult::ListResourceTemplates(vec![resource]))),
        value(
            r#"{"resourceTemplates":[{"uriTemplate":"a://1","name":"one","description":"d","mimeType":"text/plain"}]}"#
        )
    );
    let contents = ServerResult::ReadResource(vec![
        ResourceContents::Text {
            uri: "a://1".to_string(),
            mime_type: Some("text/plain".to_string()),
            text: "t".to_string(),
        },
        ResourceContents::Blob { uri: "a://2".to_string(), mime_type: None, blob: "QQ==".to_string() },
    ]);
    assert_eq!(
        to_value(&encode_result(&contents)),
        value(
            r#"{"contents":[{"uri":"a://1","mimeType":"text/plain","text":"t"},{"uri":"a://2","blob":"QQ=="}]}"#
        )
    );
    let prompts = ServerResult::ListPrompts(vec![PromptDefinition {
        name: "p".to_string(),
        description: None,
        arguments: vec![
            PromptArgument { name: "x".to_string(), description: None, required: true },
            PromptArgument {
                name: "y".to_string(),
                description: Some("why".to_string()),
                required: false,
            },
        ],
    }]);
    assert_eq!(
        to_value(&encode_result(&prompts)),
        value(
            r#"{"prompts":[{"name":"p","arguments":[{"name":"x","required":true},{"name":"y","description":"why","required":false}]}]}"#
        )
    );
    let rendered = ServerResult::GetPrompt(GetPromptResult {
        description: Some("Greets".to_string()),
        messages: vec![
            PromptMessage { role: Role::User, content: text_content("hi") },
            PromptMessage { role: Role::Assistant, content: text_content("hello") },
        ],
    });
    assert_eq!(
        to_value(&encode_result(&rendered)),
        value(
            r#"{"description":"Greets","messages":[{"role":"user","content":{"type":"text","text":"hi"}},{"role":"assistant","content":{"type":"text","text":"hello"}}]}"#
        )
    );
}

#[test]
fn json_lookup_takes_the_first_member() {
    let object = ObjectBuilder::new()
        .field("a", Json::Int(1))
        .boolean("b", true)
        .optional_string("c", &None)
        .optional_string("d", &Some("x".to_string()))
        .field("a", Json::Int(2))
        .build();
    assert_eq!(object.get("a"), Some(&Json::Int(1)));
    assert_eq!(object.get("b"), Some(&Json::Bool(true)));
    assert_eq!(object.get("c"), None);
    assert_eq!(object.get("d"), Some(&Json::Str("x".to_string())));
    assert_eq!(Json::Int(1).get("a"), None);
    assert_eq!(object.as_object().map(|m| m.len()), Some(4));
    assert_eq!(Json::Int(5).as_i64(), Some(5));
    assert_eq!(Json::Str("5".to_string()).as_i64(), None);
    assert_eq!(Json::string("s").as_str(), Some(&"s".to_string()));
    assert_eq!(Json::Null.as_str(), None);
    assert_eq!(Json::array(vec![Json::Null]).as_array().map(|a| a.len()), Some(1));
    assert_eq!(Json::Null.as_array(), None);
    assert_eq!(Json::Null.as_object(), None);
}

#[test]
fn json_copies_are_equal_to_their_source() {
    let text = r#"{"a":[1,2.5,"x",null,true,{"b":{"c":[]}}],"d":18446744073709551615}"#;
    let document = parse(text);
    assert_eq!(document.duplicate(), document);
    assert_eq!(document.clone(), document);
    assert_eq!(to_value(&document.duplicate()), value(text));
}

#[test]
fn events_and_lines_are_framed() {
    let first = SseEvent::endpoint();
    assert_eq!(first.event, "endpoint");
    assert_eq!(first.data, MESSAGE_PATH);
    assert_eq!(first.to_text(), "event: endpoint\ndata: /api/message\n\n");
    let next = SseEvent::message("{\"a\":1}".to_string());
    assert_eq!(next.event, "message");
    assert_eq!(next.to_text(), "event: message\ndata: {\"a\":1}\n\n");
    assert_eq!(frame_line("{}"), "{}\n");
    assert_eq!(EVENTS_PATH, "/api/events");
    assert_eq!(CHANNEL_CAPACITY, 100);
    assert_eq!(KEEP_ALIVE_SECONDS, 15);
}

#[test]
fn default_configurations() {
    let server = mcp::config::ServerConfig::default();
    assert_eq!(server.name, "mcp-server");
    assert_eq!(server.version, "0.1.0");
    assert_eq!(server.protocol_version, "2024-11-05");
    assert_eq!(server.host, "127.0.0.1");
    assert_eq!(server.port, 3000);
    assert_eq!(server.clone(), server);
    let client = mcp::config::ClientConfig::default();
    assert_eq!(client.server_url, "http://localhost:3000");
    assert_eq!(client.protocol_version, "2024-11-05");
    assert_eq!(client.clone(), client);
}


fn results() -> Vec<ServerResult> {
    let schema = ObjectBuilder::new().string("type", "object").build();
    let resource = ResourceDefinition {
        uri: "a://{x}".to_string(),
        name: "one".to_string(),
        description: None,
        mime_type: Some("text/plain".to_string()),
        annotations: None,
    };
    let noted = ResourceDefinition {
        uri: "a://1".to_string(),
        name: "two".to_string(),
        description: Some("d".to_string()),
        mime_type: None,
        annotations: Some(parse(r#"{"audience":["user"],"priority":0.5}"#)),
    };
    let mut with = initialized();
    with.instructions = Some("Be brief".to_string());
    vec![
        ServerResult::Empty,
        ServerResult::Initialize(initialized()),
        ServerResult::Initialize(with),
        ServerResult::ListResources(vec![resource.clone(), noted.clone(), resource.clone()]),
        ServerResult::ListResources(vec![]),
        ServerResult::ListResourceTemplates(vec![resource, noted]),
        ServerResult::ReadResource(vec![
            ResourceContents::Text {
                uri: "a://1".to_string(),
                mime_type: None,
                text: "blob".to_string(),
            },
            ResourceContents::Blob {
                uri: "a://2".to_string(),
                mime_type: Some("x/y".to_string()),
                blob: "text".to_string(),
            },
        ]),
        ServerResult::ListPrompts(vec![PromptDefinition {
            name: "p".to_string(),
            description: Some("d".to_string()),
            arguments: vec![
                PromptArgument { name: "x".to_string(), description: None, required: true },
                PromptArgument {
                    name: "y".to_string(),
                    description: Some("why".to_string()),
                    required: false,
                },
            ],
        }]),
        ServerResult::GetPrompt(GetPromptResult {
            description: None,
            messages: vec![
                PromptMessage { role: Role::User, content: text_content("hi") },
                PromptMessage {
                    role: Role::Assistant,
                    content: image_content("http://x/i", "image/png"),
                },
            ],
        }),
        ServerResult::CallTool(CallToolResult {
            content: vec![
                text_content("t"),
                resource_content("u", None),
                resource_content("u", Some("m".to_string())),
            ],
            is_error: true,
        }),
        ServerResult::ListTools(ListToolsResult {
            tools: vec![ToolDefinition {
                name: "t".to_string(),
                description: None,
                input_schema: schema,
            }],
        }),
    ]
}

fn kind(result: &ServerResult) -> ResultKind {
    match result {
        ServerResult::Empty => ResultKind::Empty,
        ServerResult::Initialize(_) => ResultKind::Initialize,
        ServerResult::ListResources(_) => ResultKind::ListResources,
        ServerResult::ListResourceTemplates(_) => ResultKind::ListResourceTemplates,
        ServerResult::ReadResource(_) => ResultKind::ReadResource,
        ServerResult::ListPrompts(_) => ResultKind::ListPrompts,
        ServerResult::GetPrompt(_) => ResultKind::GetPrompt,
        ServerResult::CallTool(_) => ResultKind::CallTool,
        ServerResult::ListTools(_) => ResultKind::ListTools,
    }
}

#[test]
fn written_results_are_read_back() {
    for result in results() {
        let document = encode_result(&result);
        assert_eq!(decode_result(kind(&result), &document), Some(result.clone()));
        let through_text = parse(&serde_json::to_string(&to_value(&document)).unwrap());
        assert_eq!(decode_result(kind(&result), &through_text), Some(result.clone()));
        let reply = respond(RequestId::Number(3), Ok(result.clone()));
        let sent = encode_response(&reply).unwrap();
        assert_eq!(decode_response(kind(&result), &sent), Some(reply));
    }
}

#[test]
fn written_errors_and_notifications_are_read_back_whatever_is_awaited() {
    let plain = respond(RequestId::String("e".to_string()), Err(Error::new(-32601, "no")));
    let with_data = ServerResponse::Error(JsonRpcError {
        json_rpc: "2.0".to_string(),
        id: RequestId::Number(i64::MAX),
        error: ErrorData {
            code: i32::MIN,
            message: "".to_string(),
            data: Some(Json::Array(vec![Json::Null])),
        },
    });
    let updated = ServerResponse::Notification(ServerNotification::ResourceUpdated {
        json_rpc: "2.0".to_string(),
        uri: "history://x".to_string(),
    });
    for message in vec![plain, with_data, updated] {
        let document = encode_response(&message).unwrap();
        assert_eq!(decode_response(ResultKind::Empty, &document), Some(message.clone()));
        assert_eq!(decode_response(ResultKind::ListTools, &document), Some(message));
    }
}

#[test]
fn documents_that_are_no_server_messages_are_not_read() {
    let texts = vec![
        "1",
        "{}",
        r#"{"jsonrpc":"2.0","id":1}"#,
        r#"{"jsonrpc":"2.0","id":1,"result":[]}"#,
        r#"{"id":1,"result":{}}"#,
        r#"{"jsonrpc":"2.0","id":[],"result":{}}"#,
        r#"{"jsonrpc":"2.0","id":1,"error":{"code":"1","message":"m"}}"#,
        r#"{"jsonrpc":"2.0","id":1,"error":{"code":2147483648,"message":"m"}}"#,
        r#"{"jsonrpc":"2.0","id":1,"error":{"code":1}}"#,
        r#"{"jsonrpc":"2.0","method":"other","params":{"uri":"u"}}"#,
        r#"{"jsonrpc":"2.0","method":"resourceUpdated"}"#,
        r#"{"jsonrpc":"2.0","method":"resourceUpdated","params":{}}"#,
    ];
    for text in texts {
        assert_eq!(decode_response(ResultKind::Empty, &parse(text)), None);
    }
    let tools = parse(r#"{"tools":[{"name":"t"}]}"#);
    assert_eq!(decode_result(ResultKind::ListTools, &tools), None);
    let content = parse(r#"{"content":[{"type":"audio"}],"isError":false}"#);
    assert_eq!(decode_result(ResultKind::CallTool, &content), None);
    let role = parse(r#"{"messages":[{"role":"system","content":{"type":"text","text":"x"}}]}"#);
    assert_eq!(decode_result(ResultKind::GetPrompt, &role), None);
    let empty = parse(r#"{"anything":1}"#);
    assert_eq!(decode_result(ResultKind::Empty, &empty), Some(ServerResult::Empty));
    assert_eq!(decode_result(ResultKind::Initialize, &empty), None);
}

#[test]
fn each_call_awaits_its_kind_of_result() {
    assert_eq!(result_kind(&Call::Ping), ResultKind::Empty);
    assert_eq!(result_kind(&Call::Complete), ResultKind::Empty);
    assert_eq!(result_kind(&Call::Subscribe { uri: "u".to_string() }), ResultKind::Empty);
    assert_eq!(result_kind(&Call::ListTools), ResultKind::ListTools);
    assert_eq!(result_kind(&Call::ListPrompts), ResultKind::ListPrompts);
    assert_eq!(result_kind(&Call::ListResources), ResultKind::ListResources);
    assert_eq!(
        result_kind(&Call::ListResourceTemplates),
        ResultKind::ListResourceTemplates
    );
    assert_eq!(
        result_kind(&Call::ReadResource { uri: "u".to_string() }),
        ResultKind::ReadResource
    );
    assert_eq!(
        result_kind(&Call::Initialize(InitializeParams { protocol_version: "v".to_string() })),
        ResultKind::Initialize
    );
    assert_eq!(
        result_kind(&Call::CallTool(CallToolParams { name: "t".to_string(), arguments: None })),
        ResultKind::CallTool
    );
    assert_eq!(
        result_kind(&Call::GetPrompt(GetPromptParams { name: "p".to_string(), arguments: None })),
        ResultKind::GetPrompt
    );
}


#[test]
fn annotations_of_a_resource_are_passed_on() {
    let annotations = parse(r#"{"audience":["user","assistant"],"priority":0.25}"#);
    let resource = ResourceDefinition {
        uri: "a://1".to_string(),
        name: "one".to_string(),
        description: None,
        mime_type: None,
        annotations: Some(annotations),
    };
    assert_eq!(
        to_value(&encode_result(&ServerResult::ListResources(vec![resource]))),
        value(
            r#"{"resources":[{"uri":"a://1","name":"one","annotations":{"audience":["user","assistant"],"priority":0.25}}]}"#
        )
    );
}
