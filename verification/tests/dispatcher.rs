use mcp::basic_service::BasicService;
use mcp::dispatch::{
    finish_call_tool, finish_get_prompt, finish_read_resource, finish_subscription,
    handle_request, Dispatch,
};
use mcp::error::Error;
use mcp::in_flight::{McpImpl, Received};
use mcp::json::{Json, ObjectBuilder};
use mcp::message::{
    text_content, CallToolParams, CallToolResult, Content, GetPromptParams, InitializeParams,
    PromptMessage, ResourceContents, Role, ServerCapabilities, ServerResult,
};
use mcp::registry::prompt::PromptBuilder;
use mcp::registry::resource::ResourceBuilder;
use mcp::registry::tool::ToolBuilder;
use mcp::request_id::RequestId;
use mcp::rpc::{
    checked_version, request_id, respond, Call, ClientNotification, ClientRequest, JsonRpcError,
    JsonRpcResponse, ServerNotification, ServerResponse,
};
use mcp::subscription::{Subscribed, Subscriptions};

type Handler = fn(&Vec<(String, Json)>) -> Result<Vec<Content>, Error>;
type Service = BasicService<Handler, u8, u32>;

fn echo(arguments: &Vec<(String, Json)>) -> Result<Vec<Content>, Error> {
    let found = arguments.iter().find(|(k, _)| k == "echo").map(|(_, v)| v);
    let text = match found {
        Some(Json::Str(text)) => text.clone(),
        _ => "No input provided".to_string(),
    };
    Ok(vec![text_content(&format!("Echo: {}", text))])
}

fn message_echo(arguments: &Vec<(String, Json)>) -> Result<Vec<Content>, Error> {
    match arguments.iter().find(|(k, _)| k == "message").map(|(_, v)| v) {
        Some(Json::Str(text)) => Ok(vec![text_content(&format!("Echo: {}", text))]),
        _ => Err(Error::bad_arguments("missing field `message`")),
    }
}

fn schema(property: &str) -> Json {
    let kind = ObjectBuilder::new().string("type", "string").build();
    let properties = ObjectBuilder::new().field(property, kind).build();
    ObjectBuilder::new().string("type", "object").field("properties", properties).build()
}

fn service() -> Service {
    BasicService::new()
        .name("host".to_string())
        .version("1.2.3".to_string())
        .tool(
            ToolBuilder::new()
                .name("test")
                .description("A test tool")
                .handler(schema("echo"), echo as Handler)
                .build()
                .unwrap(),
        )
        .tool(
            ToolBuilder::new()
                .name("echo")
                .handler(schema("message"), message_echo as Handler)
                .build()
                .unwrap(),
        )
        .prompt(
            PromptBuilder::new("greet")
                .description("Greets")
                .handler(schema("name"), 9u8)
                .build()
                .unwrap(),
        )
        .fixed_resource(
            ResourceBuilder::new()
                .fixed_uri("history://x")
                .name("history")
                .source(1u32)
                .build()
                .unwrap(),
        )
        .template_resource(
            ResourceBuilder::new()
                .template_uri("notes://{id}")
                .name("notes")
                .source(2u32)
                .build()
                .unwrap(),
        )
}

fn request(id: i64, call: Call) -> ClientRequest {
    ClientRequest { json_rpc: "2.0".to_string(), id: RequestId::Number(id), call }
}

fn done(service: &Service, table: &mut Subscriptions, call: Call) -> ServerResult {
    match handle_request(service, table, request(1, call)) {
        Ok(Dispatch::Done(result)) => result,
        _ => panic!("expected an answer"),
    }
}

fn failed(service: &Service, table: &mut Subscriptions, call: Call) -> Error {
    match handle_request(service, table, request(1, call)) {
        Err(e) => e,
        Ok(_) => panic!("expected an error"),
    }
}

#[test]
fn test_handle_call_tool() {
    let service = service();
    let mut table = Subscriptions::new();
    let params = CallToolParams {
        name: "test".to_string(),
        arguments: Some(vec![("echo".to_string(), Json::Str("Hello, world!".to_string()))]),
    };
    let outcome = match handle_request(&service, &mut table, request(1, Call::CallTool(params))) {
        Ok(Dispatch::CallTool(call)) => (call.tool.handler())(&call.arguments),
        _ => panic!("Expected CallToolResponse"),
    };
    match finish_call_tool(outcome) {
        Ok(ServerResult::CallTool(result)) => match &result.content[0] {
            Content::Text(text) => assert_eq!(text.text, "Echo: Hello, world!"),
            _ => panic!("Expected text content"),
        },
        _ => panic!("Expected CallToolResponse"),
    }

    let params = CallToolParams { name: "nonexistent".to_string(), arguments: None };
    let response = handle_request(&service, &mut table, request(2, Call::CallTool(params)));
    assert!(matches!(response, Err(_)));
}

#[test]
fn initialize_announces_the_server() {
    let service = service().instructions("Be brief".to_string());
    let mut table = Subscriptions::new();
    let call = Call::Initialize(InitializeParams { protocol_version: "X".to_string() });
    match done(&service, &mut table, call) {
        ServerResult::Initialize(result) => {
            assert_eq!(
                result.capabilities,
                ServerCapabilities {
                    prompts_list_changed: false,
                    resources_subscribe: true,
                    resources_list_changed: false,
                    tools_list_changed: false,
                }
            );
            assert_eq!(result.protocol_version, "2024-11-05");
            assert_eq!(result.server_name, "host");
            assert_eq!(result.server_version, "1.2.3");
            assert_eq!(result.instructions, Some("Be brief".to_string()));
        },
        _ => panic!("expected the result of initialize"),
    }
}

#[test]
fn new_service_is_unnamed_and_empty() {
    let service: Service = BasicService::default();
    let result = service.init(&InitializeParams { protocol_version: "1".to_string() });
    assert_eq!(result.server_name, "unnamed");
    assert_eq!(result.server_version, "0.1.0");
    assert_eq!(result.instructions, None);
    assert!(service.list_tools().tools.is_empty());
    assert!(service.list_prompts().is_empty());
    assert!(service.list_resources().is_empty());
    assert!(service.list_resource_templates().is_empty());
    assert_eq!(service.tool_registry().tools_iter().len(), 0);
    assert_eq!(service.prompt_registry().prompts_iter().len(), 0);
    assert_eq!(service.resource_registry().fixed_resources_iter().len(), 0);
}

#[test]
fn registries_can_be_changed_in_place() {
    let mut service = service();
    service.tool_registry_mut().register(
        ToolBuilder::new().name("late").handler(schema("x"), echo as Handler).build().unwrap(),
    );
    service.prompt_registry_mut().register(
        PromptBuilder::new("late").handler(schema("x"), 1u8).build().unwrap(),
    );
    service.resource_registry_mut().register_fixed(
        ResourceBuilder::new().fixed_uri("late://1").name("late").source(5u32).build().unwrap(),
    );
    assert_eq!(service.list_tools().tools.len(), 3);
    assert_eq!(service.list_prompts().len(), 2);
    assert_eq!(service.list_resources().len(), 2);
    assert_eq!(service.read_resource("late://1"), Ok(&5));
}

#[test]
fn ping_and_complete_answer_empty() {
    let service = service();
    let mut table = Subscriptions::new();
    assert_eq!(done(&service, &mut table, Call::Ping), ServerResult::Empty);
    assert_eq!(done(&service, &mut table, Call::Complete), ServerResult::Empty);
}

#[test]
fn listings_show_what_is_registered() {
    let service = service();
    let mut table = Subscriptions::new();
    match done(&service, &mut table, Call::ListTools) {
        ServerResult::ListTools(list) => {
            let names: Vec<&str> = list.tools.iter().map(|t| t.name.as_str()).collect();
            assert_eq!(names, vec!["test", "echo"]);
            assert_eq!(list.tools[0].description, Some("A test tool".to_string()));
            assert_eq!(list.tools[0].input_schema, schema("echo"));
        },
        _ => panic!("expected tools"),
    }
    match done(&service, &mut table, Call::ListPrompts) {
        ServerResult::ListPrompts(list) => {
            assert_eq!(list.len(), 1);
            assert_eq!(list[0].name, "greet");
            assert_eq!(list[0].arguments.len(), 1);
            assert!(list[0].arguments[0].required);
        },
        _ => panic!("expected prompts"),
    }
    match done(&service, &mut table, Call::ListResources) {
        ServerResult::ListResources(list) => {
            assert_eq!(list.len(), 1);
            assert_eq!(list[0].uri, "history://x");
        },
        _ => panic!("expected resources"),
    }
    match done(&service, &mut table, Call::ListResourceTemplates) {
        ServerResult::ListResourceTemplates(list) => {
            assert_eq!(list.len(), 1);
            assert_eq!(list[0].uri, "notes://{id}");
        },
        _ => panic!("expected templates"),
    }
}

#[test]
fn unknown_tool_call_is_answered_with_404_under_the_same_id() {
    let service = service();
    let mut table = Subscriptions::new();
    let params = CallToolParams { name: "nope".to_string(), arguments: None };
    let incoming = ClientRequest {
        json_rpc: "2.0".to_string(),
        id: RequestId::String("abc".to_string()),
        call: Call::CallTool(params),
    };
    let id = request_id(&incoming).clone();
    let outcome = match handle_request(&service, &mut table, incoming) {
        Err(e) => Err(e),
        Ok(_) => panic!("expected an error"),
    };
    match respond(id, outcome) {
        ServerResponse::Error(JsonRpcError { json_rpc, id, error }) => {
            assert_eq!(json_rpc, "2.0");
            assert_eq!(id, RequestId::String("abc".to_string()));
            assert_eq!(error.code, 404);
            assert_eq!(error.message, "Tool 'nope' not found");
            assert_eq!(error.data, None);
        },
        _ => panic!("expected an error reply"),
    }
}

#[test]
fn echo_tool_returns_its_text() {
    let service = service();
    let mut table = Subscriptions::new();
    let params = CallToolParams {
        name: "echo".to_string(),
        arguments: Some(vec![("message".to_string(), Json::Str("hi".to_string()))]),
    };
    let outcome = match handle_request(&service, &mut table, request(3, Call::CallTool(params))) {
        Ok(Dispatch::CallTool(call)) => (call.tool.handler())(&call.arguments),
        _ => panic!("expected a tool call"),
    };
    assert_eq!(
        finish_call_tool(outcome),
        Ok(ServerResult::CallTool(CallToolResult {
            content: vec![text_content("Echo: hi")],
            is_error: false
        }))
    );
}

#[test]
fn handler_error_keeps_code_and_message() {
    let service = service();
    let mut table = Subscriptions::new();
    let params = CallToolParams { name: "echo".to_string(), arguments: None };
    let outcome = match handle_request(&service, &mut table, request(3, Call::CallTool(params))) {
        Ok(Dispatch::CallTool(call)) => {
            assert!(call.arguments.is_empty());
            (call.tool.handler())(&call.arguments)
        },
        _ => panic!("expected a tool call"),
    };
    let error = Error::new(400, "Failed to deserialize arguments: missing field `message`");
    assert_eq!(finish_call_tool(outcome), Err(error.clone()));
    match respond(RequestId::Number(3), Err(error)) {
        ServerResponse::Error(e) => {
            assert_eq!(e.id, RequestId::Number(3));
            assert_eq!(e.error.code, 400);
        },
        _ => panic!("expected an error reply"),
    }
    assert_eq!(
        finish_read_resource(Err(Error::new(7, "seven"))),
        Err(Error::new(7, "seven"))
    );
}

#[test]
fn wrong_version_is_refused_with_400_and_the_id_is_kept() {
    let service = service();
    let mut table = Subscriptions::new();
    let incoming = ClientRequest {
        json_rpc: "1.0".to_string(),
        id: RequestId::Number(5),
        call: Call::Subscribe { uri: "history://x".to_string() },
    };
    let id = incoming.id.clone();
    let outcome = match handle_request(&service, &mut table, incoming) {
        Err(e) => Err(e),
        Ok(_) => panic!("expected a refusal"),
    };
    assert_eq!(table.len(), 0);
    let text = "Client is using JSON RPC version 1.0, but server only supports version 2.0";
    assert_eq!(outcome, Err(Error::new(400, text)));
    match respond(id, outcome) {
        ServerResponse::Error(e) => {
            assert_eq!(e.json_rpc, "2.0");
            assert_eq!(e.id, RequestId::Number(5));
            assert_eq!(e.error.code, 400);
            assert_eq!(e.error.message, text);
        },
        _ => panic!("expected an error reply"),
    }
    assert_eq!(checked_version("2.0".to_string()), Ok("2.0".to_string()));
    assert_eq!(
        checked_version("".to_string()),
        Err(Error::new(
            400,
            "Client is using JSON RPC version , but server only supports version 2.0"
        ))
    );
}

#[test]
fn set_level_is_not_implemented() {
    let service = service();
    let mut table = Subscriptions::new();
    let error = failed(&service, &mut table, Call::SetLevel { level: "debug".to_string() });
    assert_eq!(error, Error::new(501, "not implemented"));
}

#[test]
fn get_prompt_hands_out_the_prompt_and_wraps_its_messages() {
    let service = service();
    let mut table = Subscriptions::new();
    let params = GetPromptParams {
        name: "greet".to_string(),
        arguments: Some(vec![("name".to_string(), "Ann".to_string())]),
    };
    match handle_request(&service, &mut table, request(1, Call::GetPrompt(params))) {
        Ok(Dispatch::GetPrompt(call)) => {
            assert_eq!(call.arguments, vec![("name".to_string(), Json::Str("Ann".to_string()))]);
            let messages =
                vec![PromptMessage { role: Role::User, content: text_content("Hi Ann") }];
            match finish_get_prompt(call.prompt, Ok(messages.clone())) {
                Ok(ServerResult::GetPrompt(result)) => {
                    assert_eq!(result.description, Some("Greets".to_string()));
                    assert_eq!(result.messages, messages);
                },
                _ => panic!("expected a rendered prompt"),
            }
            assert_eq!(
                finish_get_prompt(call.prompt, Err(Error::new(400, "bad"))),
                Err(Error::new(400, "bad"))
            );
        },
        _ => panic!("expected a prompt"),
    }
    let params = GetPromptParams { name: "nope".to_string(), arguments: None };
    assert_eq!(
        failed(&service, &mut table, Call::GetPrompt(params)),
        Error::new(404, "Prompt 'nope' not found")
    );
}

#[test]
fn read_resource_resolves_the_source() {
    let service = service();
    let mut table = Subscriptions::new();
    let call = Call::ReadResource { uri: "notes://7".to_string() };
    match handle_request(&service, &mut table, request(1, call)) {
        Ok(Dispatch::ReadResource { source, uri }) => {
            assert_eq!(*source, 2);
            assert_eq!(uri, "notes://7");
        },
        _ => panic!("expected a source"),
    }
    let contents = vec![ResourceContents::Text {
        uri: "notes://7".to_string(),
        mime_type: None,
        text: "seven".to_string(),
    }];
    assert_eq!(
        finish_read_resource(Ok(contents.clone())),
        Ok(ServerResult::ReadResource(contents))
    );
    assert_eq!(
        failed(&service, &mut table, Call::ReadResource { uri: "nowhere://1".to_string() }),
        Error::new(404, "Resource at uri 'nowhere://1' not found")
    );
}

fn subscribe(service: &Service, table: &mut Subscriptions, uri: &str) -> Subscribed {
    match handle_request(service, table, request(1, Call::Subscribe { uri: uri.to_string() })) {
        Ok(Dispatch::Subscribe { source: _, uri: told, change }) => {
            assert_eq!(told, uri);
            change
        },
        _ => panic!("expected a subscription"),
    }
}

fn unsubscribe(service: &Service, table: &mut Subscriptions, uri: &str) -> Option<u64> {
    match handle_request(service, table, request(1, Call::Unsubscribe { uri: uri.to_string() })) {
        Ok(Dispatch::Unsubscribe { uri: told, removed }) => {
            assert_eq!(told, uri);
            removed
        },
        _ => panic!("expected the end of a subscription"),
    }
}

#[test]
fn subscribe_then_change_then_unsubscribe() {
    let service = service();
    let mut table = Subscriptions::new();
    let change = subscribe(&service, &mut table, "history://x");
    assert_eq!(finish_subscription(), Ok(ServerResult::Empty));
    assert_eq!(change.replaced, None);
    assert_eq!(table.len(), 1);
    assert_eq!(table.watcher("history://x"), Some(change.watcher));

    let sent = table.resource_updated("history://x", change.watcher);
    assert_eq!(
        sent,
        ServerResponse::Notification(ServerNotification::ResourceUpdated {
            json_rpc: "2.0".to_string(),
            uri: "history://x".to_string()
        })
    );

    assert_eq!(unsubscribe(&service, &mut table, "history://x"), Some(change.watcher));
    assert_eq!(table.len(), 0);
    assert_eq!(table.resource_updated("history://x", change.watcher), ServerResponse::Nothing);
    assert!(!table.is_current("history://x", change.watcher));
}

#[test]
fn subscribing_without_a_source_changes_nothing() {
    let service = service();
    let mut table = Subscriptions::new();
    assert_eq!(
        failed(&service, &mut table, Call::Subscribe { uri: "nowhere://1".to_string() }),
        Error::new(404, "Resource at uri 'nowhere://1' not found")
    );
    assert_eq!(table.len(), 0);
    assert_eq!(
        service.subscribe(&mut table, "nowhere://1").err(),
        Some(Error::new(404, "Resource at uri 'nowhere://1' not found"))
    );
}

#[test]
fn unsubscribing_what_is_not_subscribed_is_a_no_op() {
    let service = service();
    let mut table = Subscriptions::default();
    let kept = subscribe(&service, &mut table, "history://x");
    assert_eq!(unsubscribe(&service, &mut table, "notes://1"), None);
    assert_eq!(table.len(), 1);
    assert_eq!(table.watcher("history://x"), Some(kept.watcher));
    assert_eq!(service.unsubscribe(&mut table, "never://1"), None);
    assert_eq!(table.unsubscribe("never://2"), None);
    assert_eq!(table.len(), 1);
}

#[test]
fn subscribing_again_replaces_the_watcher() {
    let service = service();
    let mut table = Subscriptions::new();
    let first = subscribe(&service, &mut table, "history://x");
    let other = subscribe(&service, &mut table, "notes://1");
    let second = subscribe(&service, &mut table, "history://x");
    assert_eq!(second.replaced, Some(first.watcher));
    assert_ne!(second.watcher, first.watcher);
    assert_ne!(second.watcher, other.watcher);
    assert_eq!(table.len(), 2);
    assert!(table.is_current("history://x", second.watcher));
    assert!(!table.is_current("history://x", first.watcher));
    assert_eq!(table.resource_updated("history://x", first.watcher), ServerResponse::Nothing);
    assert!(table.is_current("notes://1", other.watcher));
    let direct = table.subscribe("history://x").unwrap();
    assert_eq!(direct.replaced, Some(second.watcher));
}

#[test]
fn request_in_flight_is_answered_once() {
    let mut flights: McpImpl<&str> = McpImpl::new();
    let id = RequestId::Number(1);
    assert_eq!(flights.begin(id.clone(), "signal"), Ok(()));
    assert!(flights.in_flight(&id));
    assert_eq!(flights.len(), 1);
    let sent = flights.complete(id.clone(), Ok(ServerResult::Empty));
    assert_eq!(
        sent,
        ServerResponse::Response(JsonRpcResponse {
            json_rpc: "2.0".to_string(),
            id: id.clone(),
            result: ServerResult::Empty
        })
    );
    assert!(!flights.in_flight(&id));
    assert_eq!(flights.complete(id, Ok(ServerResult::Empty)), ServerResponse::Nothing);
}

#[test]
fn cancelled_request_is_never_answered() {
    let mut flights: McpImpl<u8> = McpImpl::default();
    let incoming = request(42, Call::CallTool(CallToolParams {
        name: "sleep".to_string(),
        arguments: None,
    }));
    assert_eq!(flights.accept(&incoming, 7), Ok(()));
    let cancel = ClientNotification::Cancelled {
        json_rpc: "2.0".to_string(),
        request_id: RequestId::Number(42),
        reason: Some("user".to_string()),
    };
    assert_eq!(flights.notify(&cancel), Some(7));
    assert!(!flights.in_flight(&RequestId::Number(42)));
    assert_eq!(flights.len(), 0);
    assert_eq!(
        flights.complete(RequestId::Number(42), Ok(ServerResult::Empty)),
        ServerResponse::Nothing
    );
    assert_eq!(flights.notify(&cancel), None);
    assert_eq!(flights.cancel(&RequestId::Number(42)), None);
}

#[test]
fn other_notifications_change_nothing() {
    let mut flights: McpImpl<u8> = McpImpl::new();
    flights.begin(RequestId::Number(1), 1).unwrap();
    let other = ClientNotification::Other {
        json_rpc: "2.0".to_string(),
        method: "initialized".to_string(),
    };
    assert_eq!(flights.notify(&other), None);
    assert_eq!(flights.len(), 1);
}

#[test]
fn duplicate_request_id_is_refused() {
    let mut flights: McpImpl<u8> = McpImpl::new();
    let incoming = request(1, Call::Ping);
    assert_eq!(flights.accept(&incoming, 1), Ok(()));
    match flights.accept(&incoming, 2) {
        Err(ServerResponse::Error(e)) => {
            assert_eq!(e.id, RequestId::Number(1));
            assert_eq!(e.error.code, -32600);
            assert_eq!(e.error.message, "duplicate request id");
        },
        _ => panic!("expected a refusal"),
    }
    assert_eq!(flights.len(), 1);
    assert_eq!(
        flights.begin(RequestId::Number(1), 3),
        Err(Error::new(-32600, "duplicate request id"))
    );
    assert_eq!(flights.cancel(&RequestId::Number(1)), Some(1));
}

#[test]
fn string_and_number_ids_are_never_equal() {
    let text = RequestId::String("1".to_string());
    let number = RequestId::Number(1);
    assert!(!text.same(&number));
    assert!(text != number);
    assert!(text.same(&RequestId::String("1".to_string())));
    assert!(number == RequestId::Number(1));
    assert!(number != RequestId::Number(2));
    let mut flights: McpImpl<u8> = McpImpl::new();
    assert_eq!(flights.begin(text.clone(), 1), Ok(()));
    assert_eq!(flights.begin(number.clone(), 2), Ok(()));
    assert_eq!(flights.cancel(&number), Some(2));
    assert!(flights.in_flight(&text));
}

fn document(members: Vec<(&str, Json)>) -> Json {
    Json::Object(members.into_iter().map(|(k, v)| (k.to_string(), v)).collect())
}

fn ping(id: i64) -> Json {
    document(vec![
        ("jsonrpc", Json::string("2.0")),
        ("id", Json::Int(id)),
        ("method", Json::string("ping")),
    ])
}

#[test]
fn arriving_documents_are_sorted_by_what_they_ask_for() {
    let mut flights: McpImpl<u8> = McpImpl::new();

    match flights.receive(&ping(1), 1) {
        Received::Run(request) => assert_eq!(request, ping_request(1)),
        _ => panic!("expected a request to run"),
    }
    assert!(flights.in_flight(&RequestId::Number(1)));

    match flights.receive(&ping(1), 2) {
        Received::Reply(ServerResponse::Error(e)) => {
            assert_eq!(e.id, RequestId::Number(1));
            assert_eq!(e.error.code, -32600);
        },
        _ => panic!("expected a refusal"),
    }
    assert_eq!(flights.len(), 1);

    let unknown = document(vec![
        ("jsonrpc", Json::string("2.0")),
        ("id", Json::Int(2)),
        ("method", Json::string("nope")),
    ]);
    match flights.receive(&unknown, 3) {
        Received::Reply(ServerResponse::Error(e)) => {
            assert_eq!(e.id, RequestId::Number(2));
            assert_eq!(e.error.code, -32601);
        },
        _ => panic!("expected a refusal"),
    }
    assert!(!flights.in_flight(&RequestId::Number(2)));

    let cancel = document(vec![
        ("jsonrpc", Json::string("2.0")),
        ("method", Json::string("cancelled")),
        ("params", document(vec![("requestId", Json::Int(1))])),
    ]);
    assert!(matches!(flights.receive(&cancel, 4), Received::Cancel(1)));
    assert_eq!(flights.len(), 0);
    assert!(matches!(flights.receive(&cancel, 5), Received::Ignore));

    let other = document(vec![
        ("jsonrpc", Json::string("2.0")),
        ("method", Json::string("initialized")),
    ]);
    assert!(matches!(flights.receive(&other, 6), Received::Ignore));
    assert!(matches!(flights.receive(&Json::Null, 7), Received::Unreadable));
    assert_eq!(flights.len(), 0);
}

fn ping_request(id: i64) -> ClientRequest {
    request(id, Call::Ping)
}
