use mcp::error::Error;
use mcp::json::{Json, ObjectBuilder};
use mcp::message::{
    text_content, image_content, resource_content, CallToolParams, Content, GetPromptParams,
    ImageContent, PromptArgument, PromptMessage, ResourceContent, Role, TextContent,
};
use mcp::registry::prompt::{prompt_arguments, Prompt, PromptBuilder, PromptRegistry};
use mcp::registry::resource::{
    FixedResourceUri, Resource, ResourceBuilder, ResourceRegistry, TemplateResourceUri,
};
use mcp::registry::tool::{Tool, ToolBuilder, ToolRegistry};
use mcp::registry::HandlerRegistry;

type Handler = fn(&Vec<(String, Json)>) -> Result<Vec<Content>, Error>;

fn argument<'a>(arguments: &'a Vec<(String, Json)>, key: &str) -> Option<&'a Json> {
    arguments.iter().find(|(k, _)| k == key).map(|(_, v)| v)
}

fn echo(arguments: &Vec<(String, Json)>) -> Result<Vec<Content>, Error> {
    match argument(arguments, "message") {
        Some(Json::Str(message)) => Ok(vec![text_content(message)]),
        _ => Err(Error::bad_arguments("missing field `message`")),
    }
}

fn typed_echo(arguments: &Vec<(String, Json)>) -> Result<Vec<Content>, Error> {
    match argument(arguments, "message") {
        Some(Json::Str(message)) => Ok(vec![text_content(&format!("\"{}\"", message))]),
        _ => Err(Error::bad_arguments("missing field `message`")),
    }
}

fn string_schema(property: &str) -> Json {
    let kind = ObjectBuilder::new().string("type", "string").build();
    let properties = ObjectBuilder::new().field(property, kind).build();
    ObjectBuilder::new().string("type", "object").field("properties", properties).build()
}

fn tool(name: &str, description: &str, handler: Handler) -> Tool<Handler> {
    Tool::builder()
        .name(name)
        .description(description)
        .handler(string_schema("message"), handler)
        .build()
        .unwrap()
}

fn message_arguments(text: &str) -> Option<Vec<(String, Json)>> {
    Some(vec![("message".to_string(), Json::Str(text.to_string()))])
}

#[test]
fn test_tool_registry() {
    let mut registry: ToolRegistry<Handler> = ToolRegistry::new();
    registry.register(tool("echo", "Echoes back the input message", echo));

    let call = registry
        .call_tool(CallToolParams {
            name: "echo".to_string(),
            arguments: message_arguments("Hello, world!"),
        })
        .unwrap();
    let content = (call.tool.handler())(&call.arguments).unwrap();
    let result = call.tool.run(content);

    match &result.content[0] {
        Content::Text(text) => assert_eq!(text.text, "Hello, world!"),
        _ => panic!("Expected text content"),
    }
}

#[test]
fn test_typed_tool() {
    let mut registry: ToolRegistry<Handler> = ToolRegistry::new();
    registry.register(tool("typed_echo", "Typed echo tool", typed_echo));

    let call = registry
        .call_tool(CallToolParams {
            name: "typed_echo".to_string(),
            arguments: message_arguments("Hello from typed tool!"),
        })
        .unwrap();
    let content = (call.tool.handler())(&call.arguments).unwrap();
    let result = call.tool.run(content);

    match &result.content[0] {
        Content::Text(text) => assert!(text.text.contains("Hello from typed tool!")),
        _ => panic!("Expected text content"),
    }
}

#[test]
fn content_helpers_build_each_kind() {
    assert_eq!(text_content("hi"), Content::Text(TextContent { text: "hi".to_string() }));
    assert_eq!(
        image_content("http://x/i.png", "image/png"),
        Content::Image(ImageContent {
            url: "http://x/i.png".to_string(),
            mime_type: "image/png".to_string()
        })
    );
    assert_eq!(
        resource_content("http://x/r", Some("text/plain".to_string())),
        Content::Resource(ResourceContent {
            url: "http://x/r".to_string(),
            mime_type: Some("text/plain".to_string())
        })
    );
    assert_eq!(
        resource_content("http://x/r", None),
        Content::Resource(ResourceContent { url: "http://x/r".to_string(), mime_type: None })
    );
}

#[test]
fn handler_registry_keeps_first_registration_order() {
    let mut registry: HandlerRegistry<u32> = HandlerRegistry::new();
    assert_eq!(registry.len(), 0);
    registry.register("b".to_string(), 1);
    registry.register("a".to_string(), 2);
    registry.register("c".to_string(), 3);
    registry.register("a".to_string(), 4);
    assert_eq!(registry.len(), 3);
    let listed: Vec<(String, u32)> =
        registry.handlers_iter().into_iter().map(|(k, v)| (k.clone(), *v)).collect();
    assert_eq!(
        listed,
        vec![("b".to_string(), 1), ("a".to_string(), 4), ("c".to_string(), 3)]
    );
    assert_eq!(registry.get("a"), Some(&4));
    assert_eq!(registry.get("z"), None);
    assert!(registry.contains("c"));
    assert!(!registry.contains("C"));
}

#[test]
fn handler_registry_call_reports_missing_handler() {
    let mut registry: HandlerRegistry<u32> = HandlerRegistry::default();
    registry.register("a".to_string(), 1);
    assert_eq!(registry.call("a"), Ok(&1));
    assert_eq!(registry.call("b"), Err(Error::new(404, "Handler 'b' not found")));
}

#[test]
fn handler_registry_unregister_removes_one_entry() {
    let mut registry: HandlerRegistry<u32> = HandlerRegistry::new();
    registry.register("a".to_string(), 1);
    registry.register("b".to_string(), 2);
    assert_eq!(registry.unregister("a"), Some(1));
    assert_eq!(registry.unregister("a"), None);
    assert_eq!(registry.len(), 1);
    assert_eq!(registry.get("b"), Some(&2));
}

#[test]
fn unknown_tool_is_not_found() {
    let registry: ToolRegistry<Handler> = ToolRegistry::new();
    let error = registry
        .call_tool(CallToolParams { name: "nope".to_string(), arguments: None })
        .err()
        .unwrap();
    assert_eq!(error, Error::new(404, "Tool 'nope' not found"));
}

#[test]
fn missing_arguments_become_the_empty_object() {
    let mut registry: ToolRegistry<Handler> = ToolRegistry::new();
    registry.register(tool("echo", "Echo", echo));
    let call = registry
        .call_tool(CallToolParams { name: "echo".to_string(), arguments: None })
        .unwrap();
    assert!(call.arguments.is_empty());
    assert_eq!(Json::object(call.arguments), Json::empty_object());
}

#[test]
fn list_tools_shows_one_entry_for_each_name() {
    let mut registry: ToolRegistry<Handler> = ToolRegistry::new();
    registry.register(tool("echo", "first", echo));
    registry.register(tool("other", "second", echo));
    registry.register(tool("echo", "third", typed_echo));
    let listed = registry.list_tools().tools;
    assert_eq!(listed.len(), 2);
    assert_eq!(listed[0].name, "echo");
    assert_eq!(listed[0].description, Some("third".to_string()));
    assert_eq!(listed[0].input_schema, string_schema("message"));
    assert_eq!(listed[1].name, "other");
    assert_eq!(listed[1].description, Some("second".to_string()));
    let names: Vec<String> =
        registry.tools_iter().into_iter().map(|(name, _)| name.clone()).collect();
    assert_eq!(names, vec!["echo".to_string(), "other".to_string()]);
}

#[test]
fn tool_builder_reports_the_first_missing_field() {
    let none: Result<Tool<Handler>, Error> = ToolBuilder::new().build();
    assert_eq!(none.err().unwrap(), Error::new(500, "missing name"));
    let unnamed: Result<Tool<Handler>, Error> =
        ToolBuilder::new().handler(string_schema("m"), echo as Handler).build();
    assert_eq!(unnamed.err().unwrap(), Error::new(500, "missing name"));
    let bare: Result<Tool<Handler>, Error> = ToolBuilder::default().name("t").build();
    assert_eq!(bare.err().unwrap(), Error::new(500, "missing handler input schema"));
    let built = ToolBuilder::new().name("t").handler(string_schema("m"), echo as Handler).build();
    let built = built.unwrap();
    assert_eq!(built.name(), "t");
    assert_eq!(built.description(), &None);
    assert_eq!(built.schema(), &string_schema("m"));
    assert_eq!(built.definition().name, "t");
}

fn optional_string() -> Json {
    let kinds = Json::array(vec![Json::string("string"), Json::string("null")]);
    ObjectBuilder::new().field("type", kinds).string("description", "a note").build()
}

#[test]
fn prompt_arguments_follow_the_schema() {
    let required = ObjectBuilder::new().string("type", "string").build();
    let properties = ObjectBuilder::new()
        .field("topic", required)
        .field("note", optional_string())
        .build();
    let schema = ObjectBuilder::new()
        .string("type", "object")
        .field("properties", properties)
        .build();
    assert_eq!(
        prompt_arguments(&schema),
        Ok(vec![
            PromptArgument { name: "topic".to_string(), description: None, required: true },
            PromptArgument {
                name: "note".to_string(),
                description: Some("a note".to_string()),
                required: false
            },
        ])
    );
    assert_eq!(prompt_arguments(&Json::empty_object()), Ok(vec![]));
}

#[test]
fn prompt_with_non_string_argument_fails_to_build() {
    let refusal = Error::new(500, "prompt arguments must be strings or optional strings");
    let number = ObjectBuilder::new().string("type", "integer").build();
    let properties = ObjectBuilder::new().field("count", number).build();
    let schema = ObjectBuilder::new().field("properties", properties).build();
    assert_eq!(prompt_arguments(&schema), Err(refusal.clone()));
    let built: Result<Prompt<u8>, Error> =
        PromptBuilder::new("p").handler(schema, 0u8).build();
    assert_eq!(built.err().unwrap(), refusal);

    let swapped = Json::array(vec![Json::string("null"), Json::string("string")]);
    let property = ObjectBuilder::new().field("type", swapped).build();
    let properties = ObjectBuilder::new().field("x", property).build();
    let schema = ObjectBuilder::new().field("properties", properties).build();
    assert_eq!(prompt_arguments(&schema), Err(refusal.clone()));

    assert_eq!(prompt_arguments(&Json::Null), Err(refusal.clone()));
    let schema = ObjectBuilder::new().field("properties", Json::Int(1)).build();
    assert_eq!(prompt_arguments(&schema), Err(refusal.clone()));
    let untyped = ObjectBuilder::new().field("x", Json::empty_object()).build();
    let schema = ObjectBuilder::new().field("properties", untyped).build();
    assert_eq!(prompt_arguments(&schema), Err(refusal));
}

#[test]
fn prompt_builder_needs_a_handler() {
    let built: Result<Prompt<u8>, Error> = Prompt::builder("p").description("d").build();
    assert_eq!(built.err().unwrap(), Error::new(500, "missing handler"));
}

#[test]
fn prompt_registry_finds_and_renders() {
    let mut registry: PromptRegistry<u8> = PromptRegistry::new();
    let prompt = PromptBuilder::new("greet")
        .description("Greets")
        .handler(string_schema("name"), 7u8)
        .build()
        .unwrap();
    registry.register(prompt);
    let call = registry
        .get_prompt(GetPromptParams {
            name: "greet".to_string(),
            arguments: Some(vec![("name".to_string(), "Ann".to_string())]),
        })
        .unwrap();
    assert_eq!(*call.prompt.handler(), 7u8);
    assert_eq!(call.arguments, vec![("name".to_string(), Json::Str("Ann".to_string()))]);
    let messages =
        vec![PromptMessage { role: Role::Assistant, content: text_content("Hello, Ann") }];
    let result = call.prompt.run(messages.clone());
    assert_eq!(result.description, Some("Greets".to_string()));
    assert_eq!(result.messages, messages);

    let none = registry
        .get_prompt(GetPromptParams { name: "greet".to_string(), arguments: None })
        .unwrap();
    assert!(none.arguments.is_empty());

    let missing = registry
        .get_prompt(GetPromptParams { name: "nope".to_string(), arguments: None })
        .err()
        .unwrap();
    assert_eq!(missing, Error::new(404, "Prompt 'nope' not found"));

    let listed = registry.list_prompts();
    assert_eq!(listed.len(), 1);
    assert_eq!(listed[0].name, "greet");
    assert_eq!(listed[0].description, Some("Greets".to_string()));
    assert_eq!(
        listed[0].arguments,
        vec![PromptArgument { name: "name".to_string(), description: None, required: true }]
    );
    assert_eq!(registry.prompts_iter().len(), 1);
}

fn fixed(uri: &str, source: u32) -> Resource<u32, FixedResourceUri> {
    ResourceBuilder::new().fixed_uri(uri).name("fixed").source(source).build().unwrap()
}

fn family(template: &str, source: u32) -> Resource<u32, TemplateResourceUri> {
    Resource::builder()
        .template_uri(template)
        .name("family")
        .description("many")
        .mime_type("text/plain")
        .source(source)
        .build()
        .unwrap()
}

#[test]
fn resource_lookup_prefers_exact_then_first_template() {
    let mut registry: ResourceRegistry<u32> = ResourceRegistry::new();
    registry.register_template(family("history://{id}", 10));
    registry.register_template(family("history://{+rest}", 20));
    registry.register_fixed(fixed("history://x", 1));
    assert_eq!(registry.get_source("history://x"), Ok(&1));
    assert_eq!(registry.get_source("history://y"), Ok(&10));
    assert_eq!(registry.get_source("history://y/z"), Ok(&20));
    assert_eq!(registry.read_resource("history://y"), Ok(&10));
    assert_eq!(registry.wait_for_change("history://x"), Ok(&1));
    assert_eq!(
        registry.get_source("other://y"),
        Err(Error::new(404, "Resource at uri 'other://y' not found"))
    );
}

#[test]
fn resource_listings_are_kept_apart() {
    let mut registry: ResourceRegistry<u32> = ResourceRegistry::default();
    registry.register_fixed(fixed("a://1", 1));
    registry.register_fixed(fixed("a://2", 2));
    registry.register_fixed(fixed("a://1", 3));
    registry.register_template(family("b://{x}", 4));
    let resources = registry.list_resources();
    assert_eq!(resources.len(), 2);
    assert_eq!(resources[0].uri, "a://1");
    assert_eq!(resources[1].uri, "a://2");
    assert_eq!(resources[0].name, "fixed");
    assert_eq!(resources[0].description, None);
    assert_eq!(resources[0].annotations, None);
    assert_eq!(registry.get_source("a://1"), Ok(&3));
    let templates = registry.list_resource_templates();
    assert_eq!(templates.len(), 1);
    assert_eq!(templates[0].uri, "b://{x}");
    assert_eq!(templates[0].description, Some("many".to_string()));
    assert_eq!(templates[0].mime_type, Some("text/plain".to_string()));
    assert_eq!(registry.fixed_resources_iter().len(), 2);
    assert_eq!(registry.template_resource_iter().len(), 1);
    assert_eq!(registry.fixed_resources_iter()[1].uri(), &FixedResourceUri("a://2".to_string()));
    assert_eq!(*registry.template_resource_iter()[0].source(), 4);
}

#[test]
fn resource_builder_reports_the_first_missing_field() {
    let none: Result<Resource<u32, FixedResourceUri>, Error> = ResourceBuilder::new().build();
    assert_eq!(none.err().unwrap(), Error::new(500, "missing uri"));
    let unnamed: Result<Resource<u32, FixedResourceUri>, Error> =
        ResourceBuilder::new().fixed_uri("a://1").source(1).build();
    assert_eq!(unnamed.err().unwrap(), Error::new(500, "missing name"));
    let bare: Result<Resource<u32, TemplateResourceUri>, Error> =
        ResourceBuilder::default().template_uri("a://{x}").name("n").build();
    assert_eq!(bare.err().unwrap(), Error::new(500, "missing source"));
}


#[test]
fn resource_annotations_reach_the_listing() {
    let note = ObjectBuilder::new().field("audience", Json::array(vec![Json::string("user")])).build();
    let resource: Resource<u32, FixedResourceUri> = ResourceBuilder::new()
        .fixed_uri("a://1")
        .name("one")
        .annotations(note.clone())
        .source(1)
        .build()
        .unwrap();
    assert_eq!(resource.annotations(), &Some(note.clone()));
    assert_eq!(resource.name(), "one");
    assert_eq!(resource.description(), &None);
    assert_eq!(resource.mime_type(), &None);
    let mut registry: ResourceRegistry<u32> = ResourceRegistry::new();
    registry.register_fixed(resource);
    assert_eq!(registry.list_resources()[0].annotations, Some(note));
}
