//! The dispatcher: from a request and the service to what answers it.
//!
//! A request is answered at once where the service knows the answer. Where
//! a handler or a source has to run first, the dispatcher says which, and
//! on what; the caller runs it and hands the outcome to the matching
//! `finish_` function.

use vstd::prelude::*;
use vstd::string::*;
use crate::assoc::{find, put, remove};
use crate::basic_service::BasicService;
use crate::error::{Error, ErrorView};
use crate::json::{members_view, JsonView};
use crate::message::{
    views, CallToolResult, Content, GetPromptResultView, PromptMessage, ResourceContents, ServerResult,
    ServerResultView,
};
use crate::registry::prompt::{prompt_definitions, string_members, Prompt, PromptCall};
use crate::registry::resource::{fixed_definitions, no_resource, resolve, template_definitions};
use crate::registry::tool::{arguments_or_empty, call_result, definitions, Tool, ToolCall};
use crate::rpc::{checked_version, version_mismatch, Call, CallView, ClientRequest, ClientRequestView};
use crate::subscription::{exhausted_error, Subscribed, Subscriptions};

verus! {

/// What the dispatcher made of a request.
pub enum Dispatch<'a, T, P, S> {
    /// The request is answered.
    Done(ServerResult),
    /// The tool's handler has to run on the arguments.
    CallTool(ToolCall<'a, T>),
    /// The prompt's handler has to run on the arguments.
    GetPrompt(PromptCall<'a, P>),
    /// The source has to read the resource at `uri`.
    ReadResource { source: &'a S, uri: String },
    /// The address is subscribed: a watcher has to start on the source,
    /// and the watcher that it replaces has to stop. The answer is empty.
    Subscribe { source: &'a S, uri: String, change: Subscribed },
    /// The subscription has ended: its watcher has to stop. The answer is
    /// empty.
    Unsubscribe { uri: String, removed: Option<u64> },
}

/// What a [`Dispatch`] holds.
pub enum DispatchView<T, P, S> {
    Done(ServerResultView),
    CallTool { tool: Tool<T>, arguments: Seq<(Seq<char>, JsonView)> },
    GetPrompt { prompt: Prompt<P>, arguments: Seq<(Seq<char>, JsonView)> },
    ReadResource { source: S, uri: Seq<char> },
    Subscribe { source: S, uri: Seq<char>, change: Subscribed },
    Unsubscribe { uri: Seq<char>, removed: Option<u64> },
}

impl<'a, T, P, S> View for Dispatch<'a, T, P, S> {
    type V = DispatchView<T, P, S>;

    open spec fn view(&self) -> DispatchView<T, P, S> {
        match self {
            Dispatch::Done(result) => DispatchView::Done(result@),
            Dispatch::CallTool(call) => DispatchView::CallTool {
                tool: *call.tool,
                arguments: members_view(call.arguments@),
            },
            Dispatch::GetPrompt(call) => DispatchView::GetPrompt {
                prompt: *call.prompt,
                arguments: members_view(call.arguments@),
            },
            Dispatch::ReadResource { source, uri } => DispatchView::ReadResource {
                source: **source,
                uri: uri@,
            },
            Dispatch::Subscribe { source, uri, change } => DispatchView::Subscribe {
                source: **source,
                uri: uri@,
                change: *change,
            },
            Dispatch::Unsubscribe { uri, removed } => DispatchView::Unsubscribe {
                uri: uri@,
                removed: *removed,
            },
        }
    }
}

/// What answers the call `call` on `service`, with the subscriptions
/// `table`.
pub open spec fn routed_call<T, P, S>(
    service: BasicService<T, P, S>,
    table: Subscriptions,
    call: CallView,
) -> Result<DispatchView<T, P, S>, ErrorView> {
    match call {
        CallView::Initialize { .. } => Ok(
            DispatchView::Done(ServerResultView::Initialize(service.initialize_result())),
        ),
        CallView::Ping => Ok(DispatchView::Done(ServerResultView::Empty)),
        CallView::ListResources => Ok(
            DispatchView::Done(
                ServerResultView::ListResources(fixed_definitions(service.resources().fixed())),
            ),
        ),
        CallView::ListResourceTemplates => Ok(
            DispatchView::Done(
                ServerResultView::ListResourceTemplates(
                    template_definitions(service.resources().templates()),
                ),
            ),
        ),
        CallView::ReadResource { uri } => match resolve(
            service.resources().fixed(),
            service.resources().templates(),
            uri,
        ) {
            Some(source) => Ok(DispatchView::ReadResource { source, uri }),
            None => Err(no_resource(uri)),
        },
        CallView::Subscribe { uri } => match resolve(
            service.resources().fixed(),
            service.resources().templates(),
            uri,
        ) {
            Some(source) => if table.exhausted() {
                Err(exhausted_error())
            } else {
                Ok(
                    DispatchView::Subscribe {
                        source,
                        uri,
                        change: Subscribed {
                            watcher: table.next_watcher(),
                            replaced: find(table@, uri),
                        },
                    },
                )
            },
            None => Err(no_resource(uri)),
        },
        CallView::Unsubscribe { uri } => Ok(
            DispatchView::Unsubscribe { uri, removed: find(table@, uri) },
        ),
        CallView::ListPrompts => Ok(
            DispatchView::Done(ServerResultView::ListPrompts(prompt_definitions(service.prompts()@))),
        ),
        CallView::GetPrompt(p) => match find(service.prompts()@, p.name) {
            Some(prompt) => Ok(
                DispatchView::GetPrompt { prompt, arguments: string_members(p.arguments) },
            ),
            None => Err(Error::not_found_view("Prompt"@, p.name)),
        },
        CallView::ListTools => Ok(
            DispatchView::Done(ServerResultView::ListTools(definitions(service.tools()@))),
        ),
        CallView::CallTool(p) => match find(service.tools()@, p.name) {
            Some(tool) => Ok(
                DispatchView::CallTool { tool, arguments: arguments_or_empty(p.arguments) },
            ),
            None => Err(Error::not_found_view("Tool"@, p.name)),
        },
        CallView::SetLevel { .. } => Err(ErrorView { message: "not implemented"@, code: 501 }),
        CallView::Complete => Ok(DispatchView::Done(ServerResultView::Empty)),
    }
}

/// What answers `request`: the refusal of its version, if that is not
/// `2.0`, and else what answers its call.
pub open spec fn routed<T, P, S>(
    service: BasicService<T, P, S>,
    table: Subscriptions,
    request: ClientRequestView,
) -> Result<DispatchView<T, P, S>, ErrorView> {
    if request.json_rpc != "2.0"@ {
        Err(version_mismatch(request.json_rpc))
    } else {
        routed_call(service, table, request.call)
    }
}

/// The subscriptions after `request`: changed by a `subscribe` or an
/// `unsubscribe` that was answered without an error, and by nothing else.
pub open spec fn table_after<T, P, S>(
    service: BasicService<T, P, S>,
    table: Subscriptions,
    request: ClientRequestView,
) -> Seq<(Seq<char>, u64)> {
    match routed(service, table, request) {
        Ok(DispatchView::Subscribe { uri, change, .. }) => put(table@, uri, change.watcher),
        Ok(DispatchView::Unsubscribe { uri, .. }) => remove(table@, uri),
        _ => table@,
    }
}

/// Dispatches a request: checks its version, routes it by its method, and
/// answers it as far as the service can.
pub fn handle_request<'a, T, P, S>(
    service: &'a BasicService<T, P, S>,
    table: &mut Subscriptions,
    request: ClientRequest,
) -> (r: Result<Dispatch<'a, T, P, S>, Error>)
    requires
        service.wf(),
        old(table).wf(),
    ensures
        final(table).wf(),
        match r {
            Ok(d) => routed(*service, *old(table), request@) == Ok::<
                DispatchView<T, P, S>,
                ErrorView,
            >(d@),
            Err(e) => routed(*service, *old(table), request@) == Err::<
                DispatchView<T, P, S>,
                ErrorView,
            >(e@),
        },
        final(table)@ == table_after(*service, *old(table), request@),
{
    match checked_version(request.json_rpc) {
        Ok(_) => {},
        Err(e) => {
            return Err(e);
        },
    }
    match request.call {
        Call::Initialize(params) => Ok(
            Dispatch::Done(ServerResult::Initialize(service.init(&params))),
        ),
        Call::Ping => Ok(Dispatch::Done(ServerResult::Empty)),
        Call::ListResources => Ok(
            Dispatch::Done(ServerResult::ListResources(service.list_resources())),
        ),
        Call::ListResourceTemplates => Ok(
            Dispatch::Done(ServerResult::ListResourceTemplates(service.list_resource_templates())),
        ),
        Call::ReadResource { uri } => match service.read_resource(uri.as_str()) {
            Ok(source) => Ok(Dispatch::ReadResource { source, uri }),
            Err(e) => Err(e),
        },
        Call::Subscribe { uri } => match service.subscribe(table, uri.as_str()) {
            Ok(subscription) => Ok(
                Dispatch::Subscribe {
                    source: subscription.source,
                    uri,
                    change: subscription.change,
                },
            ),
            Err(e) => Err(e),
        },
        Call::Unsubscribe { uri } => {
            let removed = service.unsubscribe(table, uri.as_str());
            Ok(Dispatch::Unsubscribe { uri, removed })
        },
        Call::ListPrompts => Ok(Dispatch::Done(ServerResult::ListPrompts(service.list_prompts()))),
        Call::GetPrompt(params) => match service.get_prompt(params) {
            Ok(call) => Ok(Dispatch::GetPrompt(call)),
            Err(e) => Err(e),
        },
        Call::ListTools => Ok(Dispatch::Done(ServerResult::ListTools(service.list_tools()))),
        Call::CallTool(params) => match service.call_tool(params) {
            Ok(call) => Ok(Dispatch::CallTool(call)),
            Err(e) => Err(e),
        },
        Call::SetLevel { level } => Err(service.set_level()),
        Call::Complete => Ok(Dispatch::Done(ServerResult::Empty)),
    }
}

/// The answer to `subscribe` and to `unsubscribe`, once the watchers are
/// started and stopped as the dispatcher said: the empty result.
pub fn finish_subscription() -> (r: Result<ServerResult, Error>)
    ensures
        r matches Ok(result) && result@ == ServerResultView::Empty,
{
    Ok(ServerResult::Empty)
}

/// The answer to `callTool` after the tool's handler ran: its content as
/// the result of the call, or its error as it is.
pub fn finish_call_tool(outcome: Result<Vec<Content>, Error>) -> (r: Result<ServerResult, Error>)
    ensures
        match (outcome, r) {
            (Ok(content), Ok(result)) => result@ == ServerResultView::CallTool(
                call_result(content@),
            ),
            (Err(error), Err(e)) => e@ == error@,
            _ => false,
        },
{
    match outcome {
        Ok(content) => Ok(ServerResult::CallTool(CallToolResult { content, is_error: false })),
        Err(error) => Err(error),
    }
}

/// The answer to `getPrompt` after the prompt's handler ran: the prompt's
/// description with the messages, or the handler's error as it is.
pub fn finish_get_prompt<P>(prompt: &Prompt<P>, outcome: Result<Vec<PromptMessage>, Error>) -> (r:
    Result<ServerResult, Error>)
    ensures
        match (outcome, r) {
            (Ok(messages), Ok(result)) => result@ == ServerResultView::GetPrompt(
                GetPromptResultView {
                    description: prompt@.description,
                    messages: views(messages@),
                },
            ),
            (Err(error), Err(e)) => e@ == error@,
            _ => false,
        },
{
    match outcome {
        Ok(messages) => Ok(ServerResult::GetPrompt(prompt.run(messages))),
        Err(error) => Err(error),
    }
}

/// The answer to `readResource` after the source was read: the contents as
/// they came, or the source's error as it is.
pub fn finish_read_resource(outcome: Result<Vec<ResourceContents>, Error>) -> (r: Result<
    ServerResult,
    Error,
>)
    ensures
        match (outcome, r) {
            (Ok(contents), Ok(result)) => result@ == ServerResultView::ReadResource(
                views(contents@),
            ),
            (Err(error), Err(e)) => e@ == error@,
            _ => false,
        },
{
    match outcome {
        Ok(contents) => Ok(ServerResult::ReadResource(contents)),
        Err(error) => Err(error),
    }
}


/// A request that claims another JSON-RPC version than `2.0` is refused
/// with the code 400, whatever it asks for, and the refusal goes out under
/// the request's own identifier.
pub proof fn lemma_wrong_version<T, P, S>(
    service: BasicService<T, P, S>,
    table: Subscriptions,
    request: ClientRequestView,
    error: Error,
)
    requires
        request.json_rpc != "2.0"@,
        error@ == version_mismatch(request.json_rpc),
    ensures
        routed(service, table, request) == Err::<DispatchView<T, P, S>, ErrorView>(
            version_mismatch(request.json_rpc),
        ),
        table_after(service, table, request) == table@,
        version_mismatch(request.json_rpc).code == 400,
        crate::rpc::reply(request.id, Err(error)) == (crate::rpc::ServerResponseView::Error {
            json_rpc: "2.0"@,
            id: request.id,
            error: version_mismatch(request.json_rpc),
            data: None,
        }),
{
}

} // verus!
