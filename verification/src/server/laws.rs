//! What holds between a server and the clients that ask it.
use crate::capability::Capability;
use crate::client;
use crate::client::types;
use crate::client::types::{InfoView, ResultView};
use crate::client::ClientView;
use crate::error::McpErrorView;
use crate::json;
use crate::json::{JsonView, MAX_DEPTH};
use crate::logging;
use crate::prompts;
use crate::protocol;
use crate::protocol::message::RequestView;
use crate::protocol::{IncomingView, ProtocolView};
use crate::resource;
use crate::server;
use crate::server::{CallView, McpServer, OutcomeView, ServerHandler};
use crate::text;
use crate::tools;
use crate::tools::{ToolContentView, ToolResultView, ToolView};
use crate::transport::message::MessageView;
use crate::transport::EventView;
use vstd::prelude::*;

verus! {

/// A request as a client makes it.
pub open spec fn question(id: u64, method: Seq<char>, params: JsonView) -> RequestView {
    RequestView { jsonrpc: "2.0"@, id, method, params: Some(params) }
}

/// What a server that subscribes clients, or does not, is asked by a request that came over a
/// transport.
pub open spec fn understood(subscribe: bool, request: RequestView) -> Option<CallView> {
    let handlers = server::server_handlers(subscribe);
    if handlers.contains_key(request.method) {
        server::requested_call(handlers[request.method], request.received())
    } else {
        None
    }
}

/// A server understands a request for the list of resources.
pub proof fn list_of_resources_is_understood(subscribe: bool, id: u64, cursor: Option<Seq<char>>)
    ensures
        understood(
            subscribe,
            question(id, "resources/list"@, resource::cursor_json(cursor)),
        ) == Some(CallView::ListResources { cursor }),
{
    server::method_names_differ();
    resource::cursor_is_read_from_its_json(cursor);
}

/// A server understands a request for a resource.
pub proof fn resource_is_understood(subscribe: bool, id: u64, uri: Seq<char>)
    ensures
        understood(subscribe, question(id, "resources/read"@, resource::uri_json(uri))) == Some(
            CallView::ReadResource { uri },
        ),
{
    server::method_names_differ();
    resource::uri_is_read_from_its_json(uri);
}

/// A server that tells of changes understands a request to be told; the client is known by the
/// request. Another server does not.
pub proof fn subscription_is_understood(subscribe: bool, id: u64, uri: Seq<char>)
    ensures
        understood(subscribe, question(id, "resources/subscribe"@, JsonView::Str(uri)))
            == if subscribe {
            Some(CallView::Subscribe { client: text::decimal(id as nat), uri })
        } else {
            None
        },
{
    server::method_names_differ();
}

/// A server understands a request for the list of tools.
pub proof fn list_of_tools_is_understood(subscribe: bool, id: u64, cursor: Option<Seq<char>>)
    ensures
        understood(subscribe, question(id, "tools/list"@, resource::cursor_json(cursor))) == Some(
            CallView::ListTools { cursor },
        ),
{
    server::method_names_differ();
    resource::cursor_is_read_from_its_json(cursor);
}

/// A server understands a request to run a tool, whatever the arguments.
pub proof fn call_of_tool_is_understood(
    subscribe: bool,
    id: u64,
    name: Seq<char>,
    arguments: JsonView,
)
    ensures
        understood(subscribe, question(id, "tools/call"@, tools::call_json(name, arguments)))
            == Some(CallView::CallTool { name, arguments }),
{
    server::method_names_differ();
    tools::call_is_read_from_its_json(name, arguments);
}

/// A server understands a client that makes itself known.
pub proof fn introduction_is_understood(subscribe: bool, id: u64, params: JsonView)
    ensures
        understood(subscribe, question(id, "initialize"@, params)) == Some(CallView::Initialize),
{
    server::method_names_differ();
}

/// A list of members survives where each of them does and no name stands twice.
proof fn object_survives(members: Seq<(Seq<char>, JsonView)>, depth: nat)
    requires
        depth > 0,
        json::distinct_names(members),
        forall|i: int|
            #![trigger members[i]]
            0 <= i < members.len() ==> members[i].1.survives((depth - 1) as nat),
    ensures
        JsonView::Object(members).survives(depth),
{
}

/// Whatever cursor, uri or log level a client sends, it survives being sent.
pub proof fn plain_questions_survive(
    id: u64,
    method: Seq<char>,
    cursor: Option<Seq<char>>,
    text: Seq<char>,
)
    ensures
        MessageView::Request(question(id, method, resource::cursor_json(cursor))).survives(),
        MessageView::Request(question(id, method, resource::uri_json(text))).survives(),
        MessageView::Request(question(id, method, logging::level_json(text))).survives(),
        MessageView::Request(question(id, method, JsonView::Str(text))).survives(),
{
    object_survives(resource::cursor_json(cursor)->Object_0, (MAX_DEPTH - 1) as nat);
    object_survives(resource::uri_json(text)->Object_0, (MAX_DEPTH - 1) as nat);
    object_survives(logging::level_json(text)->Object_0, (MAX_DEPTH - 1) as nat);
}

/// A request to run a tool, or for a prompt, survives being sent where its arguments do.
pub proof fn questions_with_arguments_survive(
    id: u64,
    method: Seq<char>,
    name: Seq<char>,
    arguments: JsonView,
)
    requires
        arguments.survives((MAX_DEPTH - 2) as nat),
    ensures
        MessageView::Request(question(id, method, tools::call_json(name, arguments))).survives(),
        MessageView::Request(
            question(id, method, prompts::prompt_json(name, Some(arguments))),
        ).survives(),
        MessageView::Request(question(id, method, prompts::prompt_json(name, None))).survives(),
{
    reveal_strlit("name");
    reveal_strlit("arguments");
    assert("name"@.len() != "arguments"@.len());
    object_survives(tools::call_json(name, arguments)->Object_0, (MAX_DEPTH - 1) as nat);
    object_survives(prompts::prompt_json(name, Some(arguments))->Object_0, (MAX_DEPTH - 1) as nat);
    object_survives(prompts::prompt_json(name, None)->Object_0, (MAX_DEPTH - 1) as nat);
}

/// What a tool gave back survives being sent, and the client that waits for it reads it whole.
pub proof fn tool_result_reaches_the_client(id: u64, result: ToolResultView)
    ensures
        ({
            let response = protocol::response_to_result(id, result.json());
            &&& MessageView::Response(response).survives()
            &&& ToolResultView::of_json(json::or_null(response.received().result)) == Some(result)
        }),
{
    let items = Seq::new(result.content.len(), |i: int| result.content[i].json());
    assert forall|i: int| #![trigger items[i]] 0 <= i < items.len() implies items[i].survives(
        (MAX_DEPTH - 3) as nat,
    ) by {
        content_survives(result.content[i], (MAX_DEPTH - 3) as nat);
    }
    assert(JsonView::Array(items).survives((MAX_DEPTH - 2) as nat));
    reveal_strlit("content");
    reveal_strlit("is_error");
    assert("content"@.len() != "is_error"@.len());
    object_survives(result.json()->Object_0, (MAX_DEPTH - 1) as nat);
    tools::result_is_read_from_its_json(result);
}

/// A list of tools survives being sent where what the tools take does, and the client that waits
/// for it reads it whole.
pub proof fn tool_list_reaches_the_client(
    id: u64,
    list: Seq<ToolView>,
    next_cursor: Option<Seq<char>>,
)
    requires
        forall|i: int|
            0 <= i < list.len() ==> (#[trigger] list[i]).input_schema.survives(
                (MAX_DEPTH - 4) as nat,
            ),
    ensures
        ({
            let response = protocol::response_to_result(id, tools::list_json(list, next_cursor));
            &&& MessageView::Response(response).survives()
            &&& tools::list_of_json(json::or_null(response.received().result)) == Some(
                (list, next_cursor),
            )
        }),
{
    reveal_strlit("name");
    reveal_strlit("description");
    reveal_strlit("input_schema");
    assert("name"@.len() != "description"@.len());
    assert("name"@.len() != "input_schema"@.len());
    assert("description"@.len() != "input_schema"@.len());
    let items = Seq::new(list.len(), |i: int| list[i].json());
    assert forall|i: int| #![trigger items[i]] 0 <= i < items.len() implies items[i].survives(
        (MAX_DEPTH - 3) as nat,
    ) by {
        assert(list[i].input_schema.survives((MAX_DEPTH - 4) as nat));
        object_survives(list[i].json()->Object_0, (MAX_DEPTH - 3) as nat);
    }
    assert(JsonView::Array(items).survives((MAX_DEPTH - 2) as nat));
    reveal_strlit("tools");
    reveal_strlit("next_cursor");
    assert("tools"@.len() != "next_cursor"@.len());
    object_survives(tools::list_json(list, next_cursor)->Object_0, (MAX_DEPTH - 1) as nat);
    tools::list_is_read_from_its_json(list, next_cursor);
}

/// A content survives being sent: there are only texts in it.
proof fn content_survives(content: ToolContentView, depth: nat)
    requires
        depth >= 2,
    ensures
        content.json().survives(depth),
{
    tools::content_names_differ();
    if let ToolContentView::Resource { uri, mime_type, text } = content {
        object_survives(
            tools::resource_content_json(uri, mime_type, text)->Object_0,
            (depth - 1) as nat,
        );
    }
    object_survives(content.json()->Object_0, depth);
}

/// What a client says of itself survives being sent.
pub proof fn client_introduction_survives(id: u64, client_info: InfoView)
    ensures
        MessageView::Request(
            question(id, "initialize"@, client::introduction(client_info).json()),
        ).survives(),
{
    let params = client::introduction(client_info);
    info_survives(client_info, (MAX_DEPTH - 2) as nat);
    reveal_strlit("roots");
    reveal_strlit("sampling");
    assert("roots"@.len() != "sampling"@.len());
    object_survives(params.capabilities.roots->0.json()->Object_0, (MAX_DEPTH - 3) as nat);
    object_survives(params.capabilities.sampling->0.json()->Object_0, (MAX_DEPTH - 3) as nat);
    object_survives(params.capabilities.members(), (MAX_DEPTH - 2) as nat);
    reveal_strlit("protocol_version");
    reveal_strlit("capabilities");
    reveal_strlit("client_info");
    assert("protocol_version"@.len() != "capabilities"@.len());
    assert("protocol_version"@.len() != "client_info"@.len());
    assert("capabilities"@.len() != "client_info"@.len());
    object_survives(params.json()->Object_0, (MAX_DEPTH - 1) as nat);
}

/// Who a side is survives being sent.
proof fn info_survives(info: InfoView, depth: nat)
    requires
        depth > 0,
    ensures
        info.json().survives(depth),
{
    reveal_strlit("name");
    reveal_strlit("version");
    assert("name"@.len() != "version"@.len());
    object_survives(info.json()->Object_0, depth);
}

/// What a server says of itself survives being sent, and the client accepts it.
pub proof fn server_introduction_reaches_the_client<T>(id: u64, server: McpServer<T>)
    ensures
        ({
            let response = protocol::response_to_result(id, server.introduction().json());
            &&& MessageView::Response(response).survives()
            &&& client::introduction_value(json::or_null(response.received().result)) == Ok::<
                ResultView,
                McpErrorView,
            >(server.introduction())
        }),
{
    let result = server.introduction();
    info_survives(result.server_info, (MAX_DEPTH - 2) as nat);
    reveal_strlit("subscribe");
    reveal_strlit("list_changed");
    assert("subscribe"@.len() != "list_changed"@.len());
    object_survives(result.capabilities.resources->0.json()->Object_0, (MAX_DEPTH - 3) as nat);
    object_survives(result.capabilities.tools->0.json()->Object_0, (MAX_DEPTH - 3) as nat);
    types::capability_names_differ();
    object_survives(result.capabilities.json()->Object_0, (MAX_DEPTH - 2) as nat);
    reveal_strlit("protocol_version");
    reveal_strlit("capabilities");
    reveal_strlit("server_info");
    assert("protocol_version"@.len() != "capabilities"@.len());
    assert("protocol_version"@.len() != "server_info"@.len());
    assert("capabilities"@.len() != "server_info"@.len());
    object_survives(result.json()->Object_0, (MAX_DEPTH - 1) as nat);
    client::fitting_server_is_accepted(result);
}

/// What the server answers to a request that came over a transport, by what came of it.
pub open spec fn answered<T>(
    server: McpServer<T>,
    request: RequestView,
    outcome: OutcomeView,
) -> Option<Result<JsonView, McpErrorView>> {
    match understood(server.resource_manager.capabilities.subscribe, request) {
        Some(call) => server.answer_to(call, outcome),
        None => None,
    }
}

/// A client that makes itself known is answered with what the server says of itself.
pub proof fn introduction_is_answered<T>(server: McpServer<T>, id: u64, params: JsonView)
    ensures
        answered(server, question(id, "initialize"@, params), OutcomeView::Nothing) == Some(
            Ok::<JsonView, McpErrorView>(server.introduction().json()),
        ),
{
    introduction_is_understood(server.resource_manager.capabilities.subscribe, id, params);
}

/// A request for the list of tools is answered with all of them.
pub proof fn list_of_tools_is_answered<T>(
    server: McpServer<T>,
    id: u64,
    cursor: Option<Seq<char>>,
    list: Seq<ToolView>,
)
    requires
        list.len() == server.tool_manager.listed().len(),
    ensures
        answered(
            server,
            question(id, "tools/list"@, resource::cursor_json(cursor)),
            OutcomeView::Tools(list),
        ) == Some(Ok::<JsonView, McpErrorView>(tools::list_json(list, None))),
{
    list_of_tools_is_understood(server.resource_manager.capabilities.subscribe, id, cursor);
}

/// A request to run a tool that the server has is answered with what the tool gave back, or, where
/// it failed, that it failed and why; and the client reads just that.
pub proof fn call_of_tool_is_answered<T>(
    server: McpServer<T>,
    id: u64,
    name: Seq<char>,
    arguments: JsonView,
    outcome: Result<ToolResultView, McpErrorView>,
)
    requires
        server.tool_manager@.contains_key(name),
    ensures
        ({
            let answer = answered(
                server,
                question(id, "tools/call"@, tools::call_json(name, arguments)),
                OutcomeView::Ran(outcome),
            );
            let response = protocol::answer(id, answer->0);
            &&& answer == Some(
                Ok::<JsonView, McpErrorView>(tools::finished(outcome).json()),
            )
            &&& MessageView::Response(response).survives()
            &&& ToolResultView::of_json(json::or_null(response.received().result)) == Some(
                tools::finished(outcome),
            )
        }),
{
    call_of_tool_is_understood(
        server.resource_manager.capabilities.subscribe,
        id,
        name,
        arguments,
    );
    tool_result_reaches_the_client(id, tools::finished(outcome));
}

/// A request to run a tool that the server has not is answered with an error, and nothing is run.
pub proof fn call_of_unknown_tool_is_answered<T>(
    server: McpServer<T>,
    id: u64,
    name: Seq<char>,
    arguments: JsonView,
    outcome: Result<ToolResultView, McpErrorView>,
)
    requires
        !server.tool_manager@.contains_key(name),
    ensures
        ({
            let request = question(id, "tools/call"@, tools::call_json(name, arguments));
            &&& answered(server, request, OutcomeView::Nothing) == Some(
                Err::<JsonView, McpErrorView>(
                    McpErrorView::InvalidRequest("Unknown tool: "@ + name),
                ),
            )
            &&& answered(server, request, OutcomeView::Ran(outcome)) is None
        }),
{
    call_of_tool_is_understood(
        server.resource_manager.capabilities.subscribe,
        id,
        name,
        arguments,
    );
}

/// Two requests never subscribe the same client.
pub proof fn subscribers_differ(one: RequestView, other: RequestView)
    requires
        one.id != other.id,
        server::requested_call(ServerHandler::Subscribe, one) is Some,
        server::requested_call(ServerHandler::Subscribe, other) is Some,
    ensures
        server::requested_call(ServerHandler::Subscribe, one)->0->client
            != server::requested_call(ServerHandler::Subscribe, other)->0->client,
{
    if text::decimal(one.id as nat) == text::decimal(other.id as nat) {
        text::decimal_is_injective(one.id as nat, other.id as nat);
    }
}

/// A client accepts a server, and knows it then for one with resources and tools, and without
/// prompts and logging.
pub proof fn client_accepts_server<T, W>(server: McpServer<T>, met: ClientView<W>)
    requires
        met.server_capabilities == Some(server.introduction().capabilities),
    ensures
        client::introduction_value(server.introduction().json()) == Ok::<
            ResultView,
            McpErrorView,
        >(server.introduction()),
        met.has_capability("resources"@),
        met.has_capability("tools"@),
        !met.has_capability("prompts"@),
        !met.has_capability("logging"@),
{
    types::capability_names_differ();
    client::fitting_server_is_accepted(server.introduction());
}

/// A server runs a handler for a request exactly where it has the method; any other request it
/// passes over.
pub proof fn only_known_methods_are_handled<T>(
    server: McpServer<T>,
    protocol: ProtocolView<ServerHandler, (), (), ()>,
    request: RequestView,
)
    requires
        protocol.request_handlers == server.serving().request_handlers,
    ensures
        protocol.reaction(Some(EventView::Message(MessageView::Request(request))))
            == if server::server_handlers(
            server.resource_manager.capabilities.subscribe,
        ).contains_key(request.method) {
            IncomingView::<()>::Request(request)
        } else {
            IncomingView::Ignored
        },
{
}

} // verus!
