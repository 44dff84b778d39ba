//! What holds of a server's answers.
use crate::client::types::ResultView;
use crate::error::{McpError, McpErrorView};
use crate::json;
use crate::json::{Json, JsonView};
use crate::protocol;
use crate::protocol::message::RequestView;
use crate::protocol::NotificationHandler;
use crate::registry;
use crate::registry::Registry;
use crate::resource;
use crate::server;
use crate::server::config::{LogFormat, ServerConfig, TransportType};
use crate::server::laws;
use crate::server::{
    CallView, McpServer, OutcomeView, ServerCall, ServerHandler, ServerOutcome,
};
use crate::text;
use crate::tools;
use crate::tools::{Tool, ToolContentView, ToolResult, ToolResultView, ToolView};
use crate::transport::message::MessageView;
use vstd::prelude::*;

verus! {

/// The answer to a request for the list of resources is what the resources gave, a value or an
/// error, whatever the cursor.
pub proof fn a_list_of_resources_is_answered_with_what_was_given<T>(
    server: McpServer<T>,
    id: u64,
    cursor: Option<Seq<char>>,
    given: Result<JsonView, McpErrorView>,
)
    ensures
        laws::answered(
            server,
            laws::question(id, "resources/list"@, resource::cursor_json(cursor)),
            OutcomeView::Resources(given),
        ) == Some(given),
        laws::answered(
            server,
            (RequestView { jsonrpc: "2.0"@, id, method: "resources/list"@, params: None }),
            OutcomeView::Resources(given),
        ) == Some(given),
        server.answer_to(CallView::ListResources { cursor }, OutcomeView::Resources(given))
            == Some(given),
{
    server::method_names_differ();
    laws::list_of_resources_is_understood(
        server.resource_manager.capabilities.subscribe,
        id,
        cursor,
    );
}

/// The answer to a request for a resource is what the resources gave, a value or an error,
/// whatever the uri.
pub proof fn a_resource_is_answered_with_what_was_given<T>(
    server: McpServer<T>,
    id: u64,
    uri: Seq<char>,
    given: Result<JsonView, McpErrorView>,
)
    ensures
        laws::answered(
            server,
            laws::question(id, "resources/read"@, resource::uri_json(uri)),
            OutcomeView::Resources(given),
        ) == Some(given),
        server.answer_to(CallView::ReadResource { uri }, OutcomeView::Resources(given)) == Some(
            given,
        ),
{
    laws::resource_is_understood(server.resource_manager.capabilities.subscribe, id, uri);
}

/// The answer to a request for the templates of resources is what the resources gave, a value or
/// an error, whatever the parameters.
pub proof fn templates_are_answered_with_what_was_given<T>(
    server: McpServer<T>,
    id: u64,
    params: Option<JsonView>,
    given: Result<JsonView, McpErrorView>,
)
    ensures
        laws::answered(
            server,
            (RequestView { jsonrpc: "2.0"@, id, method: "resources/templates/list"@, params }),
            OutcomeView::Resources(given),
        ) == Some(given),
        server.answer_to(CallView::ListTemplates, OutcomeView::Resources(given)) == Some(given),
{
    server::method_names_differ();
}

/// A subscription that was taken is answered with an empty object, and one that failed with the
/// reason.
pub proof fn a_subscription_is_answered<T>(
    server: McpServer<T>,
    id: u64,
    client: Seq<char>,
    uri: Seq<char>,
    error: McpErrorView,
)
    ensures
        server.answer_to(CallView::Subscribe { client, uri }, OutcomeView::Subscribed(Ok(())))
            == Some(Ok::<JsonView, McpErrorView>(JsonView::Object(Seq::empty()))),
        server.answer_to(CallView::Subscribe { client, uri }, OutcomeView::Subscribed(Err(error)))
            == Some(Err::<JsonView, McpErrorView>(error)),
        server.resource_manager.capabilities.subscribe ==> laws::answered(
            server,
            laws::question(id, "resources/subscribe"@, JsonView::Str(uri)),
            OutcomeView::Subscribed(Err(error)),
        ) == Some(Err::<JsonView, McpErrorView>(error)),
        server.resource_manager.capabilities.subscribe ==> laws::answered(
            server,
            laws::question(id, "resources/subscribe"@, JsonView::Str(uri)),
            OutcomeView::Subscribed(Ok(())),
        ) == Some(Ok::<JsonView, McpErrorView>(JsonView::Object(Seq::empty()))),
        server::subscription_answer(Ok(())) == Ok::<JsonView, McpErrorView>(
            JsonView::Object(Seq::empty()),
        ),
        server::subscription_answer(Err(error)) == Err::<JsonView, McpErrorView>(error),
{
    laws::subscription_is_understood(server.resource_manager.capabilities.subscribe, id, uri);
}

/// A request to run a tool that the server has is answered with what the tool gave back, so that
/// the client reads exactly that: as many contents, each as it was, in the same order, and an
/// error exactly where the tool said so.
pub proof fn what_a_tool_gave_reaches_the_client<T>(
    server: McpServer<T>,
    id: u64,
    name: Seq<char>,
    arguments: JsonView,
    given: ToolResultView,
)
    requires
        server.tool_manager@.contains_key(name),
    ensures
        ({
            let answer = laws::answered(
                server,
                laws::question(id, "tools/call"@, tools::call_json(name, arguments)),
                OutcomeView::Ran(Ok(given)),
            );
            let response = protocol::answer(id, answer->0);
            &&& answer is Some
            &&& answer->0 is Ok
            &&& response.id == id
            &&& response.error is None
            &&& MessageView::Response(response).survives()
            &&& ToolResultView::of_json(json::or_null(response.received().result)) == Some(given)
        }),
        server.answer_to(CallView::CallTool { name, arguments }, OutcomeView::Ran(Ok(given)))
            == Some(Ok::<JsonView, McpErrorView>(given.json())),
{
    laws::call_of_tool_is_answered(server, id, name, arguments, Ok(given));
}

/// A request to run a tool that failed is answered all the same, with one content that says why,
/// marked as an error.
pub proof fn why_a_tool_failed_reaches_the_client<T>(
    server: McpServer<T>,
    id: u64,
    name: Seq<char>,
    arguments: JsonView,
    error: McpErrorView,
)
    requires
        server.tool_manager@.contains_key(name),
    ensures
        ({
            let answer = laws::answered(
                server,
                laws::question(id, "tools/call"@, tools::call_json(name, arguments)),
                OutcomeView::Ran(Err(error)),
            );
            let response = protocol::answer(id, answer->0);
            &&& answer is Some
            &&& answer->0 is Ok
            &&& response.id == id
            &&& response.error is None
            &&& MessageView::Response(response).survives()
            &&& ToolResultView::of_json(json::or_null(response.received().result)) matches Some(
                read,
            ) && {
                &&& read.is_error
                &&& read.content.len() == 1
                &&& read.content[0] == (ToolContentView::Text { text: error.message() })
            }
        }),
{
    laws::call_of_tool_is_answered(server, id, name, arguments, Err(error));
}

/// A request for the tools is answered with every one of them, in order, and no cursor.
pub proof fn a_list_of_tools_is_answered_with_all<T>(
    server: McpServer<T>,
    cursor: Option<Seq<char>>,
    list: Seq<ToolView>,
)
    ensures
        list.len() == server.tool_manager.listed().len() ==> {
            let answer = server.answer_to(
                CallView::ListTools { cursor },
                OutcomeView::Tools(list),
            );
            &&& answer is Some
            &&& answer->0 is Ok
            &&& tools::list_of_json(answer->0->Ok_0) == Some((list, None::<Seq<char>>))
        },
        list.len() != server.tool_manager.listed().len() ==> server.answer_to(
            CallView::ListTools { cursor },
            OutcomeView::Tools(list),
        ) is None,
{
    tools::list_is_read_from_its_json(list, None);
}

/// What is asked for a tool that is not there, and what is refused, is answered with the error.
pub proof fn refusals_are_answered<T>(
    server: McpServer<T>,
    error: McpErrorView,
    name: Seq<char>,
    arguments: JsonView,
    outcome: OutcomeView,
)
    ensures
        server.answer_to(CallView::Refused(error), OutcomeView::Nothing) == Some(
            Err::<JsonView, McpErrorView>(error),
        ),
        !server.tool_manager@.contains_key(name) ==> server.answer_to(
            CallView::CallTool { name, arguments },
            OutcomeView::Nothing,
        ) == Some(
            Err::<JsonView, McpErrorView>(McpErrorView::InvalidRequest("Unknown tool: "@ + name)),
        ),
        !server.tool_manager@.contains_key(name) && !(outcome is Nothing) ==> server.answer_to(
            CallView::CallTool { name, arguments },
            outcome,
        ) is None,
        server.tool_manager@.contains_key(name) && !(outcome is Ran) ==> server.answer_to(
            CallView::CallTool { name, arguments },
            outcome,
        ) is None,
{
}

/// An outcome of another kind of request is answered with nothing.
pub proof fn strange_outcomes_are_not_answered<T>(
    server: McpServer<T>,
    call: CallView,
    outcome: OutcomeView,
)
    ensures
        call is Initialize && !(outcome is Nothing) ==> server.answer_to(call, outcome) is None,
        call is Refused && !(outcome is Nothing) ==> server.answer_to(call, outcome) is None,
        (call is ListResources || call is ReadResource || call is ListTemplates) && !(
        outcome is Resources) ==> server.answer_to(call, outcome) is None,
        call is Subscribe && !(outcome is Subscribed) ==> server.answer_to(call, outcome) is None,
        call is ListTools && !(outcome is Tools) ==> server.answer_to(call, outcome) is None,
{
}

/// A client that makes itself known is told the version of the protocol, the name and version of
/// the server as they are set, and what the server can do with resources and tools; and it reads
/// just that.
pub proof fn an_introduction_tells_who_the_server_is<T>(server: McpServer<T>)
    ensures
        ({
            let said = server.introduction();
            &&& said.protocol_version == "2024-11-05"@
            &&& said.server_info.name == server.config.server.name@
            &&& said.server_info.version == server.config.server.version@
            &&& said.capabilities.logging is None
            &&& said.capabilities.prompts is None
            &&& said.capabilities.resources == Some(server.resource_manager.capabilities)
            &&& said.capabilities.tools == Some(server.tool_manager.capabilities)
        }),
        ({
            let answer = server.answer_to(CallView::Initialize, OutcomeView::Nothing);
            &&& answer is Some
            &&& answer->0 is Ok
            &&& ResultView::of_json(answer->0->Ok_0) == Some(server.introduction())
        }),
{
    crate::client::types::result_is_read_from_its_json(server.introduction());
}

/// A server answers to these methods, each by its own handler, and to no others.
pub proof fn a_server_answers_to_these_methods(subscribe: bool, method: Seq<char>)
    ensures
        ({
            let handlers = server::server_handlers(subscribe);
            let known = handlers.contains_key(method);
            &&& method == "initialize"@ ==> known && handlers[method] == ServerHandler::Initialize
            &&& method == "resources/list"@ ==> known && handlers[method]
                == ServerHandler::ListResources
            &&& method == "resources/read"@ ==> known && handlers[method]
                == ServerHandler::ReadResource
            &&& method == "resources/templates/list"@ ==> known && handlers[method]
                == ServerHandler::ListTemplates
            &&& method == "tools/list"@ ==> known && handlers[method] == ServerHandler::ListTools
            &&& method == "tools/call"@ ==> known && handlers[method] == ServerHandler::CallTool
            &&& method == "resources/subscribe"@ ==> known == subscribe && (subscribe
                ==> handlers[method] == ServerHandler::Subscribe)
            &&& known ==> {
                ||| method == "initialize"@
                ||| method == "resources/list"@
                ||| method == "resources/read"@
                ||| method == "resources/templates/list"@
                ||| method == "tools/list"@
                ||| method == "tools/call"@
                ||| method == "resources/subscribe"@
            }
        }),
{
    server::method_names_differ();
}

/// What a request asks of the handler of its method is what its parameters say: a cursor or none,
/// a uri, a tool with its arguments. A list may be asked for without parameters.
pub proof fn a_request_asks_what_its_parameters_say(
    request: RequestView,
    params: JsonView,
    uri: Seq<char>,
)
    ensures
        server::requested_call(ServerHandler::Initialize, request) == Some(CallView::Initialize),
        server::requested_call(ServerHandler::ListTemplates, request) == Some(
            CallView::ListTemplates,
        ),
        request.params is None ==> {
            &&& server::requested_call(ServerHandler::ListResources, request) == Some(
                CallView::ListResources { cursor: None },
            )
            &&& server::requested_call(ServerHandler::ListTools, request) == Some(
                CallView::ListTools { cursor: None },
            )
            &&& server::requested_call(ServerHandler::ReadResource, request) is None
            &&& server::requested_call(ServerHandler::Subscribe, request) is None
            &&& server::requested_call(ServerHandler::CallTool, request) is None
        },
        request.params == Some(params) ==> {
            &&& match resource::cursor_of_json(params) {
                Some(cursor) => {
                    &&& server::requested_call(ServerHandler::ListResources, request) == Some(
                        CallView::ListResources { cursor },
                    )
                    &&& server::requested_call(ServerHandler::ListTools, request) == Some(
                        CallView::ListTools { cursor },
                    )
                },
                None => {
                    &&& server::requested_call(ServerHandler::ListResources, request) is None
                    &&& server::requested_call(ServerHandler::ListTools, request) == Some(
                        CallView::Refused(McpErrorView::ParseError),
                    )
                },
            }
            &&& match resource::uri_of_json(params) {
                Some(uri) => server::requested_call(ServerHandler::ReadResource, request) == Some(
                    CallView::ReadResource { uri },
                ),
                None => server::requested_call(ServerHandler::ReadResource, request) is None,
            }
            &&& match tools::call_of_json(params) {
                Some((name, arguments)) => server::requested_call(ServerHandler::CallTool, request)
                    == Some(CallView::CallTool { name, arguments }),
                None => server::requested_call(ServerHandler::CallTool, request) is None,
            }
            &&& !(params is Str) ==> server::requested_call(
                ServerHandler::Subscribe,
                request,
            ) is None
        },
        request.params == Some(JsonView::Str(uri)) ==> server::requested_call(
            ServerHandler::Subscribe,
            request,
        ) == Some(CallView::Subscribe { client: text::decimal(request.id as nat), uri }),
{
}

/// A server's side of a connection begins with no request made and none awaited, demands what was
/// agreed on, and hears of requests that are cancelled.
pub proof fn a_server_begins_afresh<T>(server: McpServer<T>, method: Seq<char>)
    ensures
        ({
            let side = server.serving();
            &&& !side.connected
            &&& side.strict
            &&& side.last_id == 0
            &&& side.response_handlers.dom() =~= Set::empty()
            &&& side.progress_handlers.dom() =~= Set::empty()
            &&& side.notification_handlers.contains_key(method) <==> method == "cancelled"@
            &&& method == "cancelled"@ ==> side.notification_handlers[method]
                == NotificationHandler::<()>::Cancelled
            &&& side.request_handlers == server::server_handlers(
                server.resource_manager.capabilities.subscribe,
            )
        }),
{
}

/// The view of what a request asks holds all of it.
pub proof fn views_of_calls_hold_all(
    cursor: String,
    uri: String,
    client: String,
    name: String,
    arguments: Json,
    error: McpError,
)
    ensures
        ServerCall::Initialize@ == CallView::Initialize,
        ServerCall::ListTemplates@ == CallView::ListTemplates,
        (ServerCall::ListResources { cursor: Some(cursor) })@ == (CallView::ListResources {
            cursor: Some(cursor@),
        }),
        (ServerCall::ListResources { cursor: None })@ == (CallView::ListResources {
            cursor: None,
        }),
        (ServerCall::ListTools { cursor: Some(cursor) })@ == (CallView::ListTools {
            cursor: Some(cursor@),
        }),
        (ServerCall::ListTools { cursor: None })@ == (CallView::ListTools { cursor: None }),
        (ServerCall::ReadResource { uri })@ == (CallView::ReadResource { uri: uri@ }),
        (ServerCall::Subscribe { client, uri })@ == (CallView::Subscribe {
            client: client@,
            uri: uri@,
        }),
        (ServerCall::CallTool { name, arguments })@ == (CallView::CallTool {
            name: name@,
            arguments: arguments@,
        }),
        ServerCall::Refused(error)@ == CallView::Refused(error@),
{
}

/// The view of what came of a request holds all of it.
pub proof fn views_of_outcomes_hold_all(
    value: Json,
    error: McpError,
    list: Vec<Tool>,
    given: ToolResult,
)
    ensures
        ServerOutcome::Nothing@ == OutcomeView::Nothing,
        ServerOutcome::Resources(Ok(value))@ == OutcomeView::Resources(Ok(value@)),
        ServerOutcome::Resources(Err(error))@ == OutcomeView::Resources(Err(error@)),
        ServerOutcome::Subscribed(Ok(()))@ == OutcomeView::Subscribed(Ok(())),
        ServerOutcome::Subscribed(Err(error))@ == OutcomeView::Subscribed(Err(error@)),
        ServerOutcome::Tools(list)@ matches OutcomeView::Tools(said) && {
            &&& said.len() == list@.len()
            &&& forall|i: int| 0 <= i < list@.len() ==> said[i] == (#[trigger] list@[i])@
        },
        ServerOutcome::Ran(Ok(given))@ == OutcomeView::Ran(Ok(given@)),
        ServerOutcome::Ran(Err(error))@ == OutcomeView::Ran(Err(error@)),
{
}

/// A table of handlers holds, under each name, what stands there beside the name, and nothing
/// under any other.
pub proof fn a_table_holds_what_stands_in_it<V>(table: Registry<V>, name: Seq<char>, i: int)
    requires
        table.wf(),
    ensures
        0 <= i < table.entries().len() ==> {
            &&& table@.contains_key(table.entries()[i].0)
            &&& table@[table.entries()[i].0] == table.entries()[i].1
        },
        table@.contains_key(name) <==> exists|k: int|
            0 <= k < table.entries().len() && #[trigger] table.entries()[k].0 == name,
{
    if 0 <= i < table.entries().len() {
        registry::entry_is_held(table, i);
    }
    if table@.contains_key(name) {
        let k = choose|k: int| table.position(name, k);
        assert(table.entries()[k].0 == name);
    }
    if exists|k: int| 0 <= k < table.entries().len() && #[trigger] table.entries()[k].0 == name {
        let k = choose|k: int|
            0 <= k < table.entries().len() && #[trigger] table.entries()[k].0 == name;
        assert(table.position(name, k));
    }
}

/// A server that was told nothing serves over standard input and output on this machine, with the
/// files of one directory and all its tools, and is open to all.
pub proof fn settings_of_a_server_that_was_told_nothing(config: ServerConfig)
    requires
        config.is_default(),
    ensures
        config.server.name@ == "mcp-server"@,
        config.server.version@ == "0.1.0"@,
        config.server.transport == TransportType::Stdio,
        config.server.host@ == "127.0.0.1"@,
        config.server.port == 3000,
        config.server.max_connections == 100,
        config.server.timeout_ms == 30000,
        config.resources.root_path@ == "./resources"@,
        config.resources.allowed_schemes@.len() == 1,
        config.resources.allowed_schemes@[0]@ == "file"@,
        config.resources.max_file_size == 10485760,
        config.resources.enable_templates,
        !config.security.enable_auth,
        config.security.token_secret is None,
        config.security.rate_limit.requests_per_minute == 60,
        config.security.rate_limit.burst_size == 10,
        config.security.allowed_origins@.len() == 1,
        config.security.allowed_origins@[0]@ == "*"@,
        config.logging.level@ == "info"@,
        config.logging.file is None,
        config.logging.format == LogFormat::Pretty,
        config.tools.enabled,
        config.tools.require_confirmation,
        config.tools.allowed_tools@.len() == 1,
        config.tools.allowed_tools@[0]@ == "*"@,
        config.tools.max_execution_time_ms == 30000,
        config.tools.rate_limit.requests_per_minute == 30,
        config.tools.rate_limit.burst_size == 5,
{
}

} // verus!
