//! The server: it answers what clients ask of its resources and tools.
pub mod config;
pub mod laws;

use self::config::{ServerConfig, TransportType};
use crate::client::types::{InfoView, ResultView};
use crate::client::{InitializeResult, ServerCapabilities, ServerInfo};
use crate::error;
use crate::error::{McpError, McpErrorView};
use crate::json;
use crate::json::{object, Json, JsonView};
use crate::protocol;
use crate::protocol::message::{JsonRpcRequest, RequestView};
use crate::protocol::{
    default_protocol_version, BuilderView, Protocol, ProtocolBuilder, ProtocolOptions,
    ProtocolView,
};
use crate::resource;
use crate::resource::{
    ListResourcesRequest, ReadResourceRequest, ResourceCapabilities, ResourceManager,
};
use crate::text;
use crate::text::decimal_text;
use crate::tools;
use crate::tools::{
    finish_call, CallToolRequest, ListToolsRequest, Tool, ToolCapabilities, ToolManager, ToolResult,
    ToolResultView, ToolView,
};
use crate::transport::sse::{SseTransport, SseTransportView};
use crate::transport::stdio::StdioTransport;
use vstd::prelude::*;

verus! {

/// A server. `T` runs a tool.
pub struct McpServer<T> {
    pub config: ServerConfig,
    pub resource_manager: ResourceManager,
    pub tool_manager: ToolManager<T>,
}

/// What a server does with a request.
#[derive(Debug, Clone, Copy)]
pub enum ServerHandler {
    Initialize,
    ListResources,
    ReadResource,
    ListTemplates,
    Subscribe,
    ListTools,
    CallTool,
}

/// What a request asks of a server.
#[derive(Debug)]
pub enum ServerCall {
    /// To say who it is and what it can do.
    Initialize,
    ListResources { cursor: Option<String> },
    ReadResource { uri: String },
    ListTemplates,
    Subscribe { client: String, uri: String },
    ListTools { cursor: Option<String> },
    CallTool { name: String, arguments: Json },
    /// Nothing: the request is answered with an error.
    Refused(McpError),
}

/// What a [`ServerCall`] asks.
pub enum CallView {
    Initialize,
    ListResources { cursor: Option<Seq<char>> },
    ReadResource { uri: Seq<char> },
    ListTemplates,
    Subscribe { client: Seq<char>, uri: Seq<char> },
    ListTools { cursor: Option<Seq<char>> },
    CallTool { name: Seq<char>, arguments: JsonView },
    Refused(McpErrorView),
}

impl View for ServerCall {
    type V = CallView;

    open spec fn view(&self) -> CallView {
        match self {
            ServerCall::Initialize => CallView::Initialize,
            ServerCall::ListResources { cursor } => CallView::ListResources {
                cursor: json::text_view(*cursor),
            },
            ServerCall::ReadResource { uri } => CallView::ReadResource { uri: uri@ },
            ServerCall::ListTemplates => CallView::ListTemplates,
            ServerCall::Subscribe { client, uri } => CallView::Subscribe {
                client: client@,
                uri: uri@,
            },
            ServerCall::ListTools { cursor } => CallView::ListTools {
                cursor: json::text_view(*cursor),
            },
            ServerCall::CallTool { name, arguments } => CallView::CallTool {
                name: name@,
                arguments: arguments@,
            },
            ServerCall::Refused(error) => CallView::Refused(error@),
        }
    }
}

/// The handlers of a server, by method. Only a server that tells of changes can be asked to.
pub open spec fn server_handlers(subscribe: bool) -> Map<Seq<char>, ServerHandler> {
    let handlers = Map::empty()
        .insert("initialize"@, ServerHandler::Initialize)
        .insert("resources/list"@, ServerHandler::ListResources)
        .insert("resources/read"@, ServerHandler::ReadResource)
        .insert("resources/templates/list"@, ServerHandler::ListTemplates)
        .insert("tools/list"@, ServerHandler::ListTools)
        .insert("tools/call"@, ServerHandler::CallTool);
    if subscribe {
        handlers.insert("resources/subscribe"@, ServerHandler::Subscribe)
    } else {
        handlers
    }
}

/// What a request asks; nothing where its parameters are none that its handler takes.
pub open spec fn requested_call(handler: ServerHandler, request: RequestView) -> Option<CallView> {
    match handler {
        ServerHandler::Initialize => Some(CallView::Initialize),
        ServerHandler::ListResources => match request.params {
            Some(params) => match resource::cursor_of_json(params) {
                Some(cursor) => Some(CallView::ListResources { cursor }),
                None => None,
            },
            None => Some(CallView::ListResources { cursor: None }),
        },
        ServerHandler::ReadResource => match request.params {
            Some(params) => match resource::uri_of_json(params) {
                Some(uri) => Some(CallView::ReadResource { uri }),
                None => None,
            },
            None => None,
        },
        ServerHandler::ListTemplates => Some(CallView::ListTemplates),
        ServerHandler::Subscribe => match request.params {
            Some(JsonView::Str(uri)) => Some(
                CallView::Subscribe { client: text::decimal(request.id as nat), uri },
            ),
            _ => None,
        },
        ServerHandler::ListTools => match request.params {
            Some(params) => match resource::cursor_of_json(params) {
                Some(cursor) => Some(CallView::ListTools { cursor }),
                None => Some(CallView::Refused(McpErrorView::ParseError)),
            },
            None => Some(CallView::ListTools { cursor: None }),
        },
        ServerHandler::CallTool => match request.params {
            Some(params) => match tools::call_of_json(params) {
                Some((name, arguments)) => Some(CallView::CallTool { name, arguments }),
                None => None,
            },
            None => None,
        },
    }
}

/// Reads what a request asks; nothing where its parameters are none that its handler takes.
fn read_call(handler: ServerHandler, request: &JsonRpcRequest) -> (call: Option<ServerCall>)
    ensures
        match call {
            Some(call) => requested_call(handler, request@) == Some(call@),
            None => requested_call(handler, request@) is None,
        },
{
    match handler {
        ServerHandler::Initialize => Some(ServerCall::Initialize),
        ServerHandler::ListResources => match &request.params {
            Some(params) => match ListResourcesRequest::from_json(params) {
                Some(asked) => Some(ServerCall::ListResources { cursor: asked.cursor }),
                None => None,
            },
            None => Some(ServerCall::ListResources { cursor: None }),
        },
        ServerHandler::ReadResource => match &request.params {
            Some(params) => match ReadResourceRequest::from_json(params) {
                Some(asked) => Some(ServerCall::ReadResource { uri: asked.uri }),
                None => None,
            },
            None => None,
        },
        ServerHandler::ListTemplates => Some(ServerCall::ListTemplates),
        ServerHandler::Subscribe => match &request.params {
            Some(Json::Str(uri)) => Some(
                ServerCall::Subscribe { client: decimal_text(request.id), uri: uri.clone() },
            ),
            _ => None,
        },
        ServerHandler::ListTools => match &request.params {
            Some(params) => match ListToolsRequest::from_json(params) {
                Some(asked) => Some(ServerCall::ListTools { cursor: asked.cursor }),
                None => Some(ServerCall::Refused(McpError::ParseError)),
            },
            None => Some(ServerCall::ListTools { cursor: None }),
        },
        ServerHandler::CallTool => match &request.params {
            Some(params) => match CallToolRequest::from_json(params) {
                Some(asked) => Some(
                    ServerCall::CallTool { name: asked.name, arguments: asked.arguments },
                ),
                None => None,
            },
            None => None,
        },
    }
}

impl ServerHandler {
    /// Whether the handler takes a request's parameters.
    pub fn accepts(self, request: &JsonRpcRequest) -> (accepts: bool)
        ensures
            accepts == requested_call(self, request@) is Some,
    {
        read_call(self, request).is_some()
    }

    /// What a request asks. The handler takes its parameters.
    pub fn handle(self, request: &JsonRpcRequest) -> (call: ServerCall)
        requires
            requested_call(self, request@) is Some,
        ensures
            requested_call(self, request@) == Some(call@),
    {
        read_call(self, request).unwrap()
    }
}

/// What came of what a request asks, as far as the server does not answer it by itself.
#[derive(Debug)]
pub enum ServerOutcome {
    /// There was nothing to be done.
    Nothing,
    /// What the resources gave, for their list, one of them, or their templates.
    Resources(Result<Json, McpError>),
    /// Whether the client was subscribed.
    Subscribed(Result<(), McpError>),
    /// What the provider of each tool says of it, in the order of the list.
    Tools(Vec<Tool>),
    /// What came of running the tool.
    Ran(Result<ToolResult, McpError>),
}

/// What a [`ServerOutcome`] says.
pub enum OutcomeView {
    Nothing,
    Resources(Result<JsonView, McpErrorView>),
    Subscribed(Result<(), McpErrorView>),
    Tools(Seq<ToolView>),
    Ran(Result<ToolResultView, McpErrorView>),
}

impl View for ServerOutcome {
    type V = OutcomeView;

    open spec fn view(&self) -> OutcomeView {
        match self {
            ServerOutcome::Nothing => OutcomeView::Nothing,
            ServerOutcome::Resources(given) => OutcomeView::Resources(
                protocol::value_view(*given),
            ),
            ServerOutcome::Subscribed(outcome) => OutcomeView::Subscribed(
                error::outcome_view(*outcome),
            ),
            ServerOutcome::Tools(list) => OutcomeView::Tools(tools::tools_view(list@)),
            ServerOutcome::Ran(outcome) => OutcomeView::Ran(tools::run_view(*outcome)),
        }
    }
}

/// What a server answers to a subscription: an empty object, once it was taken.
pub open spec fn subscription_answer(outcome: Result<(), McpErrorView>) -> Result<
    JsonView,
    McpErrorView,
> {
    match outcome {
        Ok(()) => Ok(JsonView::Object(Seq::empty())),
        Err(error) => Err(error),
    }
}

/// What a server answers to a call of a tool that it has: what is given back for the call, also
/// where the tool failed.
pub fn answer_tool_call(outcome: Result<ToolResult, McpError>) -> (answer: Json)
    ensures
        answer@ == tools::finished(tools::run_view(outcome)).json(),
        outcome matches Ok(given) ==> ToolResultView::of_json(answer@) == Some(given@),
        outcome matches Err(error) ==> ToolResultView::of_json(answer@) == Some(
            ToolResultView::of_error(error@),
        ),
{
    proof {
        tools::result_is_read_from_its_json(tools::finished(tools::run_view(outcome)));
    }
    finish_call(outcome).to_json()
}

/// What a server answers to a subscription: an empty object, once it was taken.
pub fn answer_subscription(outcome: Result<(), McpError>) -> (answer: Result<Json, McpError>)
    ensures
        protocol::value_view(answer) == subscription_answer(error::outcome_view(outcome)),
        outcome is Ok ==> answer is Ok,
        outcome matches Err(error) ==> answer == Err::<Json, McpError>(error),
{
    match outcome {
        Ok(()) => {
            let members: Vec<(String, Json)> = Vec::new();
            assert(json::members_view(members@) =~= Seq::empty());
            Ok(object(members))
        },
        Err(error) => Err(error),
    }
}

/// The transport of a server.
#[derive(Debug)]
pub enum ServerTransport {
    Stdio(StdioTransport),
    Sse(SseTransport),
}

/// The server's side of a connection.
pub type ServerProtocol = Protocol<ServerHandler, (), (), ()>;

impl<T> McpServer<T> {
    /// The table of tools is in order.
    pub open spec fn wf(self) -> bool {
        self.tool_manager.wf()
    }

    /// A server that tells of changes, and has no tools yet.
    pub fn new(config: ServerConfig) -> (server: McpServer<T>)
        ensures
            server.wf(),
            server.config == config,
            server.resource_manager.capabilities == (ResourceCapabilities {
                subscribe: true,
                list_changed: true,
            }),
            server.tool_manager.capabilities == (ToolCapabilities { list_changed: true }),
            server.tool_manager@ == Map::<Seq<char>, T>::empty(),
            server.tool_manager.listed() == Seq::<(Seq<char>, T)>::empty(),
    {
        McpServer {
            config,
            resource_manager: ResourceManager::new(
                ResourceCapabilities { subscribe: true, list_changed: true },
            ),
            tool_manager: ToolManager::new(ToolCapabilities { list_changed: true }),
        }
    }

    /// What the server says of itself.
    pub open spec fn introduction(self) -> ResultView {
        ResultView {
            protocol_version: "2024-11-05"@,
            capabilities: ServerCapabilities {
                logging: None,
                prompts: None,
                resources: Some(self.resource_manager.capabilities),
                tools: Some(self.tool_manager.capabilities),
            },
            server_info: InfoView {
                name: self.config.server.name@,
                version: self.config.server.version@,
            },
        }
    }

    /// What the server says of itself.
    pub fn introduce(&self) -> (result: InitializeResult)
        ensures
            result@ == self.introduction(),
    {
        InitializeResult {
            protocol_version: default_protocol_version(),
            capabilities: ServerCapabilities {
                logging: None,
                prompts: None,
                resources: Some(self.resource_manager.capabilities),
                tools: Some(self.tool_manager.capabilities),
            },
            server_info: ServerInfo {
                name: self.config.server.name.clone(),
                version: self.config.server.version.clone(),
            },
        }
    }

    /// What the server answers to a client that makes itself known.
    pub fn answer_introduction(&self) -> (answer: Json)
        ensures
            answer@ == self.introduction().json(),
    {
        self.introduce().to_json()
    }

    /// What the server answers to a request for the list of tools: all of them, from what the
    /// provider of each says of it, and no cursor.
    pub fn answer_tool_list(&self, cursor: Option<String>, tools: Vec<Tool>) -> (answer: Result<
        Json,
        McpError,
    >)
        requires
            tools@.len() == self.tool_manager.listed().len(),
        ensures
            protocol::value_view(answer) == Ok::<JsonView, McpErrorView>(
                tools::list_json(tools::tools_view(tools@), None),
            ),
    {
        match self.tool_manager.list_tools(cursor, tools) {
            Ok(list) => Ok(list.to_json()),
            Err(error) => Err(error),
        }
    }

    /// What the server answers to what a request asks, by what came of it; nothing where that did
    /// not come of such a request. A tool that is not there is never run.
    pub open spec fn answer_to(self, call: CallView, outcome: OutcomeView) -> Option<
        Result<JsonView, McpErrorView>,
    > {
        match (call, outcome) {
            (CallView::Initialize, OutcomeView::Nothing) => Some(Ok(self.introduction().json())),
            (CallView::ListResources { .. }, OutcomeView::Resources(given)) => Some(given),
            (CallView::ReadResource { .. }, OutcomeView::Resources(given)) => Some(given),
            (CallView::ListTemplates, OutcomeView::Resources(given)) => Some(given),
            (CallView::Subscribe { .. }, OutcomeView::Subscribed(outcome)) => Some(
                subscription_answer(outcome),
            ),
            (CallView::ListTools { .. }, OutcomeView::Tools(list)) => if list.len()
                == self.tool_manager.listed().len() {
                Some(Ok(tools::list_json(list, None)))
            } else {
                None
            },
            (CallView::CallTool { name, .. }, OutcomeView::Ran(outcome)) => {
                match tools::found(self.tool_manager@, name) {
                    Ok(_) => Some(Ok(tools::finished(outcome).json())),
                    Err(_) => None,
                }
            },
            (CallView::CallTool { name, .. }, OutcomeView::Nothing) => {
                match tools::found(self.tool_manager@, name) {
                    Ok(_) => None,
                    Err(error) => Some(Err(error)),
                }
            },
            (CallView::Refused(error), OutcomeView::Nothing) => Some(Err(error)),
            _ => None,
        }
    }

    /// What the server answers to what a request asks, by what came of it; nothing where that did
    /// not come of such a request.
    pub fn answer(&self, call: ServerCall, outcome: ServerOutcome) -> (answer: Option<
        Result<Json, McpError>,
    >)
        requires
            self.wf(),
        ensures
            match answer {
                Some(answer) => self.answer_to(call@, outcome@) == Some(
                    protocol::value_view(answer),
                ),
                None => self.answer_to(call@, outcome@) is None,
            },
            call is ListResources || call is ReadResource || call is ListTemplates ==> (
            outcome matches ServerOutcome::Resources(given) ==> answer == Some(given)),
            call matches ServerCall::Refused(error) ==> outcome is Nothing ==> answer == Some(
                Err::<Json, McpError>(error),
            ),
            call matches ServerCall::CallTool { name, .. } ==> self.tool_manager@.contains_key(
                name@,
            ) ==> (outcome matches ServerOutcome::Ran(Ok(given)) ==> (answer matches Some(
                Ok(answer),
            ) && ToolResultView::of_json(answer@) == Some(given@))),
    {
        match (call, outcome) {
            (ServerCall::Initialize, ServerOutcome::Nothing) => Some(
                Ok(self.answer_introduction()),
            ),
            (ServerCall::ListResources { .. }, ServerOutcome::Resources(given)) => Some(given),
            (ServerCall::ReadResource { .. }, ServerOutcome::Resources(given)) => Some(given),
            (ServerCall::ListTemplates, ServerOutcome::Resources(given)) => Some(given),
            (ServerCall::Subscribe { .. }, ServerOutcome::Subscribed(outcome)) => Some(
                answer_subscription(outcome),
            ),
            (ServerCall::ListTools { cursor }, ServerOutcome::Tools(list)) => {
                if list.len() == self.tool_manager.len() {
                    Some(self.answer_tool_list(cursor, list))
                } else {
                    None
                }
            },
            (ServerCall::CallTool { name, arguments }, ServerOutcome::Ran(outcome)) => {
                match self.tool_manager.call_tool(name.as_str(), arguments) {
                    Ok(_) => Some(Ok(answer_tool_call(outcome))),
                    Err(_) => None,
                }
            },
            (ServerCall::CallTool { name, arguments }, ServerOutcome::Nothing) => {
                match self.tool_manager.call_tool(name.as_str(), arguments) {
                    Ok(_) => None,
                    Err(error) => Some(Err(error)),
                }
            },
            (ServerCall::Refused(error), ServerOutcome::Nothing) => Some(Err(error)),
            _ => None,
        }
    }

    /// Registers the handlers of the server.
    pub fn register_resource_handlers(
        &self,
        builder: ProtocolBuilder<ServerHandler, ()>,
    ) -> (registered: ProtocolBuilder<ServerHandler, ()>)
        requires
            builder.wf(),
        ensures
            registered.wf(),
            registered@ == (BuilderView {
                request_handlers: builder@.request_handlers.union_prefer_right(
                    server_handlers(self.resource_manager.capabilities.subscribe),
                ),
                ..builder@
            }),
    {
        let registered: ProtocolBuilder<ServerHandler, ()> = builder
            .with_request_handler("initialize", ServerHandler::Initialize)
            .with_request_handler("resources/list", ServerHandler::ListResources)
            .with_request_handler("resources/read", ServerHandler::ReadResource)
            .with_request_handler("resources/templates/list", ServerHandler::ListTemplates);
        let registered: ProtocolBuilder<ServerHandler, ()> =
            if self.resource_manager.capabilities.subscribe {
            registered.with_request_handler("resources/subscribe", ServerHandler::Subscribe)
        } else {
            registered
        };
        let registered: ProtocolBuilder<ServerHandler, ()> = registered
            .with_request_handler("tools/list", ServerHandler::ListTools)
            .with_request_handler("tools/call", ServerHandler::CallTool);
        proof {
            method_names_differ();
            assert(registered@.request_handlers =~= builder@.request_handlers.union_prefer_right(
                server_handlers(self.resource_manager.capabilities.subscribe),
            ));
        }
        registered
    }

    /// The server's side of a connection, not connected yet.
    fn protocol(&self) -> (protocol: ServerProtocol)
        ensures
            protocol.wf(),
            protocol@ == self.serving(),
    {
        let builder: ProtocolBuilder<ServerHandler, ()> = ServerProtocol::builder(
            Some(ProtocolOptions { enforce_strict_capabilities: true }),
        );
        let protocol: ServerProtocol = self.register_resource_handlers(builder).build();
        assert(protocol@.request_handlers =~= self.serving().request_handlers);
        protocol
    }

    /// The server's side of a connection, not connected yet.
    pub open spec fn serving(self) -> ProtocolView<ServerHandler, (), (), ()> {
        ProtocolView {
            connected: false,
            strict: true,
            last_id: 0,
            request_handlers: server_handlers(self.resource_manager.capabilities.subscribe),
            notification_handlers: Map::empty().insert(
                "cancelled"@,
                protocol::NotificationHandler::Cancelled,
            ),
            response_handlers: Map::empty(),
            progress_handlers: Map::empty(),
        }
    }

    /// The transport over standard input and output, and the server's side of it.
    pub fn run_stdio_transport(&self) -> (run: (StdioTransport, ServerProtocol))
        ensures
            run.0.capacity() == self.config.server.max_connections,
            run.1.wf(),
            run.1@ == self.serving(),
    {
        (StdioTransport::new(Some(self.config.server.max_connections)), self.protocol())
    }

    /// The transport over HTTP, and the server's side of it.
    pub fn run_sse_transport(&self) -> (run: (SseTransport, ServerProtocol))
        ensures
            run.0@ == (SseTransportView {
                host: self.config.server.host@,
                port: self.config.server.port,
                client_mode: false,
                buffer_size: self.config.server.max_connections,
            }),
            run.1.wf(),
            run.1@ == self.serving(),
    {
        let transport: SseTransport = SseTransport::new_server(
            self.config.server.host.clone(),
            self.config.server.port,
            self.config.server.max_connections,
        );
        (transport, self.protocol())
    }

    /// The transport that the settings name, and the server's side of it. There is no transport
    /// over web sockets.
    pub fn run(&self) -> (run: (ServerTransport, ServerProtocol))
        requires
            self.config.server.transport != TransportType::WebSocket,
        ensures
            match run.0 {
                ServerTransport::Stdio(transport) => {
                    &&& self.config.server.transport == TransportType::Stdio
                    &&& transport.capacity() == self.config.server.max_connections
                },
                ServerTransport::Sse(transport) => {
                    &&& self.config.server.transport == TransportType::Sse
                    &&& transport@ == (SseTransportView {
                        host: self.config.server.host@,
                        port: self.config.server.port,
                        client_mode: false,
                        buffer_size: self.config.server.max_connections,
                    })
                },
            },
            run.1.wf(),
            run.1@ == self.serving(),
    {
        if self.config.server.transport == TransportType::Stdio {
            let (transport, protocol) = self.run_stdio_transport();
            (ServerTransport::Stdio(transport), protocol)
        } else {
            let (transport, protocol) = self.run_sse_transport();
            (ServerTransport::Sse(transport), protocol)
        }
    }
}

/// The methods that a server answers have different names.
pub proof fn method_names_differ()
    ensures
        "initialize"@ != "resources/list"@,
        "initialize"@ != "resources/read"@,
        "initialize"@ != "resources/templates/list"@,
        "initialize"@ != "resources/subscribe"@,
        "initialize"@ != "tools/list"@,
        "initialize"@ != "tools/call"@,
        "resources/list"@ != "resources/read"@,
        "resources/list"@ != "resources/templates/list"@,
        "resources/list"@ != "resources/subscribe"@,
        "resources/list"@ != "tools/list"@,
        "resources/list"@ != "tools/call"@,
        "resources/read"@ != "resources/templates/list"@,
        "resources/read"@ != "resources/subscribe"@,
        "resources/read"@ != "tools/list"@,
        "resources/read"@ != "tools/call"@,
        "resources/templates/list"@ != "resources/subscribe"@,
        "resources/templates/list"@ != "tools/list"@,
        "resources/templates/list"@ != "tools/call"@,
        "resources/subscribe"@ != "tools/list"@,
        "resources/subscribe"@ != "tools/call"@,
        "tools/list"@ != "tools/call"@,
{
    reveal_strlit("initialize");
    reveal_strlit("resources/list");
    reveal_strlit("resources/read");
    reveal_strlit("resources/templates/list");
    reveal_strlit("resources/subscribe");
    reveal_strlit("tools/list");
    reveal_strlit("tools/call");
    assert("initialize"@[0] != "resources/list"@[0]);
    assert("initialize"@[0] != "resources/read"@[0]);
    assert("initialize"@[0] != "resources/templates/list"@[0]);
    assert("initialize"@[0] != "resources/subscribe"@[0]);
    assert("initialize"@[0] != "tools/list"@[0]);
    assert("initialize"@[0] != "tools/call"@[0]);
    assert("resources/list"@[10] != "resources/read"@[10]);
    assert("resources/list"@[10] != "resources/templates/list"@[10]);
    assert("resources/list"@[10] != "resources/subscribe"@[10]);
    assert("resources/list"@[0] != "tools/list"@[0]);
    assert("resources/list"@[0] != "tools/call"@[0]);
    assert("resources/read"@[10] != "resources/templates/list"@[10]);
    assert("resources/read"@[10] != "resources/subscribe"@[10]);
    assert("resources/read"@[0] != "tools/list"@[0]);
    assert("resources/read"@[0] != "tools/call"@[0]);
    assert("resources/templates/list"@[10] != "resources/subscribe"@[10]);
    assert("resources/templates/list"@[0] != "tools/list"@[0]);
    assert("resources/templates/list"@[0] != "tools/call"@[0]);
    assert("resources/subscribe"@[0] != "tools/list"@[0]);
    assert("resources/subscribe"@[0] != "tools/call"@[0]);
    assert("tools/list"@[6] != "tools/call"@[6]);
}

} // verus!
