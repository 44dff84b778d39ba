use mcp_rs::error::McpError;
use mcp_rs::json::Json;
use mcp_rs::protocol::{
    handle_cancelled, Incoming, JsonRpcNotification, JsonRpcRequest, NotificationHandler, Protocol,
};
use mcp_rs::protocol_old;
use mcp_rs::resource::ReadResourceRequest;
use mcp_rs::server::config::{
    LogFormat, LoggingSettings, SecuritySettings, ServerConfig, ToolSettings, TransportType,
};
use mcp_rs::server::{
    answer_subscription, answer_tool_call, McpServer, ServerCall, ServerHandler, ServerOutcome,
    ServerProtocol, ServerTransport,
};
use mcp_rs::tools::{Tool, ToolContent, ToolResult};
use mcp_rs::transport::{JsonRpcMessage, TransportCommand, TransportEvent};

fn json(text: &str) -> Json {
    Json::parse(text).unwrap()
}

fn request(id: u64, method: &str, params: Option<&str>) -> JsonRpcRequest {
    JsonRpcRequest {
        jsonrpc: "2.0".to_string(),
        id,
        method: method.to_string(),
        params: params.map(json),
    }
}

fn server() -> McpServer<u8> {
    McpServer::new(ServerConfig::default())
}

#[test]
fn settings_of_a_server_that_was_told_nothing() {
    let config = ServerConfig::default();
    assert_eq!(config.server.name, "mcp-server");
    assert_eq!(config.server.version, "0.1.0");
    assert_eq!(config.server.transport, TransportType::Stdio);
    assert_eq!(config.server.host, "127.0.0.1");
    assert_eq!(config.server.port, 3000);
    assert_eq!(config.server.max_connections, 100);
    assert_eq!(config.server.timeout_ms, 30000);
    assert_eq!(config.resources.root_path, "./resources");
    assert_eq!(config.resources.allowed_schemes, vec!["file".to_string()]);
    assert_eq!(config.resources.max_file_size, 10485760);
    assert!(config.resources.enable_templates);
    let security = SecuritySettings::default();
    assert!(!security.enable_auth && security.token_secret.is_none());
    assert_eq!(security.rate_limit.requests_per_minute, 60);
    assert_eq!(config.security.rate_limit.burst_size, 10);
    assert_eq!(config.security.allowed_origins, vec!["*".to_string()]);
    let logging = LoggingSettings::default();
    assert_eq!(logging.level, "info");
    assert!(logging.file.is_none());
    assert_eq!(config.logging.format, LogFormat::Pretty);
    let tools = ToolSettings::default();
    assert!(tools.enabled && tools.require_confirmation);
    assert_eq!(tools.allowed_tools, vec!["*".to_string()]);
    assert_eq!(tools.max_execution_time_ms, 30000);
    assert_eq!(config.tools.rate_limit.requests_per_minute, 30);
    assert_eq!(config.tools.rate_limit.burst_size, 5);
}

#[test]
fn a_server_says_what_it_can_do() {
    let server = server();
    assert!(server.resource_manager.capabilities.subscribe);
    assert!(server.resource_manager.capabilities.list_changed);
    assert!(server.tool_manager.capabilities.list_changed);
    assert_eq!(
        server.introduce().to_json().render().unwrap(),
        r#"{"protocol_version":"2024-11-05","capabilities":{"logging":null,"prompts":null,"resources":{"subscribe":true,"list_changed":true},"tools":{"list_changed":true}},"server_info":{"name":"mcp-server","version":"0.1.0"}}"#
    );
}

#[test]
fn a_server_runs_on_the_transport_of_its_settings() {
    let mut server = server();
    match server.run().0 {
        ServerTransport::Stdio(transport) => assert_eq!(transport.buffer_size(), 100),
        ServerTransport::Sse(_) => panic!("Expected standard input and output"),
    }
    server.config.server.transport = TransportType::Sse;
    server.config.server.port = 3030;
    match server.run().0 {
        ServerTransport::Sse(transport) => {
            assert_eq!(transport.host(), "127.0.0.1");
            assert_eq!(transport.port(), 3030);
            assert_eq!(transport.buffer_size(), 100);
        }
        ServerTransport::Stdio(_) => panic!("Expected HTTP"),
    }
    assert_eq!(server.run_stdio_transport().0.buffer_size(), 100);
}

#[test]
fn a_server_knows_its_methods() {
    let mut server = server();
    let protocol = server.run().1;
    let has = |protocol: &ServerProtocol, method: &str| protocol.request_handler(method).is_some();
    for method in [
        "initialize",
        "resources/list",
        "resources/read",
        "resources/templates/list",
        "resources/subscribe",
        "tools/list",
        "tools/call",
    ] {
        assert!(has(&protocol, method), "{}", method);
    }
    assert!(!has(&protocol, "prompts/list"));
    assert!(matches!(
        protocol.notification_handler("cancelled"),
        Some(NotificationHandler::Cancelled)
    ));
    server.resource_manager.capabilities.subscribe = false;
    let protocol = server.run().1;
    assert!(!has(&protocol, "resources/subscribe"));
    assert!(has(&protocol, "resources/list"));
}

#[test]
fn a_method_that_is_not_known_is_passed_over() {
    let mut protocol = server().run().1;
    let event = |method: &str| {
        Some(TransportEvent::Message(JsonRpcMessage::Request(request(1, method, None))))
    };
    assert!(matches!(protocol.handle_event(event("prompts/list")), Incoming::Ignored));
    assert!(matches!(protocol.handle_event(event("tools/list")), Incoming::Request(_)));
}

#[test]
fn requests_say_what_they_ask() {
    let asked = |handler: ServerHandler, params: Option<&str>| {
        let request = request(42, "m", params);
        if handler.accepts(&request) {
            Some(handler.handle(&request))
        } else {
            None
        }
    };
    assert!(matches!(
        asked(ServerHandler::ListResources, None),
        Some(ServerCall::ListResources { cursor: None })
    ));
    assert!(matches!(
        asked(ServerHandler::ListResources, Some(r#"{"cursor":"c"}"#)),
        Some(ServerCall::ListResources { cursor: Some(_) })
    ));
    assert!(asked(ServerHandler::ListResources, Some(r#"{"cursor":1}"#)).is_none());
    match asked(ServerHandler::ReadResource, Some(r#"{"uri":"file:///a"}"#)) {
        Some(ServerCall::ReadResource { uri }) => assert_eq!(uri, "file:///a"),
        _ => panic!("Expected a resource"),
    }
    assert!(asked(ServerHandler::ReadResource, None).is_none());
    assert!(asked(ServerHandler::ReadResource, Some("{}")).is_none());
    assert!(matches!(
        asked(ServerHandler::ListTemplates, Some("7")),
        Some(ServerCall::ListTemplates)
    ));
    match asked(ServerHandler::Subscribe, Some(r#""file:///a""#)) {
        Some(ServerCall::Subscribe { client, uri }) => {
            assert_eq!(client, "42");
            assert_eq!(uri, "file:///a");
        }
        _ => panic!("Expected a subscription"),
    }
    assert!(asked(ServerHandler::Subscribe, None).is_none());
    assert!(asked(ServerHandler::Subscribe, Some("{}")).is_none());
    assert!(matches!(
        asked(ServerHandler::ListTools, None),
        Some(ServerCall::ListTools { cursor: None })
    ));
    assert!(matches!(
        asked(ServerHandler::ListTools, Some(r#"{"cursor":1}"#)),
        Some(ServerCall::Refused(McpError::ParseError))
    ));
    match asked(ServerHandler::CallTool, Some(r#"{"name":"t","arguments":{"a":1}}"#)) {
        Some(ServerCall::CallTool { name, arguments }) => {
            assert_eq!(name, "t");
            assert_eq!(arguments.render().unwrap(), r#"{"a":1}"#);
        }
        _ => panic!("Expected a call"),
    }
    assert!(asked(ServerHandler::CallTool, Some(r#"{"name":"t"}"#)).is_none());
    assert!(asked(ServerHandler::CallTool, None).is_none());
    assert!(matches!(asked(ServerHandler::Initialize, None), Some(ServerCall::Initialize)));
}

#[test]
fn two_requests_subscribe_two_clients() {
    let client = |id: u64| {
        let request = request(id, "resources/subscribe", Some(r#""u""#));
        match ServerHandler::Subscribe.handle(&request) {
            ServerCall::Subscribe { client, .. } => client,
            _ => panic!("Expected a subscription"),
        }
    };
    assert_eq!((client(1), client(10)), ("1".to_string(), "10".to_string()));
}

#[test]
fn a_subscription_is_answered() {
    assert_eq!(answer_subscription(Ok(())).unwrap().render().unwrap(), "{}");
    assert!(matches!(
        answer_subscription(Err(McpError::InvalidParams)),
        Err(McpError::InvalidParams)
    ));
}

#[test]
fn a_server_answers_what_is_asked() {
    let mut server = server();
    let tool = Tool {
        name: "t".to_string(),
        description: "d".to_string(),
        input_schema: Json::Null,
    };
    server.tool_manager.register_tool(&tool, 1);
    let text = |answer: Option<Result<Json, McpError>>| answer.unwrap().unwrap().render().unwrap();
    let call = |name: &str| ServerCall::CallTool {
        name: name.to_string(),
        arguments: Json::Null,
    };

    let introduction = server.introduce().to_json().render().unwrap();
    assert_eq!(text(server.answer(ServerCall::Initialize, ServerOutcome::Nothing)), introduction);
    assert_eq!(server.answer_introduction().render().unwrap(), introduction);

    let list = || ServerCall::ListTools { cursor: None };
    let answer = server.answer(list(), ServerOutcome::Tools(vec![tool]));
    assert_eq!(
        text(answer),
        r#"{"tools":[{"name":"t","description":"d","input_schema":null}],"next_cursor":null}"#
    );
    assert!(server.answer(list(), ServerOutcome::Tools(Vec::new())).is_none());
    assert!(server.answer(list(), ServerOutcome::Nothing).is_none());

    let given = ToolResult {
        content: vec![ToolContent::Text { text: "8".to_string() }],
        is_error: false,
    };
    assert_eq!(
        text(server.answer(call("t"), ServerOutcome::Ran(Ok(given)))),
        r#"{"content":[{"type":"text","text":"8"}],"is_error":false}"#
    );
    assert_eq!(
        text(server.answer(call("t"), ServerOutcome::Ran(Err(McpError::InvalidParams)))),
        r#"{"content":[{"type":"text","text":"Invalid params"}],"is_error":true}"#
    );
    assert_eq!(
        answer_tool_call(Err(McpError::InvalidParams)).render().unwrap(),
        r#"{"content":[{"type":"text","text":"Invalid params"}],"is_error":true}"#
    );
    match server.answer(call("u"), ServerOutcome::Nothing) {
        Some(Err(McpError::InvalidRequest(reason))) => assert_eq!(reason, "Unknown tool: u"),
        _ => panic!("Expected InvalidRequest error"),
    }
    assert!(server.answer(call("t"), ServerOutcome::Nothing).is_none());
    let ran = ServerOutcome::Ran(Err(McpError::InvalidParams));
    assert!(server.answer(call("u"), ran).is_none());

    let read = || ServerCall::ReadResource { uri: "u".to_string() };
    assert_eq!(text(server.answer(read(), ServerOutcome::Resources(Ok(json("[1]"))))), "[1]");
    assert!(matches!(
        server.answer(read(), ServerOutcome::Resources(Err(McpError::InternalError))),
        Some(Err(McpError::InternalError))
    ));
    let subscribe = ServerCall::Subscribe { client: "1".to_string(), uri: "u".to_string() };
    assert_eq!(text(server.answer(subscribe, ServerOutcome::Subscribed(Ok(())))), "{}");
    let refused = ServerCall::Refused(McpError::ParseError);
    assert!(matches!(
        server.answer(refused, ServerOutcome::Nothing),
        Some(Err(McpError::ParseError))
    ));
}

#[test]
fn a_failed_request_is_answered_with_its_error() {
    let command = Protocol::<(), (), (), ()>::respond(
        3,
        Err(McpError::InvalidRequest("Unknown tool: t".to_string())),
    );
    match command {
        TransportCommand::SendMessage(message) => assert_eq!(
            message.encode().unwrap(),
            r#"{"jsonrpc":"2.0","id":3,"result":null,"error":{"code":-32600,"message":"Invalid request: Unknown tool: t","data":null}}"#
        ),
        TransportCommand::Close => panic!("Expected a message"),
    }
}

#[test]
fn a_request_for_a_resource_is_read_from_its_json() {
    let request = ReadResourceRequest { uri: "u".to_string() };
    assert_eq!(ReadResourceRequest::from_json(&request.to_json()).unwrap().uri, "u");
    assert_eq!(ReadResourceRequest::from_json(&json(r#"["v"]"#)).unwrap().uri, "v");
    assert!(ReadResourceRequest::from_json(&json("[]")).is_none());
}

#[test]
fn a_cancellation_is_understood() {
    let notice = |params: Option<&str>| {
        handle_cancelled(&JsonRpcNotification {
            jsonrpc: "2.0".to_string(),
            method: "cancelled".to_string(),
            params: params.map(json),
        })
    };
    let understood = notice(Some(r#"{"request_id":"7","reason":"late"}"#)).unwrap();
    assert_eq!(understood.request_id, "7");
    assert_eq!(understood.reason, "late");
    assert!(matches!(notice(None), Err(McpError::InvalidParams)));
    assert!(matches!(notice(Some(r#"{"request_id":7}"#)), Err(McpError::InvalidParams)));
}

#[test]
fn a_protocol_that_owns_its_transport_answers_for_itself() {
    let protocol: protocol_old::Protocol<u8, u8, (), (), (), ()> =
        protocol_old::Protocol::new(None);
    let ping = protocol.request_handler("ping").unwrap();
    assert!(matches!(ping.answer::<u32>(), Some(Ok(0))));
    assert!(matches!(ping.answer::<String>(), Some(Ok(text)) if text.is_empty()));
    for method in ["notifications/cancelled", "notifications/progress"] {
        let handler = protocol.notification_handler(method).unwrap();
        assert!(matches!(handler.take_note(), Some(Ok(()))));
        assert!(protocol.request_handler(method).is_none());
    }
    assert!(protocol.notification_handler("ping").is_none());
    assert!(protocol.notification_handler("cancelled").is_none());
    assert!(protocol_old::RequestHandler::Custom(1).answer::<u32>().is_none());
    assert!(protocol_old::NotificationHandler::Custom(1).take_note().is_none());
}

#[test]
fn a_protocol_that_owns_its_transport() {
    let mut protocol: protocol_old::Protocol<(), (), u8, (), (), ()> =
        protocol_old::Protocol::new(None);
    assert!(protocol.transport().is_none());
    assert!(protocol.close::<String>(Ok(())).unwrap().is_none());
    assert_eq!(protocol.connect(5, Err("late".to_string())), Err("late".to_string()));
    assert_eq!(protocol.transport(), Some(&5));
    assert_eq!(protocol.connect::<String>(6, Ok(())), Ok(()));
    assert_eq!(protocol.transport(), Some(&6));
    assert_eq!(protocol.close(Err("stuck")).unwrap_err(), "stuck");
    assert_eq!(protocol_old::DEFAULT_REQUEST_TIMEOUT_MSEC, 60000);
}
