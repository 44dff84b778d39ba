use mcp_rs::error::McpError;
use mcp_rs::json::Json;
use mcp_rs::protocol::{JsonRpcError, JsonRpcNotification, JsonRpcRequest, JsonRpcResponse};
use mcp_rs::transport::session::{SseAct, SseSession, StdioSession};
use mcp_rs::transport::sse::{
    should_skip_broadcast, EndpointEvent, SseClientStep, SseRole, SseServer, SseServerStep,
};
use mcp_rs::transport::stdio::{should_skip_message, StdioStep, DEFAULT_BUFFER_SIZE};
use mcp_rs::transport::{
    JsonRpcMessage, SseTransport, StdioTransport, TransportCommand, TransportEvent,
};

fn json(text: &str) -> Json {
    Json::parse(text).unwrap()
}

fn request(id: u64, method: &str, params: Json) -> JsonRpcMessage {
    JsonRpcMessage::Request(JsonRpcRequest {
        jsonrpc: "2.0".to_string(),
        id,
        method: method.to_string(),
        params: Some(params),
    })
}

fn notification(method: &str, params: Option<Json>) -> JsonRpcMessage {
    JsonRpcMessage::Notification(JsonRpcNotification {
        jsonrpc: "2.0".to_string(),
        method: method.to_string(),
        params,
    })
}

fn create_test_request() -> JsonRpcMessage {
    request(1, "test_method", json(r#"{"test": "data"}"#))
}

fn create_test_response() -> JsonRpcMessage {
    JsonRpcMessage::Response(JsonRpcResponse {
        jsonrpc: "2.0".to_string(),
        id: 1,
        result: Some(json(r#"{"status": "success"}"#)),
        error: None,
    })
}

// What one side writes for a message, the other side reads.
fn line_for(message: JsonRpcMessage) -> String {
    match StdioTransport::write_command(&TransportCommand::SendMessage(message)) {
        StdioStep::Write(line) => line,
        _ => panic!("Should receive message"),
    }
}

fn brought(line: &str) -> Option<JsonRpcMessage> {
    match StdioTransport::read_line(line) {
        Some(TransportEvent::Message(message)) => Some(message),
        _ => None,
    }
}

#[test]
fn test_transport_basic() {
    let output = line_for(create_test_request());
    assert_eq!(
        output,
        "{\"jsonrpc\":\"2.0\",\"id\":1,\"method\":\"test_method\",\"params\":{\"test\":\"data\"}}\n"
    );
    assert_eq!(output.trim_end(), create_test_request().encode().unwrap());

    let received = StdioTransport::read_line(&create_test_response().encode().unwrap());
    assert!(matches!(received, Some(TransportEvent::Message(_))));
}

#[test]
fn test_transport() {
    let transport = StdioTransport::new(None);
    assert_eq!(transport.buffer_size(), 4092);
    assert_eq!(transport.buffer_size(), DEFAULT_BUFFER_SIZE);
    assert_eq!(StdioTransport::new(Some(32)).buffer_size(), 32);

    let line = line_for(notification("test", None));
    assert_eq!(line, "{\"jsonrpc\":\"2.0\",\"method\":\"test\",\"params\":null}\n");
    match brought(&line) {
        Some(JsonRpcMessage::Notification(notification)) => {
            assert_eq!(notification.method, "test");
            assert!(notification.params.is_none());
        }
        _ => panic!("Should receive message"),
    }
}

#[test]
fn test_transport_initialization_sequence() {
    let init_request = || {
        request(1, "initialize", json(r#"{"name": "test-client", "version": "1.0.0"}"#))
    };
    let output = line_for(init_request());
    assert_eq!(output.trim_end(), init_request().encode().unwrap());
    assert_eq!(
        output.trim_end(),
        r#"{"jsonrpc":"2.0","id":1,"method":"initialize","params":{"name":"test-client","version":"1.0.0"}}"#
    );
}

#[test]
fn test_transport_message_ordering() {
    let mut lines = String::new();
    for id in 1..=5 {
        lines.push_str(&line_for(request(
            id,
            "test_method",
            json(&format!("{{\"sequence\": {}}}", id)),
        )));
    }

    let mut received_ids = Vec::new();
    for line in lines.lines() {
        if let Some(JsonRpcMessage::Request(req)) = brought(line) {
            received_ids.push(req.id);
        }
    }
    assert_eq!(received_ids, vec![1, 2, 3, 4, 5], "Messages received out of order");
}

#[test]
fn test_transport_notification_handling() {
    let line = line_for(notification("test/notification", Some(json(r#"{"type": "test"}"#))));
    let received = StdioTransport::read_line(&line);
    assert!(
        matches!(received, Some(TransportEvent::Message(JsonRpcMessage::Notification(_)))),
        "Notification not handled correctly"
    );
}

#[test]
fn test_transport_large_message() {
    let mut data = Vec::new();
    for i in 0..1000 {
        data.push(Json::Str(format!("data_{}", i)));
    }
    let message = request(
        1,
        "test_large",
        Json::Object(vec![("data".to_string(), Json::Array(data))]),
    );
    let line = line_for(message);
    match brought(&line) {
        Some(JsonRpcMessage::Request(received)) => match received.params.unwrap().get("data") {
            Some(Json::Array(items)) => {
                assert_eq!(items.len(), 1000);
                assert_eq!(items[999].as_str(), Some("data_999"));
            }
            _ => panic!("Large message not handled correctly"),
        },
        _ => panic!("Large message not handled correctly"),
    }
}

#[test]
fn test_transport_concurrent_messages() {
    let mut received_count = 0;
    for i in 0..5 {
        let line =
            line_for(request(i, "test_concurrent", json(&format!("{{\"sender\": {}}}", i))));
        if brought(&line).is_some() {
            received_count += 1;
        }
    }
    assert_eq!(received_count, 5, "Not all concurrent messages were received");
}

#[test]
fn a_message_stands_on_one_line() {
    let message = |n: u64| request(n, "m", Json::Str("a\nb\r\n{}\u{2028}".to_string()));
    let mut written = String::new();
    for n in 1..4 {
        written.push_str(&line_for(message(n)));
    }
    assert_eq!(written.matches('\n').count(), 3);
    for (i, line) in written.split_inclusive('\n').enumerate() {
        match brought(line) {
            Some(JsonRpcMessage::Request(request)) => {
                assert_eq!(request.id, i as u64 + 1);
                assert_eq!(request.params.unwrap().as_str(), Some("a\nb\r\n{}\u{2028}"));
            }
            _ => panic!("Expected a request"),
        }
    }
}

#[test]
fn lines_that_are_no_messages_are_passed_over() {
    assert!(brought("").is_none());
    assert!(brought("   \n").is_none());
    assert!(brought("hello").is_none());
    assert!(brought("[\"2.0\",1,\"m\",null]").is_none());
    assert!(brought("{\"jsonrpc\":\"2.0\"").is_none());
    assert!(brought("{\"other\":1}").is_none());
    assert!(brought(" \t{\"jsonrpc\":\"2.0\",\"method\":\"m\"}\r\n").is_some());
    assert_eq!(StdioTransport::accept_line("\u{3000}{}\u{a0}"), Some("{}"));
    assert_eq!(StdioTransport::accept_line("x{}"), None);
}

#[test]
fn a_message_is_read_as_the_first_kind_that_fits() {
    let kind = |text: &str| match JsonRpcMessage::decode(text) {
        Some(JsonRpcMessage::Request(_)) => "request",
        Some(JsonRpcMessage::Response(_)) => "response",
        Some(JsonRpcMessage::Notification(_)) => "notification",
        None => "none",
    };
    assert_eq!(kind(r#"{"jsonrpc":"2.0","id":1,"method":"m"}"#), "request");
    assert_eq!(kind(r#"{"jsonrpc":"2.0","id":1,"method":"m","result":1}"#), "request");
    assert_eq!(kind(r#"{"jsonrpc":"2.0","id":1}"#), "response");
    assert_eq!(kind(r#"{"jsonrpc":"2.0","id":1,"result":{}}"#), "response");
    assert_eq!(kind(r#"{"jsonrpc":"2.0","method":"m"}"#), "notification");
    assert_eq!(kind(r#"{"jsonrpc":"2.0","id":-1,"method":"m"}"#), "notification");
    assert_eq!(kind(r#"{"jsonrpc":"2.0"}"#), "none");
    assert_eq!(kind(r#"{"jsonrpc":"2.0","id":1,"error":{"code":1}}"#), "none");
    assert_eq!(kind(r#"["2.0",1,"m",null]"#), "request");
    assert_eq!(kind("not json"), "none");
}

#[test]
fn a_message_that_names_a_field_twice_is_not_of_that_kind() {
    let kind = |text: &str| match JsonRpcMessage::decode(text) {
        Some(JsonRpcMessage::Request(_)) => "request",
        Some(JsonRpcMessage::Response(_)) => "response",
        Some(JsonRpcMessage::Notification(_)) => "notification",
        None => "none",
    };
    assert_eq!(kind(r#"{"jsonrpc":"2.0","id":1,"id":2,"method":"m"}"#), "notification");
    assert_eq!(kind(r#"{"jsonrpc":"2.0","id":1,"method":"m","method":"m"}"#), "response");
    assert_eq!(kind(r#"{"jsonrpc":"2.0","jsonrpc":"2.0","id":1,"method":"m"}"#), "none");
    assert_eq!(kind(r#"{"jsonrpc":"2.0","id":1,"method":"m","x":1,"x":2}"#), "request");
    assert_eq!(kind(r#"{"jsonrpc":"2.0","id":1,"method":"m","result":1,"result":2}"#), "request");
    assert_eq!(kind(r#"{"jsonrpc":"2.0","id":1,"method":"m","params":{"a":1,"a":2}}"#), "request");
    assert_eq!(kind(r#"{"jsonrpc":"2.0","id":1,"result":1,"result":2}"#), "none");
    assert_eq!(kind(r#"{"jsonrpc":"2.0","id":1,"r\u0065sult":1,"result":2}"#), "none");
    let error = |fields: &str| format!(r#"{{"jsonrpc":"2.0","id":1,"error":{}}}"#, fields);
    assert_eq!(kind(&error(r#"{"code":1,"message":"m"}"#)), "response");
    assert_eq!(kind(&error(r#"{"code":1,"code":1,"message":"m"}"#)), "none");
    assert_eq!(kind(&error(r#"{"code":1,"message":"m","x":1,"x":1}"#)), "response");
    assert_eq!(kind(r#"["2.0",1,null,{"code":1,"message":"m"}]"#), "response");
    assert_eq!(kind(r#"["2.0",1,null,{"code":1,"code":1,"message":"m"}]"#), "none");
}

#[test]
fn an_error_response_reaches_the_other_side() {
    let message = JsonRpcMessage::Response(JsonRpcResponse {
        jsonrpc: "2.0".to_string(),
        id: 7,
        result: None,
        error: Some(JsonRpcError {
            code: -32600,
            message: "Invalid request: no".to_string(),
            data: None,
        }),
    });
    let text = message.encode().unwrap();
    assert_eq!(
        text,
        r#"{"jsonrpc":"2.0","id":7,"result":null,"error":{"code":-32600,"message":"Invalid request: no","data":null}}"#
    );
    match JsonRpcMessage::decode(&text) {
        Some(JsonRpcMessage::Response(response)) => {
            let error = response.error.unwrap();
            assert_eq!(error.code, -32600);
            assert_eq!(error.message, "Invalid request: no");
            assert!(error.data.is_none());
            assert!(response.result.is_none());
        }
        _ => panic!("Expected a response"),
    }
}

fn log_entry(params: &str) -> JsonRpcMessage {
    notification("notifications/message", Some(json(params)))
}

#[test]
fn log_entries_of_the_transport_stay_inside() {
    let own = || log_entry(r#"{"logger":"mcp_rs::transport::stdio","level":"info"}"#);
    assert!(should_skip_message(&own()));
    assert!(matches!(
        StdioTransport::write_command(&TransportCommand::SendMessage(own())),
        StdioStep::Skip
    ));
    assert!(brought(&own().encode().unwrap()).is_none());
    assert!(!should_skip_message(&log_entry(r#"{"logger":"app"}"#)));
    assert!(!should_skip_message(&log_entry(r#"{"logger":1}"#)));
    assert!(!should_skip_message(&notification("notifications/message", None)));
    assert!(!should_skip_message(&notification(
        "other",
        Some(json(r#"{"logger":"mcp_rs::transport"}"#))
    )));
    assert!(!should_skip_message(&create_test_request()));
    assert!(matches!(
        StdioTransport::write_command(&TransportCommand::Close),
        StdioStep::Stop
    ));

    assert!(StdioTransport::should_log_line("notifications/message"));
    assert!(StdioTransport::should_log_line("mcp_rs::transport"));
    assert!(!StdioTransport::should_log_line("mcp_rs::transport notifications/message"));
}

#[test]
fn log_entries_about_broadcasting_are_not_broadcast() {
    let skip = |params: &str| should_skip_broadcast(&log_entry(params));
    assert!(skip(r#"{"level":"debug","logger":"hyper::proto"}"#));
    assert!(skip(r#"{"level":"debug","logger":"mcp_rs::transport"}"#));
    assert!(skip(r#"{"level":"debug","data":{"message":"a Broadcasting SSE message: b"}}"#));
    assert!(skip(r#"{"level":"debug","data":{"message":"Failed to broadcast message"}}"#));
    assert!(!skip(r#"{"level":"info","logger":"hyper::proto"}"#));
    assert!(!skip(r#"{"logger":"hyper::proto"}"#));
    assert!(!skip(r#"{"level":"debug","logger":"my hyper::"}"#));
    assert!(!skip(r#"{"level":"debug","data":{"message":"hello"}}"#));
    assert!(!skip(r#"{"level":"debug"}"#));
    assert!(!should_skip_broadcast(&notification("notifications/message", None)));
    assert!(!should_skip_broadcast(&create_test_response()));

    assert!(matches!(
        SseServer::forward(TransportCommand::SendMessage(create_test_response())),
        SseServerStep::Broadcast(JsonRpcMessage::Response(_))
    ));
    assert!(matches!(
        SseServer::forward(TransportCommand::SendMessage(log_entry(
            r#"{"level":"debug","logger":"hyper::x"}"#
        ))),
        SseServerStep::Skip
    ));
    assert!(matches!(SseServer::forward(TransportCommand::Close), SseServerStep::Stop));
}

#[test]
fn a_client_of_the_server_has_its_own_endpoint() {
    let transport = SseTransport::new_server("127.0.0.1".to_string(), 3000, 100);
    assert_eq!(transport.host(), "127.0.0.1");
    assert_eq!(transport.port(), 3000);
    assert_eq!(transport.buffer_size(), 100);
    let mut server = match transport.start() {
        SseRole::Server(server) => server,
        SseRole::Client { .. } => panic!("Expected a server"),
    };
    let first = server.accept_client();
    let second = server.accept_client();
    assert_eq!(first.endpoint, "http://127.0.0.1:3000/message/0");
    assert_eq!(second.endpoint, "http://127.0.0.1:3000/message/1");
    assert_eq!((first.id, second.id), (0, 1));

    let event = SseServer::endpoint_event(&first.endpoint);
    assert_eq!(event.event, "endpoint");
    assert_eq!(event.data, r#"{"endpoint":"http://127.0.0.1:3000/message/0"}"#);
    assert_eq!(SseTransport::read_endpoint(&event.event, &event.data), Some(first.endpoint));
    assert_eq!(SseTransport::read_endpoint("message", &event.data), None);
    assert_eq!(SseTransport::read_endpoint("endpoint", "{}"), None);
    assert_eq!(SseTransport::read_endpoint("endpoint", "x"), None);
}

#[test]
fn an_endpoint_is_read_whatever_stands_beside_it() {
    let read = |data: &str| SseTransport::read_endpoint("endpoint", data);
    let e = Some("e".to_string());
    assert_eq!(read(r#" { "endpoint" : "e" } "#), e);
    assert_eq!(read(r#"{"endpoint":"\u0065"}"#), e);
    assert_eq!(read(r#"{"x":1,"x":2,"endpoint":"e"}"#), e);
    assert_eq!(read(r#"{"e\u006edpoint":"e"}"#), e);
    assert_eq!(read(r#"{"x":1e999,"endpoint":"e"}"#), e);
    assert_eq!(read(r#"["e"]"#), e);
    let mut deep = String::from(r#"{"x":"#);
    for _ in 0..500 {
        deep.push('[');
    }
    for _ in 0..500 {
        deep.push(']');
    }
    deep.push_str(r#","endpoint":"e"}"#);
    assert_eq!(read(&deep), e);
    assert_eq!(read(r#"{"endpoint":"e","endpoint":"e"}"#), None);
    assert_eq!(read(r#"{"endpoint":"e","e\u006edpoint":"e"}"#), None);
    assert_eq!(read(r#"{"endpoint":1}"#), None);
    assert_eq!(read(r#"{"endpoint":"e",}"#), None);
    assert_eq!(read(r#"{"endpoint":"e"} x"#), None);
    assert_eq!(read("{\"endpoint\":\"e\"}\u{a0}"), None);
    assert_eq!(read(r#"{"endpoint" "e"}"#), None);
    assert_eq!(read(r#"{endpoint:"e"}"#), None);
    assert_eq!(read(r#"{"endpoint":"e""#), None);
    assert_eq!(read(r#"["e","e"]"#), None);
    assert_eq!(read("{}"), None);
    assert_eq!(read("[]"), None);
    assert_eq!(read(r#""e""#), None);
}

#[test]
fn a_client_posts_what_the_server_takes_in() {
    let transport = SseTransport::new_client("localhost".to_string(), 3030, 32);
    match transport.start() {
        SseRole::Client { url } => assert_eq!(url, "http://localhost:3030/sse"),
        SseRole::Server(_) => panic!("Expected a client"),
    }
    assert_eq!(SseTransport::url("h", 1), "http://h:1/sse");
    let command = TransportCommand::SendMessage(create_test_request());
    let body = match SseTransport::post_command(&command) {
        SseClientStep::Post(body) => body,
        _ => panic!("Expected a post"),
    };
    assert!(matches!(
        SseServer::receive_post(&body),
        Some(TransportEvent::Message(JsonRpcMessage::Request(_)))
    ));
    assert!(SseServer::receive_post("{}").is_none());
    assert!(matches!(SseTransport::post_command(&TransportCommand::Close), SseClientStep::Stop));

    let event = SseServer::message_event(&create_test_response()).unwrap();
    assert_eq!(event.event, "message");
    assert!(matches!(
        SseTransport::read_event(&event.event, &event.data),
        Some(TransportEvent::Message(JsonRpcMessage::Response(_)))
    ));
    assert!(SseTransport::read_event("endpoint", &event.data).is_none());
    assert!(SseTransport::read_event("message", "x").is_none());
}

#[test]
fn standard_output_and_input_end_once() {
    let mut session = StdioSession::new();
    assert!(session.is_writing() && session.is_reading());
    let command = || Some(TransportCommand::SendMessage(create_test_request()));
    assert!(matches!(session.take(command()), StdioStep::Write(_)));
    assert!(session.finish().is_none());
    assert!(matches!(session.take(Some(TransportCommand::Close)), StdioStep::Stop));
    assert!(!session.is_writing());
    let line = create_test_response().encode().unwrap();
    assert!(matches!(session.read(Some(&line)), Some(TransportEvent::Message(_))));
    assert!(session.finish().is_none());
    assert!(session.read(Some("no message")).is_none());
    assert!(session.read(None).is_none());
    assert!(!session.is_reading());
    assert!(matches!(session.finish(), Some(TransportEvent::Closed)));
    assert!(session.finish().is_none());

    let mut session = StdioSession::new();
    assert!(session.read(None).is_none());
    session.lose_writer();
    assert!(matches!(session.finish(), Some(TransportEvent::Closed)));

    let mut session = StdioSession::new();
    assert!(matches!(session.take(None), StdioStep::Stop));
    assert!(!session.is_writing() && session.is_reading());
}

#[test]
fn a_client_over_http_posts_where_it_was_told_first() {
    let told = |endpoint: &str| SseServer::endpoint_event(endpoint).data;
    let message = create_test_response().encode().unwrap();
    let command = || Some(TransportCommand::SendMessage(create_test_request()));
    let mut session = SseSession::new();
    assert!(session.waits() && !session.is_open());
    assert!(session.hear("message", &message).is_none());
    assert!(session.hear("endpoint", "{}").is_none());
    assert!(session.waits());
    assert!(session.hear("endpoint", &told("http://h/1")).is_none());
    assert!(session.is_open() && !session.waits());
    assert!(session.hear("endpoint", &told("http://h/2")).is_none());
    match session.take(command()) {
        SseAct::Post { endpoint, body } => {
            assert_eq!(endpoint, "http://h/1");
            assert_eq!(body, create_test_request().encode().unwrap());
        }
        _ => panic!("Expected a post"),
    }
    assert!(matches!(session.hear("message", &message), Some(TransportEvent::Message(_))));
    assert!(session.lose().is_none());
    assert!(session.is_open());
    let act = session.take(Some(TransportCommand::Close));
    assert!(matches!(act, SseAct::Stop(TransportEvent::Closed)));
    assert!(!session.is_open() && !session.waits());
    assert!(session.lose().is_none());
}

#[test]
fn a_client_over_http_that_is_told_nowhere_to_post_fails() {
    let mut session = SseSession::new();
    assert!(matches!(
        session.lose(),
        Some(TransportEvent::Error(McpError::ConnectionClosed))
    ));
    assert!(session.lose().is_none());
    assert!(!session.is_open() && !session.waits());
    let told = SseServer::endpoint_event("http://h/1");
    assert!(session.hear(&told.event, &told.data).is_none());
    assert!(!session.is_open());

    let mut session = SseSession::new();
    session.hear(&told.event, &told.data);
    assert!(matches!(session.take(None), SseAct::Stop(TransportEvent::Closed)));
}

#[test]
fn messages_are_broadcast_in_turn_until_the_server_is_closed() {
    let debug = r#"{"level":"debug","logger":"hyper::x"}"#;
    let commands = vec![
        TransportCommand::SendMessage(notification("a", None)),
        TransportCommand::SendMessage(log_entry(debug)),
        TransportCommand::SendMessage(notification("b", None)),
        TransportCommand::Close,
        TransportCommand::SendMessage(notification("c", None)),
    ];
    let mut broadcast = Vec::new();
    for command in commands {
        match SseServer::forward(command) {
            SseServerStep::Broadcast(JsonRpcMessage::Notification(n)) => broadcast.push(n.method),
            SseServerStep::Broadcast(_) => panic!("Expected a notification"),
            SseServerStep::Skip => {}
            SseServerStep::Stop => break,
        }
    }
    assert_eq!(broadcast, vec!["a".to_string(), "b".to_string()]);
}

#[test]
fn a_number_that_is_none_is_not_sent() {
    let message = || request(1, "m", Json::Float("one".to_string()));
    assert!(message().encode().is_none());
    assert!(SseServer::message_event(&message()).is_none());
    assert!(matches!(
        SseTransport::post_command(&TransportCommand::SendMessage(message())),
        SseClientStep::Skip
    ));
    assert!(matches!(
        StdioTransport::write_command(&TransportCommand::SendMessage(message())),
        StdioStep::Skip
    ));
}

#[test]
fn an_endpoint_event_as_json() {
    let event = EndpointEvent { endpoint: "e".to_string() };
    assert_eq!(event.to_json().render().unwrap(), r#"{"endpoint":"e"}"#);
}
