use mcp_rs::error::McpError;
use mcp_rs::json::Json;
use mcp_rs::protocol::{
    default_protocol_version, Incoming, JsonRpcNotification, JsonRpcRequest, JsonRpcResponse,
    NotificationHandler, PendingRequest, Protocol, ProtocolBuilder, ProtocolOptions, RequestOptions, RequestOutcome,
    Unserializable, DEFAULT_REQUEST_TIMEOUT_MS,
};
use mcp_rs::transport::{JsonRpcMessage, TransportCommand, TransportEvent};

type Side = Protocol<u8, u8, &'static str, &'static str>;

fn json(text: &str) -> Json {
    Json::parse(text).unwrap()
}

fn connected() -> Side {
    let mut protocol: Side = Side::builder(None).build();
    protocol.connect(Ok(())).unwrap();
    protocol
}

fn sent(made: &PendingRequest) -> String {
    match &made.command {
        TransportCommand::SendMessage(message) => message.encode().unwrap(),
        TransportCommand::Close => panic!("Expected a message"),
    }
}

fn response(id: u64, result: Option<Json>) -> JsonRpcResponse {
    JsonRpcResponse { jsonrpc: "2.0".to_string(), id, result, error: None }
}

fn event(message: JsonRpcMessage) -> Option<TransportEvent> {
    Some(TransportEvent::Message(message))
}

#[test]
fn requests_have_different_ids() {
    let mut protocol = connected();
    let first = protocol.request("a", Ok(Json::Null), None, "first").unwrap();
    let second = protocol.request("b", Ok(json("{}")), None, "second").unwrap();
    assert_eq!((first.id, second.id), (1, 2));
    assert_eq!(sent(&first), r#"{"jsonrpc":"2.0","id":1,"method":"a","params":null}"#);
    assert_eq!(second.timeout_ms, DEFAULT_REQUEST_TIMEOUT_MS);
}

#[test]
fn a_response_reaches_whoever_waits_for_it_once() {
    let mut protocol = connected();
    let first = protocol.request("a", Ok(Json::Null), None, "first").unwrap();
    let second = protocol.request("b", Ok(Json::Null), None, "second").unwrap();
    for (id, waiter) in [(second.id, "second"), (first.id, "first")] {
        match protocol.handle_event(event(JsonRpcMessage::Response(response(id, None)))) {
            Incoming::Response { handler, response } => {
                assert_eq!(handler, waiter);
                assert_eq!(response.id, id);
            }
            _ => panic!("Expected a response"),
        }
    }
    let again = event(JsonRpcMessage::Response(response(first.id, None)));
    assert!(matches!(protocol.handle_event(again), Incoming::Ignored));
    let stray = event(JsonRpcMessage::Response(response(9, None)));
    assert!(matches!(protocol.handle_event(stray), Incoming::Ignored));
}

#[test]
fn progress_is_told_under_the_id_of_the_request() {
    let mut protocol = connected();
    let options = || Some(RequestOptions { on_progress: Some("heard"), timeout_ms: Some(5) });
    let made =
        protocol.request("a", Ok(json(r#"{"x":1,"_meta":0,"y":2}"#)), options(), "w").unwrap();
    assert_eq!(
        sent(&made),
        r#"{"jsonrpc":"2.0","id":1,"method":"a","params":{"x":1,"_meta":{"progressToken":1},"y":2}}"#
    );
    assert_eq!(made.timeout_ms, 5);
    let made = protocol.request("a", Ok(json("{}")), options(), "w").unwrap();
    assert_eq!(
        sent(&made),
        r#"{"jsonrpc":"2.0","id":2,"method":"a","params":{"_meta":{"progressToken":2}}}"#
    );
    let made = protocol.request("a", Ok(json("[1]")), options(), "w").unwrap();
    assert_eq!(sent(&made), r#"{"jsonrpc":"2.0","id":3,"method":"a","params":[1]}"#);
    let defaults: RequestOptions<&str> = RequestOptions::default();
    assert_eq!(defaults.timeout_ms, Some(60000));
    assert!(defaults.on_progress.is_none());
}

#[test]
fn a_request_comes_to_its_end() {
    let mut protocol = connected();
    let value = protocol
        .finish_request(1, RequestOutcome::Response(response(1, Some(Json::Bool(true)))))
        .unwrap();
    assert!(matches!(value, Json::Bool(true)));
    let value = protocol.finish_request(1, RequestOutcome::Response(response(1, None))).unwrap();
    assert!(matches!(value, Json::Null));
    assert!(matches!(
        protocol.finish_request(1, RequestOutcome::Failed(McpError::NotConnected)),
        Err(McpError::NotConnected)
    ));
    assert!(matches!(
        protocol.finish_request(1, RequestOutcome::Dropped),
        Err(McpError::InternalError)
    ));
    assert!(matches!(
        protocol.finish_request(1, RequestOutcome::TimedOut),
        Err(McpError::RequestTimeout)
    ));
}

#[test]
fn without_a_connection_nothing_is_sent() {
    let mut protocol: Side = Side::builder(None).build();
    assert!(matches!(
        protocol.request("a", Ok(Json::Null), None, "w"),
        Err(McpError::NotConnected)
    ));
    assert!(matches!(protocol.notification("a", None), Err(McpError::NotConnected)));
    assert!(protocol.close().is_none());
    assert!(matches!(
        protocol.connect(Err(McpError::ConnectionClosed)),
        Err(McpError::ConnectionClosed)
    ));
    assert!(protocol.close().is_none());
    protocol.connect(Ok(())).unwrap();
    // The first request used an id up.
    assert_eq!(protocol.request("a", Ok(Json::Null), None, "w").unwrap().id, 2);
    assert!(matches!(
        protocol.request("a", Err(Unserializable), None, "w"),
        Err(McpError::InvalidParams)
    ));
    assert_eq!(protocol.request("a", Ok(Json::Null), None, "w").unwrap().id, 4);
    assert!(matches!(protocol.close(), Some(TransportCommand::Close)));
    assert!(matches!(protocol.notification("a", None), Err(McpError::NotConnected)));
}

#[test]
fn what_was_handed_to_the_transport_went_out_or_not() {
    assert!(Side::confirm_sent(true).is_ok());
    assert!(matches!(Side::confirm_sent(false), Err(McpError::ConnectionClosed)));
}

#[test]
fn events_call_for_their_handlers() {
    let options = Some(ProtocolOptions { enforce_strict_capabilities: true });
    let builder: ProtocolBuilder<u8, u8> = ProtocolBuilder::new(options)
        .with_request_handler("r", 1)
        .with_request_handler("r", 2)
        .with_notification_handler("n", NotificationHandler::Custom(3));
    let mut protocol: Side = builder.build();
    assert_eq!(protocol.request_handler("r"), Some(&2));
    assert!(protocol.request_handler("n").is_none());
    assert!(protocol.notification_handler("cancelled").is_none());
    let notification = |method: &str| {
        event(JsonRpcMessage::Notification(JsonRpcNotification {
            jsonrpc: "2.0".to_string(),
            method: method.to_string(),
            params: None,
        }))
    };
    assert!(matches!(protocol.handle_event(notification("n")), Incoming::Notification(_)));
    assert!(matches!(protocol.handle_event(notification("m")), Incoming::Ignored));
    protocol.set_notification_handler("m", NotificationHandler::Custom(4));
    assert!(matches!(protocol.handle_event(notification("m")), Incoming::Notification(_)));
    protocol.set_request_handler("s", 5);
    assert_eq!(protocol.request_handler("s"), Some(&5));
    assert!(matches!(
        protocol.handle_event(Some(TransportEvent::Error(McpError::InternalError))),
        Incoming::Ignored
    ));
    assert!(matches!(protocol.handle_event(Some(TransportEvent::Closed)), Incoming::Stopped));
    assert!(matches!(protocol.handle_event(None), Incoming::Stopped));
}

#[test]
fn each_request_is_answered_once_in_turn() {
    let builder: ProtocolBuilder<u8, u8> = ProtocolBuilder::new(None)
        .with_request_handler("r", 1)
        .with_notification_handler("n", NotificationHandler::Custom(3));
    let mut protocol: Side = builder.build();
    let request = |id: u64, method: &str| {
        event(JsonRpcMessage::Request(JsonRpcRequest {
            jsonrpc: "2.0".to_string(),
            id,
            method: method.to_string(),
            params: None,
        }))
    };
    let notification = event(JsonRpcMessage::Notification(JsonRpcNotification {
        jsonrpc: "2.0".to_string(),
        method: "n".to_string(),
        params: None,
    }));
    let events = vec![
        request(7, "r"),
        request(8, "unknown"),
        notification,
        Some(TransportEvent::Error(McpError::InternalError)),
        request(3, "r"),
        event(JsonRpcMessage::Response(response(1, None))),
        request(7, "r"),
        Some(TransportEvent::Closed),
        request(9, "r"),
    ];
    let mut answered = Vec::new();
    for event in events {
        match protocol.handle_event(event) {
            Incoming::Request(request) => match Side::respond(request.id, Ok(Json::Null)) {
                TransportCommand::SendMessage(JsonRpcMessage::Response(response)) => {
                    answered.push(response.id)
                }
                _ => panic!("Expected a response"),
            },
            Incoming::Stopped => break,
            _ => {}
        }
    }
    assert_eq!(answered, vec![7, 3, 7]);
}

#[test]
fn a_notification_is_sent() {
    let protocol = connected();
    match protocol.notification("n", Some(json("[1]"))) {
        Ok(TransportCommand::SendMessage(message)) => assert_eq!(
            message.encode().unwrap(),
            r#"{"jsonrpc":"2.0","method":"n","params":[1]}"#
        ),
        _ => panic!("Expected a message"),
    }
    assert_eq!(default_protocol_version(), "2024-11-05");
    assert!(!ProtocolOptions::default().enforce_strict_capabilities);
}

#[test]
fn every_error_has_its_code_and_its_words() {
    let told = |error: McpError| (error.code(), error.message());
    assert_eq!(told(McpError::ParseError), (-32700, "Parse error".to_string()));
    assert_eq!(
        told(McpError::InvalidRequest("x".to_string())),
        (-32600, "Invalid request: x".to_string())
    );
    assert_eq!(told(McpError::InvalidParams), (-32602, "Invalid params".to_string()));
    assert_eq!(told(McpError::InternalError), (-32603, "Internal error".to_string()));
    assert_eq!(told(McpError::NotConnected), (-32000, "Not connected".to_string()));
    assert_eq!(told(McpError::ConnectionClosed), (-32000, "Connection closed".to_string()));
    assert_eq!(told(McpError::RequestTimeout), (-32000, "Request timeout".to_string()));
    assert_eq!(
        told(McpError::CapabilityNotSupported("tools".to_string())),
        (-32000, "Capability not supported: tools".to_string())
    );
    assert_eq!(
        told(McpError::Custom { code: 5, message: "x".to_string() }),
        (5, "x".to_string())
    );
}
