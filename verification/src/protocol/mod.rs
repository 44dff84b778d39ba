//! The protocol: requests that are matched with their responses, and handlers for what comes in.
pub mod laws;
pub mod message;

pub use self::message::{JsonRpcError, JsonRpcNotification, JsonRpcRequest, JsonRpcResponse};
use self::message::{ErrorView, NotificationView, RequestView, ResponseView};
use crate::error;
use crate::error::{McpError, McpErrorView};
use crate::json;
use crate::json::{object, push_member, read_text, set_member, Json, JsonView};
use crate::registry::Registry;
use crate::transport;
use crate::transport::message::{JsonRpcMessage, MessageView};
use crate::transport::{CommandView, EventView, TransportCommand, TransportEvent};
use std::collections::HashMap;
use vstd::prelude::*;

verus! {

broadcast use vstd::std_specs::hash::group_hash_axioms;

/// How long a request waits for its response, in milliseconds, unless it says otherwise.
pub const DEFAULT_REQUEST_TIMEOUT_MS: u64 = 60000;

/// The version of the protocol.
pub fn default_protocol_version() -> (version: String)
    ensures
        version@ == "2024-11-05"@,
{
    "2024-11-05".to_owned()
}

/// How a protocol behaves.
#[derive(Debug, Clone, Copy)]
pub struct ProtocolOptions {
    /// Whether to enforce strict capability checking
    pub enforce_strict_capabilities: bool,
}

impl Default for ProtocolOptions {
    fn default() -> (options: ProtocolOptions)
        ensures
            !options.enforce_strict_capabilities,
    {
        ProtocolOptions { enforce_strict_capabilities: false }
    }
}

/// How far a request has come.
#[derive(Debug, Clone, Copy)]
pub struct Progress {
    pub progress: u64,
    pub total: Option<u64>,
}

/// How one request is made: who hears of its progress, and how long it waits.
pub struct RequestOptions<P> {
    pub on_progress: Option<P>,
    pub timeout_ms: Option<u64>,
}

impl<P> Default for RequestOptions<P> {
    fn default() -> (options: RequestOptions<P>)
        ensures
            options.on_progress is None,
            options.timeout_ms == Some(DEFAULT_REQUEST_TIMEOUT_MS),
    {
        RequestOptions { on_progress: None, timeout_ms: Some(DEFAULT_REQUEST_TIMEOUT_MS) }
    }
}

/// The options that count where none need be given.
pub open spec fn options_in_force<P>(options: Option<RequestOptions<P>>) -> (Option<P>, u64) {
    match options {
        Some(options) => (
            options.on_progress,
            match options.timeout_ms {
                Some(timeout_ms) => timeout_ms,
                None => DEFAULT_REQUEST_TIMEOUT_MS,
            },
        ),
        None => (None, DEFAULT_REQUEST_TIMEOUT_MS),
    }
}

/// The parameters of a request could not be turned into JSON.
#[derive(Debug, Clone, Copy)]
pub struct Unserializable;

/// What handles a notification: the protocol itself, or a handler that was registered.
#[derive(Debug)]
pub enum NotificationHandler<N> {
    /// The other side gave up on a request.
    Cancelled,
    Custom(N),
}

/// A notice that a request was given up.
#[derive(Debug)]
pub struct CancelledNotification {
    pub request_id: String,
    pub reason: String,
}

/// A notice of how far a request has come.
#[derive(Debug, Clone, Copy)]
pub struct ProgressNotification {
    pub progress: u64,
    pub total: Option<u64>,
    pub progress_token: u64,
}

/// A protocol before it is built.
pub struct ProtocolBuilder<R, N> {
    options: ProtocolOptions,
    request_handlers: Registry<R>,
    notification_handlers: Registry<NotificationHandler<N>>,
}

/// What a [`ProtocolBuilder`] holds.
#[verifier::ext_equal]
pub struct BuilderView<R, N> {
    pub strict: bool,
    pub request_handlers: Map<Seq<char>, R>,
    pub notification_handlers: Map<Seq<char>, NotificationHandler<N>>,
}

impl<R, N> View for ProtocolBuilder<R, N> {
    type V = BuilderView<R, N>;

    closed spec fn view(&self) -> BuilderView<R, N> {
        BuilderView {
            strict: self.options.enforce_strict_capabilities,
            request_handlers: self.request_handlers@,
            notification_handlers: self.notification_handlers@,
        }
    }
}

impl<R, N> ProtocolBuilder<R, N> {
    /// The tables of handlers are in order.
    pub closed spec fn wf(self) -> bool {
        self.request_handlers.wf() && self.notification_handlers.wf()
    }

    /// A protocol without handlers.
    pub fn new(options: Option<ProtocolOptions>) -> (builder: ProtocolBuilder<R, N>)
        ensures
            builder.wf(),
            builder@ == (BuilderView::<R, N> {
                strict: options is Some && options->0.enforce_strict_capabilities,
                request_handlers: Map::empty(),
                notification_handlers: Map::empty(),
            }),
    {
        let options: ProtocolOptions = match options {
            Some(options) => options,
            None => ProtocolOptions::default(),
        };
        ProtocolBuilder {
            options,
            request_handlers: Registry::new(),
            notification_handlers: Registry::new(),
        }
    }

    /// Registers a handler for the requests of a method.
    pub fn with_request_handler(self, method: &str, handler: R) -> (builder: ProtocolBuilder<R, N>)
        requires
            self.wf(),
        ensures
            builder.wf(),
            builder@ == (BuilderView {
                request_handlers: self@.request_handlers.insert(method@, handler),
                ..self@
            }),
    {
        let mut request_handlers: Registry<R> = self.request_handlers;
        request_handlers.insert(method, handler);
        ProtocolBuilder {
            options: self.options,
            request_handlers,
            notification_handlers: self.notification_handlers,
        }
    }

    /// Registers a handler for the notifications of a method.
    pub fn with_notification_handler(
        self,
        method: &str,
        handler: NotificationHandler<N>,
    ) -> (builder: ProtocolBuilder<R, N>)
        requires
            self.wf(),
        ensures
            builder.wf(),
            builder@ == (BuilderView {
                notification_handlers: self@.notification_handlers.insert(method@, handler),
                ..self@
            }),
    {
        let mut notification_handlers: Registry<NotificationHandler<N>> =
            self.notification_handlers;
        notification_handlers.insert(method, handler);
        ProtocolBuilder {
            options: self.options,
            request_handlers: self.request_handlers,
            notification_handlers,
        }
    }

    /// Registers the handlers that every protocol has.
    fn register_default_handlers(self) -> (builder: ProtocolBuilder<R, N>)
        requires
            self.wf(),
        ensures
            builder.wf(),
            builder@ == (BuilderView {
                notification_handlers: self@.notification_handlers.insert(
                    "cancelled"@,
                    NotificationHandler::Cancelled,
                ),
                ..self@
            }),
    {
        self.with_notification_handler("cancelled", NotificationHandler::Cancelled)
    }

    /// The protocol: not connected, no request made.
    pub fn build<W, P>(self) -> (protocol: Protocol<R, N, W, P>)
        requires
            self.wf(),
        ensures
            protocol.wf(),
            protocol@ == (ProtocolView::<R, N, W, P> {
                connected: false,
                strict: self@.strict,
                last_id: 0,
                request_handlers: self@.request_handlers,
                notification_handlers: self@.notification_handlers,
                response_handlers: Map::empty(),
                progress_handlers: Map::empty(),
            }),
    {
        let protocol: Protocol<R, N, W, P> = Protocol {
            connected: false,
            options: self.options,
            request_message_id: 0,
            request_handlers: self.request_handlers,
            notification_handlers: self.notification_handlers,
            response_handlers: HashMap::new(),
            progress_handlers: HashMap::new(),
        };
        assert(protocol@.response_handlers =~= Map::empty());
        assert(protocol@.progress_handlers =~= Map::empty());
        protocol
    }
}

/// One side of a connection. `R` handles requests, `N` notifications; `W` waits for a response,
/// `P` hears of progress.
pub struct Protocol<R, N, W, P> {
    connected: bool,
    options: ProtocolOptions,
    request_message_id: u64,
    request_handlers: Registry<R>,
    notification_handlers: Registry<NotificationHandler<N>>,
    response_handlers: HashMap<u64, W>,
    progress_handlers: HashMap<u64, P>,
}

/// What a [`Protocol`] holds.
#[verifier::ext_equal]
pub struct ProtocolView<R, N, W, P> {
    pub connected: bool,
    pub strict: bool,
    pub last_id: u64,
    pub request_handlers: Map<Seq<char>, R>,
    pub notification_handlers: Map<Seq<char>, NotificationHandler<N>>,
    pub response_handlers: Map<u64, W>,
    pub progress_handlers: Map<u64, P>,
}

impl<R, N, W, P> View for Protocol<R, N, W, P> {
    type V = ProtocolView<R, N, W, P>;

    closed spec fn view(&self) -> ProtocolView<R, N, W, P> {
        ProtocolView {
            connected: self.connected,
            strict: self.options.enforce_strict_capabilities,
            last_id: self.request_message_id,
            request_handlers: self.request_handlers@,
            notification_handlers: self.notification_handlers@,
            response_handlers: self.response_handlers@,
            progress_handlers: self.progress_handlers@,
        }
    }
}

/// `params` with the token under which progress is told, where they are an object.
pub open spec fn with_progress_token(params: JsonView, id: u64) -> JsonView {
    match params {
        JsonView::Object(members) => JsonView::Object(
            json::with_member(
                members,
                "_meta"@,
                JsonView::Object(Seq::empty().push(("progressToken"@, JsonView::PosInt(id)))),
            ),
        ),
        _ => params,
    }
}

/// The request as it is sent.
pub open spec fn request_message(
    id: u64,
    method: Seq<char>,
    params: JsonView,
    progress: bool,
) -> MessageView {
    MessageView::Request(
        RequestView {
            jsonrpc: "2.0"@,
            id,
            method,
            params: Some(
                if progress {
                    with_progress_token(params, id)
                } else {
                    params
                },
            ),
        },
    )
}

/// The notification as it is sent.
pub open spec fn notification_message(method: Seq<char>, params: Option<JsonView>) -> MessageView {
    MessageView::Notification(NotificationView { jsonrpc: "2.0"@, method, params })
}

/// The response to request `id` where its handler came to `result`.
pub open spec fn response_to_result(id: u64, result: JsonView) -> ResponseView {
    ResponseView { jsonrpc: "2.0"@, id, result: Some(result), error: None }
}

/// The response to request `id` where its handler failed with `error`.
pub open spec fn response_to_error(id: u64, error: McpErrorView) -> ResponseView {
    ResponseView {
        jsonrpc: "2.0"@,
        id,
        result: None,
        error: Some(
            ErrorView { code: error.code() as i32, message: error.message(), data: None },
        ),
    }
}

/// The response to request `id` where its handler came to `result`, or failed.
pub open spec fn answer(id: u64, result: Result<JsonView, McpErrorView>) -> ResponseView {
    match result {
        Ok(value) => response_to_result(id, value),
        Err(error) => response_to_error(id, error),
    }
}

impl<R, N, W, P> ProtocolView<R, N, W, P> {
    /// Whoever waits does so under the id of a request that was made.
    pub open spec fn ids_are_used(self) -> bool {
        &&& forall|id: u64| #[trigger]
            self.response_handlers.contains_key(id) ==> 1 <= id <= self.last_id
        &&& forall|id: u64| #[trigger]
            self.progress_handlers.contains_key(id) ==> 1 <= id <= self.last_id
    }

    /// The protocol after a request.
    pub open spec fn requested(self, on_progress: Option<P>, handler: W) -> ProtocolView<
        R,
        N,
        W,
        P,
    > {
        let id = (self.last_id + 1) as u64;
        ProtocolView {
            last_id: id,
            response_handlers: self.response_handlers.insert(id, handler),
            progress_handlers: match on_progress {
                Some(callback) => self.progress_handlers.insert(id, callback),
                None => self.progress_handlers,
            },
            ..self
        }
    }

    /// The protocol after an event: a response takes its waiter with it.
    pub open spec fn notified(self, event: Option<EventView>) -> ProtocolView<R, N, W, P> {
        match event {
            Some(EventView::Message(MessageView::Response(response))) => ProtocolView {
                response_handlers: self.response_handlers.remove(response.id),
                ..self
            },
            _ => self,
        }
    }

    /// What an event calls for.
    pub open spec fn reaction(self, event: Option<EventView>) -> IncomingView<W> {
        match event {
            Some(EventView::Message(MessageView::Request(request))) => {
                if self.request_handlers.contains_key(request.method) {
                    IncomingView::Request(request)
                } else {
                    IncomingView::Ignored
                }
            },
            Some(EventView::Message(MessageView::Response(response))) => {
                if self.response_handlers.contains_key(response.id) {
                    IncomingView::Response(self.response_handlers[response.id], response)
                } else {
                    IncomingView::Ignored
                }
            },
            Some(EventView::Message(MessageView::Notification(notification))) => {
                if self.notification_handlers.contains_key(notification.method) {
                    IncomingView::Notification(notification)
                } else {
                    IncomingView::Ignored
                }
            },
            Some(EventView::Error(_)) => IncomingView::Ignored,
            Some(EventView::Closed) | None => IncomingView::Stopped,
        }
    }

    /// The protocol after a request has come to its end.
    pub open spec fn finished(self, id: u64) -> ProtocolView<R, N, W, P> {
        ProtocolView { progress_handlers: self.progress_handlers.remove(id), ..self }
    }
}

/// A request that is on its way.
pub struct PendingRequest {
    /// The id under which the response will come.
    pub id: u64,
    /// What the transport is told.
    pub command: TransportCommand,
    /// How long to wait for the response, in milliseconds.
    pub timeout_ms: u64,
}

/// How the wait for a response ended.
pub enum RequestOutcome {
    Response(JsonRpcResponse),
    Failed(McpError),
    /// Whoever was to deliver the response is gone.
    Dropped,
    TimedOut,
}

/// What an event calls for.
pub enum Incoming<W> {
    /// Run the request's handler, and send the response.
    Request(JsonRpcRequest),
    /// Hand the response to its waiter.
    Response { handler: W, response: JsonRpcResponse },
    /// Run the notification's handler.
    Notification(JsonRpcNotification),
    /// Do nothing.
    Ignored,
    /// Listen no longer.
    Stopped,
}

/// What an [`Incoming`] says.
pub enum IncomingView<W> {
    Request(RequestView),
    Response(W, ResponseView),
    Notification(NotificationView),
    Ignored,
    Stopped,
}

impl<W> View for Incoming<W> {
    type V = IncomingView<W>;

    open spec fn view(&self) -> IncomingView<W> {
        match self {
            Incoming::Request(request) => IncomingView::Request(request@),
            Incoming::Response { handler, response } => IncomingView::Response(*handler, response@),
            Incoming::Notification(notification) => IncomingView::Notification(notification@),
            Incoming::Ignored => IncomingView::Ignored,
            Incoming::Stopped => IncomingView::Stopped,
        }
    }
}

/// What the value of a request says, or its failure.
pub open spec fn value_view(value: Result<Json, McpError>) -> Result<JsonView, McpErrorView> {
    match value {
        Ok(json) => Ok(json@),
        Err(error) => Err(error@),
    }
}

/// The value of a request, by how the wait ended: what the response has for a result, and null
/// where it has none.
pub open spec fn outcome_value(outcome: RequestOutcome) -> Result<JsonView, McpErrorView> {
    match outcome {
        RequestOutcome::Response(response) => Ok(json::or_null(response@.result)),
        RequestOutcome::Failed(error) => Err(error@),
        RequestOutcome::Dropped => Err(McpErrorView::InternalError),
        RequestOutcome::TimedOut => Err(McpErrorView::RequestTimeout),
    }
}

/// Adds the token under which progress is told, where the parameters are an object.
fn add_progress_token(params: Json, id: u64) -> (marked: Json)
    ensures
        marked@ == with_progress_token(params@, id),
{
    match params {
        Json::Object(members) => {
            proof {
                json::object_view(members);
            }
            let mut token: Vec<(String, Json)> = Vec::new();
            push_member(&mut token, "progressToken", Json::PosInt(id));
            assert(json::members_view(token@) =~= Seq::empty().push(
                ("progressToken"@, JsonView::PosInt(id)),
            ));
            let mut members: Vec<(String, Json)> = members;
            set_member(&mut members, "_meta", object(token));
            object(members)
        },
        other => other,
    }
}

impl<R, N, W, P> Protocol<R, N, W, P> {
    /// The tables are in order, and whoever waits does so under an id that was used.
    pub closed spec fn wf(self) -> bool {
        &&& self.request_handlers.wf()
        &&& self.notification_handlers.wf()
        &&& self@.ids_are_used()
    }

    /// Whoever waits does so under the id of a request that was made.
    pub proof fn waiters_are_known(self)
        requires
            self.wf(),
        ensures
            self@.ids_are_used(),
    {
    }

    /// A protocol with the handlers that every protocol has.
    pub fn builder(options: Option<ProtocolOptions>) -> (builder: ProtocolBuilder<R, N>)
        ensures
            builder.wf(),
            builder@ == (BuilderView::<R, N> {
                strict: options is Some && options->0.enforce_strict_capabilities,
                request_handlers: Map::empty(),
                notification_handlers: Map::empty().insert(
                    "cancelled"@,
                    NotificationHandler::Cancelled,
                ),
            }),
    {
        ProtocolBuilder::new(options).register_default_handlers()
    }

    /// Takes up a connection whose transport was started, or failed to.
    pub fn connect(&mut self, started: Result<(), McpError>) -> (connected: Result<(), McpError>)
        requires
            old(self).wf(),
        ensures
            final(self).wf(),
            error::outcome_view(connected) == error::outcome_view(started),
            final(self)@ == if started is Ok {
                ProtocolView { connected: true, ..old(self)@ }
            } else {
                old(self)@
            },
    {
        match started {
            Ok(()) => {
                self.connected = true;
                Ok(())
            },
            Err(error) => Err(error),
        }
    }

    /// Whether there is an id left for another request.
    pub fn can_request(&self) -> (can: bool)
        ensures
            can == (self@.last_id < u64::MAX),
    {
        self.request_message_id < u64::MAX
    }

    /// Makes a request: gives it the next id, notes who waits for its response and who hears of
    /// its progress, and says what to send.
    pub fn request(
        &mut self,
        method: &str,
        params: Result<Json, Unserializable>,
        options: Option<RequestOptions<P>>,
        handler: W,
    ) -> (pending: Result<PendingRequest, McpError>)
        requires
            old(self).wf(),
            old(self)@.last_id < u64::MAX,
        ensures
            final(self).wf(),
            final(self)@ == if params is Ok {
                old(self)@.requested(options_in_force(options).0, handler)
            } else {
                ProtocolView { last_id: (old(self)@.last_id + 1) as u64, ..old(self)@ }
            },
            match pending {
                Ok(pending) => {
                    &&& params is Ok && old(self)@.connected
                    &&& pending.id == old(self)@.last_id + 1
                    &&& pending.command@ == CommandView::SendMessage(
                        request_message(
                            pending.id,
                            method@,
                            params->Ok_0@,
                            options_in_force(options).0 is Some,
                        ),
                    )
                    &&& pending.timeout_ms == options_in_force(options).1
                },
                Err(error) => {
                    ||| params is Err && error@ == McpErrorView::InvalidParams
                    ||| params is Ok && !old(self)@.connected && error@
                        == McpErrorView::NotConnected
                },
            },
    {
        let options: RequestOptions<P> = match options {
            Some(options) => options,
            None => RequestOptions::default(),
        };
        if self.options.enforce_strict_capabilities {
            match self.assert_capability_for_method(method) {
                Ok(()) => {},
                Err(error) => {
                    return Err(error);
                },
            }
        }
        self.request_message_id = self.request_message_id + 1;
        let message_id: u64 = self.request_message_id;
        let mut params_value: Json = match params {
            Ok(params) => params,
            Err(_) => {
                return Err(McpError::InvalidParams);
            },
        };
        if let Some(progress_callback) = options.on_progress {
            self.progress_handlers.insert(message_id, progress_callback);
            params_value = add_progress_token(params_value, message_id);
        }
        let request: JsonRpcMessage = JsonRpcMessage::Request(
            JsonRpcRequest {
                jsonrpc: "2.0".to_owned(),
                id: message_id,
                method: method.to_owned(),
                params: Some(params_value),
            },
        );
        self.response_handlers.insert(message_id, handler);
        if !self.connected {
            return Err(McpError::NotConnected);
        }
        let timeout_ms: u64 = match options.timeout_ms {
            Some(timeout_ms) => timeout_ms,
            None => DEFAULT_REQUEST_TIMEOUT_MS,
        };
        let command: TransportCommand = TransportCommand::SendMessage(request);
        Ok(PendingRequest { id: message_id, command, timeout_ms })
    }

    /// Whether what was handed to the transport went out: a transport that takes nothing any more
    /// has closed the connection.
    pub fn confirm_sent(taken: bool) -> (sent: Result<(), McpError>)
        ensures
            taken ==> sent is Ok,
            !taken ==> (sent matches Err(error) && error@ == McpErrorView::ConnectionClosed),
    {
        if taken {
            Ok(())
        } else {
            Err(McpError::ConnectionClosed)
        }
    }

    /// Ends a request: nobody hears of its progress any more. What the response has for a result
    /// is the value, and null where it has none.
    pub fn finish_request(&mut self, id: u64, outcome: RequestOutcome) -> (value: Result<
        Json,
        McpError,
    >)
        requires
            old(self).wf(),
        ensures
            final(self).wf(),
            final(self)@ == old(self)@.finished(id),
            value_view(value) == outcome_value(outcome),
            outcome matches RequestOutcome::Response(response) ==> value == Ok::<Json, McpError>(
                match response.result {
                    Some(result) => result,
                    None => Json::Null,
                },
            ),
            outcome matches RequestOutcome::Failed(error) ==> value == Err::<Json, McpError>(error),
    {
        self.progress_handlers.remove(&id);
        assert(self@ == old(self)@.finished(id));
        assert(self@.ids_are_used());
        match outcome {
            RequestOutcome::Response(response) => Ok(
                match response.result {
                    Some(result) => result,
                    None => Json::Null,
                },
            ),
            RequestOutcome::Failed(error) => Err(error),
            RequestOutcome::Dropped => Err(McpError::InternalError),
            RequestOutcome::TimedOut => Err(McpError::RequestTimeout),
        }
    }

    /// Makes a notification, and says what to send.
    pub fn notification(&self, method: &str, params: Option<Json>) -> (command: Result<
        TransportCommand,
        McpError,
    >)
        ensures
            match command {
                Ok(command) => {
                    &&& self@.connected
                    &&& command@ == CommandView::SendMessage(
                        notification_message(method@, json::optional_view(params)),
                    )
                },
                Err(error) => !self@.connected && error@ == McpErrorView::NotConnected,
            },
    {
        match self.assert_notification_capability(method) {
            Ok(()) => {},
            Err(error) => {
                return Err(error);
            },
        }
        let notification: JsonRpcMessage = JsonRpcMessage::Notification(
            JsonRpcNotification { jsonrpc: "2.0".to_owned(), method: method.to_owned(), params },
        );
        if self.connected {
            Ok(TransportCommand::SendMessage(notification))
        } else {
            Err(McpError::NotConnected)
        }
    }

    /// Gives the connection up, and says what the transport is told, if there is one.
    pub fn close(&mut self) -> (command: Option<TransportCommand>)
        requires
            old(self).wf(),
        ensures
            final(self).wf(),
            final(self)@ == (ProtocolView { connected: false, ..old(self)@ }),
            command is Some == old(self)@.connected,
            command is Some ==> command->0@ == CommandView::Close,
    {
        let command: Option<TransportCommand> = if self.connected {
            Some(TransportCommand::Close)
        } else {
            None
        };
        self.connected = false;
        command
    }

    /// Registers a handler for the requests of a method.
    pub fn set_request_handler(&mut self, method: &str, handler: R)
        requires
            old(self).wf(),
        ensures
            final(self).wf(),
            final(self)@ == (ProtocolView {
                request_handlers: old(self)@.request_handlers.insert(method@, handler),
                ..old(self)@
            }),
    {
        let _ = self.assert_request_handler_capability(method);
        self.request_handlers.insert(method, handler);
        assert(self@.response_handlers == old(self)@.response_handlers);
        assert(self@.progress_handlers == old(self)@.progress_handlers);
        assert(self@.ids_are_used());
    }

    /// Registers a handler for the notifications of a method.
    pub fn set_notification_handler(&mut self, method: &str, handler: NotificationHandler<N>)
        requires
            old(self).wf(),
        ensures
            final(self).wf(),
            final(self)@ == (ProtocolView {
                notification_handlers: old(self)@.notification_handlers.insert(method@, handler),
                ..old(self)@
            }),
    {
        self.notification_handlers.insert(method, handler);
        assert(self@.response_handlers == old(self)@.response_handlers);
        assert(self@.progress_handlers == old(self)@.progress_handlers);
        assert(self@.ids_are_used());
    }

    /// The handler for the requests of a method.
    pub fn request_handler(&self, method: &str) -> (handler: Option<&R>)
        requires
            self.wf(),
        ensures
            match handler {
                Some(handler) => self@.request_handlers.contains_pair(method@, *handler),
                None => !self@.request_handlers.contains_key(method@),
            },
    {
        self.request_handlers.get(method)
    }

    /// The handler for the notifications of a method.
    pub fn notification_handler(&self, method: &str) -> (handler: Option<&NotificationHandler<N>>)
        requires
            self.wf(),
        ensures
            match handler {
                Some(handler) => self@.notification_handlers.contains_pair(method@, *handler),
                None => !self@.notification_handlers.contains_key(method@),
            },
    {
        self.notification_handlers.get(method)
    }

    /// Takes in an event of the transport, or its end, and says what it calls for.
    pub fn handle_event(&mut self, event: Option<TransportEvent>) -> (incoming: Incoming<W>)
        requires
            old(self).wf(),
        ensures
            final(self).wf(),
            final(self)@ == old(self)@.notified(transport::optional_event_view(event)),
            incoming@ == old(self)@.reaction(transport::optional_event_view(event)),
            event matches Some(TransportEvent::Message(JsonRpcMessage::Notification(notification)))
                ==> incoming == if old(self)@.notification_handlers.contains_key(
                notification.method@,
            ) {
                Incoming::<W>::Notification(notification)
            } else {
                Incoming::Ignored
            },
            event matches Some(TransportEvent::Message(JsonRpcMessage::Request(request)))
                ==> incoming == if old(self)@.request_handlers.contains_key(request.method@) {
                Incoming::<W>::Request(request)
            } else {
                Incoming::Ignored
            },
            event matches Some(TransportEvent::Message(JsonRpcMessage::Response(response)))
                ==> incoming == if old(self)@.response_handlers.contains_key(response.id) {
                (Incoming::Response {
                    handler: old(self)@.response_handlers[response.id],
                    response,
                })
            } else {
                Incoming::Ignored
            },
    {
        match event {
            Some(TransportEvent::Message(message)) => match message {
                JsonRpcMessage::Request(request) => {
                    if self.request_handlers.contains(request.method.as_str()) {
                        Incoming::Request(request)
                    } else {
                        Incoming::Ignored
                    }
                },
                JsonRpcMessage::Response(response) => {
                    let ghost waiting = self.response_handlers@;
                    match self.response_handlers.remove(&response.id) {
                        Some(handler) => Incoming::Response { handler, response },
                        None => {
                            assert(waiting.remove(response.id) =~= waiting);
                            Incoming::Ignored
                        },
                    }
                },
                JsonRpcMessage::Notification(notification) => {
                    if self.notification_handlers.contains(notification.method.as_str()) {
                        Incoming::Notification(notification)
                    } else {
                        Incoming::Ignored
                    }
                },
            },
            Some(TransportEvent::Error(_)) => Incoming::Ignored,
            Some(TransportEvent::Closed) => Incoming::Stopped,
            None => Incoming::Stopped,
        }
    }

    /// What to send back when the handler of request `id` came to `result`.
    pub fn respond(id: u64, result: Result<Json, McpError>) -> (command: TransportCommand)
        ensures
            command@ == CommandView::SendMessage(
                MessageView::Response(answer(id, value_view(result))),
            ),
    {
        let response: JsonRpcResponse = match result {
            Ok(value) => JsonRpcResponse {
                jsonrpc: "2.0".to_owned(),
                id,
                result: Some(value),
                error: None,
            },
            Err(error) => JsonRpcResponse {
                jsonrpc: "2.0".to_owned(),
                id,
                result: None,
                error: Some(
                    JsonRpcError { code: error.code(), message: error.message(), data: None },
                ),
            },
        };
        TransportCommand::SendMessage(JsonRpcMessage::Response(response))
    }

    /// Every request is allowed.
    fn assert_capability_for_method(&self, method: &str) -> (allowed: Result<(), McpError>)
        ensures
            allowed is Ok,
    {
        Ok(())
    }

    /// Every notification is allowed.
    fn assert_notification_capability(&self, method: &str) -> (allowed: Result<(), McpError>)
        ensures
            allowed is Ok,
    {
        Ok(())
    }

    /// Every request may be handled.
    fn assert_request_handler_capability(&self, method: &str) -> (allowed: Result<(), McpError>)
        ensures
            allowed is Ok,
    {
        Ok(())
    }
}

/// What a [`CancelledNotification`] says.
pub struct CancelledView {
    pub request_id: Seq<char>,
    pub reason: Seq<char>,
}

impl View for CancelledNotification {
    type V = CancelledView;

    open spec fn view(&self) -> CancelledView {
        CancelledView { request_id: self.request_id@, reason: self.reason@ }
    }
}

impl CancelledView {
    /// The notice that JSON holds.
    pub open spec fn of_json(json: JsonView) -> Option<CancelledView> {
        match (
            json::required_text(json.field("request_id"@, 0, 2)),
            json::required_text(json.field("reason"@, 1, 2)),
        ) {
            (Some(request_id), Some(reason)) => Some(CancelledView { request_id, reason }),
            _ => None,
        }
    }
}

impl CancelledNotification {
    /// The notice that JSON holds.
    pub fn from_json(json: &Json) -> (notice: Option<CancelledNotification>)
        ensures
            match notice {
                Some(notice) => CancelledView::of_json(json@) == Some(notice@),
                None => CancelledView::of_json(json@) is None,
            },
    {
        let request_id: Option<String> = read_text(json.field("request_id", 0, 2));
        let reason: Option<String> = read_text(json.field("reason", 1, 2));
        match (request_id, reason) {
            (Some(request_id), Some(reason)) => Some(CancelledNotification { request_id, reason }),
            _ => None,
        }
    }
}

/// Handles the notice that a request was given up: says which, and why. A notice without
/// parameters, or with others, is refused.
pub fn handle_cancelled(notification: &JsonRpcNotification) -> (notice: Result<
    CancelledNotification,
    McpError,
>)
    ensures
        match notice {
            Ok(notice) => {
                &&& notification@.params is Some
                &&& CancelledView::of_json(notification@.params->0) == Some(notice@)
            },
            Err(error) => {
                &&& error@ == McpErrorView::InvalidParams
                &&& notification@.params matches Some(params) ==> CancelledView::of_json(
                    params,
                ) is None
            },
        },
{
    match &notification.params {
        Some(params) => match CancelledNotification::from_json(params) {
            Some(notice) => Ok(notice),
            None => Err(McpError::InvalidParams),
        },
        None => Err(McpError::InvalidParams),
    }
}

} // verus!
