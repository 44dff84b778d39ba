//! A protocol over a transport that it owns: one that is started, used and closed.
use crate::error::McpError;
pub use crate::protocol::ProtocolOptions;
use crate::registry::Registry;
use std::collections::HashMap;
use vstd::prelude::*;

verus! {

broadcast use vstd::std_specs::hash::group_hash_axioms;

/// Default request timeout in milliseconds
pub const DEFAULT_REQUEST_TIMEOUT_MSEC: u64 = 60000;

/// What handles a request.
#[derive(Debug)]
pub enum RequestHandler<R> {
    /// Answers with the default result.
    Ping,
    Custom(R),
}

/// What handles a notification.
#[derive(Debug)]
pub enum NotificationHandler<N> {
    /// Takes note that a request was given up.
    Cancelled,
    /// Takes note of how far a request has come.
    Progress,
    Custom(N),
}

impl<R> RequestHandler<R> {
    /// What the protocol itself answers to a request, whatever the request: the default result to
    /// a ping. A handler that was registered answers for itself.
    pub fn answer<S: Default>(&self) -> (answer: Option<Result<S, McpError>>)
        ensures
            self is Custom ==> answer is None,
            self is Ping ==> (answer matches Some(Ok(result)) && call_ensures(
                S::default,
                (),
                result,
            )),
    {
        match self {
            RequestHandler::Ping => Some(Ok(S::default())),
            RequestHandler::Custom(_) => None,
        }
    }
}

impl<N> NotificationHandler<N> {
    /// What the protocol itself makes of a notification, whatever the notification: it takes note
    /// of it. A handler that was registered does what it does.
    pub fn take_note(&self) -> (taken: Option<Result<(), McpError>>)
        ensures
            self is Custom ==> taken is None,
            self !is Custom ==> (taken matches Some(Ok(()))),
    {
        match self {
            NotificationHandler::Cancelled => Some(Ok(())),
            NotificationHandler::Progress => Some(Ok(())),
            NotificationHandler::Custom(_) => None,
        }
    }
}

/// One side of a connection over a transport `T`. `R` handles requests, `N` notifications; `W`
/// waits for a response, `P` hears of progress, `C` hears that the connection is closed.
pub struct Protocol<R, N, T, W, P, C> {
    transport: Option<T>,
    request_message_id: i64,
    request_handlers: Registry<RequestHandler<R>>,
    notification_handlers: Registry<NotificationHandler<N>>,
    response_handlers: HashMap<i64, W>,
    progress_handlers: HashMap<i64, P>,
    options: ProtocolOptions,
    on_close: Option<C>,
}

/// What a [`Protocol`] holds.
#[verifier::ext_equal]
pub struct ProtocolView<R, N, T, W, P, C> {
    pub transport: Option<T>,
    pub last_id: i64,
    pub request_handlers: Map<Seq<char>, RequestHandler<R>>,
    pub notification_handlers: Map<Seq<char>, NotificationHandler<N>>,
    pub response_handlers: Map<i64, W>,
    pub progress_handlers: Map<i64, P>,
    pub strict: bool,
    pub on_close: Option<C>,
}

impl<R, N, T, W, P, C> View for Protocol<R, N, T, W, P, C> {
    type V = ProtocolView<R, N, T, W, P, C>;

    closed spec fn view(&self) -> ProtocolView<R, N, T, W, P, C> {
        ProtocolView {
            transport: self.transport,
            last_id: self.request_message_id,
            request_handlers: self.request_handlers@,
            notification_handlers: self.notification_handlers@,
            response_handlers: self.response_handlers@,
            progress_handlers: self.progress_handlers@,
            strict: self.options.enforce_strict_capabilities,
            on_close: self.on_close,
        }
    }
}

impl<R, N, T, W, P, C> Protocol<R, N, T, W, P, C> {
    /// The tables of handlers are in order.
    pub closed spec fn wf(self) -> bool {
        self.request_handlers.wf() && self.notification_handlers.wf()
    }

    /// A protocol without a transport, with the handlers that every protocol has.
    pub fn new(options: Option<ProtocolOptions>) -> (protocol: Protocol<R, N, T, W, P, C>)
        ensures
            protocol.wf(),
            protocol@ == (ProtocolView::<R, N, T, W, P, C> {
                transport: None,
                last_id: 0,
                request_handlers: Map::empty().insert("ping"@, RequestHandler::Ping),
                notification_handlers: Map::empty().insert(
                    "notifications/cancelled"@,
                    NotificationHandler::Cancelled,
                ).insert("notifications/progress"@, NotificationHandler::Progress),
                response_handlers: Map::empty(),
                progress_handlers: Map::empty(),
                strict: options is Some && options->0.enforce_strict_capabilities,
                on_close: None,
            }),
    {
        let options: ProtocolOptions = match options {
            Some(options) => options,
            None => ProtocolOptions::default(),
        };
        let mut protocol: Protocol<R, N, T, W, P, C> = Protocol {
            transport: None,
            request_message_id: 0,
            request_handlers: Registry::new(),
            notification_handlers: Registry::new(),
            response_handlers: HashMap::new(),
            progress_handlers: HashMap::new(),
            options,
            on_close: None,
        };
        protocol.set_notification_handler(
            "notifications/cancelled",
            NotificationHandler::Cancelled,
        );
        protocol.set_notification_handler("notifications/progress", NotificationHandler::Progress);
        protocol.set_request_handler("ping", RequestHandler::Ping);
        assert(protocol@.response_handlers =~= Map::empty());
        assert(protocol@.progress_handlers =~= Map::empty());
        protocol
    }

    /// Registers a handler for the requests of a method.
    fn set_request_handler(&mut self, method: &str, handler: RequestHandler<R>)
        requires
            old(self).wf(),
        ensures
            final(self).wf(),
            final(self)@ == (ProtocolView {
                request_handlers: old(self)@.request_handlers.insert(method@, handler),
                ..old(self)@
            }),
    {
        self.request_handlers.insert(method, handler);
    }

    /// Registers a handler for the notifications of a method.
    fn set_notification_handler(&mut self, method: &str, handler: NotificationHandler<N>)
        requires
            old(self).wf(),
        ensures
            final(self).wf(),
            final(self)@ == (ProtocolView {
                notification_handlers: old(self)@.notification_handlers.insert(method@, handler),
                ..old(self)@
            }),
    {
        self.notification_handlers.insert(method, handler);
    }

    /// The handler for the requests of a method.
    pub fn request_handler(&self, method: &str) -> (handler: Option<&RequestHandler<R>>)
        requires
            self.wf(),
        ensures
            match handler {
                Some(handler) => self@.request_handlers.contains_pair(method@, *handler),
                None => !self@.request_handlers.contains_key(method@),
            },
    {
        self.request_handlers.get(method)
    }

    /// The handler for the notifications of a method.
    pub fn notification_handler(&self, method: &str) -> (handler: Option<&NotificationHandler<N>>)
        requires
            self.wf(),
        ensures
            match handler {
                Some(handler) => self@.notification_handlers.contains_pair(method@, *handler),
                None => !self@.notification_handlers.contains_key(method@),
            },
    {
        self.notification_handlers.get(method)
    }

    /// Takes up a transport that was started, or failed to. It is the transport either way.
    pub fn connect<E>(&mut self, transport: T, started: Result<(), E>) -> (connected: Result<
        (),
        E,
    >)
        requires
            old(self).wf(),
        ensures
            final(self).wf(),
            final(self)@ == (ProtocolView { transport: Some(transport), ..old(self)@ }),
            connected == started,
    {
        self.transport = Some(transport);
        started
    }

    /// The transport, if there is one: it is what is closed.
    pub fn transport(&self) -> (transport: Option<&T>)
        ensures
            match transport {
                Some(transport) => self@.transport == Some(*transport),
                None => self@.transport is None,
            },
    {
        self.transport.as_ref()
    }

    /// After the transport was closed, or failed to: who is to hear of it, if there is someone.
    /// Nobody hears of a transport that did not close.
    pub fn close<E>(&self, closed: Result<(), E>) -> (told: Result<Option<&C>, E>)
        requires
            self@.transport is None ==> closed is Ok,
        ensures
            match told {
                Ok(on_close) => {
                    &&& closed is Ok
                    &&& match on_close {
                        Some(on_close) => self@.on_close == Some(*on_close),
                        None => self@.on_close is None,
                    }
                },
                Err(error) => closed == Err::<(), E>(error),
            },
    {
        match closed {
            Ok(()) => Ok(self.on_close.as_ref()),
            Err(error) => Err(error),
        }
    }
}

} // verus!
