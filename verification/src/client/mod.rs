//! The client: it meets a server, and then asks what the server can do.
pub mod types;

pub use self::types::{
    ClientCapabilities, ClientInfo, InitializeParams, InitializeResult, RootsCapabilities,
    SamplingCapabilities, ServerCapabilities, ServerInfo,
};
use self::types::{InfoView, ParamsView, ResultView};
use crate::error;
use crate::error::{McpError, McpErrorView};
use crate::json;
use crate::json::{Json, JsonView};
use crate::logging;
use crate::logging::write_level;
use crate::prompts;
use crate::prompts::{GetPromptRequest, ListPromptsRequest};
use crate::protocol;
use crate::protocol::{
    default_protocol_version, Incoming, PendingRequest, Protocol, ProtocolOptions, ProtocolView,
    RequestOutcome, DEFAULT_REQUEST_TIMEOUT_MS,
};
use crate::resource;
use crate::resource::{ListResourcesRequest, ReadResourceRequest};
use crate::text::same_text;
use crate::tools;
use crate::tools::{CallToolRequest, ListToolsRequest};
use crate::transport;
use crate::transport::{CommandView, EventView, TransportCommand, TransportEvent};
use vstd::prelude::*;
use vstd::string::*;

verus! {

/// A client. `W` waits for a response.
pub struct Client<W> {
    protocol: Protocol<(), (), W, ()>,
    initialized: bool,
    server_capabilities: Option<ServerCapabilities>,
}

/// What a [`Client`] holds.
#[verifier::ext_equal]
pub struct ClientView<W> {
    pub protocol: ProtocolView<(), (), W, ()>,
    pub initialized: bool,
    pub server_capabilities: Option<ServerCapabilities>,
}

impl<W> View for Client<W> {
    type V = ClientView<W>;

    closed spec fn view(&self) -> ClientView<W> {
        ClientView {
            protocol: self.protocol@,
            initialized: self.initialized,
            server_capabilities: self.server_capabilities,
        }
    }
}

/// What a client says of itself when it meets a server.
pub open spec fn introduction(client_info: InfoView) -> ParamsView {
    ParamsView {
        protocol_version: "2024-11-05"@,
        capabilities: ClientCapabilities {
            roots: Some(RootsCapabilities { list_changed: true }),
            sampling: Some(SamplingCapabilities {  }),
        },
        client_info,
    }
}

impl<W> ClientView<W> {
    /// The client knows what the server can do once it has met it.
    pub open spec fn knows_its_server(self) -> bool {
        self.initialized ==> self.server_capabilities is Some
    }

    /// Whether the server has a capability, as far as the client knows.
    pub open spec fn has_capability(self, capability: Seq<char>) -> bool {
        self.server_capabilities is Some && self.server_capabilities->0.names(capability)
    }

    /// What comes of asserting that the server has a capability.
    pub open spec fn asserted(self, capability: Seq<char>) -> Result<(), McpErrorView> {
        match self.server_capabilities {
            Some(capabilities) => if capabilities.names(capability) {
                Ok(())
            } else {
                Err(McpErrorView::CapabilityNotSupported(capability))
            },
            None => Err(McpErrorView::InvalidRequest("No server capabilities"@)),
        }
    }

    /// Why a request that needs a capability is refused, if it is.
    pub open spec fn refusal(self, capability: Seq<char>) -> Option<McpErrorView> {
        if !self.initialized {
            Some(McpErrorView::InvalidRequest("Client not initialized"@))
        } else {
            match self.asserted(capability) {
                Ok(()) => None,
                Err(error) => Some(error),
            }
        }
    }

    /// A request was made: `after` is the client then, and `made` what is to be sent, if the
    /// client is connected.
    pub open spec fn request_made(
        self,
        method: Seq<char>,
        params: JsonView,
        handler: W,
        after: ClientView<W>,
        made: Result<PendingRequest, McpError>,
    ) -> bool {
        &&& after == ClientView { protocol: self.protocol.requested(None, handler), ..self }
        &&& match made {
            Ok(pending) => {
                &&& self.protocol.connected
                &&& pending.id == self.protocol.last_id + 1
                &&& pending.command@ == CommandView::SendMessage(
                    protocol::request_message(pending.id, method, params, false),
                )
                &&& pending.timeout_ms == DEFAULT_REQUEST_TIMEOUT_MS
            },
            Err(error) => !self.protocol.connected && error@ == McpErrorView::NotConnected,
        }
    }

    /// A request was made, or refused for want of a capability: then the client is as it was.
    pub open spec fn asked(
        self,
        capability: Seq<char>,
        method: Seq<char>,
        params: JsonView,
        handler: W,
        after: ClientView<W>,
        made: Result<PendingRequest, McpError>,
    ) -> bool {
        &&& after == self.step(ClientStep::Asked(capability, handler))
        &&& match self.refusal(capability) {
            Some(refusal) => after == self && (made matches Err(error) && error@ == refusal),
            None => self.request_made(method, params, handler, after, made),
        }
    }
}

/// What a server's introduction is worth: who it is and what it can do, or why it is no server
/// for this client.
pub open spec fn introduction_value(value: JsonView) -> Result<ResultView, McpErrorView> {
    match ResultView::of_json(value) {
        Some(result) => if result.protocol_version == "2024-11-05"@ {
            Ok(result)
        } else {
            Err(
                McpErrorView::InvalidRequest(
                    "Unsupported protocol version: "@ + result.protocol_version,
                ),
            )
        },
        None => Err(McpErrorView::InvalidParams),
    }
}

/// A response that brings no value: null, and nothing else.
pub fn expect_nothing(value: &Json) -> (nothing: Result<(), McpError>)
    ensures
        value@ is Null ==> nothing is Ok,
        value@ !is Null ==> (nothing matches Err(error) && error@ == McpErrorView::InvalidParams),
{
    match value {
        Json::Null => Ok(()),
        _ => Err(McpError::InvalidParams),
    }
}

impl<W> Client<W> {
    /// The protocol is in order, and a client that has met its server knows what it can do.
    pub closed spec fn wf(self) -> bool {
        self.protocol.wf() && self@.knows_its_server()
    }

    /// Whoever waits does so under the id of a request that was made, and a client that has met its
    /// server knows what it can do.
    pub proof fn is_in_order(self)
        requires
            self.wf(),
        ensures
            self@.protocol.ids_are_used(),
            self@.knows_its_server(),
    {
        self.protocol.waiters_are_known();
    }

    /// A client that is not connected and has met no server.
    pub fn new() -> (client: Client<W>)
        ensures
            client.wf(),
            client@.protocol.connected == false,
            client@.protocol.strict,
            client@.protocol.last_id == 0,
            client@.protocol.request_handlers == Map::<Seq<char>, ()>::empty(),
            client@.protocol.notification_handlers == Map::<
                Seq<char>,
                protocol::NotificationHandler<()>,
            >::empty().insert("cancelled"@, protocol::NotificationHandler::Cancelled),
            client@.protocol.response_handlers == Map::<u64, W>::empty(),
            client@.protocol.progress_handlers == Map::<u64, ()>::empty(),
            !client@.initialized,
            client@.server_capabilities is None,
    {
        Client {
            protocol: Protocol::<(), (), W, ()>::builder(
                Some(ProtocolOptions { enforce_strict_capabilities: true }),
            ).build(),
            initialized: false,
            server_capabilities: None,
        }
    }

    /// Takes up a connection whose transport was started, or failed to.
    pub fn connect(&mut self, started: Result<(), McpError>) -> (connected: Result<(), McpError>)
        requires
            old(self).wf(),
        ensures
            final(self).wf(),
            error::outcome_view(connected) == error::outcome_view(started),
            final(self)@ == if started is Ok {
                old(self)@.step(ClientStep::Connected)
            } else {
                old(self)@
            },
    {
        self.protocol.connect(started)
    }

    /// Takes in an event of the transport, or its end, and says what it calls for.
    pub fn handle_event(&mut self, event: Option<TransportEvent>) -> (incoming: Incoming<W>)
        requires
            old(self).wf(),
        ensures
            final(self).wf(),
            final(self)@ == old(self)@.step(
                ClientStep::Event(transport::optional_event_view(event)),
            ),
            incoming@ == old(self)@.protocol.reaction(transport::optional_event_view(event)),
    {
        self.protocol.handle_event(event)
    }

    /// Ends a request. What the response has for a result is the value, and null where it has
    /// none.
    pub fn finish_request(&mut self, id: u64, outcome: RequestOutcome) -> (value: Result<
        Json,
        McpError,
    >)
        requires
            old(self).wf(),
        ensures
            final(self).wf(),
            final(self)@ == old(self)@.step(ClientStep::Finished(id)),
            protocol::value_view(value) == protocol::outcome_value(outcome),
    {
        self.protocol.finish_request(id, outcome)
    }

    /// Whether there is an id left for another request.
    pub fn can_request(&self) -> (can: bool)
        ensures
            can == (self@.protocol.last_id < u64::MAX),
    {
        self.protocol.can_request()
    }

    /// Makes the client known to the server. A client does so once.
    pub fn initialize(&mut self, client_info: ClientInfo, handler: W) -> (made: Result<
        PendingRequest,
        McpError,
    >)
        requires
            old(self).wf(),
            old(self)@.protocol.last_id < u64::MAX,
        ensures
            final(self).wf(),
            final(self)@ == old(self)@.step(ClientStep::Introduced(handler)),
            if old(self)@.initialized {
                &&& final(self)@ == old(self)@
                &&& made matches Err(error)
                &&& error@ == McpErrorView::InvalidRequest("Client already initialized"@)
            } else {
                old(self)@.request_made(
                    "initialize"@,
                    introduction(client_info@).json(),
                    handler,
                    final(self)@,
                    made,
                )
            },
    {
        if self.initialized {
            return Err(McpError::InvalidRequest("Client already initialized".to_owned()));
        }
        let params: InitializeParams = InitializeParams {
            protocol_version: default_protocol_version(),
            capabilities: ClientCapabilities {
                roots: Some(RootsCapabilities { list_changed: true }),
                sampling: Some(SamplingCapabilities {  }),
            },
            client_info,
        };
        self.protocol.request("initialize", Ok(params.to_json()), None, handler)
    }

    /// Takes in what the server says of itself: notes what it can do, and says what to tell it.
    /// The client has met the server once that is told.
    pub fn accept_initialize(&mut self, value: &Json) -> (accepted: Result<
        (InitializeResult, TransportCommand),
        McpError,
    >)
        requires
            old(self).wf(),
            !old(self)@.initialized,
        ensures
            final(self).wf(),
            final(self)@ == old(self)@.step(ClientStep::Accepted(value@)),
            match introduction_value(value@) {
                Ok(result) => {
                    &&& final(self)@ == (ClientView {
                        server_capabilities: Some(result.capabilities),
                        ..old(self)@
                    })
                    &&& match accepted {
                        Ok((told, command)) => {
                            &&& old(self)@.protocol.connected
                            &&& told@ == result
                            &&& command@ == CommandView::SendMessage(
                                protocol::notification_message("initialized"@, None),
                            )
                        },
                        Err(error) => !old(self)@.protocol.connected && error@
                            == McpErrorView::NotConnected,
                    }
                },
                Err(refusal) => {
                    &&& final(self)@ == old(self)@
                    &&& accepted matches Err(error)
                    &&& error@ == refusal
                },
            },
    {
        let result: InitializeResult = match InitializeResult::from_json(value) {
            Some(result) => result,
            None => {
                return Err(McpError::InvalidParams);
            },
        };
        if !same_text(result.protocol_version.as_str(), "2024-11-05") {
            return Err(
                McpError::InvalidRequest(
                    "Unsupported protocol version: ".to_owned().concat(
                        result.protocol_version.as_str(),
                    ),
                ),
            );
        }
        self.server_capabilities = Some(result.capabilities);
        match self.protocol.notification("initialized", None) {
            Ok(command) => Ok((result, command)),
            Err(error) => Err(error),
        }
    }

    /// The client has met the server if it could tell it so.
    pub fn confirm_initialized(&mut self, taken: bool) -> (confirmed: Result<(), McpError>)
        requires
            old(self).wf(),
            !old(self)@.initialized,
            old(self)@.server_capabilities is Some,
        ensures
            final(self).wf(),
            final(self)@ == old(self)@.step(ClientStep::Confirmed(taken)),
            taken ==> confirmed is Ok,
            !taken ==> (confirmed matches Err(error) && error@ == McpErrorView::ConnectionClosed),
    {
        match Protocol::<(), (), W, ()>::confirm_sent(taken) {
            Ok(()) => {
                self.initialized = true;
                Ok(())
            },
            Err(error) => Err(error),
        }
    }

    /// Makes a request that needs a capability.
    fn ask(
        &mut self,
        capability: &str,
        method: &str,
        params: Json,
        handler: W,
    ) -> (made: Result<PendingRequest, McpError>)
        requires
            old(self).wf(),
            old(self)@.protocol.last_id < u64::MAX,
        ensures
            final(self).wf(),
            old(self)@.asked(capability@, method@, params@, handler, final(self)@, made),
    {
        match self.assert_initialized() {
            Ok(()) => {},
            Err(error) => {
                return Err(error);
            },
        }
        match self.assert_capability(capability) {
            Ok(()) => {},
            Err(error) => {
                return Err(error);
            },
        }
        self.protocol.request(method, Ok(params), None, handler)
    }

    /// Asks for the list of resources, from a cursor on.
    pub fn list_resources(&mut self, cursor: Option<String>, handler: W) -> (made: Result<
        PendingRequest,
        McpError,
    >)
        requires
            old(self).wf(),
            old(self)@.protocol.last_id < u64::MAX,
        ensures
            final(self).wf(),
            old(self)@.asked(
                "resources"@,
                "resources/list"@,
                resource::cursor_json(json::text_view(cursor)),
                handler,
                final(self)@,
                made,
            ),
    {
        let params: Json = ListResourcesRequest { cursor }.to_json();
        self.ask("resources", "resources/list", params, handler)
    }

    /// Asks for a resource.
    pub fn read_resource(&mut self, uri: String, handler: W) -> (made: Result<
        PendingRequest,
        McpError,
    >)
        requires
            old(self).wf(),
            old(self)@.protocol.last_id < u64::MAX,
        ensures
            final(self).wf(),
            old(self)@.asked(
                "resources"@,
                "resources/read"@,
                resource::uri_json(uri@),
                handler,
                final(self)@,
                made,
            ),
    {
        let params: Json = ReadResourceRequest { uri }.to_json();
        self.ask("resources", "resources/read", params, handler)
    }

    /// Asks to be told when a resource changes.
    pub fn subscribe_to_resource(&mut self, uri: String, handler: W) -> (made: Result<
        PendingRequest,
        McpError,
    >)
        requires
            old(self).wf(),
            old(self)@.protocol.last_id < u64::MAX,
        ensures
            final(self).wf(),
            old(self)@.asked(
                "resources"@,
                "resources/subscribe"@,
                JsonView::Str(uri@),
                handler,
                final(self)@,
                made,
            ),
    {
        self.ask("resources", "resources/subscribe", Json::string(uri.as_str()), handler)
    }

    /// Asks for the list of prompts, from a cursor on.
    pub fn list_prompts(&mut self, cursor: Option<String>, handler: W) -> (made: Result<
        PendingRequest,
        McpError,
    >)
        requires
            old(self).wf(),
            old(self)@.protocol.last_id < u64::MAX,
        ensures
            final(self).wf(),
            old(self)@.asked(
                "prompts"@,
                "prompts/list"@,
                resource::cursor_json(json::text_view(cursor)),
                handler,
                final(self)@,
                made,
            ),
    {
        let params: Json = ListPromptsRequest { cursor }.to_json();
        self.ask("prompts", "prompts/list", params, handler)
    }

    /// Asks for a prompt.
    pub fn get_prompt(&mut self, name: String, arguments: Option<Json>, handler: W) -> (made:
        Result<PendingRequest, McpError>)
        requires
            old(self).wf(),
            old(self)@.protocol.last_id < u64::MAX,
        ensures
            final(self).wf(),
            old(self)@.asked(
                "prompts"@,
                "prompts/get"@,
                prompts::prompt_json(name@, json::optional_view(arguments)),
                handler,
                final(self)@,
                made,
            ),
    {
        let params: Json = GetPromptRequest { name, arguments }.to_json();
        self.ask("prompts", "prompts/get", params, handler)
    }

    /// Asks for the list of tools, from a cursor on.
    pub fn list_tools(&mut self, cursor: Option<String>, handler: W) -> (made: Result<
        PendingRequest,
        McpError,
    >)
        requires
            old(self).wf(),
            old(self)@.protocol.last_id < u64::MAX,
        ensures
            final(self).wf(),
            old(self)@.asked(
                "tools"@,
                "tools/list"@,
                resource::cursor_json(json::text_view(cursor)),
                handler,
                final(self)@,
                made,
            ),
    {
        let params: Json = ListToolsRequest { cursor }.to_json();
        self.ask("tools", "tools/list", params, handler)
    }

    /// Asks for a tool to be run.
    pub fn call_tool(&mut self, name: String, arguments: Json, handler: W) -> (made: Result<
        PendingRequest,
        McpError,
    >)
        requires
            old(self).wf(),
            old(self)@.protocol.last_id < u64::MAX,
        ensures
            final(self).wf(),
            old(self)@.asked(
                "tools"@,
                "tools/call"@,
                tools::call_json(name@, arguments@),
                handler,
                final(self)@,
                made,
            ),
    {
        let params: Json = CallToolRequest { name, arguments }.to_json();
        self.ask("tools", "tools/call", params, handler)
    }

    /// Asks for a log level.
    pub fn set_log_level(&mut self, level: String, handler: W) -> (made: Result<
        PendingRequest,
        McpError,
    >)
        requires
            old(self).wf(),
            old(self)@.protocol.last_id < u64::MAX,
        ensures
            final(self).wf(),
            old(self)@.asked(
                "logging"@,
                "logging/setLevel"@,
                logging::level_json(level@),
                handler,
                final(self)@,
                made,
            ),
    {
        self.ask("logging", "logging/setLevel", write_level(level.as_str()), handler)
    }

    /// Gives the connection up, and says what the transport is told, if there is one. Only a
    /// client that has met its server does so.
    pub fn shutdown(&mut self) -> (command: Result<Option<TransportCommand>, McpError>)
        requires
            old(self).wf(),
        ensures
            final(self).wf(),
            final(self)@ == old(self)@.step(ClientStep::ShutDown),
            match command {
                Ok(command) => {
                    &&& old(self)@.initialized
                    &&& final(self)@ == (ClientView {
                        protocol: ProtocolView { connected: false, ..old(self)@.protocol },
                        ..old(self)@
                    })
                    &&& command is Some == old(self)@.protocol.connected
                    &&& command is Some ==> command->0@ == CommandView::Close
                },
                Err(error) => {
                    &&& !old(self)@.initialized
                    &&& final(self)@ == old(self)@
                    &&& error@ == McpErrorView::InvalidRequest("Client not initialized"@)
                },
            },
    {
        if !self.initialized {
            return Err(McpError::InvalidRequest("Client not initialized".to_owned()));
        }
        Ok(self.protocol.close())
    }

    /// Refuses unless the client has met its server.
    pub fn assert_initialized(&self) -> (met: Result<(), McpError>)
        ensures
            self@.initialized ==> met is Ok,
            !self@.initialized ==> (met matches Err(error) && error@
                == McpErrorView::InvalidRequest("Client not initialized"@)),
    {
        if !self.initialized {
            return Err(McpError::InvalidRequest("Client not initialized".to_owned()));
        }
        Ok(())
    }

    /// Refuses unless the server has a capability.
    pub fn assert_capability(&self, capability: &str) -> (supported: Result<(), McpError>)
        ensures
            error::outcome_view(supported) == self@.asserted(capability@),
    {
        match &self.server_capabilities {
            Some(capabilities) => if capabilities.has(capability) {
                Ok(())
            } else {
                Err(McpError::CapabilityNotSupported(capability.to_owned()))
            },
            None => Err(McpError::InvalidRequest("No server capabilities".to_owned())),
        }
    }

    /// What the server can do, as far as the client knows.
    pub fn get_server_capabilities(&self) -> (capabilities: Option<ServerCapabilities>)
        ensures
            capabilities == self@.server_capabilities,
    {
        self.server_capabilities
    }

    /// Whether the server has a capability, as far as the client knows.
    pub fn has_capability(&self, capability: &str) -> (has: bool)
        ensures
            has == self@.has_capability(capability@),
    {
        match self.get_server_capabilities() {
            Some(capabilities) => capabilities.has(capability),
            None => false,
        }
    }

    /// A client that has met its server knows what the server can do: no request of such a client
    /// is refused for want of that knowledge.
    pub proof fn met_server_is_known(self, capability: Seq<char>)
        requires
            self.wf(),
            self@.initialized,
        ensures
            self@.server_capabilities is Some,
            self@.refusal(capability) == if self@.has_capability(capability) {
                None
            } else {
                Some(McpErrorView::CapabilityNotSupported(capability))
            },
    {
    }
}

/// A client that has not met its server asks nothing: every request is refused alike, and leaves
/// no trace.
pub proof fn nothing_is_asked_before_the_meeting<W>(
    client: ClientView<W>,
    capability: Seq<char>,
    method: Seq<char>,
    params: JsonView,
    handler: W,
    after: ClientView<W>,
    made: Result<PendingRequest, McpError>,
)
    requires
        !client.initialized,
        client.asked(capability, method, params, handler, after, made),
    ensures
        after == client,
        made is Err,
        made->Err_0@ == McpErrorView::InvalidRequest("Client not initialized"@),
{
}

/// A capability is there exactly where asserting it succeeds, whatever its name and whatever the
/// client knows. So none is there before the server has told of any, and none under any name but
/// the four.
pub proof fn capability_is_there_where_asserting_it_succeeds<W>(
    client: ClientView<W>,
    capability: Seq<char>,
)
    ensures
        client.has_capability(capability) == (client.asserted(capability) is Ok),
        client.server_capabilities is None ==> !client.has_capability(capability),
        capability != "logging"@ && capability != "prompts"@ && capability != "resources"@
            && capability != "tools"@ ==> !client.has_capability(capability),
{
}

/// One thing that happens to a client.
pub enum ClientStep<W> {
    /// The connection is taken up.
    Connected,
    /// The transport tells something, or is gone.
    Event(Option<EventView>),
    /// A request comes to its end.
    Finished(u64),
    /// The client makes itself known.
    Introduced(W),
    /// The server tells who it is.
    Accepted(JsonView),
    /// The server is told that it was met, or cannot be told. It is with this that
    /// making the client known has succeeded.
    Confirmed(bool),
    /// Something is asked that needs a capability.
    Asked(Seq<char>, W),
    /// The connection is given up.
    ShutDown,
}

impl<W> ClientView<W> {
    /// This may happen now: a server is taken in only by a client that is about to meet it.
    pub open spec fn may(self, step: ClientStep<W>) -> bool {
        match step {
            ClientStep::Introduced(_) | ClientStep::Asked(_, _) => self.protocol.last_id
                < u64::MAX,
            ClientStep::Accepted(_) => !self.initialized,
            ClientStep::Confirmed(_) => !self.initialized && self.server_capabilities is Some,
            _ => true,
        }
    }

    /// The client after one thing happened.
    pub open spec fn step(self, step: ClientStep<W>) -> ClientView<W> {
        match step {
            ClientStep::Connected => ClientView {
                protocol: ProtocolView { connected: true, ..self.protocol },
                ..self
            },
            ClientStep::Event(event) => ClientView {
                protocol: self.protocol.notified(event),
                ..self
            },
            ClientStep::Finished(id) => ClientView { protocol: self.protocol.finished(id), ..self },
            ClientStep::Introduced(handler) => if self.initialized {
                self
            } else {
                ClientView { protocol: self.protocol.requested(None, handler), ..self }
            },
            ClientStep::Accepted(value) => match introduction_value(value) {
                Ok(result) => ClientView {
                    server_capabilities: Some(result.capabilities),
                    ..self
                },
                Err(_) => self,
            },
            ClientStep::Confirmed(taken) => ClientView { initialized: taken, ..self },
            ClientStep::Asked(capability, handler) => if self.refusal(capability) is Some {
                self
            } else {
                ClientView { protocol: self.protocol.requested(None, handler), ..self }
            },
            ClientStep::ShutDown => if self.initialized {
                ClientView {
                    protocol: ProtocolView { connected: false, ..self.protocol },
                    ..self
                }
            } else {
                self
            },
        }
    }

    /// The client after several things happened, one after the other.
    pub open spec fn run(self, steps: Seq<ClientStep<W>>) -> ClientView<W>
        decreases steps.len(),
    {
        if steps.len() == 0 {
            self
        } else {
            self.run(steps.drop_last()).step(steps.last())
        }
    }

    /// These things may happen, one after the other.
    pub open spec fn may_run(self, steps: Seq<ClientStep<W>>) -> bool
        decreases steps.len(),
    {
        if steps.len() == 0 {
            true
        } else {
            self.may_run(steps.drop_last()) && self.run(steps.drop_last()).may(steps.last())
        }
    }
}

/// A client that has met its server has met it for good, and never knows another: whatever
/// happens, and also after the connection was given up, making it known again is refused and
/// changes nothing.
pub proof fn server_is_met_for_good<W>(client: ClientView<W>, steps: Seq<ClientStep<W>>, again: W)
    requires
        client.initialized,
        client.may_run(steps),
    ensures
        client.run(steps).initialized,
        client.run(steps).server_capabilities == client.server_capabilities,
        client.run(steps).step(ClientStep::Introduced(again)) == client.run(steps),
    decreases steps.len(),
{
    if steps.len() > 0 {
        server_is_met_for_good(client, steps.drop_last(), again);
    }
}

/// What happened up to some point may happen up to that point.
proof fn beginning_may_run<W>(client: ClientView<W>, steps: Seq<ClientStep<W>>, n: int)
    requires
        client.may_run(steps),
        0 <= n <= steps.len(),
    ensures
        client.may_run(steps.take(n)),
        n < steps.len() ==> client.run(steps.take(n)).may(steps[n]),
    decreases steps.len(),
{
    if n == steps.len() {
        assert(steps.take(n) =~= steps);
    } else {
        let before = steps.drop_last();
        if n == before.len() {
            assert(steps.take(n) =~= before);
        } else {
            beginning_may_run(client, before, n);
            assert(before.take(n) =~= steps.take(n));
        }
    }
}

/// The client still has met its server after anything that follows the meeting.
proof fn met_after_meeting<W>(client: ClientView<W>, steps: Seq<ClientStep<W>>, i: int, n: int)
    requires
        client.may_run(steps),
        0 <= i < n <= steps.len(),
        steps[i] == ClientStep::<W>::Confirmed(true),
    ensures
        client.run(steps.take(n)).initialized,
    decreases n,
{
    let before = steps.take(n - 1);
    assert(steps.take(n).drop_last() =~= before);
    assert(steps.take(n).last() == steps[n - 1]);
    if i < n - 1 {
        met_after_meeting(client, steps, i, n - 1);
        beginning_may_run(client, steps, n - 1);
    }
}

/// Making a client known succeeds at most once: after it did, no course of calls, with or without
/// giving the connection up, leads to its succeeding again.
pub proof fn initialize_succeeds_at_most_once<W>(
    client: ClientView<W>,
    steps: Seq<ClientStep<W>>,
    i: int,
    j: int,
)
    requires
        client.may_run(steps),
        0 <= i < j < steps.len(),
        steps[i] == ClientStep::<W>::Confirmed(true),
    ensures
        !(steps[j] is Confirmed),
        !(steps[j] is Accepted),
        client.run(steps.take(j)).initialized,
{
    met_after_meeting(client, steps, i, j);
    beginning_may_run(client, steps, j);
}

/// A request is refused exactly where the client has not met its server or the server has not the
/// capability.
pub proof fn refused_without_capability<W>(client: ClientView<W>, capability: Seq<char>)
    ensures
        client.refusal(capability) is None <==> client.initialized && client.has_capability(
            capability,
        ),
{
}

/// What a client says of itself reaches the server whole.
pub proof fn introduction_is_understood(client_info: InfoView)
    ensures
        ParamsView::of_json(introduction(client_info).json()) == Some(introduction(client_info)),
{
    types::params_are_read_from_their_json(introduction(client_info));
}

/// A server that introduces itself with the version of the protocol is accepted, and known for
/// what it says it can do.
pub proof fn fitting_server_is_accepted(result: ResultView)
    requires
        result.protocol_version == "2024-11-05"@,
    ensures
        introduction_value(result.json()) == Ok::<ResultView, McpErrorView>(result),
{
    types::result_is_read_from_its_json(result);
}

/// A server of another version is refused.
pub proof fn other_server_is_refused(result: ResultView)
    requires
        result.protocol_version != "2024-11-05"@,
    ensures
        introduction_value(result.json()) == Err::<ResultView, McpErrorView>(
            McpErrorView::InvalidRequest(
                "Unsupported protocol version: "@ + result.protocol_version,
            ),
        ),
{
    types::result_is_read_from_its_json(result);
}

} // verus!
