//! Messages over HTTP: the server sends them as server-sent events, the client posts them.
use crate::json;
use crate::json::{object, push_member, read_text, Json, JsonView, MAX_DEPTH};
use crate::parts;
use crate::parts::{find_text, read_parts, stands_at_most_once};
use crate::text;
use crate::text::{contains, decimal_text, same_text, starts_with};
use crate::transport;
use crate::transport::message::{JsonRpcMessage, MessageView};
use crate::transport::{CommandView, EventView, TransportCommand, TransportEvent};
use vstd::prelude::*;
use vstd::string::*;

verus! {

/// The transport over HTTP, as a server or as a client.
#[derive(Debug)]
pub struct SseTransport {
    host: String,
    port: u16,
    client_mode: bool,
    buffer_size: usize,
}

/// What a [`SseTransport`] is set to.
pub struct SseTransportView {
    pub host: Seq<char>,
    pub port: u16,
    pub client_mode: bool,
    pub buffer_size: usize,
}

impl View for SseTransport {
    type V = SseTransportView;

    closed spec fn view(&self) -> SseTransportView {
        SseTransportView {
            host: self.host@,
            port: self.port,
            client_mode: self.client_mode,
            buffer_size: self.buffer_size,
        }
    }
}

impl SseTransport {
    /// A transport that serves on a host and port.
    pub fn new_server(host: String, port: u16, buffer_size: usize) -> (transport: SseTransport)
        ensures
            transport@ == (SseTransportView { host: host@, port, client_mode: false, buffer_size }),
    {
        SseTransport { host, port, client_mode: false, buffer_size }
    }

    /// A transport that connects to a server.
    pub fn new_client(host: String, port: u16, buffer_size: usize) -> (transport: SseTransport)
        ensures
            transport@ == (SseTransportView { host: host@, port, client_mode: true, buffer_size }),
    {
        SseTransport { host, port, client_mode: true, buffer_size }
    }

    /// The host.
    pub fn host(&self) -> (host: &str)
        ensures
            host@ == self@.host,
    {
        self.host.as_str()
    }

    /// The port.
    pub fn port(&self) -> (port: u16)
        ensures
            port == self@.port,
    {
        self.port
    }

    /// How many commands and events may wait.
    pub fn buffer_size(&self) -> (buffer_size: usize)
        ensures
            buffer_size == self@.buffer_size,
    {
        self.buffer_size
    }

    /// What is run when the transport is started: a client where it is one, else a server.
    pub fn start(&self) -> (role: SseRole)
        ensures
            match role {
                SseRole::Client { url } => self@.client_mode && url@ == sse_url(
                    self@.host,
                    self@.port,
                ),
                SseRole::Server(server) => !self@.client_mode && server@ == (SseServerView {
                    host: self@.host,
                    port: self@.port,
                    next_client: 0,
                }),
            },
    {
        if self.client_mode {
            SseRole::Client { url: SseTransport::url(self.host.as_str(), self.port) }
        } else {
            SseRole::Server(
                SseServer { host: self.host.clone(), port: self.port, client_counter: 0 },
            )
        }
    }

    /// Where a client listens for the events of a server.
    pub fn url(host: &str, port: u16) -> (url: String)
        ensures
            url@ == sse_url(host@, port),
            url@ == "http://"@ + host@ + ":"@ + text::decimal(port as nat) + "/sse"@,
    {
        let url: String = "http://".to_owned().concat(host).concat(":").concat(
            decimal_text(port as u64).as_str(),
        ).concat("/sse");
        url
    }
}

/// Where a client listens for the events of a server.
pub open spec fn sse_url(host: Seq<char>, port: u16) -> Seq<char> {
    "http://"@ + host + ":"@ + text::decimal(port as nat) + "/sse"@
}

/// Where client `id` of a server posts its messages.
pub open spec fn message_endpoint(host: Seq<char>, port: u16, id: u64) -> Seq<char> {
    "http://"@ + host + ":"@ + text::decimal(port as nat) + "/message/"@ + text::decimal(id as nat)
}

/// What is run when the transport is started.
pub enum SseRole {
    /// Listen for events at this address.
    Client { url: String },
    Server(SseServer),
}

/// A server, which counts its clients.
#[derive(Debug)]
pub struct SseServer {
    host: String,
    port: u16,
    client_counter: u64,
}

/// What a [`SseServer`] holds.
pub struct SseServerView {
    pub host: Seq<char>,
    pub port: u16,
    pub next_client: u64,
}

impl View for SseServer {
    type V = SseServerView;

    closed spec fn view(&self) -> SseServerView {
        SseServerView { host: self.host@, port: self.port, next_client: self.client_counter }
    }
}

/// An event as it is sent to a client.
#[derive(Debug)]
pub struct SseEvent {
    pub event: String,
    pub data: String,
}

/// The event that tells a client where to post.
#[derive(Debug)]
pub struct EndpointEvent {
    pub endpoint: String,
}

/// The JSON of the event that tells a client where to post.
pub open spec fn endpoint_json(endpoint: Seq<char>) -> JsonView {
    JsonView::Object(Seq::empty().push(("endpoint"@, JsonView::Str(endpoint))))
}

/// The endpoint that an event tells: one named `endpoint`, whose data say it.
pub open spec fn event_endpoint(event: Seq<char>, data: Seq<char>) -> Option<Seq<char>> {
    if event == "endpoint"@ {
        endpoint_of_text(data)
    } else {
        None
    }
}

/// The endpoint that a text says: what an object has under that name, which must stand there once,
/// whatever the other members are; or the one item of an array.
pub open spec fn endpoint_of_text(data: Seq<char>) -> Option<Seq<char>> {
    if parts::names_once(data, "endpoint"@) {
        match parts::field_text(data, "endpoint"@, 0, 1) {
            Some(text) => json::required_text(json::json_parse(text)),
            None => None,
        }
    } else {
        None
    }
}

/// The message that an event brings: one named `message`, whose data are it.
pub open spec fn event_message(event: Seq<char>, data: Seq<char>) -> Option<MessageView> {
    if event == "message"@ {
        MessageView::of_text(data)
    } else {
        None
    }
}

impl EndpointEvent {
    /// The event as JSON.
    pub fn to_json(&self) -> (json: Json)
        ensures
            json@ == endpoint_json(self.endpoint@),
    {
        let mut members: Vec<(String, Json)> = Vec::new();
        push_member(&mut members, "endpoint", Json::string(self.endpoint.as_str()));
        assert(json::members_view(members@) =~= endpoint_json(self.endpoint@)->Object_0);
        object(members)
    }
}

/// A client of a server.
#[derive(Debug)]
pub struct SseClient {
    pub id: u64,
    /// Where the client posts its messages.
    pub endpoint: String,
}

/// What a server does with a command.
#[derive(Debug)]
pub enum SseServerStep {
    /// Send this to every client.
    Broadcast(JsonRpcMessage),
    /// Do nothing.
    Skip,
    /// Take no more commands.
    Stop,
}

/// What a [`SseServerStep`] says.
pub enum SseServerStepView {
    Broadcast(MessageView),
    Skip,
    Stop,
}

impl View for SseServerStep {
    type V = SseServerStepView;

    open spec fn view(&self) -> SseServerStepView {
        match self {
            SseServerStep::Broadcast(message) => SseServerStepView::Broadcast(message@),
            SseServerStep::Skip => SseServerStepView::Skip,
            SseServerStep::Stop => SseServerStepView::Stop,
        }
    }
}

/// The text of a member, empty where there is none.
pub open spec fn text_or_empty(text: Option<Seq<char>>) -> Seq<char> {
    match text {
        Some(text) => text,
        None => Seq::empty(),
    }
}

/// The message of a log entry.
pub open spec fn log_message(params: JsonView) -> Seq<char> {
    match params.member("data"@) {
        Some(data) => text_or_empty(data.text_member("message"@)),
        None => Seq::empty(),
    }
}

/// The parameters of a log entry at level `debug` of the server's own sending: of the HTTP
/// library, of the transport, or about broadcasting.
pub open spec fn sending_log_params(params: JsonView) -> bool {
    let logger = text_or_empty(params.text_member("logger"@));
    let message = log_message(params);
    &&& params.text_member("level"@) == Some("debug"@)
    &&& {
        ||| "hyper::"@.is_prefix_of(logger)
        ||| "mcp_rs::transport"@.is_prefix_of(logger)
        ||| text::contains_text(message, "Broadcasting SSE message"@)
        ||| text::contains_text(message, "Failed to broadcast message"@)
    }
}

/// The message is a log entry of the server's own sending.
pub open spec fn is_sending_log(message: MessageView) -> bool {
    match message {
        MessageView::Notification(notification) => {
            &&& notification.method == "notifications/message"@
            &&& notification.params matches Some(params)
            &&& sending_log_params(params)
        },
        _ => false,
    }
}

/// What a server does with a command: every message is broadcast, but for log entries about the
/// broadcasting itself.
pub open spec fn server_step(command: CommandView) -> SseServerStepView {
    match command {
        CommandView::SendMessage(message) => if is_sending_log(message) {
            SseServerStepView::Skip
        } else {
            SseServerStepView::Broadcast(message)
        },
        CommandView::Close => SseServerStepView::Stop,
    }
}

/// Whether a log entry's parameters are those of an entry about the server's own sending.
fn tells_of_sending(params: &Json) -> (tells: bool)
    ensures
        tells == sending_log_params(params@),
{
    let is_debug: bool = match params.get_str("level") {
        Some(level) => same_text(level, "debug"),
        None => false,
    };
    proof {
        reveal_strlit("");
        assert(""@ =~= Seq::<char>::empty());
    }
    let logger: &str = match params.get_str("logger") {
        Some(logger) => logger,
        None => "",
    };
    let message: &str = match params.get("data") {
        Some(data) => match data.get_str("message") {
            Some(message) => message,
            None => "",
        },
        None => "",
    };
    is_debug && (starts_with(logger, "hyper::") || starts_with(logger, "mcp_rs::transport")
        || contains(message, "Broadcasting SSE message") || contains(
        message,
        "Failed to broadcast message",
    ))
}

/// Whether a message is a log entry about the server's own sending, which is not broadcast.
pub fn should_skip_broadcast(message: &JsonRpcMessage) -> (skip: bool)
    ensures
        skip == is_sending_log(message@),
{
    match message {
        JsonRpcMessage::Notification(notification) => {
            if same_text(notification.method.as_str(), "notifications/message") {
                match &notification.params {
                    Some(params) => tells_of_sending(params),
                    None => false,
                }
            } else {
                false
            }
        },
        _ => false,
    }
}

impl SseServer {
    /// Takes a client in: gives it the next number, and an endpoint of its own.
    pub fn accept_client(&mut self) -> (client: SseClient)
        ensures
            client.id == old(self)@.next_client,
            client.endpoint@ == message_endpoint(old(self)@.host, old(self)@.port, client.id),
            client.endpoint@ == "http://"@ + old(self)@.host + ":"@ + text::decimal(
                old(self)@.port as nat,
            ) + "/message/"@ + text::decimal(old(self)@.next_client as nat),
            final(self)@ == (SseServerView {
                next_client: if old(self)@.next_client == u64::MAX {
                    0
                } else {
                    (old(self)@.next_client + 1) as u64
                },
                ..old(self)@
            }),
    {
        let id: u64 = self.client_counter;
        self.client_counter = if id == u64::MAX {
            0
        } else {
            id + 1
        };
        let endpoint: String = "http://".to_owned().concat(self.host.as_str()).concat(":").concat(
            decimal_text(self.port as u64).as_str(),
        ).concat("/message/").concat(decimal_text(id).as_str());
        SseClient { id, endpoint }
    }

    /// The event that tells a client where to post. The client reads the endpoint from it.
    pub fn endpoint_event(endpoint: &str) -> (event: SseEvent)
        ensures
            event.event@ == "endpoint"@,
            json::json_text(endpoint_json(endpoint@)) == Some(event.data@),
            json::on_one_line(event.data@),
            event_endpoint(event.event@, event.data@) == Some(endpoint@),
    {
        let told: EndpointEvent = EndpointEvent { endpoint: endpoint.to_owned() };
        let told: Json = told.to_json();
        proof {
            let members = told@->Object_0;
            assert forall|i: int|
                #![trigger members[i]]
                0 <= i < members.len() implies members[i].1.survives((MAX_DEPTH - 1) as nat) by {
                assert(i == 0);
            }
            assert(told@.survives(MAX_DEPTH as nat));
            json::lookup_push(Seq::empty(), members[0], "endpoint"@);
        }
        let data: String = told.render().unwrap();
        proof {
            parts::written_names_stand_once(data@, told@, "endpoint"@);
            parts::text_under_last_name(
                parts::parts(data@, true)->0,
                told@->Object_0,
                "endpoint"@,
            );
        }
        SseEvent { event: "endpoint".to_owned(), data }
    }

    /// The event that brings a message to a client. There is none where a number in the message
    /// is not written as JSON writes numbers. The client reads the message from it.
    pub fn message_event(message: &JsonRpcMessage) -> (event: Option<SseEvent>)
        ensures
            match event {
                Some(event) => {
                    &&& event.event@ == "message"@
                    &&& json::json_text(message@.json()) == Some(event.data@)
                    &&& json::on_one_line(event.data@)
                },
                None => json::json_text(message@.json()) is None,
            },
            message@.survives() ==> event is Some && event_message(
                event->0.event@,
                event->0.data@,
            ) == Some(message@.received()),
    {
        match message.encode() {
            Some(data) => Some(SseEvent { event: "message".to_owned(), data }),
            None => None,
        }
    }

    /// What a posted message brings in.
    pub fn receive_post(body: &str) -> (event: Option<TransportEvent>)
        ensures
            transport::optional_event_view(event) == match MessageView::of_text(body@) {
                Some(message) => Some(EventView::Message(message)),
                None => None,
            },
    {
        match JsonRpcMessage::decode(body) {
            Some(message) => Some(TransportEvent::Message(message)),
            None => None,
        }
    }

    /// What is done with a command.
    pub fn forward(command: TransportCommand) -> (step: SseServerStep)
        ensures
            step@ == server_step(command@),
            command matches TransportCommand::SendMessage(message) ==> step == if is_sending_log(
                message@,
            ) {
                SseServerStep::Skip
            } else {
                SseServerStep::Broadcast(message)
            },
            command is Close ==> step is Stop,
    {
        match command {
            TransportCommand::SendMessage(message) => if should_skip_broadcast(&message) {
                SseServerStep::Skip
            } else {
                SseServerStep::Broadcast(message)
            },
            TransportCommand::Close => SseServerStep::Stop,
        }
    }
}

/// What a client does with a command.
#[derive(Debug)]
pub enum SseClientStep {
    /// Post this at the endpoint.
    Post(String),
    /// Do nothing.
    Skip,
    /// Take no more commands.
    Stop,
}

/// What a [`SseClientStep`] says.
pub enum SseClientStepView {
    Post(Seq<char>),
    Skip,
    Stop,
}

impl View for SseClientStep {
    type V = SseClientStepView;

    open spec fn view(&self) -> SseClientStepView {
        match self {
            SseClientStep::Post(body) => SseClientStepView::Post(body@),
            SseClientStep::Skip => SseClientStepView::Skip,
            SseClientStep::Stop => SseClientStepView::Stop,
        }
    }
}

/// What a client does with a command: every message is posted.
pub open spec fn client_step(command: CommandView) -> SseClientStepView {
    match command {
        CommandView::SendMessage(message) => match json::json_text(message.json()) {
            Some(body) => SseClientStepView::Post(body),
            None => SseClientStepView::Skip,
        },
        CommandView::Close => SseClientStepView::Stop,
    }
}

/// The string that a text holds.
fn read_string(text: &str) -> (string: Option<String>)
    ensures
        json::text_view(string) == json::required_text(json::json_parse(text@)),
{
    match Json::parse(text) {
        Some(json) => read_text(Some(&json)),
        None => None,
    }
}

impl SseTransport {
    /// The endpoint that an event tells a client, if it tells one.
    pub fn read_endpoint(event: &str, data: &str) -> (endpoint: Option<String>)
        ensures
            json::text_view(endpoint) == event_endpoint(event@, data@),
    {
        if same_text(event, "endpoint") {
            match read_parts(data, true) {
                Some(members) => if stands_at_most_once(&members, "endpoint") {
                    match find_text(&members, "endpoint") {
                        Some(text) => read_string(text),
                        None => None,
                    }
                } else {
                    None
                },
                None => match read_parts(data, false) {
                    Some(items) => if items.len() == 1 {
                        read_string(items[0].1.as_str())
                    } else {
                        None
                    },
                    None => None,
                },
            }
        } else {
            None
        }
    }

    /// What an event brings in on a client.
    pub fn read_event(event: &str, data: &str) -> (brought: Option<TransportEvent>)
        ensures
            transport::optional_event_view(brought) == match event_message(event@, data@) {
                Some(message) => Some(EventView::Message(message)),
                None => None,
            },
    {
        if same_text(event, "message") {
            match JsonRpcMessage::decode(data) {
                Some(message) => Some(TransportEvent::Message(message)),
                None => None,
            }
        } else {
            None
        }
    }

    /// What a client does with a command. The server takes the message in from what is posted.
    pub fn post_command(command: &TransportCommand) -> (step: SseClientStep)
        ensures
            step@ == client_step(command@),
            command@ matches CommandView::SendMessage(message) ==> message.survives() ==> step
                is Post && MessageView::of_text(step->Post_0@) == Some(message.received()),
    {
        match command {
            TransportCommand::SendMessage(message) => match message.encode() {
                Some(body) => SseClientStep::Post(body),
                None => SseClientStep::Skip,
            },
            TransportCommand::Close => SseClientStep::Stop,
        }
    }
}

/// Two clients of a server never share an endpoint.
pub proof fn endpoints_differ(host: Seq<char>, port: u16, one: u64, other: u64)
    requires
        one != other,
    ensures
        message_endpoint(host, port, one) != message_endpoint(host, port, other),
{
    let base = "http://"@ + host + ":"@ + text::decimal(port as nat) + "/message/"@;
    let a = message_endpoint(host, port, one);
    let b = message_endpoint(host, port, other);
    if a == b {
        assert(a.skip(base.len() as int) =~= text::decimal(one as nat));
        assert(b.skip(base.len() as int) =~= text::decimal(other as nat));
        text::decimal_is_injective(one as nat, other as nat);
    }
}

/// A request, a response, and a log entry at any other level than `debug` are always broadcast.
pub proof fn only_debug_logs_are_withheld(message: MessageView)
    requires
        message matches MessageView::Notification(notification) ==> notification.method
            != "notifications/message"@ || (notification.params matches Some(params)
            ==> params.text_member("level"@) != Some("debug"@)),
    ensures
        server_step(CommandView::SendMessage(message)) == SseServerStepView::Broadcast(message),
{
}

/// The messages that a server broadcasts for commands that come one after the other, until it
/// takes no more.
pub open spec fn broadcasts(commands: Seq<CommandView>) -> Seq<MessageView>
    decreases commands.len(),
{
    if commands.len() == 0 {
        Seq::empty()
    } else {
        match server_step(commands[0]) {
            SseServerStepView::Broadcast(message) => Seq::empty().push(message) + broadcasts(
                commands.skip(1),
            ),
            SseServerStepView::Skip => broadcasts(commands.skip(1)),
            SseServerStepView::Stop => Seq::empty(),
        }
    }
}

/// How many commands a server takes: those before the first that closes it.
pub open spec fn taken(commands: Seq<CommandView>) -> nat
    decreases commands.len(),
{
    if commands.len() == 0 || commands[0] is Close {
        0
    } else {
        1 + taken(commands.skip(1))
    }
}

/// The command is to send a message that is not withheld.
pub open spec fn passes(command: CommandView) -> bool {
    command matches CommandView::SendMessage(message) && !is_sending_log(message)
}

/// How many of the first `n` commands are to send a message that is not withheld.
pub open spec fn passed(commands: Seq<CommandView>, n: nat) -> nat
    decreases n,
{
    if n == 0 {
        0
    } else {
        passed(commands, (n - 1) as nat) + if passes(commands[n - 1]) {
            1nat
        } else {
            0
        }
    }
}

/// What a client is sent that comes when the first `joined` of the commands have been taken: where
/// to post, and then every message that is broadcast from then on. Each event is its name and its
/// data; there are no messages once the server has been closed. The client is taken to keep up:
/// the channel that messages go through drops those that wait too long.
pub open spec fn events_for(
    endpoint: Seq<char>,
    commands: Seq<CommandView>,
    joined: nat,
) -> Seq<(Seq<char>, Option<Seq<char>>)> {
    let messages = if taken(commands) < joined {
        Seq::empty()
    } else {
        broadcasts(commands.skip(joined as int))
    };
    Seq::empty().push(("endpoint"@, json::json_text(endpoint_json(endpoint)))) + Seq::new(
        messages.len(),
        |i: int| ("message"@, json::json_text(messages[i].json())),
    )
}

/// Whether the first command is to send a message counts for every number of commands.
proof fn passed_from_the_first(commands: Seq<CommandView>, n: nat)
    requires
        n < commands.len(),
    ensures
        passed(commands, n + 1) == passed(commands.skip(1), n) + if passes(commands[0]) {
            1nat
        } else {
            0
        },
    decreases n,
{
    if n > 0 {
        passed_from_the_first(commands, (n - 1) as nat);
        assert(commands.skip(1)[n - 1] == commands[n as int]);
    } else {
        assert(passed(commands.skip(1), 0) == 0);
        assert(passed(commands, 0) == 0);
        assert(passed(commands, 1) == passed(commands, 0) + if passes(commands[0]) {
            1nat
        } else {
            0
        });
    }
}

/// A server broadcasts exactly the messages that it is told to send before it is closed, but for
/// those that are withheld, each once and in the order of the commands.
pub proof fn messages_are_broadcast_in_turn(commands: Seq<CommandView>)
    ensures
        taken(commands) <= commands.len(),
        taken(commands) < commands.len() ==> commands[taken(commands) as int] is Close,
        forall|i: int| 0 <= i < taken(commands) ==> !((#[trigger] commands[i]) is Close),
        broadcasts(commands).len() == passed(commands, taken(commands)),
        forall|i: int|
            0 <= i < taken(commands) && passes(#[trigger] commands[i]) ==> {
                &&& passed(commands, i as nat) < broadcasts(commands).len()
                &&& broadcasts(commands)[passed(commands, i as nat) as int]
                    == commands[i]->SendMessage_0
            },
    decreases commands.len(),
{
    if commands.len() > 0 && !(commands[0] is Close) {
        let rest = commands.skip(1);
        messages_are_broadcast_in_turn(rest);
        let n = taken(rest);
        passed_from_the_first(commands, n);
        let first = if passes(commands[0]) {
            1int
        } else {
            0
        };
        assert(taken(commands) == n + 1);
        let sent = broadcasts(commands);
        assert(sent.len() == first + broadcasts(rest).len());
        assert forall|i: int| 0 <= i < n + 1 implies !((#[trigger] commands[i]) is Close) by {
            if i > 0 {
                assert(rest[i - 1] == commands[i]);
            }
        }
        if n < rest.len() {
            assert(rest[n as int] == commands[n as int + 1]);
        }
        assert forall|i: int| 0 <= i < n + 1 && passes(#[trigger] commands[i]) implies {
            &&& passed(commands, i as nat) < sent.len()
            &&& sent[passed(commands, i as nat) as int] == commands[i]->SendMessage_0
        } by {
            if i == 0 {
                assert(passed(commands, 0) == 0);
            } else {
                assert(rest[i - 1] == commands[i]);
                passed_from_the_first(commands, (i - 1) as nat);
                let k = passed(rest, (i - 1) as nat) as int;
                assert(sent[first + k] == broadcasts(rest)[k]);
            }
        }
    }
}

/// What is broadcast for the first commands stands before what is broadcast for the others.
proof fn broadcasts_of_the_rest(commands: Seq<CommandView>, n: nat)
    requires
        n <= taken(commands),
    ensures
        n <= commands.len(),
        broadcasts(commands) == broadcasts(commands.take(n as int)) + broadcasts(
            commands.skip(n as int),
        ),
        broadcasts(commands.take(n as int)).len() == passed(commands, n),
    decreases n,
{
    if n == 0 {
        assert(commands.skip(0) =~= commands);
        assert(broadcasts(commands.take(0)) =~= Seq::empty());
    } else {
        let rest = commands.skip(1);
        broadcasts_of_the_rest(rest, (n - 1) as nat);
        let head = commands.take(n as int);
        assert(head.skip(1) =~= rest.take(n - 1));
        assert(rest.skip(n - 1) =~= commands.skip(n as int));
        assert(head[0] == commands[0]);
        passed_from_the_first(commands, (n - 1) as nat);
        assert(broadcasts(commands) =~= broadcasts(head) + broadcasts(commands.skip(n as int)));
    }
}

/// Every client is sent where to post, and then the same messages in the same order: one that
/// comes later misses those that were broadcast before it came, and no others.
pub proof fn later_client_misses_the_beginning(
    commands: Seq<CommandView>,
    endpoint: Seq<char>,
    other: Seq<char>,
    early: nat,
    late: nat,
)
    requires
        early <= late <= taken(commands),
    ensures
        passed(commands, early) <= passed(commands, late),
        events_for(other, commands, late).skip(1) == events_for(endpoint, commands, early).skip(
            1 + passed(commands, late) - passed(commands, early),
        ),
{
    broadcasts_of_the_rest(commands, early);
    broadcasts_of_the_rest(commands, late);
    passed_grows(commands, early, late);
    let all = broadcasts(commands);
    let a = broadcasts(commands.skip(early as int));
    let b = broadcasts(commands.skip(late as int));
    let e = passed(commands, early);
    let l = passed(commands, late);
    assert(a =~= all.skip(e as int));
    assert(b =~= all.skip(l as int));
    assert(events_for(other, commands, late).skip(1) =~= events_for(
        endpoint,
        commands,
        early,
    ).skip(1 + l - e));
}

/// More commands hold no fewer messages.
proof fn passed_grows(commands: Seq<CommandView>, m: nat, n: nat)
    requires
        m <= n,
    ensures
        passed(commands, m) <= passed(commands, n),
    decreases n,
{
    if m < n {
        passed_grows(commands, m, (n - 1) as nat);
    }
}

/// A client that comes once the server has been closed is told where to post, and nothing else.
pub proof fn nothing_is_broadcast_once_closed(
    commands: Seq<CommandView>,
    endpoint: Seq<char>,
    joined: nat,
)
    requires
        taken(commands) < joined,
    ensures
        events_for(endpoint, commands, joined) == Seq::empty().push(
            ("endpoint"@, json::json_text(endpoint_json(endpoint))),
        ),
{
    assert(events_for(endpoint, commands, joined) =~= Seq::empty().push(
        ("endpoint"@, json::json_text(endpoint_json(endpoint))),
    ));
}

} // verus!
