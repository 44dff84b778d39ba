//! What holds of the transports: what is told of what is read, and what is written.
use crate::error::McpErrorView;
use crate::json;
use crate::json::JsonView;
use crate::parts;
use crate::protocol::message::NotificationView;
use crate::text;
use crate::transport::message;
use crate::transport::message::MessageView;
use crate::transport::session;
use crate::transport::session::{SseActView, SseSessionView, SseTurn, StdioSessionView, StdioTurn};
use crate::transport::sse;
use crate::transport::sse::{SseClientStepView, SseServerStepView};
use crate::transport::stdio;
use crate::transport::stdio::StdioStepView;
use crate::transport::{CommandView, EventView};
use vstd::prelude::*;

verus! {

/// A log entry is the transport's own exactly where the logger that it names holds the name of the
/// transport's module. Requests and responses are no log entries.
pub proof fn which_log_entries_are_the_transports_own(
    message: MessageView,
    notification: NotificationView,
    before: Seq<char>,
    after: Seq<char>,
)
    ensures
        !(message is Notification) ==> !stdio::is_transport_log(message),
        notification.method != "notifications/message"@ ==> !stdio::is_transport_log(
            MessageView::Notification(notification),
        ),
        notification.params is None ==> !stdio::is_transport_log(
            MessageView::Notification(notification),
        ),
        notification.params matches Some(params) ==> {
            &&& !(params.member("logger"@) matches Some(JsonView::Str(_)))
                ==> !stdio::is_transport_log(MessageView::Notification(notification))
            &&& params.member("logger"@) matches Some(JsonView::Str(logger)) ==> {
                &&& !text::contains_text(logger, "mcp_rs::transport"@)
                    ==> !stdio::is_transport_log(MessageView::Notification(notification))
                &&& notification.method == "notifications/message"@ && logger == before
                    + "mcp_rs::transport"@ + after ==> stdio::is_transport_log(
                    MessageView::Notification(notification),
                )
            }
        },
{
    super::text::what_stands_in_a_text_is_found(before, "mcp_rs::transport"@, after);
}

/// While lines are read, a line whose text is a message of any kind is told as exactly that
/// message, unless it is a log entry of the transport itself; and reading goes on.
pub proof fn a_line_is_told_as_its_message(
    session: StdioSessionView,
    line: Seq<char>,
    message: MessageView,
)
    requires
        session.reading,
        text::trimmed(line).len() > 0,
        text::trimmed(line)[0] == '{',
        MessageView::of_text(text::trimmed(line)) == Some(message),
        message matches MessageView::Notification(notification) ==> !{
            &&& notification.method == "notifications/message"@
            &&& notification.params matches Some(params)
            &&& params.member("logger"@) matches Some(JsonView::Str(logger))
            &&& text::contains_text(logger, "mcp_rs::transport"@)
        },
    ensures
        session.told(StdioTurn::Read(Some(line))) == Some(EventView::Message(message)),
        session.turn(StdioTurn::Read(Some(line))) == session,
        stdio::line_message(line) == Some(message),
        session::message_told(Some(message)) == Some(EventView::Message(message)),
{
}

/// A line of any other kind is told as nothing: one that does not begin with a brace, one that is
/// no message, and a log entry of the transport itself. Reading goes on all the same.
pub proof fn other_lines_are_passed_over(session: StdioSessionView, line: Seq<char>)
    requires
        session.reading,
        ({
            let inner = text::trimmed(line);
            ||| inner.len() == 0
            ||| inner[0] != '{'
            ||| MessageView::of_text(inner) is None
            ||| MessageView::of_text(inner) matches Some(MessageView::Notification(notification))
                && notification.method == "notifications/message"@ && (
            notification.params matches Some(params) && (params.member("logger"@) matches Some(
                JsonView::Str(logger),
            ) && text::contains_text(logger, "mcp_rs::transport"@)))
        }),
    ensures
        session.told(StdioTurn::Read(Some(line))) is None,
        session.turn(StdioTurn::Read(Some(line))) == session,
        session::message_told(None) is None,
{
}

/// What one side writes for a message of any kind, the other side tells as that message: the line
/// is the text of the message and a line end, and what is read of it is the message, with nothing
/// where it had null.
pub proof fn what_one_side_writes_the_other_tells(
    message: MessageView,
    written: Seq<char>,
    other: StdioSessionView,
)
    requires
        message.survives(),
        json::json_text(message.json()) == Some(written),
        parts::is_written_as(written, message.json()),
        written.len() >= 2,
        written[0] == '{',
        written.last() == '}',
        other.reading,
        message matches MessageView::Notification(notification) ==> !{
            &&& notification.method == "notifications/message"@
            &&& notification.params matches Some(params)
            &&& params.member("logger"@) matches Some(JsonView::Str(logger))
            &&& text::contains_text(logger, "mcp_rs::transport"@)
        },
    ensures
        StdioSessionView::act(Some(CommandView::SendMessage(message))) matches StdioStepView::Write(
            line,
        ) && {
            &&& line == written.push('\n')
            &&& other.told(StdioTurn::Read(Some(line))) == Some(
                EventView::Message(message.received()),
            )
        },
{
    reveal_strlit("\n");
    assert(written + "\n"@ =~= written.push('\n'));
    message::message_is_read_from_its_text(message, written);
    stdio::line_is_trimmed(written, written.push('\n'));
}

/// A log entry of the transport itself is not written, nor is what has no text; a message that is
/// to be sent ends nothing, and what closes the transport, or that no more will come, ends the
/// writing and nothing else.
pub proof fn what_is_written_and_what_ends_it(
    session: StdioSessionView,
    message: MessageView,
    written: Seq<char>,
)
    ensures
        stdio::is_transport_log(message) ==> StdioSessionView::act(
            Some(CommandView::SendMessage(message)),
        ) is Skip,
        json::json_text(message.json()) is None ==> StdioSessionView::act(
            Some(CommandView::SendMessage(message)),
        ) is Skip,
        !stdio::is_transport_log(message) && json::json_text(message.json()) == Some(written)
            ==> StdioSessionView::act(Some(CommandView::SendMessage(message)))
            == StdioStepView::Write(written.push('\n')),
        stdio::stdio_step(CommandView::SendMessage(message)) == StdioSessionView::act(
            Some(CommandView::SendMessage(message)),
        ),
        StdioSessionView::act(Some(CommandView::Close)) is Stop,
        stdio::stdio_step(CommandView::Close) is Stop,
        StdioSessionView::act(None) is Stop,
        session.writing ==> session.turn(
            StdioTurn::Took(Some(CommandView::SendMessage(message))),
        ) == session,
        session.turn(StdioTurn::Took(Some(CommandView::Close))) == (StdioSessionView {
            writing: false,
            ..session
        }),
        session.turn(StdioTurn::Took(None)) == (StdioSessionView { writing: false, ..session }),
        session.turn(StdioTurn::WriterLost) == (StdioSessionView { writing: false, ..session }),
        session.turn(StdioTurn::Read(None)) == (StdioSessionView { reading: false, ..session }),
        session.told(StdioTurn::Took(Some(CommandView::SendMessage(message)))) is None,
        session.told(StdioTurn::Took(Some(CommandView::Close))) is None,
        session.told(StdioTurn::Took(None)) is None,
        session.told(StdioTurn::WriterLost) is None,
        session.told(StdioTurn::Read(None)) is None,
{
    reveal_strlit("\n");
    assert(written + "\n"@ =~= written.push('\n'));
}

/// A transport over standard input and output writes and reads from the start. It tells that it is
/// over exactly where it neither writes nor reads and has not told so; then it has.
pub proof fn the_end_is_told_where_all_is_over(session: StdioSessionView, turn: StdioTurn)
    ensures
        StdioSessionView::started().writing,
        StdioSessionView::started().reading,
        !StdioSessionView::started().closed,
        session.told(StdioTurn::Finished) == if !session.writing && !session.reading
            && !session.closed {
            Some(EventView::Closed)
        } else {
            None
        },
        session.turn(StdioTurn::Finished).closed <==> session.closed || session.told(
            StdioTurn::Finished,
        ) is Some,
        session.turn(StdioTurn::Finished).writing == session.writing,
        session.turn(StdioTurn::Finished).reading == session.reading,
        session.may(turn) <==> {
            &&& turn is Took || turn is WriterLost ==> session.writing
            &&& turn is Read ==> session.reading
        },
{
}

/// A line is told of by the text between the white space at its ends, where that begins with a
/// brace.
pub proof fn the_text_of_a_line(line: Seq<char>)
    ensures
        stdio::line_text(line) is Some <==> text::trimmed(line).len() > 0 && text::trimmed(line)[0]
            == '{',
        stdio::line_text(line) matches Some(inner) ==> inner == text::trimmed(line),
{
}

/// A text is a line exactly where its only line end is its last character.
pub proof fn what_is_a_line(text: Seq<char>)
    ensures
        stdio::is_line(text) <==> {
            &&& text.len() > 0
            &&& text.last() == '\n'
            &&& forall|i: int| 0 <= i < text.len() - 1 ==> #[trigger] text[i] != '\n'
        },
{
    let inner = text.drop_last();
    if stdio::is_line(text) {
        assert forall|i: int| 0 <= i < text.len() - 1 implies #[trigger] text[i] != '\n' by {
            assert(inner[i] == text[i]);
            assert(inner.contains(inner[i]));
        }
    }
}

/// Where client `id` of a server posts: at the server's own host and port, under its own number.
/// The endpoint begins with the host, and no other host, port or client has it.
pub proof fn an_endpoint_names_its_server_and_client(
    host: Seq<char>,
    port: u16,
    id: u64,
    other_host: Seq<char>,
    other_port: u16,
    other_id: u64,
)
    ensures
        sse::message_endpoint(host, port, id) == "http://"@ + host + ":"@ + text::decimal(
            port as nat,
        ) + "/message/"@ + text::decimal(id as nat),
        ("http://"@ + host + ":"@).is_prefix_of(sse::message_endpoint(host, port, id)),
        sse::message_endpoint(host, port, id) == sse::message_endpoint(
            other_host,
            other_port,
            other_id,
        ) ==> host == other_host && port == other_port && id == other_id,
{
    let tail = text::decimal(port as nat) + "/message/"@ + text::decimal(id as nat);
    let other_tail = text::decimal(other_port as nat) + "/message/"@ + text::decimal(
        other_id as nat,
    );
    let one = sse::message_endpoint(host, port, id);
    let other = sse::message_endpoint(other_host, other_port, other_id);
    assert(one =~= "http://"@ + host + ":"@ + tail);
    assert(other =~= "http://"@ + other_host + ":"@ + other_tail);
    if one == other {
        message_path_has_no_colon(id);
        message_path_has_no_colon(other_id);
        tail_has_no_colon(port, "/message/"@ + text::decimal(id as nat));
        tail_has_no_colon(other_port, "/message/"@ + text::decimal(other_id as nat));
        assert(tail =~= text::decimal(port as nat) + ("/message/"@ + text::decimal(id as nat)));
        assert(other_tail =~= text::decimal(other_port as nat) + ("/message/"@ + text::decimal(
            other_id as nat,
        )));
        addresses_tell_hosts_apart(host, tail, other_host, other_tail);
        reveal_strlit("/message/");
        ports_are_told_apart(
            port,
            "/message/"@ + text::decimal(id as nat),
            other_port,
            "/message/"@ + text::decimal(other_id as nat),
        );
        if id != other_id {
            sse::endpoints_differ(host, port, id, other_id);
        }
    }
}

/// Where a client listens: at the server's own host and port. No other host or port has it.
pub proof fn an_address_names_its_server(
    host: Seq<char>,
    port: u16,
    other_host: Seq<char>,
    other_port: u16,
)
    ensures
        sse::sse_url(host, port) == "http://"@ + host + ":"@ + text::decimal(port as nat)
            + "/sse"@,
        ("http://"@ + host + ":"@).is_prefix_of(sse::sse_url(host, port)),
        sse::sse_url(host, port) == sse::sse_url(other_host, other_port) ==> host == other_host
            && port == other_port,
{
    let tail = text::decimal(port as nat) + "/sse"@;
    let other_tail = text::decimal(other_port as nat) + "/sse"@;
    let one = sse::sse_url(host, port);
    let other = sse::sse_url(other_host, other_port);
    assert(one =~= "http://"@ + host + ":"@ + tail);
    assert(other =~= "http://"@ + other_host + ":"@ + other_tail);
    if one == other {
        reveal_strlit("/sse");
        assert forall|i: int| 0 <= i < "/sse"@.len() implies #[trigger] "/sse"@[i] != ':' by {}
        tail_has_no_colon(port, "/sse"@);
        tail_has_no_colon(other_port, "/sse"@);
        addresses_tell_hosts_apart(host, tail, other_host, other_tail);
        ports_are_told_apart(port, "/sse"@, other_port, "/sse"@);
    }
}

/// There is no colon in the path at which a client posts.
proof fn message_path_has_no_colon(id: u64)
    ensures
        forall|i: int|
            0 <= i < ("/message/"@ + text::decimal(id as nat)).len() ==> #[trigger] ("/message/"@
                + text::decimal(id as nat))[i] != ':',
{
    reveal_strlit("/message/");
    super::text::decimal_stands_for_its_number(id as nat);
    let path = "/message/"@ + text::decimal(id as nat);
    assert forall|i: int| 0 <= i < path.len() implies #[trigger] path[i] != ':' by {
        if i >= "/message/"@.len() {
            assert(path[i] == text::decimal(id as nat)[i - "/message/"@.len()]);
        }
    }
}

/// There is no colon in a port with a path that has none.
proof fn tail_has_no_colon(port: u16, path: Seq<char>)
    requires
        forall|i: int| 0 <= i < path.len() ==> #[trigger] path[i] != ':',
    ensures
        forall|i: int|
            0 <= i < (text::decimal(port as nat) + path).len() ==> #[trigger] (text::decimal(
                port as nat,
            ) + path)[i] != ':',
{
    super::text::decimal_stands_for_its_number(port as nat);
    let digits = text::decimal(port as nat);
    let tail = digits + path;
    assert forall|i: int| 0 <= i < tail.len() implies #[trigger] tail[i] != ':' by {
        if i < digits.len() {
            assert(tail[i] == digits[i]);
        } else {
            assert(tail[i] == path[i - digits.len()]);
        }
    }
}

/// The last colon of an address stands behind its host.
proof fn addresses_tell_hosts_apart(
    host: Seq<char>,
    tail: Seq<char>,
    other_host: Seq<char>,
    other_tail: Seq<char>,
)
    requires
        forall|i: int| 0 <= i < tail.len() ==> #[trigger] tail[i] != ':',
        forall|i: int| 0 <= i < other_tail.len() ==> #[trigger] other_tail[i] != ':',
        "http://"@ + host + ":"@ + tail == "http://"@ + other_host + ":"@ + other_tail,
    ensures
        host == other_host,
        tail == other_tail,
{
    reveal_strlit("http://");
    reveal_strlit(":");
    let one = "http://"@ + host + ":"@ + tail;
    let other = "http://"@ + other_host + ":"@ + other_tail;
    let at = 7 + host.len() as int;
    let other_at = 7 + other_host.len() as int;
    assert("http://"@.len() == 7);
    assert(one.len() == at + 1 + tail.len());
    assert(other.len() == other_at + 1 + other_tail.len());
    assert(one[at] == ':');
    assert(other[other_at] == ':');
    if at < other_at {
        assert(one[other_at] == tail[other_at - at - 1]);
    } else if other_at < at {
        assert(other[at] == other_tail[at - other_at - 1]);
    }
    assert(one.subrange(7, at) =~= host);
    assert(other.subrange(7, other_at) =~= other_host);
    assert(one.skip(at + 1) =~= tail);
    assert(other.skip(other_at + 1) =~= other_tail);
}

/// The first slash behind a port tells where it ends.
proof fn ports_are_told_apart(port: u16, path: Seq<char>, other_port: u16, other_path: Seq<char>)
    requires
        path.len() > 0,
        other_path.len() > 0,
        path[0] == '/',
        other_path[0] == '/',
        text::decimal(port as nat) + path == text::decimal(other_port as nat) + other_path,
    ensures
        port == other_port,
{
    let digits = text::decimal(port as nat);
    let other_digits = text::decimal(other_port as nat);
    super::text::decimal_stands_for_its_number(port as nat);
    super::text::decimal_stands_for_its_number(other_port as nat);
    let one = digits + path;
    let other = other_digits + other_path;
    assert(one[digits.len() as int] == '/');
    assert(other[other_digits.len() as int] == '/');
    if digits.len() < other_digits.len() {
        assert(other[digits.len() as int] == other_digits[digits.len() as int]);
    } else if other_digits.len() < digits.len() {
        assert(one[other_digits.len() as int] == digits[other_digits.len() as int]);
    }
    assert(one.take(digits.len() as int) =~= digits);
    assert(other.take(other_digits.len() as int) =~= other_digits);
}

/// The endpoint is told as an object with that one member.
pub proof fn an_endpoint_is_told_under_its_name(endpoint: Seq<char>)
    ensures
        sse::endpoint_json(endpoint).is_object_of(1),
        sse::endpoint_json(endpoint).member("endpoint"@) == Some(JsonView::Str(endpoint)),
{
    broadcast use json::lookup_push;

}

/// An event is read for the endpoint where it has that name, and for a message where it has the
/// other; then it brings what its data say, and else nothing.
pub proof fn events_are_read_by_their_names(event: Seq<char>, data: Seq<char>)
    ensures
        event == "endpoint"@ ==> sse::event_endpoint(event, data) == sse::endpoint_of_text(data),
        event != "endpoint"@ ==> sse::event_endpoint(event, data) is None,
        event == "message"@ ==> sse::event_message(event, data) == MessageView::of_text(data),
        event != "message"@ ==> sse::event_message(event, data) is None,
{
}

/// The endpoint that data say is the text under that name, where the data are an object that names
/// it once, and the one item where they are an array; nothing else says one.
pub proof fn data_say_an_endpoint(data: Seq<char>, endpoint: Seq<char>)
    ensures
        parts::parts(data, true) matches Some(members) ==> {
            &&& !parts::at_most_once(members, "endpoint"@) ==> sse::endpoint_of_text(data) is None
            &&& parts::at_most_once(members, "endpoint"@) ==> match parts::text_under(
                members,
                "endpoint"@,
            ) {
                Some(value) => sse::endpoint_of_text(data) == Some(endpoint)
                    <==> json::json_parse(value) == Some(JsonView::Str(endpoint)),
                None => sse::endpoint_of_text(data) is None,
            }
        },
        parts::parts(data, true) is None ==> (parts::parts(data, false) matches Some(items) ==> {
            &&& items.len() != 1 ==> sse::endpoint_of_text(data) is None
            &&& items.len() == 1 ==> (sse::endpoint_of_text(data) == Some(endpoint)
                <==> json::json_parse(items[0].1) == Some(JsonView::Str(endpoint)))
        }),
        parts::parts(data, true) is None && parts::parts(data, false) is None
            ==> sse::endpoint_of_text(data) is None,
{
}

/// Once a client knows where to post, an event whose data are a message is told as exactly that
/// message, of any kind; before, no message is told.
pub proof fn an_event_is_told_as_its_message(
    session: SseSessionView,
    data: Seq<char>,
    message: MessageView,
    name: Seq<char>,
)
    ensures
        session.endpoint is Some && MessageView::of_text(data) == Some(message) ==> session.told(
            SseTurn::Heard("message"@, data),
        ) == Some(EventView::Message(message)),
        session.endpoint is Some && MessageView::of_text(data) is None ==> session.told(
            SseTurn::Heard("message"@, data),
        ) is None,
        name != "message"@ ==> session.told(SseTurn::Heard(name, data)) is None,
        session.endpoint is None ==> session.told(SseTurn::Heard(name, data)) is None,
        session.endpoint is Some ==> session.turn(SseTurn::Heard(name, data)) == session,
        session.over ==> session.turn(SseTurn::Heard(name, data)) == session,
{
}

/// A client that waits takes the endpoint that an event tells, and waits on where it tells none.
pub proof fn a_waiting_client_takes_the_endpoint(
    session: SseSessionView,
    event: Seq<char>,
    data: Seq<char>,
    endpoint: Seq<char>,
)
    requires
        session.endpoint is None,
        !session.over,
    ensures
        session.waits(),
        !session.is_open(),
        sse::event_endpoint(event, data) is None ==> session.turn(SseTurn::Heard(event, data))
            == session,
        sse::event_endpoint(event, data) == Some(endpoint) ==> {
            let after = session.turn(SseTurn::Heard(event, data));
            &&& after.endpoint == Some(endpoint)
            &&& !after.over
            &&& after.is_open()
            &&& !after.waits()
        },
        SseSessionView::started().endpoint is None,
        !SseSessionView::started().over,
{
}

/// A client posts what it is told to send at its endpoint, and goes on; what has no text it does
/// not post. When it is closed, or nothing more will come, it tells so and takes no more.
pub proof fn a_client_posts_at_its_endpoint(
    session: SseSessionView,
    endpoint: Seq<char>,
    message: MessageView,
    body: Seq<char>,
)
    requires
        session.endpoint == Some(endpoint),
        !session.over,
    ensures
        session.is_open(),
        !session.waits(),
        json::json_text(message.json()) == Some(body) ==> session.act(
            Some(CommandView::SendMessage(message)),
        ) == (SseActView::Post { endpoint, body }),
        json::json_text(message.json()) is None ==> session.act(
            Some(CommandView::SendMessage(message)),
        ) is Skip,
        session.turn(SseTurn::Took(Some(CommandView::SendMessage(message)))) == session,
        session.told(SseTurn::Took(Some(CommandView::SendMessage(message)))) is None,
        session.act(Some(CommandView::Close)) == SseActView::Stop(EventView::Closed),
        session.act(None) == SseActView::Stop(EventView::Closed),
        session.told(SseTurn::Took(Some(CommandView::Close))) == Some(EventView::Closed),
        session.told(SseTurn::Took(None)) == Some(EventView::Closed),
        session.turn(SseTurn::Took(Some(CommandView::Close))) == (SseSessionView {
            over: true,
            ..session
        }),
        session.turn(SseTurn::Took(None)) == (SseSessionView { over: true, ..session }),
{
}

/// A client that loses its server while it waits tells so, and is over; one that knows where to
/// post, or is over, tells nothing and stays as it is.
pub proof fn a_client_that_waits_can_be_lost(session: SseSessionView)
    ensures
        session.endpoint is None && !session.over ==> {
            &&& session.told(SseTurn::Lost) == Some(
                EventView::Error(McpErrorView::ConnectionClosed),
            )
            &&& session.turn(SseTurn::Lost) == (SseSessionView { over: true, ..session })
        },
        session.endpoint is Some || session.over ==> {
            &&& session.told(SseTurn::Lost) is None
            &&& session.turn(SseTurn::Lost) == session
        },
        session.may(SseTurn::Lost),
        session.waits() <==> session.endpoint is None && !session.over,
        session.is_open() <==> session.endpoint is Some && !session.over,
        session.may(SseTurn::Took(None)) <==> session.endpoint is Some && !session.over,
{
}

/// A client posts the text of any message, and nothing where there is none.
pub proof fn a_client_posts_the_text_of_a_message(message: MessageView, body: Seq<char>)
    ensures
        json::json_text(message.json()) == Some(body) ==> sse::client_step(
            CommandView::SendMessage(message),
        ) == SseClientStepView::Post(body),
        json::json_text(message.json()) is None ==> sse::client_step(
            CommandView::SendMessage(message),
        ) is Skip,
        sse::client_step(CommandView::Close) is Stop,
{
}

/// Which log entries are withheld from clients: those at level `debug` whose logger begins with
/// the name of the HTTP library or of the transport, or whose message tells of broadcasting. Every
/// other message is broadcast as it is.
pub proof fn which_log_entries_are_withheld(message: MessageView, params: JsonView)
    ensures
        ({
            let level = params.member("level"@);
            let logger = match params.member("logger"@) {
                Some(JsonView::Str(logger)) => logger,
                _ => Seq::empty(),
            };
            let told = match params.member("data"@) {
                Some(data) => match data.member("message"@) {
                    Some(JsonView::Str(told)) => told,
                    _ => Seq::empty(),
                },
                None => Seq::empty(),
            };
            let withheld = {
                &&& level == Some(JsonView::Str("debug"@))
                &&& {
                    ||| "hyper::"@.is_prefix_of(logger)
                    ||| "mcp_rs::transport"@.is_prefix_of(logger)
                    ||| text::contains_text(told, "Broadcasting SSE message"@)
                    ||| text::contains_text(told, "Failed to broadcast message"@)
                }
            };
            message matches MessageView::Notification(notification) && notification.method
                == "notifications/message"@ && notification.params == Some(params) ==> {
                &&& sse::is_sending_log(message) == withheld
                &&& withheld ==> sse::server_step(CommandView::SendMessage(message)) is Skip
                &&& !withheld ==> sse::server_step(CommandView::SendMessage(message))
                    == SseServerStepView::Broadcast(message)
            }
        }),
        (message matches MessageView::Notification(notification) ==> notification.method
            != "notifications/message"@ || notification.params is None) ==> {
            &&& !sse::is_sending_log(message)
            &&& sse::server_step(CommandView::SendMessage(message)) == SseServerStepView::Broadcast(
                message,
            )
        },
        sse::server_step(CommandView::Close) is Stop,
{
}

/// What a server broadcasts is what each command has it broadcast, one after the other, up to the
/// one that closes it.
pub proof fn broadcasting_goes_command_by_command(
    message: MessageView,
    rest: Seq<CommandView>,
    endpoint: Seq<char>,
)
    ensures
        sse::broadcasts(Seq::empty()) == Seq::<MessageView>::empty(),
        sse::broadcasts(seq![CommandView::Close] + rest) == Seq::<MessageView>::empty(),
        sse::is_sending_log(message) ==> sse::broadcasts(
            seq![CommandView::SendMessage(message)] + rest,
        ) == sse::broadcasts(rest),
        !sse::is_sending_log(message) ==> sse::broadcasts(
            seq![CommandView::SendMessage(message)] + rest,
        ) == seq![message] + sse::broadcasts(rest),
        sse::taken(seq![CommandView::Close] + rest) == 0,
        sse::taken(seq![CommandView::SendMessage(message)] + rest) == 1 + sse::taken(rest),
        sse::passes(CommandView::SendMessage(message)) == !sse::is_sending_log(message),
        !sse::passes(CommandView::Close),
        sse::events_for(endpoint, rest, 0).len() == 1 + sse::broadcasts(rest).len(),
        sse::events_for(endpoint, rest, 0)[0] == (
            "endpoint"@,
            json::json_text(sse::endpoint_json(endpoint)),
        ),
        forall|i: int|
            0 <= i < sse::broadcasts(rest).len() ==> #[trigger] sse::events_for(
                endpoint,
                rest,
                0,
            )[i + 1] == ("message"@, json::json_text(sse::broadcasts(rest)[i].json())),
{
    let closing = seq![CommandView::Close] + rest;
    let sending = seq![CommandView::SendMessage(message)] + rest;
    assert(closing[0] == CommandView::Close);
    assert(sending[0] == CommandView::SendMessage(message));
    assert(sending.skip(1) =~= rest);
    assert(Seq::empty().push(message) =~= seq![message]);
    assert(rest.skip(0) =~= rest);
}

/// Courses of events are followed one event after the other.
pub proof fn courses_are_followed_in_turn(
    stdio: StdioSessionView,
    turns: Seq<StdioTurn>,
    turn: StdioTurn,
    sse: SseSessionView,
    heard: Seq<SseTurn>,
    next: SseTurn,
)
    ensures
        stdio.run(Seq::empty()) == stdio,
        stdio.run(turns.push(turn)) == stdio.run(turns).turn(turn),
        stdio.may_run(Seq::empty()),
        stdio.may_run(turns.push(turn)) <==> stdio.may_run(turns) && stdio.run(turns).may(turn),
        sse.run(Seq::empty()) == sse,
        sse.run(heard.push(next)) == sse.run(heard).turn(next),
        sse.may_run(Seq::empty()),
        sse.may_run(heard.push(next)) <==> sse.may_run(heard) && sse.run(heard).may(next),
{
    assert(turns.push(turn).drop_last() =~= turns);
    assert(heard.push(next).drop_last() =~= heard);
}

} // verus!
