//! The course of a transport: what it tells from its start to its end.
use crate::error::{McpError, McpErrorView};
use crate::transport;
use crate::transport::message::MessageView;
use crate::transport::sse;
use crate::transport::sse::{SseClientStep, SseClientStepView, SseTransport};
use crate::transport::stdio;
use crate::transport::stdio::{StdioStep, StdioStepView, StdioTransport};
use crate::transport::{CommandView, EventView, TransportCommand, TransportEvent};
use vstd::prelude::*;

verus! {

/// What an optional command says.
pub open spec fn optional_command_view(command: Option<TransportCommand>) -> Option<CommandView> {
    match command {
        Some(command) => Some(command@),
        None => None,
    }
}

/// What an optional text holds.
pub open spec fn line_view(line: Option<&str>) -> Option<Seq<char>> {
    match line {
        Some(line) => Some(line@),
        None => None,
    }
}

/// The event that an optional message is told by.
pub open spec fn message_told(message: Option<MessageView>) -> Option<EventView> {
    match message {
        Some(message) => Some(EventView::Message(message)),
        None => None,
    }
}

/// The course of the transport over standard input and output.
#[derive(Debug)]
pub struct StdioSession {
    writing: bool,
    reading: bool,
    closed: bool,
}

/// Where a [`StdioSession`] stands.
pub struct StdioSessionView {
    /// Commands are taken.
    pub writing: bool,
    /// Lines are read.
    pub reading: bool,
    /// The end was told.
    pub closed: bool,
}

impl View for StdioSession {
    type V = StdioSessionView;

    closed spec fn view(&self) -> StdioSessionView {
        StdioSessionView { writing: self.writing, reading: self.reading, closed: self.closed }
    }
}

/// One thing that happens to the transport over standard input and output.
pub enum StdioTurn {
    /// A command comes, or none will come any more.
    Took(Option<CommandView>),
    /// Nothing can be written any more.
    WriterLost,
    /// A line is read, or none can be read any more.
    Read(Option<Seq<char>>),
    /// It is asked whether all is over.
    Finished,
}

impl StdioSessionView {
    /// A transport that was just started.
    pub open spec fn started() -> StdioSessionView {
        StdioSessionView { writing: true, reading: true, closed: false }
    }

    /// What is done with a command, or with there being no more: then nothing more is written.
    pub open spec fn act(command: Option<CommandView>) -> StdioStepView {
        match command {
            Some(command) => stdio::stdio_step(command),
            None => StdioStepView::Stop,
        }
    }

    /// This may happen now.
    pub open spec fn may(self, turn: StdioTurn) -> bool {
        match turn {
            StdioTurn::Took(_) | StdioTurn::WriterLost => self.writing,
            StdioTurn::Read(_) => self.reading,
            StdioTurn::Finished => true,
        }
    }

    /// Where the transport stands after one thing happened.
    pub open spec fn turn(self, turn: StdioTurn) -> StdioSessionView {
        match turn {
            StdioTurn::Took(command) => StdioSessionView {
                writing: !(StdioSessionView::act(command) is Stop),
                ..self
            },
            StdioTurn::WriterLost => StdioSessionView { writing: false, ..self },
            StdioTurn::Read(line) => StdioSessionView { reading: line is Some, ..self },
            StdioTurn::Finished => StdioSessionView {
                closed: self.closed || !self.writing && !self.reading,
                ..self
            },
        }
    }

    /// What the transport tells when one thing happens.
    pub open spec fn told(self, turn: StdioTurn) -> Option<EventView> {
        match turn {
            StdioTurn::Read(Some(line)) => message_told(stdio::line_message(line)),
            StdioTurn::Finished => if !self.writing && !self.reading && !self.closed {
                Some(EventView::Closed)
            } else {
                None
            },
            _ => None,
        }
    }

    /// Where the transport stands after several things happened, one after the other.
    pub open spec fn run(self, turns: Seq<StdioTurn>) -> StdioSessionView
        decreases turns.len(),
    {
        if turns.len() == 0 {
            self
        } else {
            self.run(turns.drop_last()).turn(turns.last())
        }
    }

    /// These things may happen, one after the other.
    pub open spec fn may_run(self, turns: Seq<StdioTurn>) -> bool
        decreases turns.len(),
    {
        if turns.len() == 0 {
            true
        } else {
            self.may_run(turns.drop_last()) && self.run(turns.drop_last()).may(turns.last())
        }
    }
}

impl StdioSession {
    /// A transport that was just started.
    pub fn new() -> (session: StdioSession)
        ensures
            session@ == StdioSessionView::started(),
    {
        StdioSession { writing: true, reading: true, closed: false }
    }

    /// Whether commands are taken.
    pub fn is_writing(&self) -> (writing: bool)
        ensures
            writing == self@.writing,
    {
        self.writing
    }

    /// Whether lines are read.
    pub fn is_reading(&self) -> (reading: bool)
        ensures
            reading == self@.reading,
    {
        self.reading
    }

    /// What is done with a command, or with there being no more.
    pub fn take(&mut self, command: Option<TransportCommand>) -> (step: StdioStep)
        requires
            old(self)@.writing,
        ensures
            final(self)@ == old(self)@.turn(StdioTurn::Took(optional_command_view(command))),
            step@ == StdioSessionView::act(optional_command_view(command)),
            command matches Some(TransportCommand::SendMessage(message)) ==> message@.survives()
                && !stdio::is_transport_log(message@) ==> (step matches StdioStep::Write(line)
                && forall|other: StdioSessionView|
                other.reading ==> #[trigger] other.told(StdioTurn::Read(Some(line@))) == Some(
                    EventView::Message(message@.received()),
                )),
    {
        let step: StdioStep = match command {
            Some(command) => StdioTransport::write_command(&command),
            None => StdioStep::Stop,
        };
        if let StdioStep::Stop = step {
            self.writing = false;
        }
        step
    }

    /// Nothing can be written any more.
    pub fn lose_writer(&mut self)
        requires
            old(self)@.writing,
        ensures
            final(self)@ == old(self)@.turn(StdioTurn::WriterLost),
    {
        self.writing = false;
    }

    /// What a line that was read brings in, or that none can be read any more.
    pub fn read(&mut self, line: Option<&str>) -> (told: Option<TransportEvent>)
        requires
            old(self)@.reading,
        ensures
            final(self)@ == old(self)@.turn(StdioTurn::Read(line_view(line))),
            transport::optional_event_view(told) == old(self)@.told(
                StdioTurn::Read(line_view(line)),
            ),
            line matches Some(line) ==> (stdio::line_text(line@) matches Some(inner) ==> (
            MessageView::of_text(inner) matches Some(message) ==> !stdio::is_transport_log(message)
                ==> (told matches Some(TransportEvent::Message(brought)) && brought@ == message))),
    {
        match line {
            Some(line) => StdioTransport::read_line(line),
            None => {
                self.reading = false;
                None
            },
        }
    }

    /// Tells the end, once all is written and read.
    pub fn finish(&mut self) -> (told: Option<TransportEvent>)
        ensures
            final(self)@ == old(self)@.turn(StdioTurn::Finished),
            transport::optional_event_view(told) == old(self)@.told(StdioTurn::Finished),
    {
        if !self.writing && !self.reading && !self.closed {
            self.closed = true;
            Some(TransportEvent::Closed)
        } else {
            None
        }
    }
}

/// Where the transport stands after the first things of a course, and that the next may happen.
proof fn stdio_beginning_may_run(session: StdioSessionView, turns: Seq<StdioTurn>, n: int)
    requires
        session.may_run(turns),
        0 <= n < turns.len(),
    ensures
        session.run(turns.take(n)).may(turns[n]),
        session.run(turns.take(n + 1)) == session.run(turns.take(n)).turn(turns[n]),
    decreases turns.len(),
{
    let before = turns.drop_last();
    assert(turns.take(n + 1).drop_last() =~= turns.take(n));
    if n == before.len() {
        assert(turns.take(n) =~= before);
    } else {
        stdio_beginning_may_run(session, before, n);
        assert(before.take(n) =~= turns.take(n));
        assert(before.take(n + 1) =~= turns.take(n + 1));
    }
}

/// The transport stays over once its end was told.
proof fn stdio_stays_over(session: StdioSessionView, turns: Seq<StdioTurn>, i: int, j: int)
    requires
        session.may_run(turns),
        0 <= i < j <= turns.len(),
        session.run(turns.take(i)).told(turns[i]) == Some(EventView::Closed),
    ensures
        ({
            let at = session.run(turns.take(j));
            at.closed && !at.writing && !at.reading
        }),
    decreases j,
{
    stdio_beginning_may_run(session, turns, j - 1);
    if i < j - 1 {
        stdio_stays_over(session, turns, i, j - 1);
    }
}

/// The transport over standard input and output tells its end last and once: after it, it tells
/// nothing, and takes and reads nothing.
pub proof fn stdio_end_is_told_last_and_once(
    session: StdioSessionView,
    turns: Seq<StdioTurn>,
    i: int,
    j: int,
)
    requires
        session.may_run(turns),
        0 <= i < j < turns.len(),
        session.run(turns.take(i)).told(turns[i]) == Some(EventView::Closed),
    ensures
        turns[j] == StdioTurn::Finished,
        session.run(turns.take(j)).told(turns[j]) is None,
{
    stdio_stays_over(session, turns, i, j);
    stdio_beginning_may_run(session, turns, j);
}

/// The end of the transport over standard input and output is told, once nothing is taken and
/// nothing is read any more.
pub proof fn stdio_end_is_told(session: StdioSessionView)
    requires
        !session.writing,
        !session.reading,
        !session.closed,
    ensures
        session.told(StdioTurn::Finished) == Some(EventView::Closed),
{
}

/// The course of a client's transport over HTTP.
#[derive(Debug)]
pub struct SseSession {
    endpoint: Option<String>,
    over: bool,
}

/// Where a [`SseSession`] stands.
pub struct SseSessionView {
    /// Where messages are posted, once the server has told.
    pub endpoint: Option<Seq<char>>,
    /// No more commands are taken.
    pub over: bool,
}

impl View for SseSession {
    type V = SseSessionView;

    closed spec fn view(&self) -> SseSessionView {
        SseSessionView {
            endpoint: match self.endpoint {
                Some(endpoint) => Some(endpoint@),
                None => None,
            },
            over: self.over,
        }
    }
}

/// One thing that happens to a client's transport over HTTP.
pub enum SseTurn {
    /// The server sends an event of this name with these data.
    Heard(Seq<char>, Seq<char>),
    /// The server sends no more events, or was never reached.
    Lost,
    /// A command comes, or none will come any more.
    Took(Option<CommandView>),
}

/// What a client's transport over HTTP does with a command.
#[derive(Debug)]
pub enum SseAct {
    /// Post this, there.
    Post { endpoint: String, body: String },
    /// Do nothing.
    Skip,
    /// Take no more commands, and tell this.
    Stop(TransportEvent),
}

/// What a [`SseAct`] says.
pub enum SseActView {
    Post { endpoint: Seq<char>, body: Seq<char> },
    Skip,
    Stop(EventView),
}

impl View for SseAct {
    type V = SseActView;

    open spec fn view(&self) -> SseActView {
        match self {
            SseAct::Post { endpoint, body } => SseActView::Post {
                endpoint: endpoint@,
                body: body@,
            },
            SseAct::Skip => SseActView::Skip,
            SseAct::Stop(event) => SseActView::Stop(event@),
        }
    }
}

impl SseSessionView {
    /// A client that was just started.
    pub open spec fn started() -> SseSessionView {
        SseSessionView { endpoint: None, over: false }
    }

    /// The client waits to be told where to post.
    pub open spec fn waits(self) -> bool {
        self.endpoint is None && !self.over
    }

    /// The client posts what it is told to send.
    pub open spec fn is_open(self) -> bool {
        self.endpoint is Some && !self.over
    }

    /// What is done with a command, or with there being no more.
    pub open spec fn act(self, command: Option<CommandView>) -> SseActView {
        match command {
            Some(command) => match sse::client_step(command) {
                SseClientStepView::Post(body) => SseActView::Post {
                    endpoint: self.endpoint->0,
                    body,
                },
                SseClientStepView::Skip => SseActView::Skip,
                SseClientStepView::Stop => SseActView::Stop(EventView::Closed),
            },
            None => SseActView::Stop(EventView::Closed),
        }
    }

    /// This may happen now: commands are taken once it is known where to post.
    pub open spec fn may(self, turn: SseTurn) -> bool {
        turn is Took ==> self.is_open()
    }

    /// Where the client stands after one thing happened.
    pub open spec fn turn(self, turn: SseTurn) -> SseSessionView {
        match turn {
            SseTurn::Heard(event, data) => if self.waits() {
                SseSessionView { endpoint: sse::event_endpoint(event, data), ..self }
            } else {
                self
            },
            SseTurn::Lost => SseSessionView { over: self.over || self.endpoint is None, ..self },
            SseTurn::Took(command) => SseSessionView { over: self.act(command) is Stop, ..self },
        }
    }

    /// What the client tells when one thing happens.
    pub open spec fn told(self, turn: SseTurn) -> Option<EventView> {
        match turn {
            SseTurn::Heard(event, data) => if self.endpoint is Some {
                message_told(sse::event_message(event, data))
            } else {
                None
            },
            SseTurn::Lost => if self.waits() {
                Some(EventView::Error(McpErrorView::ConnectionClosed))
            } else {
                None
            },
            SseTurn::Took(command) => match self.act(command) {
                SseActView::Stop(event) => Some(event),
                _ => None,
            },
        }
    }

    /// Where the client stands after several things happened, one after the other.
    pub open spec fn run(self, turns: Seq<SseTurn>) -> SseSessionView
        decreases turns.len(),
    {
        if turns.len() == 0 {
            self
        } else {
            self.run(turns.drop_last()).turn(turns.last())
        }
    }

    /// These things may happen, one after the other.
    pub open spec fn may_run(self, turns: Seq<SseTurn>) -> bool
        decreases turns.len(),
    {
        if turns.len() == 0 {
            true
        } else {
            self.may_run(turns.drop_last()) && self.run(turns.drop_last()).may(turns.last())
        }
    }
}

impl SseSession {
    /// A client that was just started.
    pub fn new() -> (session: SseSession)
        ensures
            session@ == SseSessionView::started(),
    {
        SseSession { endpoint: None, over: false }
    }

    /// Whether the client waits to be told where to post.
    pub fn waits(&self) -> (waits: bool)
        ensures
            waits == self@.waits(),
    {
        self.endpoint.is_none() && !self.over
    }

    /// Whether the client posts what it is told to send.
    pub fn is_open(&self) -> (open: bool)
        ensures
            open == self@.is_open(),
    {
        self.endpoint.is_some() && !self.over
    }

    /// What an event of the server brings in. The first that tells where to post counts, and what
    /// comes before it is passed over.
    pub fn hear(&mut self, event: &str, data: &str) -> (told: Option<TransportEvent>)
        ensures
            final(self)@ == old(self)@.turn(SseTurn::Heard(event@, data@)),
            transport::optional_event_view(told) == old(self)@.told(SseTurn::Heard(event@, data@)),
    {
        if self.endpoint.is_some() {
            SseTransport::read_event(event, data)
        } else {
            if !self.over {
                self.endpoint = SseTransport::read_endpoint(event, data);
            }
            None
        }
    }

    /// The server sends no more events, or was never reached: a client that still waits is over.
    pub fn lose(&mut self) -> (told: Option<TransportEvent>)
        ensures
            final(self)@ == old(self)@.turn(SseTurn::Lost),
            transport::optional_event_view(told) == old(self)@.told(SseTurn::Lost),
    {
        if self.endpoint.is_none() && !self.over {
            self.over = true;
            Some(TransportEvent::Error(McpError::ConnectionClosed))
        } else {
            None
        }
    }

    /// What is done with a command, or with there being no more.
    pub fn take(&mut self, command: Option<TransportCommand>) -> (act: SseAct)
        requires
            old(self)@.is_open(),
        ensures
            final(self)@ == old(self)@.turn(SseTurn::Took(optional_command_view(command))),
            act@ == old(self)@.act(optional_command_view(command)),
    {
        let step: SseClientStep = match &command {
            Some(command) => SseTransport::post_command(command),
            None => SseClientStep::Stop,
        };
        match step {
            SseClientStep::Post(body) => {
                let endpoint: String = self.endpoint.clone().unwrap();
                SseAct::Post { endpoint, body }
            },
            SseClientStep::Skip => SseAct::Skip,
            SseClientStep::Stop => {
                self.over = true;
                SseAct::Stop(TransportEvent::Closed)
            },
        }
    }
}

/// Where the client stands after the first things of a course, and that the next may happen.
proof fn sse_beginning_may_run(session: SseSessionView, turns: Seq<SseTurn>, n: int)
    requires
        session.may_run(turns),
        0 <= n < turns.len(),
    ensures
        session.run(turns.take(n)).may(turns[n]),
        session.run(turns.take(n + 1)) == session.run(turns.take(n)).turn(turns[n]),
    decreases turns.len(),
{
    let before = turns.drop_last();
    assert(turns.take(n + 1).drop_last() =~= turns.take(n));
    if n == before.len() {
        assert(turns.take(n) =~= before);
    } else {
        sse_beginning_may_run(session, before, n);
        assert(before.take(n) =~= turns.take(n));
        assert(before.take(n + 1) =~= turns.take(n + 1));
    }
}

/// A client that knows where to post posts there to its end, whatever else it is told.
pub proof fn endpoint_is_kept(session: SseSessionView, turns: Seq<SseTurn>)
    requires
        session.endpoint is Some,
    ensures
        session.run(turns).endpoint == session.endpoint,
    decreases turns.len(),
{
    if turns.len() > 0 {
        endpoint_is_kept(session, turns.drop_last());
    }
}

/// The first event that tells where to post counts: where none came before it, and the server was
/// not lost, the client posts there to its end.
pub proof fn first_endpoint_counts(
    before: Seq<SseTurn>,
    event: Seq<char>,
    data: Seq<char>,
    after: Seq<SseTurn>,
)
    requires
        SseSessionView::started().may_run(before),
        forall|i: int|
            0 <= i < before.len() ==> {
                &&& (#[trigger] before[i]) != SseTurn::Lost
                &&& before[i] matches SseTurn::Heard(event, data) ==> sse::event_endpoint(
                    event,
                    data,
                ) is None
            },
        sse::event_endpoint(event, data) is Some,
    ensures
        SseSessionView::started().run(before).turn(SseTurn::Heard(event, data)).run(after).endpoint
            == sse::event_endpoint(event, data),
{
    still_waits(before);
    endpoint_is_kept(
        SseSessionView::started().run(before).turn(SseTurn::Heard(event, data)),
        after,
    );
}

/// A client that was told of no endpoint and has not lost its server waits.
proof fn still_waits(turns: Seq<SseTurn>)
    requires
        SseSessionView::started().may_run(turns),
        forall|i: int|
            0 <= i < turns.len() ==> {
                &&& (#[trigger] turns[i]) != SseTurn::Lost
                &&& turns[i] matches SseTurn::Heard(event, data) ==> sse::event_endpoint(
                    event,
                    data,
                ) is None
            },
    ensures
        SseSessionView::started().run(turns).waits(),
    decreases turns.len(),
{
    if turns.len() > 0 {
        let before = turns.drop_last();
        assert forall|i: int| 0 <= i < before.len() implies {
            &&& (#[trigger] before[i]) != SseTurn::Lost
            &&& before[i] matches SseTurn::Heard(event, data) ==> sse::event_endpoint(
                event,
                data,
            ) is None
        } by {
            assert(before[i] == turns[i]);
        }
        still_waits(before);
        assert(turns[turns.len() - 1] == turns.last());
    }
}

/// The event tells the end of a client's transport.
pub open spec fn tells_end(event: Option<EventView>) -> bool {
    event == Some(EventView::Closed) || event is Some && event->0 is Error
}

/// A client's transport stays over once its end was told.
proof fn sse_stays_over(session: SseSessionView, turns: Seq<SseTurn>, i: int, j: int)
    requires
        session.may_run(turns),
        0 <= i < j <= turns.len(),
        tells_end(session.run(turns.take(i)).told(turns[i])),
    ensures
        session.run(turns.take(j)).over,
    decreases j,
{
    sse_beginning_may_run(session, turns, j - 1);
    if i < j - 1 {
        sse_stays_over(session, turns, i, j - 1);
    } else {
        sse_beginning_may_run(session, turns, i);
    }
}

/// A client's transport tells its end once. It is a failure where the client was never told where
/// to post, and else that it is closed; after it no command is taken.
pub proof fn sse_end_is_told_once(
    session: SseSessionView,
    turns: Seq<SseTurn>,
    i: int,
    j: int,
)
    requires
        session.may_run(turns),
        0 <= i < j < turns.len(),
        tells_end(session.run(turns.take(i)).told(turns[i])),
    ensures
        session.run(turns.take(i)).told(turns[i]) == Some(
            if session.run(turns.take(i)).endpoint is Some {
                EventView::Closed
            } else {
                EventView::Error(McpErrorView::ConnectionClosed)
            },
        ),
        !tells_end(session.run(turns.take(j)).told(turns[j])),
        !(turns[j] is Took),
{
    sse_stays_over(session, turns, i, j);
    sse_beginning_may_run(session, turns, i);
    sse_beginning_may_run(session, turns, j);
}

} // verus!
