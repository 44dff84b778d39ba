//! Messages over standard input and output, one to a line.
use crate::json;
use crate::text;
use crate::text::{contains, same_text, trim};
use crate::transport;
use crate::transport::message::{JsonRpcMessage, MessageView};
use crate::transport::{CommandView, EventView, TransportCommand, TransportEvent};
use vstd::prelude::*;
use vstd::string::*;

verus! {

/// How many commands and events may wait, unless it is said otherwise.
pub const DEFAULT_BUFFER_SIZE: usize = 4092;

/// The transport over standard input and output.
#[derive(Debug, Clone, Copy)]
pub struct StdioTransport {
    buffer_size: usize,
}

impl StdioTransport {
    /// How many commands and events may wait.
    pub closed spec fn capacity(self) -> usize {
        self.buffer_size
    }

    /// A transport in which `buffer_size` commands and events may wait.
    pub fn new(buffer_size: Option<usize>) -> (transport: StdioTransport)
        ensures
            transport.capacity() == match buffer_size {
                Some(buffer_size) => buffer_size,
                None => DEFAULT_BUFFER_SIZE,
            },
    {
        StdioTransport {
            buffer_size: match buffer_size {
                Some(buffer_size) => buffer_size,
                None => DEFAULT_BUFFER_SIZE,
            },
        }
    }

    /// How many commands and events may wait.
    pub fn buffer_size(&self) -> (buffer_size: usize)
        ensures
            buffer_size == self.capacity(),
    {
        self.buffer_size
    }
}

/// The message is a log entry of the transport itself.
pub open spec fn is_transport_log(message: MessageView) -> bool {
    match message {
        MessageView::Notification(notification) => {
            &&& notification.method == "notifications/message"@
            &&& notification.params matches Some(params)
            &&& params.text_member("logger"@) matches Some(logger)
            &&& text::contains_text(logger, "mcp_rs::transport"@)
        },
        _ => false,
    }
}

/// The text that a line is read for: what begins with a brace, without the white space round it.
pub open spec fn line_text(line: Seq<char>) -> Option<Seq<char>> {
    let inner = text::trimmed(line);
    if inner.len() > 0 && inner[0] == '{' {
        Some(inner)
    } else {
        None
    }
}

/// The message that a line brings in. A line that is no message is passed over, and so is a log
/// entry of the transport itself.
pub open spec fn line_message(line: Seq<char>) -> Option<MessageView> {
    match line_text(line) {
        Some(inner) => match MessageView::of_text(inner) {
            Some(message) => if is_transport_log(message) {
                None
            } else {
                Some(message)
            },
            None => None,
        },
        None => None,
    }
}

/// The text is a line with its end.
pub open spec fn is_line(text: Seq<char>) -> bool {
    text.len() > 0 && text.last() == '\n' && json::on_one_line(text.drop_last())
}

/// The lines of what was written, each with its end; the last may lack it.
pub open spec fn lines(written: Seq<char>) -> Seq<Seq<char>>
    decreases written.len(),
{
    if written.len() == 0 {
        Seq::empty()
    } else {
        let before = lines(written.drop_last());
        if before.len() == 0 || before.last().last() == '\n' {
            before.push(Seq::empty().push(written.last()))
        } else {
            before.drop_last().push(before.last().push(written.last()))
        }
    }
}

/// Texts written one after the other.
pub open spec fn in_turn(texts: Seq<Seq<char>>) -> Seq<char>
    decreases texts.len(),
{
    if texts.len() == 0 {
        Seq::empty()
    } else {
        in_turn(texts.drop_last()) + texts.last()
    }
}

/// Lines that are written one after the other are read one after the other: as many, the same,
/// and in the same order.
pub proof fn lines_are_read_in_turn(texts: Seq<Seq<char>>)
    requires
        forall|i: int| 0 <= i < texts.len() ==> is_line(#[trigger] texts[i]),
    ensures
        lines(in_turn(texts)) == texts,
    decreases texts.len(),
{
    if texts.len() > 0 {
        let before = texts.drop_last();
        assert forall|i: int| 0 <= i < before.len() implies is_line(#[trigger] before[i]) by {
            assert(before[i] == texts[i]);
        }
        lines_are_read_in_turn(before);
        let line = texts.last();
        assert(is_line(texts[texts.len() - 1]));
        if before.len() > 0 {
            assert(is_line(before[before.len() - 1]));
        }
        line_is_added(in_turn(before), line, line.len());
        assert(line.take(line.len() as int) =~= line);
        assert(before.push(line) =~= texts);
    } else {
        assert(texts =~= Seq::empty());
    }
}

/// What is written of a line after a line end stands on a line of its own.
proof fn line_is_added(written: Seq<char>, line: Seq<char>, len: nat)
    requires
        lines(written).len() == 0 || lines(written).last().last() == '\n',
        is_line(line),
        0 < len <= line.len(),
    ensures
        lines(written + line.take(len as int)) == lines(written).push(line.take(len as int)),
    decreases len,
{
    let all = written + line.take(len as int);
    assert(all.drop_last() =~= written + line.take(len - 1));
    assert(all.last() == line[len - 1]);
    if len == 1 {
        assert(all.drop_last() =~= written);
        assert(line.take(1) =~= Seq::empty().push(line[0]));
    } else {
        line_is_added(written, line, (len - 1) as nat);
        let part = line.take(len - 1);
        assert(part.last() == line.drop_last()[len - 2]);
        assert(lines(written).push(part).drop_last() =~= lines(written));
        assert(part.push(line[len - 1]) =~= line.take(len as int));
    }
}

/// What is done with a command.
#[derive(Debug)]
pub enum StdioStep {
    /// Write this, a line with its end.
    Write(String),
    /// Do nothing.
    Skip,
    /// Take no more commands.
    Stop,
}

/// What a [`StdioStep`] says.
pub enum StdioStepView {
    Write(Seq<char>),
    Skip,
    Stop,
}

impl View for StdioStep {
    type V = StdioStepView;

    open spec fn view(&self) -> StdioStepView {
        match self {
            StdioStep::Write(line) => StdioStepView::Write(line@),
            StdioStep::Skip => StdioStepView::Skip,
            StdioStep::Stop => StdioStepView::Stop,
        }
    }
}

/// What is done with a command: a message is written on a line of its own, unless it is a log
/// entry of the transport itself.
pub open spec fn stdio_step(command: CommandView) -> StdioStepView {
    match command {
        CommandView::SendMessage(message) => if is_transport_log(message) {
            StdioStepView::Skip
        } else {
            match json::json_text(message.json()) {
                Some(text) => StdioStepView::Write(text + "\n"@),
                None => StdioStepView::Skip,
            }
        },
        CommandView::Close => StdioStepView::Stop,
    }
}

/// Whether a message is a log entry of the transport itself, which is neither sent nor taken in.
pub fn should_skip_message(message: &JsonRpcMessage) -> (skip: bool)
    ensures
        skip == is_transport_log(message@),
{
    match message {
        JsonRpcMessage::Notification(notification) => {
            if same_text(notification.method.as_str(), "notifications/message") {
                if let Some(params) = &notification.params {
                    if let Some(logger) = params.get_str("logger") {
                        return contains(logger, "mcp_rs::transport");
                    }
                }
            }
            false
        },
        _ => false,
    }
}

/// Being sent makes no message a log entry of the transport, and none cease to be one.
pub proof fn receiving_keeps_transport_logs(message: MessageView)
    ensures
        is_transport_log(message.received()) == is_transport_log(message),
{
}

/// A request and a response are never taken for log entries.
pub proof fn requests_and_responses_are_never_skipped(message: MessageView)
    requires
        !(message is Notification),
    ensures
        !is_transport_log(message),
        stdio_step(CommandView::SendMessage(message)) != StdioStepView::Stop,
        json::json_text(message.json()) is Some ==> stdio_step(CommandView::SendMessage(message))
            is Write,
{
}

impl StdioTransport {
    /// The text that a line is read for, if any.
    pub fn accept_line(line: &str) -> (inner: Option<&str>)
        ensures
            match inner {
                Some(inner) => line_text(line@) == Some(inner@),
                None => line_text(line@) is None,
            },
    {
        let trimmed: &str = trim(line);
        if !trimmed.is_empty() && trimmed.get_char(0) == '{' {
            Some(trimmed)
        } else {
            None
        }
    }

    /// What a line that was read brings in.
    pub fn read_line(line: &str) -> (event: Option<TransportEvent>)
        ensures
            transport::optional_event_view(event) == match line_message(line@) {
                Some(message) => Some(EventView::Message(message)),
                None => None,
            },
    {
        match StdioTransport::accept_line(line) {
            Some(inner) => match JsonRpcMessage::decode(inner) {
                Some(message) => if should_skip_message(&message) {
                    None
                } else {
                    Some(TransportEvent::Message(message))
                },
                None => None,
            },
            None => None,
        }
    }

    /// What is done with a command. The line that is written for a message brings that message in
    /// on the other side.
    pub fn write_command(command: &TransportCommand) -> (step: StdioStep)
        ensures
            step@ == stdio_step(command@),
            step is Write ==> is_line(step->Write_0@),
            command@ matches CommandView::SendMessage(message) ==> message.survives()
                && !is_transport_log(message) ==> step is Write && line_message(step->Write_0@)
                == Some(message.received()),
    {
        match command {
            TransportCommand::SendMessage(message) => {
                if should_skip_message(message) {
                    return StdioStep::Skip;
                }
                match message.encode() {
                    Some(text) => {
                        let line: String = text.clone().concat("\n");
                        proof {
                            reveal_strlit("\n");
                            assert(line@ =~= text@.push('\n'));
                            assert(line@.drop_last() =~= text@);
                            line_is_trimmed(text@, line@);
                            receiving_keeps_transport_logs(message@);
                        }
                        StdioStep::Write(line)
                    },
                    None => StdioStep::Skip,
                }
            },
            TransportCommand::Close => StdioStep::Stop,
        }
    }

    /// Whether a line that is written is worth a log entry of its own: not where it is itself a
    /// log entry of the transport.
    pub fn should_log_line(line: &str) -> (log: bool)
        ensures
            log == !(text::contains_text(line@, "notifications/message"@) && text::contains_text(
                line@,
                "mcp_rs::transport"@,
            )),
    {
        !contains(line, "notifications/message") || !contains(line, "mcp_rs::transport")
    }
}

/// A text between braces is found again on its line.
pub(crate) proof fn line_is_trimmed(text: Seq<char>, line: Seq<char>)
    requires
        text.len() >= 2,
        text[0] == '{',
        text.last() == '}',
        line == text.push('\n'),
    ensures
        line_text(line) == Some(text),
{
    assert(text::trimmed_start(line) == line);
    assert(line.drop_last() =~= text);
    assert(text::is_space('\n'));
    assert(text::trimmed_end(text) == text);
}

} // verus!
