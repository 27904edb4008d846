//! One live session with the voice service, as a state machine: commands
//! wait in order for the writing half, and what the reading half receives
//! becomes events.

use vstd::prelude::*;
use vstd::slice::slice_to_vec;
use crate::text::{decimal, decimal_text};
use crate::json::{json_document, json_rendering};
use crate::protocol::{
    command_value,
    commands_view,
    encode_command,
    events_of_text,
    events_view,
    parse_server_message,
    parts_events,
    setup_message,
    setup_value,
    ClientCommand,
    CommandModel,
    EventModel,
    FunctionResponse,
    GeminiEvent,
    DEFAULT_MODEL,
};

verus! {

/// Where the service listens; the API key follows.
pub const ENDPOINT_PREFIX: &'static str =
    "wss://generativelanguage.googleapis.com/ws/google.ai.generativelanguage.v1beta.GenerativeService.BidiGenerateContent?key=";

/// How opening the transport and sending the setup message went.
#[derive(Debug, PartialEq)]
pub enum Handshake {
    /// The transport is up and the setup message is on its way.
    Established,
    /// The transport could not be opened; the text is the transport's.
    TransportFailed(String),
    /// The setup message could not be sent; the text is the transport's.
    SetupFailed(String),
}

/// Why no session was created.
#[derive(Debug, PartialEq)]
pub enum ConnectError {
    Transport(String),
    Setup(String),
}

impl ConnectError {
    /// The text shown for the error.
    pub fn message(&self) -> (text: String)
        ensures
            text@ == match self {
                ConnectError::Transport(e) => "WebSocket connect failed: "@ + e@,
                ConnectError::Setup(e) => "Failed to send setup: "@ + e@,
            },
    {
        match self {
            ConnectError::Transport(e) => "WebSocket connect failed: ".to_owned().concat(e.as_str()),
            ConnectError::Setup(e) => "Failed to send setup: ".to_owned().concat(e.as_str()),
        }
    }
}

/// Where a session stands.
#[derive(Clone, Copy, Debug, PartialEq, Eq, Structural)]
pub enum SessionPhase {
    /// The setup message is out; the acknowledgement has not come.
    Connecting,
    /// The service acknowledged the setup.
    Open,
    /// A close was asked for; the writing half has not sent it yet.
    Closing,
    /// Closed, by either side.
    Closed,
    /// The transport failed.
    Errored,
}

/// What the writing half does next.
#[derive(Debug, PartialEq)]
pub enum WriteStep {
    /// Nothing waits.
    Idle,
    /// Send this text as one message.
    Send(String),
    /// Send a close frame and stop writing.
    CloseTransport,
    /// The writing half has stopped; nothing more is sent.
    Stopped,
}

/// The reason told for a close: the frame's code and text, or that there was
/// no frame.
pub open spec fn close_reason_of(frame: Option<(u16, Seq<char>)>) -> Seq<char> {
    match frame {
        Some((code, reason)) => "code="@ + decimal(code as nat) + ", reason="@ + reason,
        None => "no frame"@,
    }
}

/// The reason told for a close with this frame.
pub fn close_reason(frame: Option<(u16, &str)>) -> (reason: String)
    ensures
        reason@ == close_reason_of(
            match frame {
                Some((code, text)) => Some((code, text@)),
                None => None,
            },
        ),
{
    match frame {
        Some((code, text)) => "code=".to_owned().concat(decimal_text(code as u64).as_str()).concat(
            ", reason=",
        ).concat(text),
        None => "no frame".to_owned(),
    }
}

/// Whether a message's text is the service's acknowledgement of the setup.
pub open spec fn acknowledges_setup(text: Seq<char>) -> bool {
    json_document(text) matches Some(msg) && msg.field("setupComplete"@) is Some
}

/// The longest audio chunk a command can carry: its base64 text must fit
/// the address space.
pub open spec fn chunk_fits(len: nat) -> bool {
    len <= usize::MAX / 2
}

/// The client of one live session.
pub struct GeminiLiveClient {
    open: bool,
    ready: bool,
    close_requested: bool,
    writer_stopped: bool,
    reader_stopped: bool,
    failed: bool,
    send_count: u64,
    outbound: Vec<ClientCommand>,
}

impl GeminiLiveClient {
    /// Whether commands are still accepted.
    pub closed spec fn open(&self) -> bool {
        self.open
    }

    /// Whether the service has acknowledged the setup.
    pub closed spec fn ready(&self) -> bool {
        self.ready
    }

    /// Whether a close has been asked for.
    pub closed spec fn close_requested(&self) -> bool {
        self.close_requested
    }

    /// Whether the writing half has stopped.
    pub closed spec fn writer_stopped(&self) -> bool {
        self.writer_stopped
    }

    /// Whether the transport failed.
    pub closed spec fn failed(&self) -> bool {
        self.failed
    }

    /// Whether the reading half has ended: it saw a close, an error, or the
    /// end of the stream. Nothing that arrives afterwards is heard.
    pub closed spec fn reader_stopped(&self) -> bool {
        self.reader_stopped
    }

    /// Where the session stands: errored once the transport failed; else
    /// connecting or open while commands are accepted; else closing until
    /// the writing half has sent the close that was asked for; else closed.
    pub open spec fn phase_of(&self) -> SessionPhase {
        if self.failed() {
            SessionPhase::Errored
        } else if self.open() {
            if self.ready() {
                SessionPhase::Open
            } else {
                SessionPhase::Connecting
            }
        } else if self.close_requested() && !self.writer_stopped() {
            SessionPhase::Closing
        } else {
            SessionPhase::Closed
        }
    }

    /// How many audio chunks were accepted.
    pub closed spec fn chunks_sent(&self) -> u64 {
        self.send_count
    }

    /// The commands that wait for the writing half, oldest first.
    pub closed spec fn outbound(&self) -> Seq<ClientCommand> {
        self.outbound@
    }

    /// Every waiting audio chunk is short enough to encode, and a session
    /// that was asked to close, or whose reading half has ended, is not
    /// open.
    pub closed spec fn well_formed(&self) -> bool {
        &&& self.close_requested ==> !self.open
        &&& self.reader_stopped ==> !self.open
        &&& forall|i: int|
            0 <= i < self.outbound@.len() ==> (#[trigger] self.outbound@[i] matches ClientCommand::SendAudio(
                bytes,
            ) ==> chunk_fits(bytes@.len()))
    }

    /// The address to connect to.
    pub fn endpoint(api_key: &str) -> (url: String)
        ensures
            url@ == ENDPOINT_PREFIX@ + api_key@,
    {
        ENDPOINT_PREFIX.to_owned().concat(api_key)
    }

    /// The text of the setup message for a voice and a system instruction.
    pub fn handshake(voice_name: &str, system_instruction: &str) -> (text: String)
        ensures
            text@ == json_rendering(setup_value(DEFAULT_MODEL@, voice_name@, system_instruction@)),
    {
        setup_message(DEFAULT_MODEL, voice_name, system_instruction).render()
    }

    /// Creates the session once the handshake is under way. A transport
    /// that failed, or a setup message that could not be sent, gives the
    /// error and no session. The new session is open and not yet ready.
    pub fn connect(outcome: Handshake) -> (made: Result<GeminiLiveClient, ConnectError>)
        ensures
            match outcome {
                Handshake::Established => made matches Ok(c) && c.well_formed() && c.open() && !c.ready()
                    && !c.close_requested() && !c.writer_stopped() && !c.reader_stopped() && !c.failed()
                    && c.chunks_sent() == 0
                    && c.outbound() == Seq::<ClientCommand>::empty(),
                Handshake::TransportFailed(e) => made matches Err(err) && err == ConnectError::Transport(e),
                Handshake::SetupFailed(e) => made matches Err(err) && err == ConnectError::Setup(e),
            },
    {
        match outcome {
            Handshake::Established => Ok(
                GeminiLiveClient {
                    open: true,
                    ready: false,
                    close_requested: false,
                    writer_stopped: false,
                    reader_stopped: false,
                    failed: false,
                    send_count: 0,
                    outbound: Vec::new(),
                },
            ),
            Handshake::TransportFailed(e) => Err(ConnectError::Transport(e)),
            Handshake::SetupFailed(e) => Err(ConnectError::Setup(e)),
        }
    }

    /// Whether commands are still accepted.
    pub fn is_open(&self) -> (open: bool)
        ensures
            open == self.open(),
    {
        self.open
    }

    /// Where the session stands.
    pub fn phase(&self) -> (phase: SessionPhase)
        ensures
            phase == self.phase_of(),
    {
        if self.failed {
            SessionPhase::Errored
        } else if self.open {
            if self.ready {
                SessionPhase::Open
            } else {
                SessionPhase::Connecting
            }
        } else if self.close_requested && !self.writer_stopped {
            SessionPhase::Closing
        } else {
            SessionPhase::Closed
        }
    }

    /// Whether the service has acknowledged the setup.
    pub fn is_ready(&self) -> (ready: bool)
        ensures
            ready == self.ready(),
    {
        self.ready
    }

    /// How many commands wait.
    pub fn pending_commands(&self) -> (n: usize)
        ensures
            n == self.outbound().len(),
    {
        self.outbound.len()
    }

    fn push(&mut self, cmd: ClientCommand)
        requires
            old(self).well_formed(),
            cmd matches ClientCommand::SendAudio(bytes) ==> chunk_fits(bytes@.len()),
        ensures
            final(self).well_formed(),
            final(self).outbound() == old(self).outbound().push(cmd),
            final(self).open() == old(self).open(),
            final(self).ready() == old(self).ready(),
            final(self).close_requested() == old(self).close_requested(),
            final(self).failed() == old(self).failed(),
            final(self).reader_stopped() == old(self).reader_stopped(),
            final(self).writer_stopped() == old(self).writer_stopped(),
            final(self).chunks_sent() == old(self).chunks_sent(),
    {
        self.outbound.push(cmd);
    }

    /// Queues one chunk of 16 kHz mono PCM. A session that is not open
    /// drops it.
    pub fn send_audio(&mut self, pcm: &[u8])
        requires
            old(self).well_formed(),
            chunk_fits(pcm@.len()),
        ensures
            final(self).well_formed(),
            final(self).open() == old(self).open(),
            final(self).ready() == old(self).ready(),
            final(self).close_requested() == old(self).close_requested(),
            final(self).failed() == old(self).failed(),
            final(self).reader_stopped() == old(self).reader_stopped(),
            final(self).writer_stopped() == old(self).writer_stopped(),
            old(self).open() ==> commands_view(final(self).outbound()) == commands_view(
                old(self).outbound(),
            ).push(CommandModel::SendAudio(pcm@)),
            old(self).open() ==> final(self).chunks_sent() == if old(self).chunks_sent() == u64::MAX {
                u64::MAX
            } else {
                (old(self).chunks_sent() + 1) as u64
            },
            !old(self).open() ==> final(self).outbound() == old(self).outbound() && final(self).chunks_sent()
                == old(self).chunks_sent(),
    {
        if self.open {
            if self.send_count < u64::MAX {
                self.send_count = self.send_count + 1;
            }
            let ghost before = commands_view(self.outbound@);
            self.push(ClientCommand::SendAudio(slice_to_vec(pcm)));
            assert(commands_view(self.outbound@) =~= before.push(CommandModel::SendAudio(pcm@)));
        }
    }

    /// Queues a text turn. A session that is not open drops it.
    pub fn send_text(&mut self, text: &str)
        requires
            old(self).well_formed(),
        ensures
            final(self).well_formed(),
            final(self).open() == old(self).open(),
            final(self).ready() == old(self).ready(),
            final(self).close_requested() == old(self).close_requested(),
            final(self).failed() == old(self).failed(),
            final(self).reader_stopped() == old(self).reader_stopped(),
            final(self).writer_stopped() == old(self).writer_stopped(),
            final(self).chunks_sent() == old(self).chunks_sent(),
            old(self).open() ==> commands_view(final(self).outbound()) == commands_view(
                old(self).outbound(),
            ).push(CommandModel::SendText(text@)),
            !old(self).open() ==> final(self).outbound() == old(self).outbound(),
    {
        if self.open {
            let ghost before = commands_view(self.outbound@);
            self.push(ClientCommand::SendText(text.to_owned()));
            assert(commands_view(self.outbound@) =~= before.push(CommandModel::SendText(text@)));
        }
    }

    /// Queues the mark that the user began to speak.
    pub fn send_activity_start(&mut self)
        requires
            old(self).well_formed(),
        ensures
            final(self).well_formed(),
            final(self).open() == old(self).open(),
            final(self).ready() == old(self).ready(),
            final(self).close_requested() == old(self).close_requested(),
            final(self).failed() == old(self).failed(),
            final(self).reader_stopped() == old(self).reader_stopped(),
            final(self).writer_stopped() == old(self).writer_stopped(),
            final(self).chunks_sent() == old(self).chunks_sent(),
            final(self).outbound() == if old(self).open() {
                old(self).outbound().push(ClientCommand::ActivityStart)
            } else {
                old(self).outbound()
            },
    {
        if self.open {
            self.push(ClientCommand::ActivityStart);
        }
    }

    /// Queues the mark that the user stopped speaking.
    pub fn send_activity_end(&mut self)
        requires
            old(self).well_formed(),
        ensures
            final(self).well_formed(),
            final(self).open() == old(self).open(),
            final(self).ready() == old(self).ready(),
            final(self).close_requested() == old(self).close_requested(),
            final(self).failed() == old(self).failed(),
            final(self).reader_stopped() == old(self).reader_stopped(),
            final(self).writer_stopped() == old(self).writer_stopped(),
            final(self).chunks_sent() == old(self).chunks_sent(),
            final(self).outbound() == if old(self).open() {
                old(self).outbound().push(ClientCommand::ActivityEnd)
            } else {
                old(self).outbound()
            },
    {
        if self.open {
            self.push(ClientCommand::ActivityEnd);
        }
    }

    /// Queues the results of tool calls. A session that is not open drops
    /// them.
    pub fn send_tool_response(&mut self, responses: Vec<FunctionResponse>)
        requires
            old(self).well_formed(),
        ensures
            final(self).well_formed(),
            final(self).open() == old(self).open(),
            final(self).ready() == old(self).ready(),
            final(self).close_requested() == old(self).close_requested(),
            final(self).failed() == old(self).failed(),
            final(self).reader_stopped() == old(self).reader_stopped(),
            final(self).writer_stopped() == old(self).writer_stopped(),
            final(self).chunks_sent() == old(self).chunks_sent(),
            final(self).outbound() == if old(self).open() {
                old(self).outbound().push(ClientCommand::ToolResponse(responses))
            } else {
                old(self).outbound()
            },
    {
        if self.open {
            self.push(ClientCommand::ToolResponse(responses));
        }
    }

    /// Closes the session: no further command is accepted, and the first
    /// call queues the close behind what already waits. Later calls change
    /// nothing.
    pub fn close(&mut self)
        requires
            old(self).well_formed(),
        ensures
            final(self).well_formed(),
            !final(self).open(),
            final(self).close_requested(),
            final(self).failed() == old(self).failed(),
            final(self).reader_stopped() == old(self).reader_stopped(),
            final(self).ready() == old(self).ready(),
            final(self).writer_stopped() == old(self).writer_stopped(),
            final(self).chunks_sent() == old(self).chunks_sent(),
            final(self).outbound() == if old(self).close_requested() {
                old(self).outbound()
            } else {
                old(self).outbound().push(ClientCommand::Close)
            },
            old(self).close_requested() ==> *final(self) == *old(self),
    {
        self.open = false;
        if !self.close_requested {
            self.close_requested = true;
            self.push(ClientCommand::Close);
        }
    }

    /// The writing half's next step. Commands leave in the order they were
    /// queued; a close ends the writing half once everything before it has
    /// left.
    pub fn next_outbound(&mut self) -> (step: WriteStep)
        requires
            old(self).well_formed(),
        ensures
            final(self).well_formed(),
            wrote(*old(self), *final(self), step),
    {
        if self.writer_stopped {
            return WriteStep::Stopped;
        }
        if self.outbound.len() == 0 {
            return WriteStep::Idle;
        }
        let ghost queue = self.outbound@;
        let cmd = self.outbound.remove(0);
        assert(self.outbound@ =~= queue.skip(1));
        assert(cmd == queue[0]);
        match encode_command(&cmd) {
            Some(text) => WriteStep::Send(text),
            None => {
                self.open = false;
                self.writer_stopped = true;
                WriteStep::CloseTransport
            },
        }
    }

    /// A write failed: the session has failed, is closed, and the writing
    /// half stops.
    pub fn write_failed(&mut self)
        ensures
            old(self).well_formed() ==> final(self).well_formed(),
            write_broke(*old(self), *final(self)),
    {
        self.open = false;
        self.writer_stopped = true;
        self.failed = true;
    }

    /// One message from the service. The session becomes ready exactly on
    /// the acknowledgement of the setup; text that is not JSON is dropped.
    /// Once the reading half has ended nothing is heard.
    pub fn on_message(&mut self, text: &str) -> (events: Vec<GeminiEvent>)
        ensures
            final(self).well_formed() == old(self).well_formed(),
            heard(*old(self), *final(self), text@, events_view(events@)),
    {
        if self.reader_stopped {
            let events: Vec<GeminiEvent> = Vec::new();
            assert(events_view(events@) =~= Seq::<EventModel>::empty());
            return events;
        }
        let events = parse_server_message(text);
        proof {
            ready_only_on_acknowledgement(text@);
        }
        if events.len() == 1 {
            if let GeminiEvent::Ready = &events[0] {
                assert(events_view(events@)[0] == EventModel::Ready);
                self.ready = true;
            } else {
                assert(events_view(events@)[0] != EventModel::Ready);
            }
        } else {
            assert(events_view(events@).len() != 1);
        }
        events
    }

    /// The service closed the connection: the session is closed, the
    /// reading half ends, and the owner is told why. Once the reading half
    /// has ended there is nothing more to tell.
    pub fn on_close(&mut self, reason: String) -> (event: Option<GeminiEvent>)
        ensures
            old(self).well_formed() ==> final(self).well_formed(),
            ended(*old(self), *final(self), false),
            event == if old(self).reader_stopped() {
                None
            } else {
                Some(GeminiEvent::Closed(reason))
            },
    {
        if self.reader_stopped {
            return None;
        }
        self.open = false;
        self.reader_stopped = true;
        Some(GeminiEvent::Closed(reason))
    }

    /// The transport failed while reading: the session has failed and is
    /// closed, the reading half ends, and the owner is told what failed.
    /// Once the reading half has ended there is nothing more to tell.
    pub fn on_error(&mut self, message: String) -> (event: Option<GeminiEvent>)
        ensures
            old(self).well_formed() ==> final(self).well_formed(),
            ended(*old(self), *final(self), true),
            event == if old(self).reader_stopped() {
                None
            } else {
                Some(GeminiEvent::Error(message))
            },
    {
        if self.reader_stopped {
            return None;
        }
        self.open = false;
        self.failed = true;
        self.reader_stopped = true;
        Some(GeminiEvent::Error(message))
    }

    /// The stream ended without a close or an error: the session is closed
    /// and the reading half ends; there is nothing to tell.
    pub fn on_stream_end(&mut self)
        ensures
            old(self).well_formed() ==> final(self).well_formed(),
            ended(*old(self), *final(self), false),
    {
        if !self.reader_stopped {
            self.open = false;
            self.reader_stopped = true;
        }
    }
}

/// What no step of either half changes: how many chunks were accepted, and
/// whether a close was asked for.
pub open spec fn same_counts(before: GeminiLiveClient, after: GeminiLiveClient) -> bool {
    &&& after.chunks_sent() == before.chunks_sent()
    &&& after.close_requested() == before.close_requested()
}

/// One step of the writing half, from `before` to `after`. A writer that
/// has stopped stays stopped; an empty queue is idle; else the oldest
/// command leaves, as its message, or as the close that ends the writer.
pub open spec fn wrote(before: GeminiLiveClient, after: GeminiLiveClient, step: WriteStep) -> bool {
    &&& same_counts(before, after)
    &&& after.ready() == before.ready()
    &&& after.failed() == before.failed()
    &&& after.reader_stopped() == before.reader_stopped()
    &&& if before.writer_stopped() {
        step == WriteStep::Stopped && after == before
    } else if before.outbound().len() == 0 {
        step == WriteStep::Idle && after == before
    } else {
        &&& after.outbound() == before.outbound().skip(1)
        &&& match command_value(before.outbound()[0]@) {
            Some(v) => {
                &&& step matches WriteStep::Send(text) && text@ == json_rendering(v)
                &&& after.open() == before.open()
                &&& !after.writer_stopped()
            },
            None => step == WriteStep::CloseTransport && !after.open() && after.writer_stopped(),
        }
    }
}

/// A write failed, from `before` to `after`: failed, closed, writer stopped.
pub open spec fn write_broke(before: GeminiLiveClient, after: GeminiLiveClient) -> bool {
    &&& same_counts(before, after)
    &&& !after.open()
    &&& after.writer_stopped()
    &&& after.failed()
    &&& after.ready() == before.ready()
    &&& after.reader_stopped() == before.reader_stopped()
    &&& after.outbound() == before.outbound()
}

/// One message heard, from `before` to `after`, with the events it gave.
/// A reading half that has ended hears nothing and changes nothing.
pub open spec fn heard(
    before: GeminiLiveClient,
    after: GeminiLiveClient,
    text: Seq<char>,
    events: Seq<EventModel>,
) -> bool {
    if before.reader_stopped() {
        events == Seq::<EventModel>::empty() && after == before
    } else {
        &&& events == events_of_text(text)
        &&& after.ready() == (before.ready() || acknowledges_setup(text))
        &&& after.open() == before.open()
        &&& after.failed() == before.failed()
        &&& after.writer_stopped() == before.writer_stopped()
        &&& !after.reader_stopped()
        &&& after.outbound() == before.outbound()
        &&& same_counts(before, after)
    }
}

/// The reading half ended, from `before` to `after`; `broken` tells whether
/// by a failure of the transport. A reading half that had ended before
/// changes nothing.
pub open spec fn ended(before: GeminiLiveClient, after: GeminiLiveClient, broken: bool) -> bool {
    if before.reader_stopped() {
        after == before
    } else {
        &&& !after.open()
        &&& after.reader_stopped()
        &&& after.failed() == (before.failed() || broken)
        &&& after.ready() == before.ready()
        &&& after.writer_stopped() == before.writer_stopped()
        &&& after.outbound() == before.outbound()
        &&& same_counts(before, after)
    }
}

/// After the reading half has ended the session is not open, nothing is
/// heard and nothing is told: a message gives no event, and neither a close
/// nor an error changes the session again. The one event of the end is the
/// last.
pub proof fn nothing_follows_the_end(
    before: GeminiLiveClient,
    after: GeminiLiveClient,
    text: Seq<char>,
    events: Seq<EventModel>,
    broken: bool,
)
    requires
        before.well_formed(),
        before.reader_stopped(),
    ensures
        !before.open(),
        heard(before, after, text, events) ==> events.len() == 0 && after == before,
        ended(before, after, broken) ==> after == before,
{
}

/// The parts of a model turn never announce readiness.
pub proof fn parts_never_ready(parts: Seq<crate::json::JsonValue>, n: int)
    ensures
        forall|i: int| 0 <= i < parts_events(parts, n).len() ==> parts_events(parts, n)[i] != EventModel::Ready,
    decreases n,
{
    if n > 0 && n <= parts.len() {
        parts_never_ready(parts, n - 1);
    }
}

/// A message announces readiness exactly when it acknowledges the setup,
/// and then it announces nothing else.
pub proof fn ready_only_on_acknowledgement(text: Seq<char>)
    ensures
        acknowledges_setup(text) ==> events_of_text(text) == seq![EventModel::Ready],
        !acknowledges_setup(text) ==> forall|i: int|
            0 <= i < events_of_text(text).len() ==> events_of_text(text)[i] != EventModel::Ready,
{
    if let Some(msg) = json_document(text) {
        if msg.field("setupComplete"@) is None {
            if let Some(content) = msg.field("serverContent"@) {
                if let Some(crate::json::JsonValue::Array(parts)) = crate::json::field_of(
                    content.field("modelTurn"@),
                    "parts"@,
                ) {
                    parts_never_ready(parts, parts.len() as int);
                }
            }
        }
    }
}

} // verus!
