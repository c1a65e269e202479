//! The gateway session: the messages of the wire protocol, the pair of
//! queues between the session and its socket, and the handshake.

use crate::context::ResumeInfo;
use crate::error::Error;
use crate::json::{json_parsed, json_parsed_bytes, json_printed, Json, JsonValue};
use crate::text::{join, str_eq, text_view};
use std::collections::VecDeque;
use vstd::prelude::*;
use vstd::string::StringExecFns;

verus! {

/// The address of the gateway for a fresh login.
pub const DISCORD_WS_URI: &'static str = "wss://gateway.discord.gg/?encoding=json&v=9";

/// What follows the address of a gateway that a session is resumed at.
pub const RESUME_QUERY: &'static str = "?encoding=json&v=9";

/// The opcode of a dispatch: an event with a sequence number and a name.
pub const OP_DISPATCH: u8 = 0;

/// The opcode of a heartbeat, and of the gateway's request for one.
pub const OP_HEARTBEAT: u8 = 1;

/// The opcode of the identify message that opens a fresh session.
pub const OP_IDENTIFY: u8 = 2;

/// The opcode of the resume message that takes a session up again.
pub const OP_RESUME: u8 = 6;

/// The opcode by which the gateway asks the client to reconnect.
pub const OP_RECONNECT: u8 = 7;

/// The opcode by which the gateway declares the session invalid.
pub const OP_INVALID_SESSION: u8 = 9;

/// The opcode of the gateway's greeting, which names the heartbeat interval.
pub const OP_HELLO: u8 = 10;

/// The opcode by which the gateway acknowledges a heartbeat.
pub const OP_HEARTBEAT_ACK: u8 = 11;

/// The opcode that marks a failure of the transport. The gateway never
/// sends it: the reading side puts it into the inbound queue itself.
pub const OP_TRANSPORT_FAILURE: u8 = 255;

/// One message of the socket: a text or bytes.
#[derive(Debug, Clone)]
pub enum Frame {
    Text(String),
    Binary(Vec<u8>),
}

/// The mathematical value of a [`Frame`].
pub enum FrameView {
    Text(Seq<char>),
    Binary(Seq<u8>),
}

impl View for Frame {
    type V = FrameView;

    open spec fn view(&self) -> FrameView {
        match self {
            Frame::Text(text) => FrameView::Text(text@),
            Frame::Binary(bytes) => FrameView::Binary(bytes@),
        }
    }
}

/// One message of the gateway protocol.
#[derive(Debug, Clone)]
pub struct DiscordMessage {
    /// The opcode.
    pub op: u8,
    /// The payload, `d` on the wire.
    pub data: Json,
    /// The sequence number of a dispatch, `s` on the wire. Never sent.
    pub seq: Option<u64>,
    /// The event name of a dispatch, `t` on the wire. Never sent.
    pub event: Option<String>,
}

/// The mathematical value of a [`DiscordMessage`].
pub struct MessageView {
    pub op: u8,
    pub data: JsonValue,
    pub seq: Option<u64>,
    pub event: Option<Seq<char>>,
}

impl View for DiscordMessage {
    type V = MessageView;

    open spec fn view(&self) -> MessageView {
        MessageView { op: self.op, data: self.data@, seq: self.seq, event: text_view(self.event) }
    }
}

/// The client properties that an identify message reports.
pub open spec fn identify_properties() -> JsonValue {
    JsonValue::Object(Seq::empty()).with("os"@, JsonValue::Text("Windows"@)).with(
        "browser"@,
        JsonValue::Text("Firefox"@),
    ).with("device"@, JsonValue::Text(""@)).with(
        "system_locale"@,
        JsonValue::Text("en-US"@),
    ).with(
        "browser_user_agent"@,
        JsonValue::Text(
            "Mozilla/5.0 (Windows NT 10.0; rv:126.0) Gecko/20100101 Firefox/126.0"@,
        ),
    ).with("browser_version"@, JsonValue::Text("126.0"@)).with(
        "os_version"@,
        JsonValue::Text(""@),
    ).with("referrer"@, JsonValue::Text(""@)).with(
        "referring_domain"@,
        JsonValue::Text(""@),
    ).with("referrer_current"@, JsonValue::Text(""@)).with(
        "referring_domain_current"@,
        JsonValue::Text(""@),
    ).with("release_channel"@, JsonValue::Text("stable"@)).with(
        "client_build_number"@,
        JsonValue::number(327180),
    ).with("client_event_source"@, JsonValue::Null).with("design_id"@, JsonValue::number(0))
}

/// The presence that an identify message announces.
pub open spec fn identify_presence() -> JsonValue {
    JsonValue::Object(Seq::empty()).with("status"@, JsonValue::Text("unknown"@)).with(
        "since"@,
        JsonValue::number(0),
    ).with("activities"@, JsonValue::Array(Seq::empty())).with("afk"@, JsonValue::Bool(false))
}

/// The payload of an identify message for a token.
pub open spec fn identify_payload(token: Seq<char>) -> JsonValue {
    JsonValue::Object(Seq::empty()).with("token"@, JsonValue::Text(token)).with(
        "capabilities"@,
        JsonValue::number(30717),
    ).with("properties"@, identify_properties()).with("presence"@, identify_presence()).with(
        "compress"@,
        JsonValue::Bool(false),
    ).with(
        "client_state"@,
        JsonValue::Object(Seq::empty()).with("guild_versions"@, JsonValue::Object(Seq::empty())),
    )
}

/// The payload of a resume message.
pub open spec fn resume_payload(token: Seq<char>, session_id: Seq<char>, seq: u64) -> JsonValue {
    JsonValue::Object(Seq::empty()).with("token"@, JsonValue::Text(token)).with(
        "session_id"@,
        JsonValue::Text(session_id),
    ).with("seq"@, JsonValue::number(seq as nat))
}

/// What one member of an inbound message holds where it has to be an
/// unsigned integer or missing: `Some(None)` for a missing or `null`
/// member, `Some(Some(n))` for a number, `None` for anything else.
pub open spec fn optional_u64(member: Option<JsonValue>) -> Option<Option<u64>> {
    match member {
        None => Some(None),
        Some(JsonValue::Null) => Some(None),
        Some(value) => match value.as_u64() {
            Some(n) => Some(Some(n)),
            None => None,
        },
    }
}

/// What one member of an inbound message holds where it has to be a text
/// or missing: `Some(None)` for a missing or `null` member, `Some(Some(s))`
/// for a text, `None` for anything else.
pub open spec fn optional_text(member: Option<JsonValue>) -> Option<Option<Seq<char>>> {
    match member {
        None => Some(None),
        Some(JsonValue::Null) => Some(None),
        Some(value) => match value.as_text() {
            Some(s) => Some(Some(s)),
            None => None,
        },
    }
}

/// The opcode that a document names: its member `op`, where that is an
/// unsigned integer of at most 255.
pub open spec fn opcode_of(json: JsonValue) -> Option<u8> {
    match json.get("op"@) {
        Some(value) => match value.as_u64() {
            Some(n) => if n <= 255 {
                Some(n as u8)
            } else {
                None
            },
            None => None,
        },
        None => None,
    }
}

impl MessageView {
    /// A heartbeat that reports the last sequence number seen, or `null`.
    pub open spec fn heartbeat(seq: Option<u64>) -> MessageView {
        MessageView {
            op: OP_HEARTBEAT,
            data: JsonValue::number_or_null(seq),
            seq: None,
            event: None,
        }
    }

    /// The identify message for a token.
    pub open spec fn identify(token: Seq<char>) -> MessageView {
        MessageView { op: OP_IDENTIFY, data: identify_payload(token), seq: None, event: None }
    }

    /// The resume message for a token, a session and the last sequence number.
    pub open spec fn resume(token: Seq<char>, seq: u64, session_id: Seq<char>) -> MessageView {
        MessageView {
            op: OP_RESUME,
            data: resume_payload(token, session_id, seq),
            seq: None,
            event: None,
        }
    }

    /// The document that goes on the wire for a message: its opcode and its
    /// payload. Sequence number and event name are never sent.
    pub open spec fn wire(self) -> JsonValue {
        JsonValue::Object(Seq::empty()).with("op"@, JsonValue::number(self.op as nat)).with(
            "d"@,
            self.data,
        )
    }

    /// The message that a document of the wire stands for: an object with
    /// an opcode `op`, a payload `d` (`null` where it is missing), and a
    /// sequence number `s` and an event name `t` that may be missing or
    /// `null`. `None` for every other document.
    pub open spec fn from_wire(json: JsonValue) -> Option<MessageView> {
        match (opcode_of(json), optional_u64(json.get("s"@)), optional_text(json.get("t"@))) {
            (Some(op), Some(seq), Some(event)) => Some(
                MessageView {
                    op,
                    data: match json.get("d"@) {
                        Some(data) => data,
                        None => JsonValue::Null,
                    },
                    seq,
                    event,
                },
            ),
            _ => None,
        }
    }

    /// The frame that carries a message: the text that the JSON printer
    /// writes for its wire document. `None` where the printer fails.
    pub open spec fn encoded(self) -> Option<FrameView> {
        match json_printed(self.wire()) {
            Some(text) => Some(FrameView::Text(text)),
            None => None,
        }
    }

    /// Whether the message is the dispatch that opens a session.
    pub open spec fn is_ready(self) -> bool {
        self.event == Some("READY"@)
    }
}

impl FrameView {
    /// The message that a frame carries: what the JSON parser reads from
    /// its text or bytes, taken as a wire document. `None` where the parser
    /// refuses the frame or the document is no message.
    pub open spec fn decoded(self) -> Option<MessageView> {
        let parsed = match self {
            FrameView::Text(text) => json_parsed(text),
            FrameView::Binary(bytes) => json_parsed_bytes(bytes),
        };
        match parsed {
            Some(json) => MessageView::from_wire(json),
            None => None,
        }
    }
}

/// The client properties of an identify message.
fn identify_properties_json() -> (r: Json)
    ensures
        r@ == identify_properties(),
{
    Json::object().with("os", Json::text("Windows")).with("browser", Json::text("Firefox")).with(
        "device",
        Json::text(""),
    ).with("system_locale", Json::text("en-US")).with(
        "browser_user_agent",
        Json::text("Mozilla/5.0 (Windows NT 10.0; rv:126.0) Gecko/20100101 Firefox/126.0"),
    ).with("browser_version", Json::text("126.0")).with("os_version", Json::text("")).with(
        "referrer",
        Json::text(""),
    ).with("referring_domain", Json::text("")).with("referrer_current", Json::text("")).with(
        "referring_domain_current",
        Json::text(""),
    ).with("release_channel", Json::text("stable")).with(
        "client_build_number",
        Json::number(327180),
    ).with("client_event_source", Json::Null).with("design_id", Json::number(0))
}

/// The presence of an identify message.
fn identify_presence_json() -> (r: Json)
    ensures
        r@ == identify_presence(),
{
    Json::object().with("status", Json::text("unknown")).with("since", Json::number(0)).with(
        "activities",
        Json::array(),
    ).with("afk", Json::Bool(false))
}

impl DiscordMessage {
    /// A heartbeat that reports the last sequence number seen, or `null`
    /// where none has been seen yet.
    pub fn new_heartbeat(seq: Option<u64>) -> (r: Self)
        ensures
            r@ == MessageView::heartbeat(seq),
    {
        Self {
            op: OP_HEARTBEAT,
            data: match seq {
                None => Json::Null,
                Some(s) => Json::number(s),
            },
            seq: None,
            event: None,
        }
    }

    /// The identify message, which opens a fresh session for a token.
    pub fn new_identify(token: &str) -> (r: Self)
        ensures
            r@ == MessageView::identify(token@),
    {
        let data = Json::object().with("token", Json::text(token)).with(
            "capabilities",
            Json::number(30717),
        ).with("properties", identify_properties_json()).with(
            "presence",
            identify_presence_json(),
        ).with("compress", Json::Bool(false)).with(
            "client_state",
            Json::object().with("guild_versions", Json::object()),
        );
        Self { op: OP_IDENTIFY, data, seq: None, event: None }
    }

    /// The resume message, which takes a session up again after the given
    /// sequence number.
    pub fn new_resume(token: &str, seq: u64, info: &ResumeInfo) -> (r: Self)
        ensures
            r@ == MessageView::resume(token@, seq, info.id@),
    {
        let data = Json::object().with("token", Json::text(token)).with(
            "session_id",
            Json::text(info.id.as_str()),
        ).with("seq", Json::number(seq));
        Self { op: OP_RESUME, data, seq: None, event: None }
    }

    /// Whether the message is the dispatch named `READY`, which opens a
    /// session.
    pub fn is_ready(&self) -> (r: bool)
        ensures
            r == self@.is_ready(),
    {
        match &self.event {
            Some(name) => str_eq(name.as_str(), "READY"),
            None => false,
        }
    }

    /// A copy of the message.
    pub fn duplicate(&self) -> (r: Self)
        ensures
            r@ == self@,
    {
        Self {
            op: self.op,
            data: self.data.duplicate(),
            seq: self.seq,
            event: match &self.event {
                Some(name) => Some(name.clone()),
                None => None,
            },
        }
    }

    /// The document that goes on the wire for the message.
    pub fn to_json(&self) -> (r: Json)
        ensures
            r@ == self@.wire(),
    {
        Json::object().with("op", Json::number(self.op as u64)).with("d", self.data.duplicate())
    }

    /// Reads a message from a document of the wire.
    ///
    /// Fails with [`Error::MalformedFrame`] where the document is no object
    /// with an opcode of at most 255, or where its sequence number or event
    /// name is neither missing nor `null` nor of the right kind.
    pub fn from_json(json: &Json) -> (r: Result<Self, Error>)
        ensures
            match r {
                Ok(message) => MessageView::from_wire(json@) == Some(message@),
                Err(e) => e is MalformedFrame && MessageView::from_wire(json@) is None,
            },
    {
        let op: u8 = match json.get("op") {
            Some(value) => match value.as_u64() {
                Some(n) => if n <= 255 {
                    n as u8
                } else {
                    return Err(Error::MalformedFrame);
                },
                None => {
                    return Err(Error::MalformedFrame);
                },
            },
            None => {
                return Err(Error::MalformedFrame);
            },
        };
        let seq: Option<u64> = match json.get("s") {
            None => None,
            Some(value) => if value.is_null() {
                None
            } else {
                match value.as_u64() {
                    Some(n) => Some(n),
                    None => {
                        return Err(Error::MalformedFrame);
                    },
                }
            },
        };
        let event: Option<String> = match json.get("t") {
            None => None,
            Some(value) => if value.is_null() {
                None
            } else {
                match value.as_str() {
                    Some(name) => Some(String::from_str(name)),
                    None => {
                        return Err(Error::MalformedFrame);
                    },
                }
            },
        };
        let data = match json.get("d") {
            Some(data) => data.duplicate(),
            None => Json::Null,
        };
        Ok(Self { op, data, seq, event })
    }
}

/// The text of the frame that reports a failure of the transport.
pub const TRANSPORT_FAILURE_FRAME: &'static str = "{\"op\":255}";

/// How long the writing side waits between two flushes, in milliseconds.
pub const WRITE_INTERVAL_MS: u64 = 5;

/// How long a blocking read waits before it looks at the inbound queue
/// again, in milliseconds.
pub const READ_POLL_MS: u64 = 5;

/// How long a failed attempt to connect is followed by a pause, in
/// milliseconds.
pub const CONNECT_RETRY_MS: u64 = 5000;

/// The values of a run of frames.
pub open spec fn frames_view(frames: Seq<Frame>) -> Seq<FrameView> {
    frames.map_values(|frame: Frame| frame@)
}

/// What the reading side of the socket reports.
#[derive(Debug)]
pub enum ReadEvent {
    /// A frame arrived.
    Frame(Frame),
    /// The transport failed.
    Failed,
    /// The stream ended.
    Ended,
}

/// The pair of queues between a session and its socket. Frames that
/// arrived wait in the inbound queue until the session reads them; frames
/// that the session sent wait in the outbound queue until the writing side
/// flushes them. Both queues hand frames out in the order in which they
/// came in.
#[derive(Debug)]
pub struct StreamCtrl {
    rx: VecDeque<Frame>,
    tx: VecDeque<Frame>,
    rx_closed: bool,
    tx_closed: bool,
}

/// The mathematical value of a [`StreamCtrl`]: both queues, oldest frame
/// first, and whether each has been closed.
pub struct StreamView {
    pub inbound: Seq<FrameView>,
    pub outbound: Seq<FrameView>,
    pub inbound_closed: bool,
    pub outbound_closed: bool,
}

impl View for StreamCtrl {
    type V = StreamView;

    closed spec fn view(&self) -> StreamView {
        StreamView {
            inbound: frames_view(self.rx@),
            outbound: frames_view(self.tx@),
            inbound_closed: self.rx_closed,
            outbound_closed: self.tx_closed,
        }
    }
}

impl StreamView {
    /// Two empty, open queues.
    pub open spec fn fresh() -> StreamView {
        StreamView {
            inbound: Seq::empty(),
            outbound: Seq::empty(),
            inbound_closed: false,
            outbound_closed: false,
        }
    }

    /// The queues after the reading side has reported an event: a frame
    /// joins the inbound queue; a failure closes the inbound queue and puts
    /// the transport-failure frame into it; the end of the stream closes it.
    pub open spec fn on_read(self, event: ReadEvent) -> StreamView {
        match event {
            ReadEvent::Frame(frame) => StreamView { inbound: self.inbound.push(frame@), ..self },
            ReadEvent::Failed => StreamView {
                inbound: self.inbound.push(FrameView::Text(TRANSPORT_FAILURE_FRAME@)),
                inbound_closed: true,
                ..self
            },
            ReadEvent::Ended => StreamView { inbound_closed: true, ..self },
        }
    }

    /// The queues with one more frame to send.
    pub open spec fn push_outbound(self, frame: FrameView) -> StreamView {
        StreamView { outbound: self.outbound.push(frame), ..self }
    }

    /// The queues without the oldest inbound frame.
    pub open spec fn pop_inbound(self) -> StreamView {
        StreamView { inbound: self.inbound.skip(1), ..self }
    }
}

impl StreamCtrl {
    /// Two empty queues for a new connection.
    pub fn new() -> (r: Self)
        ensures
            r@ == StreamView::fresh(),
    {
        let r = Self {
            rx: VecDeque::with_capacity(64),
            tx: VecDeque::with_capacity(64),
            rx_closed: false,
            tx_closed: false,
        };
        assert(r@.inbound =~= Seq::empty());
        assert(r@.outbound =~= Seq::empty());
        r
    }

    /// Takes in what the reading side of the socket reports, and says
    /// whether the reading side goes on: it stops after a failure and at
    /// the end of the stream.
    pub fn on_read(&mut self, event: ReadEvent) -> (proceed: bool)
        ensures
            final(self)@ == old(self)@.on_read(event),
            proceed == (event is Frame),
    {
        let ghost before = self@;
        match event {
            ReadEvent::Frame(frame) => {
                self.rx.push_back(frame);
                assert(self@.inbound =~= before.inbound.push(frame@));
                true
            },
            ReadEvent::Failed => {
                self.rx_closed = true;
                self.rx.push_back(Frame::Text(String::from_str(TRANSPORT_FAILURE_FRAME)));
                assert(self@.inbound =~= before.inbound.push(
                    FrameView::Text(TRANSPORT_FAILURE_FRAME@),
                ));
                false
            },
            ReadEvent::Ended => {
                self.rx_closed = true;
                false
            },
        }
    }

    /// Hands out every frame that waits to be sent, oldest first, and
    /// leaves the outbound queue empty: one batch for one flush.
    pub fn take_outbound(&mut self) -> (batch: Vec<Frame>)
        ensures
            frames_view(batch@) == old(self)@.outbound,
            final(self)@ == (StreamView { outbound: Seq::empty(), ..old(self)@ }),
    {
        let ghost before = self@;
        let mut batch: Vec<Frame> = Vec::new();
        while self.tx.len() > 0
            invariant
                frames_view(batch@) + frames_view(self.tx@) == before.outbound,
                self.rx == old(self).rx,
                self.rx_closed == old(self).rx_closed,
                self.tx_closed == old(self).tx_closed,
            decreases self.tx.len(),
        {
            let ghost batch_before = frames_view(batch@);
            let ghost queue_before = frames_view(self.tx@);
            let frame = self.tx.pop_front().unwrap();
            batch.push(frame);
            assert(frames_view(batch@) =~= batch_before.push(frame@));
            assert(frames_view(self.tx@) =~= queue_before.skip(1));
            assert(batch_before.push(frame@) + queue_before.skip(1) =~= batch_before
                + queue_before);
        }
        assert(frames_view(self.tx@) =~= Seq::empty());
        assert(frames_view(batch@) =~= before.outbound);
        batch
    }

    /// Takes in how a flush went, and says whether the writing side goes
    /// on: a failed flush closes the outbound queue and stops it.
    pub fn on_flush(&mut self, flushed: bool) -> (proceed: bool)
        ensures
            final(self)@ == (StreamView {
                outbound_closed: old(self)@.outbound_closed || !flushed,
                ..old(self)@
            }),
            proceed == flushed,
    {
        if !flushed {
            self.tx_closed = true;
        }
        flushed
    }

    /// Puts a frame at the end of the outbound queue.
    pub fn push_outbound(&mut self, frame: Frame)
        ensures
            final(self)@ == old(self)@.push_outbound(frame@),
    {
        let ghost before = self@;
        self.tx.push_back(frame);
        assert(self@.outbound =~= before.outbound.push(frame@));
    }

    /// Takes the oldest frame out of the inbound queue, if there is one.
    pub fn pop_inbound(&mut self) -> (r: Option<Frame>)
        ensures
            match r {
                Some(frame) => old(self)@.inbound.len() > 0 && frame@ == old(self)@.inbound[0]
                    && final(self)@ == old(self)@.pop_inbound(),
                None => old(self)@.inbound.len() == 0 && final(self)@ == old(self)@,
            },
    {
        let ghost before = self@;
        let r = self.rx.pop_front();
        proof {
            if r is Some {
                assert(self@.inbound =~= before.inbound.skip(1));
            }
        }
        r
    }

    /// How many frames wait to be read.
    pub fn inbound_len(&self) -> (r: usize)
        ensures
            r == self@.inbound.len(),
    {
        self.rx.len()
    }

    /// How many frames wait to be sent.
    pub fn outbound_len(&self) -> (r: usize)
        ensures
            r == self@.outbound.len(),
    {
        self.tx.len()
    }

    /// Whether the reading side has closed the inbound queue.
    pub fn inbound_closed(&self) -> (r: bool)
        ensures
            r == self@.inbound_closed,
    {
        self.rx_closed
    }

    /// Whether the writing side has closed the outbound queue.
    pub fn outbound_closed(&self) -> (r: bool)
        ensures
            r == self@.outbound_closed,
    {
        self.tx_closed
    }
}

/// How far the handshake of a session has come.
#[derive(Debug, Clone, Copy, PartialEq, Eq, Structural)]
pub enum Handshake {
    /// The gateway's greeting has not been read yet.
    AwaitHello,
    /// The first heartbeat is sent and its acknowledgment not read yet.
    AwaitAck,
    /// The identify or resume message is sent.
    Established,
}

/// What follows an attempt to open the connection.
#[derive(Debug, Clone, Copy, PartialEq, Eq, Structural)]
pub enum ConnectStep {
    /// The connection stands.
    Connected,
    /// The attempt is made again after so many milliseconds.
    RetryAfter(u64),
}

/// One connection to the gateway: its queues, the heartbeat interval that
/// the gateway asked for, and the last sequence number seen.
#[derive(Debug)]
pub struct Websocket {
    /// The queues between the session and its socket.
    pub q: StreamCtrl,
    /// Whether the session is ready. A new session is not.
    pub ready: bool,
    /// The heartbeat interval in milliseconds; zero until the greeting is read.
    pub heartbeat: u64,
    /// The last sequence number seen.
    pub sequence: Option<u64>,
    /// The address that the connection goes to.
    pub url: String,
    /// The token that the handshake presents.
    pub auth: Option<String>,
    /// How far the handshake has come.
    pub phase: Handshake,
}

/// The mathematical value of a [`Websocket`].
pub struct WebsocketView {
    pub stream: StreamView,
    pub ready: bool,
    pub heartbeat: u64,
    pub sequence: Option<u64>,
    pub url: Seq<char>,
    pub auth: Option<Seq<char>>,
    pub phase: Handshake,
}

impl View for Websocket {
    type V = WebsocketView;

    open spec fn view(&self) -> WebsocketView {
        WebsocketView {
            stream: self.q@,
            ready: self.ready,
            heartbeat: self.heartbeat,
            sequence: self.sequence,
            url: self.url@,
            auth: text_view(self.auth),
            phase: self.phase,
        }
    }
}

/// The later of two sequence numbers, where a missing one is the earliest.
pub open spec fn later_sequence(a: Option<u64>, b: Option<u64>) -> Option<u64> {
    match (a, b) {
        (Some(x), Some(y)) => if x >= y {
            a
        } else {
            b
        },
        (Some(_), None) => a,
        (None, _) => b,
    }
}

/// How one step of a handshake ends.
pub enum StepOutcome {
    /// No frame is there to read.
    Waiting,
    /// The greeting is read and the first heartbeat sent.
    Greeted,
    /// The handshake is complete.
    Complete,
    /// The handshake failed.
    Failed(Error),
}

impl StepOutcome {
    /// What the caller of a handshake is told: whether it is complete, or
    /// why it failed.
    pub open spec fn report(self) -> Result<bool, Error> {
        match self {
            StepOutcome::Waiting => Ok(false),
            StepOutcome::Greeted => Ok(false),
            StepOutcome::Complete => Ok(true),
            StepOutcome::Failed(e) => Err(e),
        }
    }
}

impl WebsocketView {
    /// A session that has not started: empty queues, no heartbeat interval,
    /// the handshake ahead.
    pub open spec fn fresh(url: Seq<char>, sequence: Option<u64>) -> WebsocketView {
        WebsocketView {
            stream: StreamView::fresh(),
            ready: false,
            heartbeat: 0,
            sequence,
            url,
            auth: None,
            phase: Handshake::AwaitHello,
        }
    }

    /// The session after a message has been put into the outbound queue,
    /// or why it could not be.
    pub open spec fn send(self, message: MessageView) -> Result<WebsocketView, Error> {
        match message.encoded() {
            Some(frame) => Ok(WebsocketView { stream: self.stream.push_outbound(frame), ..self }),
            None => Err(Error::Unserializable),
        }
    }

    /// The session without the oldest inbound frame.
    pub open spec fn pop_inbound(self) -> WebsocketView {
        WebsocketView { stream: self.stream.pop_inbound(), ..self }
    }

    /// The session after a sequence number has been seen: the tracked
    /// number never moves backward.
    pub open spec fn track(self, seq: Option<u64>) -> WebsocketView {
        WebsocketView { sequence: later_sequence(self.sequence, seq), ..self }
    }

    /// The heartbeat interval that a greeting names: the member
    /// `heartbeat_interval` of its payload, where that is an unsigned integer.
    pub open spec fn greeted_interval(hello: MessageView) -> Option<u64> {
        match hello.data.get("heartbeat_interval"@) {
            Some(value) => value.as_u64(),
            None => None,
        }
    }

    /// One step of the handshake, which ends with the given opening message.
    ///
    /// Nothing happens once the handshake is complete or while no frame
    /// waits. Else the oldest inbound frame is read. Before the greeting,
    /// it has to be a message that names a heartbeat interval: the interval
    /// is kept and a heartbeat without sequence number is sent. After it,
    /// any message counts as the acknowledgment, and the opening message is
    /// sent.
    pub open spec fn handshake_step(self, opening: MessageView) -> (WebsocketView, StepOutcome) {
        if self.phase == Handshake::Established {
            (self, StepOutcome::Complete)
        } else if self.stream.inbound.len() == 0 {
            (self, StepOutcome::Waiting)
        } else {
            let rest = self.pop_inbound();
            match self.stream.inbound[0].decoded() {
                None => (rest, StepOutcome::Failed(Error::MalformedFrame)),
                Some(message) => if self.phase == Handshake::AwaitHello {
                    match Self::greeted_interval(message) {
                        None => (rest, StepOutcome::Failed(Error::MissingHeartbeatInterval)),
                        Some(interval) => {
                            let greeted = WebsocketView { heartbeat: interval, ..rest };
                            match greeted.send(MessageView::heartbeat(None)) {
                                Ok(sent) => (
                                    WebsocketView { phase: Handshake::AwaitAck, ..sent },
                                    StepOutcome::Greeted,
                                ),
                                Err(e) => (greeted, StepOutcome::Failed(e)),
                            }
                        },
                    }
                } else {
                    match rest.send(opening) {
                        Ok(sent) => (
                            WebsocketView { phase: Handshake::Established, ..sent },
                            StepOutcome::Complete,
                        ),
                        Err(e) => (rest, StepOutcome::Failed(e)),
                    }
                },
            }
        }
    }

    /// The handshake as far as the frames that wait allow: one step, and
    /// after a greeting a second one.
    pub open spec fn handshake(self, opening: MessageView) -> (WebsocketView, Result<bool, Error>) {
        let (first, outcome) = self.handshake_step(opening);
        if outcome is Greeted {
            let (second, outcome) = first.handshake_step(opening);
            (second, outcome.report())
        } else {
            (first, outcome.report())
        }
    }

    /// The handshake of a fresh login. It needs a token.
    pub open spec fn login(self) -> (WebsocketView, Result<bool, Error>) {
        match self.auth {
            None => (self, Err(Error::NoTokenGiven)),
            Some(token) => self.handshake(MessageView::identify(token)),
        }
    }

    /// The handshake that resumes a session. It needs a token and a
    /// sequence number to resume after.
    pub open spec fn resume(self, session_id: Seq<char>) -> (WebsocketView, Result<bool, Error>) {
        match (self.auth, self.sequence) {
            (None, _) => (self, Err(Error::NoTokenGiven)),
            (Some(_), None) => (self, Err(Error::NotLoggedIn)),
            (Some(token), Some(seq)) => self.handshake(
                MessageView::resume(token, seq, session_id),
            ),
        }
    }
}

impl Websocket {
    /// What follows an attempt to open the connection: the gateway has to
    /// be reached in the end, so a failed attempt is made again after
    /// [`CONNECT_RETRY_MS`], without a limit.
    pub fn connect(connected: bool) -> (r: ConnectStep)
        ensures
            r == if connected {
                ConnectStep::Connected
            } else {
                ConnectStep::RetryAfter(CONNECT_RETRY_MS)
            },
    {
        if connected {
            ConnectStep::Connected
        } else {
            ConnectStep::RetryAfter(CONNECT_RETRY_MS)
        }
    }

    /// A session for a fresh login, at the gateway's own address.
    pub fn new() -> (r: Self)
        ensures
            r@ == WebsocketView::fresh(DISCORD_WS_URI@, None),
    {
        Self {
            q: StreamCtrl::new(),
            ready: false,
            heartbeat: 0,
            sequence: None,
            url: String::from_str(DISCORD_WS_URI),
            auth: None,
            phase: Handshake::AwaitHello,
        }
    }

    /// A session that resumes at the given gateway after the given
    /// sequence number.
    pub fn new_with(resume_gateway: &String, sequence: u64) -> (r: Self)
        ensures
            r@ == WebsocketView::fresh(resume_gateway@ + RESUME_QUERY@, Some(sequence)),
    {
        Self {
            q: StreamCtrl::new(),
            ready: false,
            heartbeat: 0,
            sequence: Some(sequence),
            url: join(resume_gateway.as_str(), RESUME_QUERY),
            auth: None,
            phase: Handshake::AwaitHello,
        }
    }

    /// Sets the token that the handshake presents.
    pub fn token(&mut self, token: String)
        ensures
            final(self)@ == (WebsocketView { auth: Some(token@), ..old(self)@ }),
    {
        self.auth = Some(token);
    }

    /// Reads the message that a frame carries.
    ///
    /// Fails with [`Error::MalformedFrame`] where the frame is no JSON or
    /// the JSON is no message.
    pub fn parse_message(msg: Frame) -> (r: Result<DiscordMessage, Error>)
        ensures
            match r {
                Ok(message) => msg@.decoded() == Some(message@),
                Err(e) => e is MalformedFrame && msg@.decoded() is None,
            },
    {
        let parsed = match &msg {
            Frame::Text(text) => Json::parse(text.as_str()),
            Frame::Binary(bytes) => Json::parse_bytes(bytes.as_slice()),
        };
        match parsed {
            Some(json) => DiscordMessage::from_json(&json),
            None => Err(Error::MalformedFrame),
        }
    }

    /// Writes a message as the frame that carries it.
    ///
    /// Fails with [`Error::Unserializable`] where the JSON printer fails.
    pub fn serialize_message(msg: DiscordMessage) -> (r: Result<Frame, Error>)
        ensures
            match r {
                Ok(frame) => msg@.encoded() == Some(frame@),
                Err(e) => e is Unserializable && msg@.encoded() is None,
            },
    {
        match msg.to_json().to_text() {
            Some(text) => Ok(Frame::Text(text)),
            None => Err(Error::Unserializable),
        }
    }

    /// Puts a message into the outbound queue. Nothing is sent where the
    /// message cannot be written as a frame.
    pub fn send(&mut self, msg: DiscordMessage) -> (r: Result<(), Error>)
        ensures
            match old(self)@.send(msg@) {
                Ok(after) => r is Ok && final(self)@ == after,
                Err(e) => r == Err::<(), Error>(e) && final(self)@ == old(self)@,
            },
    {
        match Self::serialize_message(msg) {
            Ok(frame) => {
                self.q.push_outbound(frame);
                Ok(())
            },
            Err(_) => Err(Error::Unserializable),
        }
    }

    /// Takes the oldest frame out of the inbound queue and reads the
    /// message that it carries. A caller that has to wait for a frame looks
    /// at the queue every [`READ_POLL_MS`] until one is there.
    pub fn read(&mut self) -> (r: Result<DiscordMessage, Error>)
        requires
            old(self)@.stream.inbound.len() > 0,
        ensures
            final(self)@ == old(self)@.pop_inbound(),
            match r {
                Ok(message) => old(self)@.stream.inbound[0].decoded() == Some(message@),
                Err(e) => e is MalformedFrame && old(self)@.stream.inbound[0].decoded() is None,
            },
    {
        match self.q.pop_inbound() {
            Some(frame) => Self::parse_message(frame),
            None => Err(Error::MalformedFrame),
        }
    }

    /// Reads the next message if a frame waits, and returns at once with
    /// `None` if none does.
    pub fn try_read(&mut self) -> (r: Result<Option<DiscordMessage>, Error>)
        ensures
            if old(self)@.stream.inbound.len() == 0 {
                r == Ok::<Option<DiscordMessage>, Error>(None) && final(self)@ == old(self)@
            } else {
                final(self)@ == old(self)@.pop_inbound() && match r {
                    Ok(Some(message)) => old(self)@.stream.inbound[0].decoded() == Some(message@),
                    Ok(None) => false,
                    Err(e) => e is MalformedFrame && old(self)@.stream.inbound[0].decoded()
                        is None,
                }
            },
    {
        match self.q.pop_inbound() {
            Some(frame) => match Self::parse_message(frame) {
                Ok(message) => Ok(Some(message)),
                Err(e) => Err(e),
            },
            None => Ok(None),
        }
    }

    /// Sends a heartbeat that reports the last sequence number seen.
    pub fn heartbeat(&mut self) -> (r: Result<(), Error>)
        ensures
            match old(self)@.send(MessageView::heartbeat(old(self)@.sequence)) {
                Ok(after) => r is Ok && final(self)@ == after,
                Err(e) => r == Err::<(), Error>(e) && final(self)@ == old(self)@,
            },
    {
        self.send(DiscordMessage::new_heartbeat(self.sequence))
    }

    /// Takes a sequence number in: the tracked number becomes the later of
    /// the two and never moves backward.
    pub fn track(&mut self, seq: Option<u64>)
        ensures
            final(self)@ == old(self)@.track(seq),
    {
        match (self.sequence, seq) {
            (Some(x), Some(y)) => if x < y {
                self.sequence = seq;
            },
            (None, _) => {
                self.sequence = seq;
            },
            (Some(_), None) => {},
        }
    }

    /// One step of the handshake that ends with the given opening message.
    pub fn handshake_step(&mut self, opening: &DiscordMessage) -> (r: StepOutcome)
        ensures
            (final(self)@, r) == old(self)@.handshake_step(opening@),
    {
        if self.phase == Handshake::Established {
            return StepOutcome::Complete;
        }
        if self.q.inbound_len() == 0 {
            return StepOutcome::Waiting;
        }
        let message = match self.read() {
            Ok(message) => message,
            Err(_) => {
                return StepOutcome::Failed(Error::MalformedFrame);
            },
        };
        if self.phase == Handshake::AwaitHello {
            let interval = match message.data.get("heartbeat_interval") {
                Some(value) => value.as_u64(),
                None => None,
            };
            match interval {
                None => StepOutcome::Failed(Error::MissingHeartbeatInterval),
                Some(interval) => {
                    self.heartbeat = interval;
                    match self.send(DiscordMessage::new_heartbeat(None)) {
                        Ok(()) => {
                            self.phase = Handshake::AwaitAck;
                            StepOutcome::Greeted
                        },
                        Err(_) => StepOutcome::Failed(Error::Unserializable),
                    }
                },
            }
        } else {
            match self.send(opening.duplicate()) {
                Ok(()) => {
                    self.phase = Handshake::Established;
                    StepOutcome::Complete
                },
                Err(_) => StepOutcome::Failed(Error::Unserializable),
            }
        }
    }

    /// The handshake as far as the frames that wait allow. `Ok(true)` says
    /// that it is complete; after `Ok(false)` the caller comes back when
    /// another frame has arrived.
    pub fn handshake(&mut self, opening: &DiscordMessage) -> (r: Result<bool, Error>)
        ensures
            (final(self)@, r) == old(self)@.handshake(opening@),
    {
        match self.handshake_step(opening) {
            StepOutcome::Greeted => match self.handshake_step(opening) {
                StepOutcome::Waiting => Ok(false),
                StepOutcome::Greeted => Ok(false),
                StepOutcome::Complete => Ok(true),
                StepOutcome::Failed(e) => Err(e),
            },
            StepOutcome::Waiting => Ok(false),
            StepOutcome::Complete => Ok(true),
            StepOutcome::Failed(e) => Err(e),
        }
    }

    /// The handshake of a fresh login: the greeting is read and its
    /// heartbeat interval kept, one heartbeat is sent and its acknowledgment
    /// read, and the identify message is sent.
    ///
    /// Fails with [`Error::NoTokenGiven`] before anything is read where no
    /// token is set, and with the error of the step that failed.
    pub fn login(&mut self) -> (r: Result<bool, Error>)
        ensures
            (final(self)@, r) == old(self)@.login(),
    {
        let opening = match &self.auth {
            None => {
                return Err(Error::NoTokenGiven);
            },
            Some(token) => DiscordMessage::new_identify(token.as_str()),
        };
        self.handshake(&opening)
    }

    /// The handshake that resumes a session: as for a login, but it ends
    /// with the resume message, which carries the token, the session and the
    /// last sequence number.
    ///
    /// Fails with [`Error::NoTokenGiven`] where no token is set and with
    /// [`Error::NotLoggedIn`] where no sequence number is tracked, before
    /// anything is read, and with the error of the step that failed.
    pub fn resume(&mut self, info: &ResumeInfo) -> (r: Result<bool, Error>)
        ensures
            (final(self)@, r) == old(self)@.resume(info.id@),
    {
        let opening = match (&self.auth, self.sequence) {
            (None, _) => {
                return Err(Error::NoTokenGiven);
            },
            (Some(_), None) => {
                return Err(Error::NotLoggedIn);
            },
            (Some(token), Some(seq)) => DiscordMessage::new_resume(token.as_str(), seq, info),
        };
        self.handshake(&opening)
    }
}

/// The law of the handshake of a login.
///
/// Where a session that has a token and awaits the greeting finds two
/// frames, of which the first carries a message that names a heartbeat
/// interval and the second carries any message, and the messages to send
/// can be written as frames, the login completes at once: the session keeps
/// the interval, has read both frames, and has sent exactly one heartbeat,
/// without a sequence number, and after it the identify message.
pub proof fn lemma_login_completes(session: WebsocketView)
    requires
        session.phase == Handshake::AwaitHello,
        session.auth is Some,
        session.stream.inbound.len() >= 2,
        session.stream.inbound[0].decoded() matches Some(hello)
            && WebsocketView::greeted_interval(hello) is Some,
        session.stream.inbound[1].decoded() is Some,
        MessageView::heartbeat(None).encoded() is Some,
        MessageView::identify(session.auth.unwrap()).encoded() is Some,
    ensures
        session.login().1 == Ok::<bool, Error>(true),
        session.login().0 == (WebsocketView {
            heartbeat: WebsocketView::greeted_interval(
                session.stream.inbound[0].decoded().unwrap(),
            ).unwrap(),
            phase: Handshake::Established,
            stream: StreamView {
                inbound: session.stream.inbound.skip(2),
                outbound: session.stream.outbound.push(
                    MessageView::heartbeat(None).encoded().unwrap(),
                ).push(MessageView::identify(session.auth.unwrap()).encoded().unwrap()),
                ..session.stream
            },
            ..session
        }),
{
    let opening = MessageView::identify(session.auth.unwrap());
    let (first, outcome) = session.handshake_step(opening);
    assert(outcome is Greeted);
    assert(first.stream.inbound =~= session.stream.inbound.skip(1));
    assert(first.stream.inbound[0] == session.stream.inbound[1]);
    let (second, outcome) = first.handshake_step(opening);
    assert(outcome is Complete);
    assert(second.stream.inbound =~= session.stream.inbound.skip(2));
}

} // verus!
