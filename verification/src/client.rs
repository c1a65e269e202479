//! The runner: what drives a session across reconnects and hands the
//! gateway's events to the application, one pass of its loop at a time.

use crate::context::{Context, Method, Request, Response};
use crate::error::Error;
use crate::json::JsonValue;
use crate::websocket::{
    later_sequence, DiscordMessage, FrameView, MessageView, StreamView, Websocket, WebsocketView,
    DISCORD_WS_URI, OP_DISPATCH, OP_HEARTBEAT, OP_INVALID_SESSION, OP_RECONNECT,
    OP_TRANSPORT_FAILURE, RESUME_QUERY,
};
use std::collections::VecDeque;
use vstd::prelude::*;
use vstd::string::StringExecFns;

verus! {

/// How long the runner rests between two passes, and before it tries
/// again to get hold of a session that is in use, in milliseconds.
pub const PASS_INTERVAL_MS: u64 = 2;

/// The endpoint that says who a token belongs to.
pub const CURRENT_USER_ENDPOINT: &'static str = "/v9/users/@me";

/// What the runner does after a pass over the inbound frames.
#[derive(Debug, Clone, Copy, PartialEq, Eq, Structural)]
pub enum Pass {
    /// Every waiting frame is read: the queued dispatches go to the handler.
    Dispatch,
    /// The connection is given up and the session resumed.
    Resume,
    /// The connection is given up and a fresh login made.
    Login,
}

/// The values of a run of messages.
pub open spec fn messages_view(messages: Seq<DiscordMessage>) -> Seq<MessageView> {
    messages.map_values(|message: DiscordMessage| message@)
}

/// The runner's own state: the dispatches that wait for the handler, oldest
/// first.
#[derive(Debug)]
pub struct Client {
    dispatch_queue: VecDeque<DiscordMessage>,
}

impl View for Client {
    type V = Seq<MessageView>;

    closed spec fn view(&self) -> Seq<MessageView> {
        messages_view(self.dispatch_queue@)
    }
}

/// What an invalid-session message asks for: `true` says that the session
/// can be resumed, `false` that a fresh login is needed. A payload that is
/// no truth value makes the message malformed.
pub open spec fn after_invalid_session(payload: JsonValue) -> Result<Pass, Error> {
    match payload.as_bool() {
        Some(true) => Ok(Pass::Resume),
        Some(false) => Ok(Pass::Login),
        None => Err(Error::MalformedFrame),
    }
}

/// One pass over the inbound frames of a session, oldest first, with the
/// dispatches that wait for the handler.
///
/// A frame that carries no message ends the pass with an error. A dispatch
/// moves the tracked sequence number forward and joins the queue. A request
/// for a heartbeat is answered with one at once. A request to reconnect and
/// the mark of a failed transport end the pass with [`Pass::Resume`]; an
/// invalid session ends it with what its payload asks for. Every other
/// message is passed over. When no frame is left the pass ends with
/// [`Pass::Dispatch`].
pub open spec fn pass(session: WebsocketView, queue: Seq<MessageView>) -> (
    WebsocketView,
    Seq<MessageView>,
    Result<Pass, Error>,
)
    decreases session.stream.inbound.len(),
{
    if session.stream.inbound.len() == 0 {
        (session, queue, Ok(Pass::Dispatch))
    } else {
        let rest = session.pop_inbound();
        match session.stream.inbound[0].decoded() {
            None => (rest, queue, Err(Error::MalformedFrame)),
            Some(message) => if message.op == OP_DISPATCH {
                pass(rest.track(message.seq), queue.push(message))
            } else if message.op == OP_HEARTBEAT {
                match rest.send(MessageView::heartbeat(rest.sequence)) {
                    Ok(sent) => pass(sent, queue),
                    Err(e) => (rest, queue, Err(e)),
                }
            } else if message.op == OP_RECONNECT || message.op == OP_TRANSPORT_FAILURE {
                (rest, queue, Ok(Pass::Resume))
            } else if message.op == OP_INVALID_SESSION {
                (rest, queue, after_invalid_session(message.data))
            } else {
                pass(rest, queue)
            },
        }
    }
}

/// The session that takes another one up again: a new connection to the
/// gateway that the last login named, which carries the last sequence number
/// and the token forward.
///
/// It takes resume coordinates and a sequence number, without which there
/// is [`Error::NotLoggedIn`], and a token, without which there is
/// [`Error::NoTokenGiven`].
pub open spec fn resumed(session: WebsocketView, context: Context) -> Result<
    WebsocketView,
    Error,
> {
    match (context.resume_info, session.sequence, context.auth) {
        (Some(info), Some(seq), Some(token)) => Ok(
            WebsocketView {
                auth: Some(token@),
                ..WebsocketView::fresh(info.url@ + RESUME_QUERY@, Some(seq))
            },
        ),
        (Some(_), Some(_), None) => Err(Error::NoTokenGiven),
        _ => Err(Error::NotLoggedIn),
    }
}

/// The session of a fresh login: a new connection to the gateway's own
/// address, which keeps the token and nothing else.
pub open spec fn renewed(session: WebsocketView) -> WebsocketView {
    WebsocketView { auth: session.auth, ..WebsocketView::fresh(DISCORD_WS_URI@, None) }
}

/// What the answer to the token's first call says: a body with both a
/// `code` and a `message` is an error of the API, whose message it gives.
pub open spec fn token_refusal(body: JsonValue) -> Option<Seq<char>> {
    match (body.get("code"@), body.get("message"@)) {
        (Some(_), Some(message)) => Some(
            match message.as_text() {
                Some(text) => text,
                None => Seq::empty(),
            },
        ),
        _ => None,
    }
}

impl Client {
    /// A runner with no dispatch waiting.
    pub fn new() -> (r: Self)
        ensures
            r@ == Seq::<MessageView>::empty(),
    {
        let r = Client { dispatch_queue: VecDeque::with_capacity(8) };
        assert(r@ =~= Seq::<MessageView>::empty());
        r
    }

    /// Sets the token on the session and on the context, and puts together
    /// the call that asks the API who the token belongs to: a `GET` of
    /// [`CURRENT_USER_ENDPOINT`] that presents the token.
    pub fn token(ws: &mut Websocket, ctx: &mut Context, token: String) -> (r: Result<
        Request,
        Error,
    >)
        ensures
            final(ws)@ == (WebsocketView { auth: Some(token@), ..old(ws)@ }),
            final(ctx).auth matches Some(set) && set@ == token@,
            *final(ctx) == (Context { auth: final(ctx).auth, ..*old(ctx) }),
            final(ctx).answers(Method::Get, CURRENT_USER_ENDPOINT@, None, r),
    {
        ws.token(token.clone());
        ctx.set_auth(token);
        ctx.request(Method::Get, CURRENT_USER_ENDPOINT, None)
    }

    /// Judges the answer to the call that [`Client::token`] put together:
    /// an answer in the shape of an error of the API, with a `code` and a
    /// `message`, says that the token is invalid, whatever its status.
    pub fn token_response(response: &Response) -> (r: Result<(), Error>)
        ensures
            match token_refusal(response.content@) {
                Some(message) => r matches Err(Error::InvalidToken(text)) && text@ == message,
                None => r is Ok,
            },
    {
        if response.content.get("code").is_some() {
            match response.content.get("message") {
                Some(message) => {
                    let text = match message.as_str() {
                        Some(text) => String::from_str(text),
                        None => String::new(),
                    };
                    Err(Error::InvalidToken(text))
                },
                None => Ok(()),
            }
        } else {
            Ok(())
        }
    }

    /// Starts a fresh login: the resume coordinates are discarded, and the
    /// session gives way to a new one at the gateway's own address, which
    /// keeps the token. The handshake is then [`Client::handshake`]'s.
    pub fn login(ws: &mut Websocket, ctx: &mut Context)
        ensures
            final(ws)@ == renewed(old(ws)@),
            *final(ctx) == (Context { resume_info: None, ..*old(ctx) }),
    {
        ctx.resume_info = None;
        let mut fresh = Websocket::new();
        fresh.auth = match &ws.auth {
            Some(token) => Some(token.clone()),
            None => None,
        };
        *ws = fresh;
    }

    /// Starts to resume: the session gives way to a new one at the gateway
    /// that the last login named, which carries the last sequence number
    /// and the context's token. The context keeps its resume coordinates.
    /// The handshake is then [`Client::handshake`]'s.
    ///
    /// On an error the session stays as it is.
    pub fn resume(ws: &mut Websocket, ctx: &Context) -> (r: Result<(), Error>)
        ensures
            match resumed(old(ws)@, *ctx) {
                Ok(session) => r is Ok && final(ws)@ == session,
                Err(e) => r == Err::<(), Error>(e) && *final(ws) == *old(ws),
            },
    {
        match (&ctx.resume_info, ws.sequence, &ctx.auth) {
            (Some(info), Some(seq), Some(token)) => {
                let mut next = Websocket::new_with(&info.url, seq);
                next.auth = Some(token.clone());
                *ws = next;
                Ok(())
            },
            (Some(_), Some(_), None) => Err(Error::NoTokenGiven),
            _ => Err(Error::NotLoggedIn),
        }
    }

    /// Carries the handshake on as far as the frames that wait allow: that
    /// of resuming where the context holds resume coordinates, that of a
    /// fresh login where it holds none.
    pub fn handshake(ws: &mut Websocket, ctx: &Context) -> (r: Result<bool, Error>)
        ensures
            (final(ws)@, r) == match ctx.resume_info {
                Some(info) => old(ws)@.resume(info.id@),
                None => old(ws)@.login(),
            },
    {
        match &ctx.resume_info {
            Some(info) => ws.resume(info),
            None => ws.login(),
        }
    }

    /// Sends the heartbeat of one tick of the heartbeat interval.
    pub fn tick(ws: &mut Websocket) -> (r: Result<(), Error>)
        ensures
            match old(ws)@.send(MessageView::heartbeat(old(ws)@.sequence)) {
                Ok(after) => r is Ok && final(ws)@ == after,
                Err(e) => r == Err::<(), Error>(e) && final(ws)@ == old(ws)@,
            },
    {
        ws.heartbeat()
    }

    /// Runs one pass of the main loop over the session: every frame that
    /// waits is read and handled by its opcode, until none is left or one
    /// asks for the connection to be given up.
    pub fn run(&mut self, ws: &mut Websocket) -> (r: Result<Pass, Error>)
        ensures
            (final(ws)@, final(self)@, r) == pass(old(ws)@, old(self)@),
    {
        loop
            invariant
                pass(ws@, self@) == pass(old(ws)@, old(self)@),
            decreases ws@.stream.inbound.len(),
        {
            let ghost queue = self@;
            let message = match ws.try_read() {
                Ok(Some(message)) => message,
                Ok(None) => {
                    return Ok(Pass::Dispatch);
                },
                Err(_) => {
                    return Err(Error::MalformedFrame);
                },
            };
            if message.op == OP_DISPATCH {
                ws.track(message.seq);
                self.dispatch_queue.push_back(message);
                assert(self@ =~= queue.push(message@));
            } else if message.op == OP_HEARTBEAT {
                match ws.heartbeat() {
                    Ok(()) => {},
                    Err(_) => {
                        return Err(Error::Unserializable);
                    },
                }
            } else if message.op == OP_RECONNECT || message.op == OP_TRANSPORT_FAILURE {
                return Ok(Pass::Resume);
            } else if message.op == OP_INVALID_SESSION {
                return match message.data.as_bool() {
                    Some(true) => Ok(Pass::Resume),
                    Some(false) => Ok(Pass::Login),
                    None => Err(Error::MalformedFrame),
                };
            }
        }
    }

    /// Takes the oldest waiting dispatch for the handler, if one waits.
    /// The handler gets the dispatches in the order in which they arrived,
    /// one after the other.
    pub fn next_dispatch(&mut self) -> (r: Option<DiscordMessage>)
        ensures
            match r {
                Some(message) => old(self)@.len() > 0 && message@ == old(self)@[0] && final(self)@
                    == old(self)@.skip(1),
                None => old(self)@.len() == 0 && final(self)@ == old(self)@,
            },
    {
        let ghost before = self@;
        let r = self.dispatch_queue.pop_front();
        proof {
            if r is Some {
                assert(self@ =~= before.skip(1));
            }
        }
        r
    }

    /// How many dispatches wait for the handler.
    pub fn pending(&self) -> (r: usize)
        ensures
            r == self@.len(),
    {
        self.dispatch_queue.len()
    }
}

/// Whether a frame carries a dispatch.
pub open spec fn is_dispatch(frame: FrameView) -> bool {
    frame.decoded() matches Some(message) && message.op == OP_DISPATCH
}

/// The messages that a run of frames carries, in their order.
pub open spec fn carried(frames: Seq<FrameView>) -> Seq<MessageView> {
    frames.map_values(|frame: FrameView| frame.decoded().unwrap())
}

/// The highest of a tracked sequence number and those of a run of
/// messages, taken in one after the other.
pub open spec fn highest(prior: Option<u64>, messages: Seq<MessageView>) -> Option<u64>
    decreases messages.len(),
{
    if messages.len() == 0 {
        prior
    } else {
        later_sequence(highest(prior, messages.drop_last()), messages.last().seq)
    }
}

/// [`highest`] is the maximum: it is no earlier than the tracked number and
/// than the number of any of the messages, and it is one of them.
pub proof fn lemma_highest_is_maximum(prior: Option<u64>, messages: Seq<MessageView>)
    ensures
        later_sequence(highest(prior, messages), prior) == highest(prior, messages),
        forall|i: int|
            0 <= i < messages.len() ==> later_sequence(
                highest(prior, messages),
                (#[trigger] messages[i]).seq,
            ) == highest(prior, messages),
        highest(prior, messages) == prior || exists|i: int|
            0 <= i < messages.len() && highest(prior, messages) == (#[trigger] messages[i]).seq,
    decreases messages.len(),
{
    if messages.len() > 0 {
        let front = messages.drop_last();
        lemma_highest_is_maximum(prior, front);
        assert forall|i: int| 0 <= i < messages.len() implies later_sequence(
            highest(prior, messages),
            (#[trigger] messages[i]).seq,
        ) == highest(prior, messages) by {
            if i < front.len() {
                assert(front[i] == messages[i]);
            }
        }
        if highest(prior, messages) != prior {
            if highest(prior, messages) == messages.last().seq {
                assert(messages[messages.len() - 1] == messages.last());
            } else {
                let i = choose|i: int|
                    0 <= i < front.len() && highest(prior, front) == (#[trigger] front[i]).seq;
                assert(front[i] == messages[i]);
            }
        }
    }
}

/// Taking a run of messages in one by one from the front gives the same
/// highest number as taking in the first and then the rest.
pub proof fn lemma_highest_from_front(prior: Option<u64>, messages: Seq<MessageView>)
    requires
        messages.len() > 0,
    ensures
        highest(prior, messages) == highest(
            later_sequence(prior, messages[0].seq),
            messages.skip(1),
        ),
    decreases messages.len(),
{
    if messages.len() == 1 {
        assert(messages.drop_last() =~= Seq::<MessageView>::empty());
        assert(messages.skip(1) =~= Seq::<MessageView>::empty());
    } else {
        lemma_highest_from_front(prior, messages.drop_last());
        assert(messages.drop_last().skip(1) =~= messages.skip(1).drop_last());
        assert(messages.drop_last()[0] == messages[0]);
    }
}

/// The sequence law and the order law of a pass.
///
/// Over frames that are all dispatches, whatever their sequence numbers
/// and in whatever order they come, a pass reads every frame, leaves the
/// tracked sequence number at the maximum of what it was and of all the
/// numbers that arrived, puts the dispatches behind those that waited
/// already, in the order in which they arrived, and ends with
/// [`Pass::Dispatch`].
pub proof fn lemma_pass_over_dispatches(session: WebsocketView, queue: Seq<MessageView>)
    requires
        forall|i: int|
            0 <= i < session.stream.inbound.len() ==> is_dispatch(
                #[trigger] session.stream.inbound[i],
            ),
    ensures
        pass(session, queue).0 == (WebsocketView {
            stream: StreamView { inbound: Seq::empty(), ..session.stream },
            sequence: highest(session.sequence, carried(session.stream.inbound)),
            ..session
        }),
        pass(session, queue).1 == queue + carried(session.stream.inbound),
        pass(session, queue).2 == Ok::<Pass, Error>(Pass::Dispatch),
    decreases session.stream.inbound.len(),
{
    let frames = session.stream.inbound;
    if frames.len() == 0 {
        assert(session.stream.inbound =~= Seq::<FrameView>::empty());
        assert(queue + carried(frames) =~= queue);
    } else {
        let message = frames[0].decoded().unwrap();
        assert(is_dispatch(frames[0]));
        let next = session.pop_inbound().track(message.seq);
        assert forall|i: int| 0 <= i < next.stream.inbound.len() implies is_dispatch(
            #[trigger] next.stream.inbound[i],
        ) by {
            assert(next.stream.inbound[i] == frames[i + 1]);
        }
        lemma_pass_over_dispatches(next, queue.push(message));
        assert(carried(frames).skip(1) =~= carried(frames.skip(1)));
        lemma_highest_from_front(session.sequence, carried(frames));
        assert(queue.push(message) + carried(frames.skip(1)) =~= queue + carried(frames));
    }
}

/// The recovery law of a pass.
///
/// After any number of dispatches, a request to reconnect and the mark of a
/// failed transport end the pass with [`Pass::Resume`], and an invalid
/// session ends it with what its payload asks for: to resume for `true`,
/// a fresh login for `false`. The dispatches before it have moved the
/// tracked sequence number and wait for the handler; the frames after it
/// are left unread.
pub proof fn lemma_pass_until_recovery(session: WebsocketView, queue: Seq<MessageView>, at: int)
    requires
        0 <= at < session.stream.inbound.len(),
        forall|i: int| 0 <= i < at ==> is_dispatch(#[trigger] session.stream.inbound[i]),
        session.stream.inbound[at].decoded() matches Some(message) && (message.op == OP_RECONNECT
            || message.op == OP_TRANSPORT_FAILURE || message.op == OP_INVALID_SESSION),
    ensures
        pass(session, queue).0 == (WebsocketView {
            stream: StreamView {
                inbound: session.stream.inbound.skip(at + 1),
                ..session.stream
            },
            sequence: highest(session.sequence, carried(session.stream.inbound.take(at))),
            ..session
        }),
        pass(session, queue).1 == queue + carried(session.stream.inbound.take(at)),
        pass(session, queue).2 == ({
            let message = session.stream.inbound[at].decoded().unwrap();
            if message.op == OP_INVALID_SESSION {
                after_invalid_session(message.data)
            } else {
                Ok(Pass::Resume)
            }
        }),
    decreases at,
{
    let frames = session.stream.inbound;
    if at == 0 {
        assert(frames.take(0) =~= Seq::<FrameView>::empty());
        assert(queue + carried(frames.take(0)) =~= queue);
        assert(session.pop_inbound().stream.inbound =~= frames.skip(1));
    } else {
        let message = frames[0].decoded().unwrap();
        assert(is_dispatch(frames[0]));
        let next = session.pop_inbound().track(message.seq);
        assert forall|i: int| 0 <= i < at - 1 implies is_dispatch(
            #[trigger] next.stream.inbound[i],
        ) by {
            assert(next.stream.inbound[i] == frames[i + 1]);
        }
        assert(next.stream.inbound[at - 1] == frames[at]);
        lemma_pass_until_recovery(next, queue.push(message), at - 1);
        assert(next.stream.inbound.skip(at) =~= frames.skip(at + 1));
        assert(next.stream.inbound.take(at - 1) =~= frames.take(at).skip(1));
        assert(carried(frames.take(at)).skip(1) =~= carried(frames.take(at).skip(1)));
        assert(carried(frames.take(at))[0] == message);
        lemma_highest_from_front(session.sequence, carried(frames.take(at)));
        assert(queue.push(message) + carried(frames.take(at).skip(1)) =~= queue + carried(
            frames.take(at),
        ));
    }
}

/// The sequence number never moves backward: whatever frames wait, the
/// number that a pass leaves is no earlier than the one it found.
pub proof fn lemma_pass_never_backward(session: WebsocketView, queue: Seq<MessageView>)
    ensures
        later_sequence(pass(session, queue).0.sequence, session.sequence) == pass(
            session,
            queue,
        ).0.sequence,
    decreases session.stream.inbound.len(),
{
    if session.stream.inbound.len() > 0 {
        let rest = session.pop_inbound();
        match session.stream.inbound[0].decoded() {
            None => {},
            Some(message) => if message.op == OP_DISPATCH {
                lemma_pass_never_backward(rest.track(message.seq), queue.push(message));
            } else if message.op == OP_HEARTBEAT {
                match rest.send(MessageView::heartbeat(rest.sequence)) {
                    Ok(sent) => lemma_pass_never_backward(sent, queue),
                    Err(_) => {},
                }
            } else if message.op == OP_RECONNECT || message.op == OP_TRANSPORT_FAILURE {
            } else if message.op == OP_INVALID_SESSION {
            } else {
                lemma_pass_never_backward(rest, queue);
            },
        }
    }
}

/// The dispatches that wait are never lost or reordered by a pass: what
/// waited before still stands at the front of the queue, in its order.
pub proof fn lemma_pass_keeps_order(session: WebsocketView, queue: Seq<MessageView>)
    ensures
        queue.len() <= pass(session, queue).1.len(),
        pass(session, queue).1.take(queue.len() as int) == queue,
    decreases session.stream.inbound.len(),
{
    if session.stream.inbound.len() > 0 {
        let rest = session.pop_inbound();
        match session.stream.inbound[0].decoded() {
            None => {},
            Some(message) => if message.op == OP_DISPATCH {
                lemma_pass_keeps_order(rest.track(message.seq), queue.push(message));
                let after = pass(session, queue).1;
                assert(after.take(queue.len() as int) =~= after.take(queue.len() as int + 1).take(
                    queue.len() as int,
                ));
                assert(queue.push(message).take(queue.len() as int) =~= queue);
            } else if message.op == OP_HEARTBEAT {
                match rest.send(MessageView::heartbeat(rest.sequence)) {
                    Ok(sent) => lemma_pass_keeps_order(sent, queue),
                    Err(_) => {},
                }
            } else if message.op == OP_RECONNECT || message.op == OP_TRANSPORT_FAILURE {
            } else if message.op == OP_INVALID_SESSION {
            } else {
                lemma_pass_keeps_order(rest, queue);
            },
        }
    }
    assert(queue.take(queue.len() as int) =~= queue);
}

/// The law of resuming and of logging in afresh.
///
/// A session that resumes carries forward the last tracked sequence number
/// and goes to the gateway of the most recent resume coordinates; its
/// handshake ends with the resume message for that number and that
/// session. A fresh login carries no sequence number forward, goes to the
/// gateway's own address, and ends its handshake with the identify message.
pub proof fn lemma_recovery_carries_forward(session: WebsocketView, context: Context)
    ensures
        resumed(session, context) matches Ok(next) ==> {
            &&& context.resume_info matches Some(info)
            &&& context.auth matches Some(token)
            &&& session.sequence matches Some(seq)
            &&& next.sequence == session.sequence
            &&& next.url == info.url@ + RESUME_QUERY@
            &&& next.resume(info.id@) == next.handshake(
                MessageView::resume(token@, seq, info.id@),
            )
        },
        renewed(session).sequence is None,
        renewed(session).url == DISCORD_WS_URI@,
        session.auth matches Some(token) ==> renewed(session).login() == renewed(
            session,
        ).handshake(MessageView::identify(token)),
{
}

} // verus!
