use hubbub::client::{Client, Pass};
use hubbub::context::{Context, Response, ResumeInfo};
use hubbub::error::Error;
use hubbub::json::Json;
use hubbub::websocket::{
    ConnectStep, DiscordMessage, Frame, Handshake, ReadEvent, StreamCtrl, Websocket,
};

fn text(frame: &Frame) -> String {
    match frame {
        Frame::Text(t) => t.clone(),
        Frame::Binary(_) => panic!("binary frame"),
    }
}

fn push(ws: &mut Websocket, frame: &str) {
    assert!(ws.q.on_read(ReadEvent::Frame(Frame::Text(frame.to_string()))));
}

fn sent(ws: &mut Websocket) -> Vec<String> {
    ws.q.take_outbound().iter().map(text).collect()
}

const IDENTIFY: &str = "{\"op\":2,\"d\":{\"token\":\"secret\",\"capabilities\":30717,\"properties\":{\"os\":\"Windows\",\"browser\":\"Firefox\",\"device\":\"\",\"system_locale\":\"en-US\",\"browser_user_agent\":\"Mozilla/5.0 (Windows NT 10.0; rv:126.0) Gecko/20100101 Firefox/126.0\",\"browser_version\":\"126.0\",\"os_version\":\"\",\"referrer\":\"\",\"referring_domain\":\"\",\"referrer_current\":\"\",\"referring_domain_current\":\"\",\"release_channel\":\"stable\",\"client_build_number\":327180,\"client_event_source\":null,\"design_id\":0},\"presence\":{\"status\":\"unknown\",\"since\":0,\"activities\":[],\"afk\":false},\"compress\":false,\"client_state\":{\"guild_versions\":{}}}}";

#[test]
fn login_sends_one_heartbeat_then_identify() {
    let mut ws = Websocket::new();
    ws.token("secret".to_string());
    push(&mut ws, "{\"op\":10,\"d\":{\"heartbeat_interval\":41250}}");
    push(&mut ws, "{\"op\":11}");
    assert!(matches!(ws.login(), Ok(true)));
    assert_eq!(ws.heartbeat, 41250);
    assert_eq!(ws.phase, Handshake::Established);
    assert_eq!(sent(&mut ws), vec!["{\"op\":1,\"d\":null}".to_string(), IDENTIFY.to_string()]);
    assert_eq!(ws.q.inbound_len(), 0);
}

#[test]
fn login_waits_for_each_frame() {
    let mut ws = Websocket::new();
    ws.token("secret".to_string());
    assert!(matches!(ws.login(), Ok(false)));
    assert_eq!(ws.phase, Handshake::AwaitHello);
    push(&mut ws, "{\"t\":null,\"s\":null,\"op\":10,\"d\":{\"heartbeat_interval\":41250,\"_trace\":[]}}");
    assert!(matches!(ws.login(), Ok(false)));
    assert_eq!(ws.phase, Handshake::AwaitAck);
    assert_eq!(ws.heartbeat, 41250);
    assert_eq!(sent(&mut ws), vec!["{\"op\":1,\"d\":null}".to_string()]);
    push(&mut ws, "{\"t\":null,\"s\":null,\"op\":11,\"d\":null}");
    assert!(matches!(ws.login(), Ok(true)));
    assert_eq!(sent(&mut ws), vec![IDENTIFY.to_string()]);
    assert!(matches!(ws.login(), Ok(true)));
    assert_eq!(ws.q.outbound_len(), 0);
}

#[test]
fn login_without_token_is_refused() {
    let mut ws = Websocket::new();
    push(&mut ws, "{\"op\":10,\"d\":{\"heartbeat_interval\":41250}}");
    assert!(matches!(ws.login(), Err(Error::NoTokenGiven)));
    assert_eq!(ws.q.inbound_len(), 1);
    assert_eq!(ws.heartbeat, 0);
}

#[test]
fn hello_without_interval_fails_the_handshake() {
    let mut ws = Websocket::new();
    ws.token("secret".to_string());
    push(&mut ws, "{\"op\":10,\"d\":{}}");
    assert!(matches!(ws.login(), Err(Error::MissingHeartbeatInterval)));
    assert_eq!(ws.q.outbound_len(), 0);
    assert_eq!(ws.phase, Handshake::AwaitHello);
}

#[test]
fn hello_with_a_fraction_as_interval_fails_the_handshake() {
    let mut ws = Websocket::new();
    ws.token("secret".to_string());
    push(&mut ws, "{\"op\":10,\"d\":{\"heartbeat_interval\":41250.5}}");
    assert!(matches!(ws.login(), Err(Error::MissingHeartbeatInterval)));
}

#[test]
fn malformed_hello_fails_the_handshake() {
    let mut ws = Websocket::new();
    ws.token("secret".to_string());
    push(&mut ws, "not json");
    assert!(matches!(ws.login(), Err(Error::MalformedFrame)));
    assert_eq!(ws.q.inbound_len(), 0);
}

#[test]
fn resume_sends_token_session_and_sequence() {
    let info = ResumeInfo { url: "wss://resume.example".to_string(), id: "abc".to_string() };
    let mut ws = Websocket::new_with(&info.url, 42);
    assert_eq!(ws.url, "wss://resume.example?encoding=json&v=9");
    assert_eq!(ws.sequence, Some(42));
    assert!(!ws.ready);
    ws.token("secret".to_string());
    push(&mut ws, "{\"op\":10,\"d\":{\"heartbeat_interval\":1000}}");
    push(&mut ws, "{\"op\":11}");
    assert!(matches!(ws.resume(&info), Ok(true)));
    assert_eq!(
        sent(&mut ws),
        vec![
            "{\"op\":1,\"d\":null}".to_string(),
            "{\"op\":6,\"d\":{\"token\":\"secret\",\"session_id\":\"abc\",\"seq\":42}}".to_string(),
        ]
    );
    assert_eq!(ws.heartbeat, 1000);
}

#[test]
fn resume_without_sequence_is_refused() {
    let info = ResumeInfo { url: "wss://resume.example".to_string(), id: "abc".to_string() };
    let mut ws = Websocket::new();
    ws.token("secret".to_string());
    assert!(matches!(ws.resume(&info), Err(Error::NotLoggedIn)));
    let mut ws = Websocket::new_with(&info.url, 1);
    assert!(matches!(ws.resume(&info), Err(Error::NoTokenGiven)));
}

#[test]
fn new_session_is_fresh() {
    let ws = Websocket::new();
    assert_eq!(ws.url, "wss://gateway.discord.gg/?encoding=json&v=9");
    assert_eq!(ws.heartbeat, 0);
    assert_eq!(ws.sequence, None);
    assert!(!ws.ready);
    assert!(ws.auth.is_none());
    assert_eq!(ws.phase, Handshake::AwaitHello);
    assert_eq!(ws.q.inbound_len(), 0);
    assert_eq!(ws.q.outbound_len(), 0);
}

#[test]
fn heartbeat_carries_last_sequence() {
    let mut ws = Websocket::new();
    ws.heartbeat().unwrap();
    ws.track(Some(7));
    ws.heartbeat().unwrap();
    assert_eq!(
        sent(&mut ws),
        vec!["{\"op\":1,\"d\":null}".to_string(), "{\"op\":1,\"d\":7}".to_string()]
    );
}

#[test]
fn tracked_sequence_never_moves_backward() {
    let mut ws = Websocket::new();
    ws.track(None);
    assert_eq!(ws.sequence, None);
    ws.track(Some(5));
    assert_eq!(ws.sequence, Some(5));
    ws.track(Some(3));
    assert_eq!(ws.sequence, Some(5));
    ws.track(None);
    assert_eq!(ws.sequence, Some(5));
    ws.track(Some(5));
    assert_eq!(ws.sequence, Some(5));
    ws.track(Some(u64::MAX));
    assert_eq!(ws.sequence, Some(u64::MAX));
}

#[test]
fn connect_retries_after_five_seconds() {
    assert_eq!(Websocket::connect(true), ConnectStep::Connected);
    assert_eq!(Websocket::connect(false), ConnectStep::RetryAfter(5000));
}

#[test]
fn try_read_returns_none_on_empty_queue() {
    let mut ws = Websocket::new();
    assert!(matches!(ws.try_read(), Ok(None)));
    push(&mut ws, "{\"op\":0,\"d\":{\"x\":1},\"s\":3,\"t\":\"MESSAGE_CREATE\"}");
    let msg = ws.try_read().unwrap().unwrap();
    assert_eq!(msg.op, 0);
    assert_eq!(msg.seq, Some(3));
    assert_eq!(msg.event.as_deref(), Some("MESSAGE_CREATE"));
    assert_eq!(msg.data.get("x").and_then(|x| x.as_u64()), Some(1));
    assert!(matches!(ws.try_read(), Ok(None)));
}

#[test]
fn read_decodes_the_oldest_frame() {
    let mut ws = Websocket::new();
    push(&mut ws, "{\"op\":11}");
    push(&mut ws, "{\"op\":1}");
    assert_eq!(ws.read().unwrap().op, 11);
    assert_eq!(ws.read().unwrap().op, 1);
}

#[test]
fn binary_frames_are_decoded() {
    let msg = Websocket::parse_message(Frame::Binary(b"{\"op\":7,\"d\":null}".to_vec())).unwrap();
    assert_eq!(msg.op, 7);
    assert!(msg.data.is_null());
    assert!(matches!(
        Websocket::parse_message(Frame::Binary(vec![0xff, 0xfe])),
        Err(Error::MalformedFrame)
    ));
}

#[test]
fn frames_of_the_wrong_shape_are_malformed() {
    for bad in [
        "{}",
        "[]",
        "7",
        "{\"op\":256}",
        "{\"op\":-1}",
        "{\"op\":\"1\"}",
        "{\"op\":1.5}",
        "{\"op\":1,\"s\":\"x\"}",
        "{\"op\":1,\"s\":-4}",
        "{\"op\":1,\"t\":5}",
        "{\"op\":1",
    ] {
        assert!(
            matches!(
                Websocket::parse_message(Frame::Text(bad.to_string())),
                Err(Error::MalformedFrame)
            ),
            "{}",
            bad
        );
    }
}

#[test]
fn missing_members_of_a_frame_are_null() {
    let msg = Websocket::parse_message(Frame::Text("{\"op\":255}".to_string())).unwrap();
    assert_eq!(msg.op, 255);
    assert!(msg.data.is_null());
    assert_eq!(msg.seq, None);
    assert!(msg.event.is_none());
    let msg = Websocket::parse_message(Frame::Text(
        "{\"op\":0,\"d\":[1,2],\"s\":18446744073709551615,\"t\":\"X\",\"extra\":true}".to_string(),
    ))
    .unwrap();
    assert_eq!(msg.seq, Some(u64::MAX));
    assert_eq!(msg.data.as_array().map(|a| a.len()), Some(2));
}

#[test]
fn sequence_and_event_are_never_sent() {
    let msg = DiscordMessage {
        op: 0,
        data: Json::Bool(true),
        seq: Some(9),
        event: Some("READY".to_string()),
    };
    let frame = Websocket::serialize_message(msg).unwrap();
    assert_eq!(text(&frame), "{\"op\":0,\"d\":true}");
}

#[test]
fn message_constructors() {
    let hb = DiscordMessage::new_heartbeat(None);
    assert_eq!(hb.op, 1);
    assert!(hb.data.is_null());
    assert_eq!(hb.seq, None);
    assert!(hb.event.is_none());
    let hb = DiscordMessage::new_heartbeat(Some(12));
    assert_eq!(hb.data.as_u64(), Some(12));
    let id = DiscordMessage::new_identify("tok");
    assert_eq!(id.op, 2);
    assert_eq!(id.data.get("token").and_then(|t| t.as_str()), Some("tok"));
    assert_eq!(id.data.get("capabilities").and_then(|t| t.as_u64()), Some(30717));
    assert_eq!(
        id.data.get("properties").and_then(|p| p.get("client_build_number")).and_then(|t| t.as_u64()),
        Some(327180)
    );
    assert_eq!(id.data.get("compress").and_then(|t| t.as_bool()), Some(false));
    let info = ResumeInfo { url: "u".to_string(), id: "sid".to_string() };
    let rs = DiscordMessage::new_resume("tok", 77, &info);
    assert_eq!(rs.op, 6);
    assert_eq!(rs.data.get("session_id").and_then(|t| t.as_str()), Some("sid"));
    assert_eq!(rs.data.get("seq").and_then(|t| t.as_u64()), Some(77));
    assert_eq!(rs.data.get("token").and_then(|t| t.as_str()), Some("tok"));
}

#[test]
fn read_side_failure_injects_the_sentinel() {
    let mut q = StreamCtrl::new();
    assert!(q.on_read(ReadEvent::Frame(Frame::Text("{\"op\":11}".to_string()))));
    assert!(!q.inbound_closed());
    assert!(!q.on_read(ReadEvent::Failed));
    assert!(q.inbound_closed());
    assert_eq!(q.inbound_len(), 2);
    assert_eq!(text(&q.pop_inbound().unwrap()), "{\"op\":11}");
    assert_eq!(text(&q.pop_inbound().unwrap()), "{\"op\":255}");
    assert!(q.pop_inbound().is_none());
}

#[test]
fn end_of_stream_closes_without_a_sentinel() {
    let mut q = StreamCtrl::new();
    assert!(!q.on_read(ReadEvent::Ended));
    assert!(q.inbound_closed());
    assert_eq!(q.inbound_len(), 0);
    assert!(!q.outbound_closed());
}

#[test]
fn write_side_flushes_in_order_and_closes_on_failure() {
    let mut q = StreamCtrl::new();
    assert!(q.take_outbound().is_empty());
    q.push_outbound(Frame::Text("a".to_string()));
    q.push_outbound(Frame::Text("b".to_string()));
    q.push_outbound(Frame::Text("c".to_string()));
    let batch: Vec<String> = q.take_outbound().iter().map(text).collect();
    assert_eq!(batch, vec!["a", "b", "c"]);
    assert_eq!(q.outbound_len(), 0);
    assert!(q.on_flush(true));
    assert!(!q.outbound_closed());
    assert!(!q.on_flush(false));
    assert!(q.outbound_closed());
    assert!(!q.inbound_closed());
}

fn dispatch(seq: u64, name: &str) -> String {
    format!("{{\"op\":0,\"d\":{{}},\"s\":{},\"t\":\"{}\"}}", seq, name)
}

#[test]
fn handlers_fire_in_arrival_order() {
    let mut ws = Websocket::new();
    let mut client = Client::new();
    push(&mut ws, &dispatch(5, "A"));
    push(&mut ws, &dispatch(6, "B"));
    push(&mut ws, &dispatch(7, "C"));
    assert!(matches!(client.run(&mut ws), Ok(Pass::Dispatch)));
    assert_eq!(client.pending(), 3);
    let mut order = Vec::new();
    while let Some(msg) = client.next_dispatch() {
        order.push((msg.seq.unwrap(), msg.event.unwrap()));
    }
    assert_eq!(
        order,
        vec![(5, "A".to_string()), (6, "B".to_string()), (7, "C".to_string())]
    );
    assert_eq!(client.pending(), 0);
    assert_eq!(ws.sequence, Some(7));
}

#[test]
fn sequence_is_the_maximum_of_unordered_and_repeated_numbers() {
    let mut ws = Websocket::new_with(&"wss://x".to_string(), 10);
    let mut client = Client::new();
    for seq in [3u64, 12, 12, 11, 4] {
        push(&mut ws, &dispatch(seq, "E"));
    }
    assert!(matches!(client.run(&mut ws), Ok(Pass::Dispatch)));
    assert_eq!(ws.sequence, Some(12));
    assert_eq!(client.pending(), 5);
    let mut ws = Websocket::new_with(&"wss://x".to_string(), 100);
    push(&mut ws, &dispatch(3, "E"));
    push(&mut ws, "{\"op\":0,\"d\":null}");
    assert!(matches!(client.run(&mut ws), Ok(Pass::Dispatch)));
    assert_eq!(ws.sequence, Some(100));
}

#[test]
fn heartbeat_request_is_answered_at_once() {
    let mut ws = Websocket::new();
    let mut client = Client::new();
    push(&mut ws, &dispatch(8, "E"));
    push(&mut ws, "{\"op\":1,\"d\":null}");
    push(&mut ws, "{\"op\":11}");
    push(&mut ws, "{\"op\":42,\"d\":\"unknown\"}");
    assert!(matches!(client.run(&mut ws), Ok(Pass::Dispatch)));
    assert_eq!(sent(&mut ws), vec!["{\"op\":1,\"d\":8}".to_string()]);
    assert_eq!(client.pending(), 1);
}

#[test]
fn reconnect_request_asks_to_resume() {
    let mut ws = Websocket::new();
    let mut client = Client::new();
    push(&mut ws, &dispatch(8, "E"));
    push(&mut ws, "{\"op\":7,\"d\":null}");
    push(&mut ws, &dispatch(9, "F"));
    assert!(matches!(client.run(&mut ws), Ok(Pass::Resume)));
    assert_eq!(ws.sequence, Some(8));
    assert_eq!(client.pending(), 1);
    assert_eq!(ws.q.inbound_len(), 1);
}

#[test]
fn transport_failure_asks_to_resume() {
    let mut ws = Websocket::new();
    let mut client = Client::new();
    ws.q.on_read(ReadEvent::Failed);
    assert!(matches!(client.run(&mut ws), Ok(Pass::Resume)));
}

#[test]
fn invalid_session_follows_its_payload() {
    let mut client = Client::new();
    let mut ws = Websocket::new();
    push(&mut ws, "{\"op\":9,\"d\":true}");
    assert!(matches!(client.run(&mut ws), Ok(Pass::Resume)));
    let mut ws = Websocket::new();
    push(&mut ws, "{\"op\":9,\"d\":false}");
    assert!(matches!(client.run(&mut ws), Ok(Pass::Login)));
    let mut ws = Websocket::new();
    push(&mut ws, "{\"op\":9,\"d\":null}");
    assert!(matches!(client.run(&mut ws), Err(Error::MalformedFrame)));
}

#[test]
fn malformed_frame_ends_the_pass() {
    let mut client = Client::new();
    let mut ws = Websocket::new();
    push(&mut ws, &dispatch(1, "E"));
    push(&mut ws, "garbage");
    push(&mut ws, &dispatch(2, "F"));
    assert!(matches!(client.run(&mut ws), Err(Error::MalformedFrame)));
    assert_eq!(client.pending(), 1);
    assert_eq!(ws.sequence, Some(1));
    assert_eq!(ws.q.inbound_len(), 1);
}

#[test]
fn resume_reuses_coordinates_and_sequence() {
    let mut ws = Websocket::new();
    let mut ctx = Context::default();
    Client::token(&mut ws, &mut ctx, "secret".to_string()).unwrap();
    ctx.resume_info =
        Some(ResumeInfo { url: "wss://resume.example".to_string(), id: "sid".to_string() });
    ws.track(Some(31));
    ws.heartbeat = 500;
    push(&mut ws, "{\"op\":11}");
    Client::resume(&mut ws, &ctx).unwrap();
    assert_eq!(ws.url, "wss://resume.example?encoding=json&v=9");
    assert_eq!(ws.sequence, Some(31));
    assert_eq!(ws.auth.as_deref(), Some("secret"));
    assert_eq!(ws.heartbeat, 0);
    assert_eq!(ws.q.inbound_len(), 0);
    assert_eq!(ws.phase, Handshake::AwaitHello);
    assert_eq!(ctx.resume_info.as_ref().unwrap().id, "sid");
    push(&mut ws, "{\"op\":10,\"d\":{\"heartbeat_interval\":100}}");
    push(&mut ws, "{\"op\":11}");
    assert!(matches!(Client::handshake(&mut ws, &ctx), Ok(true)));
    assert_eq!(
        sent(&mut ws)[1],
        "{\"op\":6,\"d\":{\"token\":\"secret\",\"session_id\":\"sid\",\"seq\":31}}"
    );
}

#[test]
fn resume_needs_coordinates() {
    let mut ws = Websocket::new();
    let mut ctx = Context::default();
    ws.track(Some(1));
    assert!(matches!(Client::resume(&mut ws, &ctx), Err(Error::NotLoggedIn)));
    ctx.resume_info = Some(ResumeInfo { url: "wss://r".to_string(), id: "sid".to_string() });
    assert!(matches!(Client::resume(&mut ws, &ctx), Err(Error::NoTokenGiven)));
    ctx.set_auth("t".to_string());
    let mut ws = Websocket::new();
    assert!(matches!(Client::resume(&mut ws, &ctx), Err(Error::NotLoggedIn)));
    assert_eq!(ws.url, "wss://gateway.discord.gg/?encoding=json&v=9");
}

#[test]
fn login_discards_coordinates() {
    let mut ws = Websocket::new_with(&"wss://resume.example".to_string(), 31);
    let mut ctx = Context::default();
    Client::token(&mut ws, &mut ctx, "secret".to_string()).unwrap();
    ctx.resume_info =
        Some(ResumeInfo { url: "wss://resume.example".to_string(), id: "sid".to_string() });
    Client::login(&mut ws, &mut ctx);
    assert!(ctx.resume_info.is_none());
    assert_eq!(ctx.auth.as_deref(), Some("secret"));
    assert_eq!(ws.url, "wss://gateway.discord.gg/?encoding=json&v=9");
    assert_eq!(ws.sequence, None);
    assert_eq!(ws.auth.as_deref(), Some("secret"));
    push(&mut ws, "{\"op\":10,\"d\":{\"heartbeat_interval\":100}}");
    push(&mut ws, "{\"op\":11}");
    assert!(matches!(Client::handshake(&mut ws, &ctx), Ok(true)));
    assert_eq!(sent(&mut ws)[1], IDENTIFY);
}

#[test]
fn token_is_set_on_session_and_context() {
    let mut ws = Websocket::new();
    let mut ctx = Context::default();
    let request = Client::token(&mut ws, &mut ctx, "secret".to_string()).unwrap();
    assert_eq!(ws.auth.as_deref(), Some("secret"));
    assert_eq!(ctx.auth.as_deref(), Some("secret"));
    assert_eq!(request.method, hubbub::context::Method::Get);
    assert_eq!(request.url, "https://discord.com/api//v9/users/@me");
    assert_eq!(request.headers, vec![("Authorization".to_string(), "secret".to_string())]);
    assert!(request.body.is_none());
}

#[test]
fn error_shaped_answer_is_an_invalid_token() {
    let response = Response::new(401, "{\"code\":0,\"message\":\"401: Unauthorized\"}");
    match Client::token_response(&response) {
        Err(Error::InvalidToken(message)) => assert_eq!(message, "401: Unauthorized"),
        other => panic!("{:?}", other),
    }
    let response = Response::new(200, "{\"code\":0,\"message\":\"401: Unauthorized\"}");
    assert!(matches!(Client::token_response(&response), Err(Error::InvalidToken(_))));
    let response = Response::new(200, "{\"code\":0,\"message\":17}");
    match Client::token_response(&response) {
        Err(Error::InvalidToken(message)) => assert_eq!(message, ""),
        other => panic!("{:?}", other),
    }
}

#[test]
fn other_answers_accept_the_token() {
    for body in ["{\"id\":\"1\",\"username\":\"u\"}", "{\"code\":0}", "{\"message\":\"hi\"}", "oops", "[]"] {
        let response = Response::new(200, body);
        assert!(Client::token_response(&response).is_ok(), "{}", body);
    }
    assert!(Response::new(500, "oops").content.is_null());
    assert_eq!(Response::new(204, "").status, 204);
}

#[test]
fn tick_sends_a_heartbeat() {
    let mut ws = Websocket::new();
    ws.track(Some(2));
    Client::tick(&mut ws).unwrap();
    assert_eq!(sent(&mut ws), vec!["{\"op\":1,\"d\":2}".to_string()]);
}

#[test]
fn ready_is_recognised_by_its_name() {
    let ready = Websocket::parse_message(Frame::Text(dispatch(1, "READY"))).unwrap();
    assert!(ready.is_ready());
    let other = Websocket::parse_message(Frame::Text(dispatch(1, "RESUMED"))).unwrap();
    assert!(!other.is_ready());
    assert!(!DiscordMessage::new_heartbeat(None).is_ready());
}
