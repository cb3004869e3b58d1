use binance_streams::event::symbol_of_stream;
use binance_streams::session::{disconnect_step, ConnState, Connection, EventLoop, Frame, LoopState, Reaction};
use binance_streams::stream::ConnectError;
use binance_streams::text::{parse_i64, parse_u64};
use binance_streams::userstream::{read_ack, read_start_reply, FuturesUserStream, HttpMethod, SessionError};

/// Runs the loop over scripted frames; `flags[i]` is the flag seen before read `i`,
/// `verdicts` the callback's answers in delivery order. Returns the final state,
/// the frames read and the payloads delivered.
fn drive(flags: &[bool], frames: Vec<Frame>, verdicts: &[bool]) -> (LoopState, usize, usize) {
    let mut lp = EventLoop::new();
    let mut read = 0;
    let mut delivered = 0;
    for (i, f) in frames.into_iter().enumerate() {
        if !lp.should_read(flags.get(i).copied().unwrap_or(false)) {
            break;
        }
        read += 1;
        match lp.on_frame(f) {
            Reaction::Deliver(_) => {
                let ok = verdicts.get(delivered).copied().unwrap_or(true);
                delivered += 1;
                lp.on_callback(ok);
            }
            Reaction::Finish => break,
            Reaction::Reply(_) | Reaction::Skip => {}
        }
        if lp.is_done() {
            break;
        }
    }
    (lp.state, read, delivered)
}

fn text(s: &str) -> Frame {
    Frame::Text(s.as_bytes().to_vec())
}

#[test]
fn preset_cancellation_reads_nothing() {
    let (state, read, delivered) = drive(&[true], vec![text("{}"), Frame::Close], &[]);
    assert_eq!(state, LoopState::Cancelled);
    assert_eq!(read, 0);
    assert_eq!(delivered, 0);
}

#[test]
fn callback_failure_stops_mid_stream() {
    let frames = vec![text("a"), Frame::Ping(vec![1]), text("b"), text("c"), text("d")];
    let (state, read, delivered) = drive(&[], frames, &[true, false, true]);
    assert_eq!(state, LoopState::Stopped);
    assert_eq!(read, 3);
    assert_eq!(delivered, 2);
}

#[test]
fn close_frame_ends_loop() {
    let frames = vec![text("a"), Frame::Close, text("b")];
    let (state, read, _) = drive(&[false, false, false], frames, &[]);
    assert_eq!(state, LoopState::Closed);
    assert_eq!(read, 2);
}

#[test]
fn ping_is_echoed_and_not_delivered() {
    let mut lp = EventLoop::new();
    assert!(lp.should_read(false));
    match lp.on_frame(Frame::Ping(vec![7, 8])) {
        Reaction::Reply(p) => assert_eq!(p, vec![7, 8]),
        _ => panic!("a ping must be answered"),
    }
    assert!(matches!(lp.on_frame(Frame::Pong(vec![])), Reaction::Skip));
    assert_eq!(lp.state, LoopState::Running);
}

#[test]
fn cancellation_seen_between_frames() {
    let (state, read, _) = drive(&[false, true], vec![text("a"), text("b")], &[]);
    assert_eq!(state, LoopState::Cancelled);
    assert_eq!(read, 1);
}

#[test]
fn disconnect_is_idempotent() {
    let (s1, sent1) = disconnect_step(ConnState::Active);
    assert_eq!((s1, sent1), (ConnState::Closed, true));
    let (s2, sent2) = disconnect_step(s1);
    assert_eq!((s2, sent2), (ConnState::Closed, false));
    assert_eq!(disconnect_step(ConnState::Idle), (ConnState::Closed, false));
}

#[test]
fn stream_symbol_recovery() {
    assert_eq!(symbol_of_stream("ethusdt@depth5@500ms"), "ETHUSDT");
    assert_eq!(symbol_of_stream("btcusdt"), "BTCUSDT");
    assert_eq!(symbol_of_stream("@x"), "");
}

#[test]
fn integer_texts() {
    assert_eq!(parse_u64("18446744073709551615"), Some(u64::MAX));
    assert_eq!(parse_u64("18446744073709551616"), None);
    assert_eq!(parse_u64(""), None);
    assert_eq!(parse_u64("12a"), None);
    assert_eq!(parse_i64("-9223372036854775808"), Some(i64::MIN));
    assert_eq!(parse_i64("-9223372036854775809"), None);
    assert_eq!(parse_i64("-"), None);
    assert_eq!(parse_i64("42"), Some(42));
}

#[test]
fn token_requests() {
    let us = FuturesUserStream { api_key: Some("k".to_string()), recv_window: 5000 };
    let r = us.start();
    assert_eq!(r.method, HttpMethod::Post);
    assert_eq!(r.path, "/fapi/v1/listenKey");
    assert_eq!(r.listen_key, None);
    let r = us.keep_alive("abc");
    assert_eq!(r.method, HttpMethod::Put);
    assert_eq!(r.listen_key, Some("abc".to_string()));
    let r = us.close("abc");
    assert_eq!(r.method, HttpMethod::Delete);
    assert_eq!(r.listen_key, Some("abc".to_string()));
}

#[test]
fn token_replies() {
    assert_eq!(read_start_reply(200, br#"{"listenKey":"pqia91ma19a5s61cv6a81va65sdf19v8a65a1a5s61cv6a81va65sdf19v8a65a1"}"#).unwrap().len(), 64);
    assert_eq!(read_start_reply(200, br#"{"other":1}"#), Err(SessionError::ProtocolError));
    assert_eq!(read_start_reply(401, b"{}"), Err(SessionError::AuthError));
    assert_eq!(read_start_reply(500, b"{}"), Err(SessionError::ProtocolError));
    assert_eq!(read_ack(200), Ok(()));
    assert_eq!(read_ack(403), Err(SessionError::AuthError));
    assert_eq!(read_ack(400), Err(SessionError::ProtocolError));
}

#[test]
fn connection_lifecycle() {
    let mut c = Connection::connect("wss://fstream.binance.com/ws", "btcusdt@bookTicker").unwrap();
    assert_eq!(c.state, ConnState::Connecting);
    assert_eq!(c.address, "wss://fstream.binance.com/ws/btcusdt@bookTicker");
    assert!(!c.combined);
    assert_eq!(c.on_handshake(true), Ok(()));
    assert_eq!(c.state, ConnState::Active);
    assert!(c.disconnect());
    assert_eq!(c.state, ConnState::Closed);
    assert!(!c.disconnect());
    assert_eq!(c.state, ConnState::Closed);
}

#[test]
fn connection_handshake_failure_and_invalid_targets() {
    let mut c = Connection::connect("b", "x@trade").unwrap();
    assert_eq!(c.on_handshake(false), Err(ConnectError::Handshake));
    assert_eq!(c.state, ConnState::Closed);
    assert!(!c.disconnect());
    assert!(matches!(Connection::connect("b", ""), Err(ConnectError::InvalidTarget)));
    let names = vec!["btcusdt@depth5@500ms".to_string(), "ethusdt@depth5@500ms".to_string()];
    let m = Connection::connect_multiple("wss://h", &names).unwrap();
    assert!(m.combined);
    assert_eq!(m.address, "wss://h/stream?streams=btcusdt@depth5@500ms/ethusdt@depth5@500ms");
    assert!(matches!(Connection::connect_multiple("wss://h", &vec![]), Err(ConnectError::InvalidTarget)));
}
