use discord_bot::codec::GatewayError;
use discord_bot::engine::{
    Action, ConnectionState, Engine, Event, LoopExit, CLOSE_NORMAL, CLOSE_PROTOCOL_ERROR,
};
use discord_bot::shutdown::ShutdownToken;

const IDENTIFY_ABC: &str = "{\"op\":2,\"d\":{\"token\":\"abc\",\"intents\":0,\"properties\":{\"$browser\":\"discord-rs\",\"$device\":\"discord-rs\"}}}";

fn steady_engine(interval: u64, now: u64) -> Engine {
    let mut e = Engine::new("abc");
    e.on_open();
    let hello = format!("{{\"op\":10,\"d\":{{\"heartbeat_interval\":{}}}}}", interval);
    let identify = e.on_hello_text(&hello, now).unwrap();
    assert_eq!(identify, IDENTIFY_ABC);
    e.identify_sent();
    assert_eq!(e.state, ConnectionState::Steady);
    e
}

#[test]
fn scenario_hello_schedules_first_heartbeat() {
    // The peer's first message announces the interval; the engine moves
    // through identifying into steady state with the first fire strictly
    // within one interval.
    let now = 1_000;
    let mut e = Engine::new("abc");
    e.on_open();
    assert_eq!(e.state, ConnectionState::AwaitingHello);
    let identify = e
        .on_hello_text("{\"op\":10,\"d\":{\"heartbeat_interval\":45000}}", now)
        .unwrap();
    assert_eq!(identify, IDENTIFY_ABC);
    assert_eq!(e.state, ConnectionState::Identifying);
    let hb = e.heartbeat.unwrap();
    assert_eq!(hb.interval, 45_000);
    assert!(!hb.ack_pending);
    assert!(now <= hb.next_fire && hb.next_fire < now + 45_000);
    e.identify_sent();
    assert_eq!(e.state, ConnectionState::Steady);
}

#[test]
fn first_fire_jitter_stays_in_window() {
    for _ in 0..64 {
        let e = steady_engine(45_000, 7_000);
        let hb = e.heartbeat.unwrap();
        assert!(7_000 <= hb.next_fire && hb.next_fire < 7_000 + 45_000);
    }
    // With an interval of one, the only jitter in range is zero.
    let e = steady_engine(1, 5);
    assert_eq!(e.heartbeat.unwrap().next_fire, 5);
}

#[test]
fn scenario_missed_ack_closes_as_zombied() {
    // The engine sends a heartbeat, the peer never replies, and the next
    // fire closes the connection with the protocol-violation code.
    let mut e = steady_engine(45_000, 0);
    let first = e.step(Event::TimerFired);
    assert!(first.exit.is_none());
    match first.action {
        Action::Send(frame) => assert_eq!(frame, "{\"op\":1,\"d\":null}"),
        _ => panic!("first fire must send a heartbeat"),
    }
    let second = e.step(Event::TimerFired);
    assert_eq!(second.exit, Some(LoopExit::Zombied));
    match second.action {
        Action::Close(code, reason) => {
            assert_eq!(code, CLOSE_PROTOCOL_ERROR);
            assert_eq!(reason, "Connection zombied");
        },
        _ => panic!("zombie detection must close the transport"),
    }
    assert_eq!(e.state, ConnectionState::Closing);
}

#[test]
fn scenario_ack_before_next_fire_keeps_the_loop_alive() {
    // The peer acknowledges before the next fire: no closure, the loop
    // continues, and the following fire sends again.
    let mut e = steady_engine(45_000, 0);
    let first = e.step(Event::TimerFired);
    assert!(first.exit.is_none());
    assert!(e.heartbeat.unwrap().ack_pending);
    let ack = e.on_frame_text("{\"op\":11,\"d\":null}");
    assert!(ack.exit.is_none());
    assert!(!e.heartbeat.unwrap().ack_pending);
    let third = e.step(Event::TimerFired);
    assert!(third.exit.is_none());
    match third.action {
        Action::Send(frame) => assert_eq!(frame, "{\"op\":1,\"d\":null}"),
        _ => panic!("an acknowledged fire must send, not close"),
    }
    assert_eq!(e.state, ConnectionState::Steady);
}

#[test]
fn scenario_shutdown_closes_with_the_normal_code() {
    // Shutdown fired mid-loop: the engine sends a normal-code close frame
    // and reports a shutdown result.
    let mut e = steady_engine(45_000, 0);
    let step = e.step(Event::Shutdown);
    assert_eq!(step.exit, Some(LoopExit::ShutdownRequested));
    match step.action {
        Action::Close(code, _) => assert_eq!(code, CLOSE_NORMAL),
        _ => panic!("shutdown must close the transport"),
    }
    assert_eq!(e.state, ConnectionState::Closing);
    e.closed();
    assert_eq!(e.state, ConnectionState::Closed);
}

#[test]
fn shutdown_exits_whatever_the_engine_was_doing() {
    // Fresh steady state.
    let mut e = steady_engine(45_000, 0);
    assert_eq!(e.step(Event::Shutdown).exit, Some(LoopExit::ShutdownRequested));
    // With a heartbeat in flight.
    let mut e = steady_engine(45_000, 0);
    e.step(Event::TimerFired);
    assert_eq!(e.step(Event::Shutdown).exit, Some(LoopExit::ShutdownRequested));
    // Right after inbound traffic.
    let mut e = steady_engine(45_000, 0);
    e.on_frame_text("{\"op\":0,\"s\":1,\"t\":\"X\",\"d\":{}}");
    assert_eq!(e.step(Event::Shutdown).exit, Some(LoopExit::ShutdownRequested));
}

#[test]
fn hello_errors_are_exact_and_do_not_panic() {
    // A hello without the mandatory interval is a protocol violation.
    let mut e = Engine::new("abc");
    e.on_open();
    let r = e.on_hello_text("{\"op\":10,\"d\":{}}", 0);
    assert_eq!(r.unwrap_err(), GatewayError::ProtocolViolation);
    assert_eq!(e.state, ConnectionState::Closing);

    // Any first opcode other than hello is a protocol violation.
    let mut e = Engine::new("abc");
    e.on_open();
    let r = e.on_hello_text("{\"op\":11,\"d\":null}", 0);
    assert_eq!(r.unwrap_err(), GatewayError::ProtocolViolation);

    // A first frame outside the grammar is a malformed frame.
    let mut e = Engine::new("abc");
    e.on_open();
    let r = e.on_hello_text("hello there", 0);
    assert_eq!(r.unwrap_err(), GatewayError::MalformedFrame);
}

#[test]
fn peer_heartbeat_gets_an_immediate_reply() {
    let mut e = steady_engine(45_000, 0);
    e.on_frame_text("{\"op\":0,\"s\":9,\"t\":\"X\",\"d\":{}}");
    let step = e.on_frame_text("{\"op\":1,\"d\":null}");
    assert!(step.exit.is_none());
    match step.action {
        Action::Send(frame) => assert_eq!(frame, "{\"op\":1,\"d\":9}"),
        _ => panic!("a peer heartbeat must be answered at once"),
    }
}

#[test]
fn unknown_opcodes_are_logged_and_ignored_never_fatal() {
    let mut e = steady_engine(45_000, 0);
    // Known but unhandled opcodes are ignored silently.
    for op in [3, 4, 5, 6, 7, 8, 9, 12] {
        let step = e.on_frame_text(&format!("{{\"op\":{},\"d\":null}}", op));
        assert!(step.exit.is_none(), "opcode {} must not end the loop", op);
        assert!(matches!(step.action, Action::Nothing));
        assert!(step.log.is_none());
    }
    // Opcodes outside the known set are logged and ignored.
    for op in [13, 99, 255] {
        let step = e.on_frame_text(&format!("{{\"op\":{},\"d\":null}}", op));
        assert!(step.exit.is_none(), "opcode {} must not end the loop", op);
        assert!(matches!(step.action, Action::Nothing));
        assert_eq!(step.log.as_deref(), Some(format!("Unknown opcode: {}. Ignoring...", op).as_str()));
    }
    assert_eq!(e.state, ConnectionState::Steady);
}

#[test]
fn malformed_steady_frame_fails_the_connection() {
    let mut e = steady_engine(45_000, 0);
    let step = e.on_frame_text("{{nope");
    assert_eq!(step.exit, Some(LoopExit::ProtocolViolation));
    match step.action {
        Action::Close(code, _) => assert_eq!(code, CLOSE_PROTOCOL_ERROR),
        _ => panic!("a malformed frame must close the transport"),
    }
    assert_eq!(e.state, ConnectionState::Closing);
}

#[test]
fn dispatch_frames_are_handed_out_and_sequence_recorded() {
    let mut e = steady_engine(45_000, 0);
    let step = e.on_frame_text("{\"op\":0,\"s\":17,\"t\":\"GUILD_CREATE\",\"d\":{}}");
    assert!(step.exit.is_none());
    match step.action {
        Action::Dispatch(env) => {
            assert_eq!(env.opcode, 0);
            assert_eq!(env.sequence, Some(17));
            assert_eq!(env.event_name.as_deref(), Some("GUILD_CREATE"));
        },
        _ => panic!("dispatch-class frames go to the collaborator"),
    }
    assert_eq!(e.last_seq, Some(17));
    // The next heartbeat carries the observed sequence.
    let step = e.step(Event::TimerFired);
    match step.action {
        Action::Send(frame) => assert_eq!(frame, "{\"op\":1,\"d\":17}"),
        _ => panic!("the fire must send a heartbeat"),
    }
}

#[test]
fn peer_close_surfaces_as_transport_failure() {
    let mut e = steady_engine(45_000, 0);
    let step = e.step(Event::PeerClosed);
    assert_eq!(step.exit, Some(LoopExit::TransportFailure));
    assert_eq!(e.state, ConnectionState::Closing);
}

#[test]
fn later_fires_keep_the_interval_cadence() {
    let mut e = steady_engine(45_000, 0);
    let scheduled = e.heartbeat.unwrap().next_fire;
    let first = e.step(Event::TimerFired);
    assert!(first.exit.is_none());
    assert_eq!(e.heartbeat.unwrap().next_fire, scheduled + 45_000);
    e.on_frame_text("{\"op\":11,\"d\":null}");
    let second = e.step(Event::TimerFired);
    assert!(second.exit.is_none());
    assert_eq!(e.heartbeat.unwrap().next_fire, scheduled + 2 * 45_000);
}

#[test]
fn transport_failure_is_surfaced_not_swallowed() {
    // A dead socket during the handshake surfaces as a transport failure.
    let mut e = Engine::new("abc");
    e.on_open();
    assert_eq!(e.on_transport_error(), GatewayError::TransportFailure);
    assert_eq!(e.state, ConnectionState::Closing);

    // A first frame that is not structured text fails as malformed.
    let mut e = Engine::new("abc");
    e.on_open();
    assert_eq!(e.on_hello_non_text(), GatewayError::MalformedFrame);
    assert_eq!(e.state, ConnectionState::Closing);
}

#[test]
fn zero_interval_fires_immediately() {
    // A numeric interval of zero is accepted; the first fire is due at once.
    let mut e = Engine::new("abc");
    e.on_open();
    e.on_hello_text("{\"op\":10,\"d\":{\"heartbeat_interval\":0}}", 9_000).unwrap();
    let hb = e.heartbeat.unwrap();
    assert_eq!(hb.interval, 0);
    assert_eq!(hb.next_fire, 9_000);
}

#[test]
fn shutdown_token_fires_once_and_stays_fired() {
    let mut token = ShutdownToken::new();
    assert!(!token.is_fired());
    token.fire();
    assert!(token.is_fired());
    token.fire();
    assert!(token.is_fired());
}
