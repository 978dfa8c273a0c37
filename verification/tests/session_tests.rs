use velocity::codec::decode_frame;
use velocity::encode::{encode_frame, OutFrame};
use velocity::models::PresenceStatus;
use velocity::session::{Action, Session};

fn new_session() -> Session {
    Session::new(
        String::from("secret"),
        String::from("linux"),
        Some(String::from("42")),
        PresenceStatus::Online,
    )
}

fn feed(session: &mut Session, text: &str) -> Vec<Action> {
    let frame = decode_frame(text).expect("frame should decode");
    session.handle_frame(&frame).expect("frame should not be fatal")
}

fn identify(session: &mut Session) -> Vec<Action> {
    feed(session, "{\"op\":10,\"d\":{\"heartbeat_interval\":45000}}")
}

#[test]
fn hello_arms_heartbeat_and_identifies() {
    let mut s = new_session();
    assert!(!s.identified);
    let acts = identify(&mut s);
    assert!(s.identified);
    assert_eq!(s.heartbeat_interval, Some(45000));
    assert_eq!(acts.len(), 2);
    assert!(matches!(acts[0], Action::ArmHeartbeat(45000)));
    match &acts[1] {
        Action::SendFrame(f @ OutFrame::Identify { token, presence, .. }) => {
            assert_eq!(token, "secret");
            assert_eq!(*presence, PresenceStatus::Online);
            let text = encode_frame(f);
            let v: serde_json::Value = serde_json::from_str(&text).unwrap();
            assert_eq!(v["op"].as_u64(), Some(2));
        }
        other => panic!("expected identify, got {:?}", other),
    }
}

#[test]
fn identify_sent_only_once() {
    let mut s = new_session();
    let first = identify(&mut s);
    assert_eq!(first.len(), 2);
    let second = feed(&mut s, "{\"op\":10,\"d\":{\"heartbeat_interval\":30000}}");
    assert_eq!(second.len(), 1);
    assert!(matches!(second[0], Action::ArmHeartbeat(30000)));
    assert_eq!(s.heartbeat_interval, Some(30000));
}

#[test]
fn malformed_hello_is_fatal() {
    let mut s = new_session();
    let frame = decode_frame("{\"op\":10,\"d\":{}}").unwrap();
    assert!(s.handle_frame(&frame).is_err());
}

#[test]
fn heartbeat_carries_last_seen_sequence() {
    let mut s = new_session();
    identify(&mut s);
    feed(&mut s, "{\"op\":0,\"s\":5,\"t\":\"IGNORED_EVENT\",\"d\":{}}");
    feed(&mut s, "{\"op\":11,\"s\":9}");
    let acts = s.on_heartbeat_tick();
    assert_eq!(acts.len(), 1);
    match &acts[0] {
        Action::SendFrame(f @ OutFrame::Heartbeat { last_seq }) => {
            assert_eq!(*last_seq, 9);
            assert_eq!(encode_frame(f), "{\"op\":1,\"d\":9}");
        }
        other => panic!("expected heartbeat, got {:?}", other),
    }
}

#[test]
fn no_heartbeat_before_identify() {
    let s = new_session();
    assert!(s.on_heartbeat_tick().is_empty());
}

#[test]
fn presence_command_sent_once_identified() {
    let mut s = new_session();
    let silent = s.on_presence_command(PresenceStatus::Idle);
    assert!(silent.is_empty());
    assert_eq!(s.presence, PresenceStatus::Idle);
    identify(&mut s);
    let acts = s.on_presence_command(PresenceStatus::DoNotDisturb);
    assert_eq!(acts.len(), 1);
    match &acts[0] {
        Action::SendFrame(f) => {
            let text = encode_frame(f);
            assert!(text.contains("\"status\":\"dnd\""));
        }
        other => panic!("expected presence frame, got {:?}", other),
    }
}

#[test]
fn presence_rides_along_with_identify() {
    let mut s = new_session();
    s.on_presence_command(PresenceStatus::Invisible);
    let acts = identify(&mut s);
    match &acts[1] {
        Action::SendFrame(f) => {
            let text = encode_frame(f);
            assert!(text.contains("\"status\":\"invisible\""));
        }
        other => panic!("expected identify, got {:?}", other),
    }
}

#[test]
fn malformed_dispatch_keeps_loop_alive() {
    let mut s = new_session();
    identify(&mut s);
    let dropped = feed(&mut s, "{\"op\":0,\"s\":3,\"t\":\"MESSAGE_CREATE\",\"d\":{\"id\":7}}");
    assert!(dropped.is_empty());
    assert_eq!(s.last_seq, 3);
    let acts = feed(
        &mut s,
        "{\"op\":0,\"s\":4,\"t\":\"TYPING_START\",\"d\":{\"channel_id\":\"c\",\"user_id\":\"7\"}}",
    );
    assert_eq!(acts.len(), 1);
    match &acts[0] {
        Action::DeliverTyping { channel_id, user_id } => {
            assert_eq!(channel_id, "c");
            assert_eq!(user_id, "7");
        }
        other => panic!("expected typing, got {:?}", other),
    }
}

#[test]
fn message_create_is_delivered() {
    let mut s = new_session();
    identify(&mut s);
    let acts = feed(
        &mut s,
        "{\"op\":0,\"t\":\"MESSAGE_CREATE\",\"d\":{\"id\":\"m\",\"channel_id\":\"c\",\"content\":\"hey\"}}",
    );
    assert_eq!(acts.len(), 1);
    match &acts[0] {
        Action::DeliverMessage(m) => {
            assert_eq!(m.content, "hey");
            assert_eq!(m.channel_id, "c");
        }
        other => panic!("expected message, got {:?}", other),
    }
}

#[test]
fn own_typing_is_never_forwarded() {
    let mut s = new_session();
    identify(&mut s);
    let own = feed(
        &mut s,
        "{\"op\":0,\"t\":\"TYPING_START\",\"d\":{\"channel_id\":\"c\",\"user_id\":\"42\"}}",
    );
    assert!(own.is_empty());
    let other = feed(
        &mut s,
        "{\"op\":0,\"t\":\"TYPING_START\",\"d\":{\"channel_id\":\"c\",\"user_id\":\"43\"}}",
    );
    assert_eq!(other.len(), 1);
}

#[test]
fn close_frame_ends_session() {
    let mut s = new_session();
    identify(&mut s);
    let acts = feed(&mut s, "{\"op\":9,\"s\":12}");
    assert_eq!(acts.len(), 1);
    assert!(matches!(acts[0], Action::Close));
    assert_eq!(s.last_seq, 12);
}

#[test]
fn unknown_opcode_is_ignored() {
    let mut s = new_session();
    identify(&mut s);
    let acts = feed(&mut s, "{\"op\":11,\"s\":2}");
    assert!(acts.is_empty());
    assert_eq!(s.last_seq, 2);
}
