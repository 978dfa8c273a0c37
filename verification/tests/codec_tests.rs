use velocity::codec::{decode_frame, parse_dispatch, str_eq, DecodeError, DispatchEvent};
use velocity::encode::{encode_frame, OutFrame};
use velocity::models::PresenceStatus;
use velocity::session::DEFAULT_INTENTS;

fn decode(text: &str) -> velocity::codec::FrameData {
    decode_frame(text).expect("frame should decode")
}

#[test]
fn round_trip_heartbeat() {
    let text = encode_frame(&OutFrame::Heartbeat { last_seq: 42 });
    assert_eq!(text, "{\"op\":1,\"d\":42}");
    let frame = decode(&text);
    assert_eq!(frame.op, 1);
    let v: serde_json::Value = serde_json::from_str(&text).unwrap();
    assert_eq!(v.get("d").and_then(|d| d.as_u64()), Some(42));
    assert_eq!(frame.doc.get("d").and_then(|d| d.as_u64()), Some(42));
}

#[test]
fn encode_identify_exact_text() {
    let text = encode_frame(&OutFrame::Identify {
        token: String::from("tok"),
        intents: DEFAULT_INTENTS,
        os: String::from("linux"),
        presence: PresenceStatus::Online,
    });
    assert_eq!(
        text,
        "{\"op\":2,\"d\":{\"token\":\"tok\",\"intents\":20866,\
         \"properties\":{\"os\":\"linux\",\"browser\":\"Velocity\",\"device\":\"Velocity\"},\
         \"presence\":{\"since\":null,\"activities\":[],\"status\":\"online\",\"afk\":false}}}"
    );
    let v: serde_json::Value = serde_json::from_str(&text).unwrap();
    assert_eq!(v["op"].as_u64(), Some(2));
    assert_eq!(v["d"]["token"].as_str(), Some("tok"));
    assert_eq!(v["d"]["intents"].as_u64(), Some(4096 | 16384 | 256 | 128 | 2));
}

#[test]
fn encode_identify_escapes_token() {
    let text = encode_frame(&OutFrame::Identify {
        token: String::from("a\"b\\c\n"),
        intents: 1,
        os: String::from("os"),
        presence: PresenceStatus::Online,
    });
    let v: serde_json::Value = serde_json::from_str(&text).unwrap();
    assert_eq!(v["d"]["token"].as_str(), Some("a\"b\\c\n"));
    assert!(text.contains("a\\\"b\\\\c\\u000a"));
}

#[test]
fn encode_presence_idle_is_afk() {
    let text = encode_frame(&OutFrame::PresenceUpdate { presence: PresenceStatus::Idle });
    assert_eq!(
        text,
        "{\"op\":3,\"d\":{\"since\":null,\"activities\":[],\"status\":\"idle\",\"afk\":true}}"
    );
}

#[test]
fn encode_presence_words() {
    for (p, word) in [
        (PresenceStatus::Online, "online"),
        (PresenceStatus::Idle, "idle"),
        (PresenceStatus::DoNotDisturb, "dnd"),
        (PresenceStatus::Invisible, "invisible"),
    ] {
        let text = encode_frame(&OutFrame::PresenceUpdate { presence: p });
        let v: serde_json::Value = serde_json::from_str(&text).unwrap();
        assert_eq!(v["d"]["status"].as_str(), Some(word));
    }
}

#[test]
fn encode_voice_state_join_and_leave() {
    let join = encode_frame(&OutFrame::VoiceState {
        guild_id: Some(String::from("9")),
        channel_id: Some(String::from("77")),
        self_mute: true,
        self_deaf: false,
    });
    assert_eq!(
        join,
        "{\"op\":4,\"d\":{\"guild_id\":\"9\",\"channel_id\":\"77\",\"self_mute\":true,\"self_deaf\":false}}"
    );
    let leave = encode_frame(&OutFrame::VoiceState {
        guild_id: None,
        channel_id: None,
        self_mute: false,
        self_deaf: false,
    });
    assert_eq!(
        leave,
        "{\"op\":4,\"d\":{\"guild_id\":null,\"channel_id\":null,\"self_mute\":false,\"self_deaf\":false}}"
    );
}

#[test]
fn decode_rejects_bad_json() {
    assert_eq!(decode_frame("not json").unwrap_err(), DecodeError::NotJson);
}

#[test]
fn decode_rejects_missing_opcode() {
    assert_eq!(decode_frame("{\"d\":null}").unwrap_err(), DecodeError::NoOpcode);
    assert_eq!(
        decode_frame("{\"op\":\"x\"}").unwrap_err(),
        DecodeError::NoOpcode
    );
    assert_eq!(decode_frame("{\"op\":999}").unwrap_err(), DecodeError::NoOpcode);
}

#[test]
fn decode_reads_envelope_fields() {
    let f = decode("{\"op\":0,\"s\":7,\"t\":\"TYPING_START\",\"d\":{}}");
    assert_eq!(f.op, 0);
    assert_eq!(f.seq, Some(7));
    assert_eq!(f.event.as_deref(), Some("TYPING_START"));
    let g = decode("{\"op\":11}");
    assert_eq!(g.op, 11);
    assert_eq!(g.seq, None);
    assert_eq!(g.event, None);
}

#[test]
fn dispatch_message_create_full() {
    let f = decode(
        "{\"op\":0,\"t\":\"MESSAGE_CREATE\",\"d\":{\"id\":\"m1\",\"channel_id\":\"c1\",\
         \"content\":\"hi\",\"timestamp\":\"2024-01-01T00:00:00Z\",\
         \"author\":{\"id\":\"u1\",\"username\":\"kim\",\"global_name\":\"Kim\"}}}",
    );
    match parse_dispatch("MESSAGE_CREATE", &f) {
        Some(DispatchEvent::MessageCreated(m)) => {
            assert_eq!(m.id, "m1");
            assert_eq!(m.channel_id, "c1");
            assert_eq!(m.content, "hi");
            assert_eq!(m.timestamp.as_deref(), Some("2024-01-01T00:00:00Z"));
            assert_eq!(m.author_id, "u1");
            assert_eq!(m.author_username.as_deref(), Some("Kim"));
            assert!(!m.sending);
        }
        other => panic!("unexpected event: {:?}", other),
    }
}

#[test]
fn dispatch_message_create_without_author() {
    let f = decode(
        "{\"op\":0,\"t\":\"MESSAGE_CREATE\",\"d\":{\"id\":\"m\",\"channel_id\":\"c\",\"content\":\"x\"}}",
    );
    match parse_dispatch("MESSAGE_CREATE", &f) {
        Some(DispatchEvent::MessageCreated(m)) => {
            assert_eq!(m.author_id, "");
            assert_eq!(m.author_username, None);
            assert_eq!(m.timestamp, None);
        }
        other => panic!("unexpected event: {:?}", other),
    }
}

#[test]
fn dispatch_author_falls_back_to_username() {
    let f = decode(
        "{\"op\":0,\"t\":\"MESSAGE_CREATE\",\"d\":{\"id\":\"m\",\"channel_id\":\"c\",\
         \"content\":\"x\",\"author\":{\"id\":\"u\",\"username\":\"kim\",\"global_name\":null}}}",
    );
    match parse_dispatch("MESSAGE_CREATE", &f) {
        Some(DispatchEvent::MessageCreated(m)) => {
            assert_eq!(m.author_username.as_deref(), Some("kim"));
        }
        other => panic!("unexpected event: {:?}", other),
    }
}

#[test]
fn dispatch_presence_update_numeric_snowflake() {
    let f = decode(
        "{\"op\":0,\"t\":\"PRESENCE_UPDATE\",\"d\":{\"user\":{\"id\":12345},\"status\":\"idle\"}}",
    );
    match parse_dispatch("PRESENCE_UPDATE", &f) {
        Some(DispatchEvent::PresenceChanged { user_id, status }) => {
            assert_eq!(user_id, "12345");
            assert_eq!(status, "idle");
        }
        other => panic!("unexpected event: {:?}", other),
    }
}

#[test]
fn dispatch_presence_update_defaults_to_offline() {
    let f = decode("{\"op\":0,\"t\":\"PRESENCE_UPDATE\",\"d\":{\"user\":{\"id\":\"u\"}}}");
    match parse_dispatch("PRESENCE_UPDATE", &f) {
        Some(DispatchEvent::PresenceChanged { status, .. }) => assert_eq!(status, "offline"),
        other => panic!("unexpected event: {:?}", other),
    }
}

#[test]
fn dispatch_voice_server_update_null_endpoint() {
    let f = decode(
        "{\"op\":0,\"t\":\"VOICE_SERVER_UPDATE\",\"d\":{\"token\":\"tk\",\"endpoint\":null,\"guild_id\":\"g\"}}",
    );
    match parse_dispatch("VOICE_SERVER_UPDATE", &f) {
        Some(DispatchEvent::VoiceServerAssigned { token, endpoint, guild_id }) => {
            assert_eq!(token, "tk");
            assert_eq!(endpoint, None);
            assert_eq!(guild_id.as_deref(), Some("g"));
        }
        other => panic!("unexpected event: {:?}", other),
    }
}

#[test]
fn dispatch_unknown_event_is_dropped() {
    let f = decode("{\"op\":0,\"t\":\"GUILD_CREATE\",\"d\":{}}");
    assert!(parse_dispatch("GUILD_CREATE", &f).is_none());
}

#[test]
fn dispatch_malformed_payload_is_dropped() {
    let f = decode("{\"op\":0,\"t\":\"MESSAGE_CREATE\",\"d\":{\"id\":5}}");
    assert!(parse_dispatch("MESSAGE_CREATE", &f).is_none());
    let g = decode("{\"op\":0,\"t\":\"TYPING_START\"}");
    assert!(parse_dispatch("TYPING_START", &g).is_none());
}

#[test]
fn str_eq_compares_contents() {
    assert!(str_eq("abc", "abc"));
    assert!(!str_eq("abc", "abd"));
    assert!(!str_eq("abc", "ab"));
    assert!(str_eq("", ""));
}
