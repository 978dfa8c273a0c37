use velocity::codec::decode_frame;
use velocity::encode::encode_frame;
use velocity::models::PresenceStatus;
use velocity::session::{Action, Session};
use velocity::voice::{driver_ids, DriverIds, VoiceCommand, VoiceConnectionInfo};

fn ready_session() -> Session {
    let mut s = Session::new(
        String::from("secret"),
        String::from("linux"),
        Some(String::from("42")),
        PresenceStatus::Online,
    );
    let hello = decode_frame("{\"op\":10,\"d\":{\"heartbeat_interval\":45000}}").unwrap();
    s.handle_frame(&hello).unwrap();
    s
}

fn feed(session: &mut Session, text: &str) -> Vec<Action> {
    let frame = decode_frame(text).expect("frame should decode");
    session.handle_frame(&frame).expect("frame should not be fatal")
}

fn join_cmd() -> VoiceCommand {
    VoiceCommand::Join {
        guild_id: Some(String::from("9")),
        channel_id: String::from("77"),
        self_mute: false,
        self_deaf: true,
        input_device: Some(String::from("mic")),
        output_device: None,
    }
}

const STATE_UPDATE: &str = "{\"op\":0,\"t\":\"VOICE_STATE_UPDATE\",\"d\":{\"user_id\":\"42\",\"session_id\":\"sess\",\"channel_id\":\"77\"}}";
const SERVER_UPDATE: &str = "{\"op\":0,\"t\":\"VOICE_SERVER_UPDATE\",\"d\":{\"token\":\"tk\",\"endpoint\":\"ep.example\",\"guild_id\":\"9\"}}";

fn expect_connect(acts: &[Action]) -> VoiceConnectionInfo {
    assert_eq!(acts.len(), 1);
    match &acts[0] {
        Action::VoiceConnect { info, input_device, output_device } => {
            assert_eq!(input_device.as_deref(), Some("mic"));
            assert_eq!(output_device.as_deref(), None);
            info.clone()
        }
        other => panic!("expected connect, got {:?}", other),
    }
}

#[test]
fn join_command_announces_and_records() {
    let mut s = ready_session();
    let acts = s.on_voice_command(join_cmd());
    assert_eq!(acts.len(), 1);
    match &acts[0] {
        Action::SendFrame(f) => {
            assert_eq!(
                encode_frame(f),
                "{\"op\":4,\"d\":{\"guild_id\":\"9\",\"channel_id\":\"77\",\"self_mute\":false,\"self_deaf\":true}}"
            );
        }
        other => panic!("expected voice-state frame, got {:?}", other),
    }
    assert!(s.voice_pref.is_some());
    assert!(s.nego.pending_session.is_none());
    assert!(s.nego.pending_server.is_none());
}

#[test]
fn voice_commands_before_identify_are_dropped() {
    let mut s = Session::new(
        String::from("secret"),
        String::from("linux"),
        Some(String::from("42")),
        PresenceStatus::Online,
    );
    assert!(s.on_voice_command(join_cmd()).is_empty());
    assert!(s.on_voice_command(VoiceCommand::Leave).is_empty());
}

#[test]
fn negotiation_emits_one_descriptor() {
    let mut s = ready_session();
    s.on_voice_command(join_cmd());
    let first = feed(&mut s, STATE_UPDATE);
    assert!(first.is_empty());
    let second = feed(&mut s, SERVER_UPDATE);
    let info = expect_connect(&second);
    assert_eq!(info.channel_id, "77");
    assert_eq!(info.token, "tk");
    assert_eq!(info.endpoint, "ep.example");
    assert_eq!(info.session_id, "sess");
    assert_eq!(info.user_id, "42");
    assert_eq!(info.guild_id.as_deref(), Some("9"));
    assert!(s.nego.pending_session.is_none());
    assert!(s.nego.pending_server.is_none());
}

#[test]
fn negotiation_order_does_not_matter() {
    let mut s = ready_session();
    s.on_voice_command(join_cmd());
    let first = feed(&mut s, SERVER_UPDATE);
    assert!(first.is_empty());
    let second = feed(&mut s, STATE_UPDATE);
    let info = expect_connect(&second);
    assert_eq!(info.channel_id, "77");
    assert_eq!(info.token, "tk");
    assert_eq!(info.endpoint, "ep.example");
    assert_eq!(info.session_id, "sess");
    assert!(s.nego.pending_session.is_none());
    assert!(s.nego.pending_server.is_none());
}

#[test]
fn null_endpoint_means_not_ready() {
    let mut s = ready_session();
    s.on_voice_command(join_cmd());
    feed(&mut s, STATE_UPDATE);
    let relocating = feed(
        &mut s,
        "{\"op\":0,\"t\":\"VOICE_SERVER_UPDATE\",\"d\":{\"token\":\"tk\",\"endpoint\":null,\"guild_id\":\"9\"}}",
    );
    assert!(relocating.is_empty());
    assert!(s.nego.pending_session.is_some());
    let ready = feed(&mut s, SERVER_UPDATE);
    expect_connect(&ready);
}

#[test]
fn foreign_voice_state_is_ignored() {
    let mut s = ready_session();
    s.on_voice_command(join_cmd());
    let acts = feed(
        &mut s,
        "{\"op\":0,\"t\":\"VOICE_STATE_UPDATE\",\"d\":{\"user_id\":\"999\",\"session_id\":\"x\",\"channel_id\":\"77\"}}",
    );
    assert!(acts.is_empty());
    assert!(s.nego.pending_session.is_none());
    let after = feed(&mut s, SERVER_UPDATE);
    assert!(after.is_empty());
}

#[test]
fn empty_channel_never_connects() {
    let mut s = ready_session();
    s.on_voice_command(join_cmd());
    let left_voice = feed(
        &mut s,
        "{\"op\":0,\"t\":\"VOICE_STATE_UPDATE\",\"d\":{\"user_id\":\"42\",\"session_id\":\"sess\",\"channel_id\":null}}",
    );
    assert!(left_voice.is_empty());
    let after = feed(&mut s, SERVER_UPDATE);
    assert!(after.is_empty());
}

#[test]
fn leave_clears_and_notifies_driver() {
    let mut s = ready_session();
    s.on_voice_command(join_cmd());
    feed(&mut s, STATE_UPDATE);
    let acts = s.on_voice_command(VoiceCommand::Leave);
    assert_eq!(acts.len(), 2);
    assert!(matches!(acts[0], Action::VoiceDisconnect));
    match &acts[1] {
        Action::SendFrame(f) => {
            assert_eq!(
                encode_frame(f),
                "{\"op\":4,\"d\":{\"guild_id\":\"9\",\"channel_id\":null,\"self_mute\":false,\"self_deaf\":false}}"
            );
        }
        other => panic!("expected voice-state frame, got {:?}", other),
    }
    assert!(s.voice_pref.is_none());
    assert!(s.nego.pending_session.is_none());
    assert!(s.nego.pending_server.is_none());
}

#[test]
fn repeated_server_update_cannot_duplicate_connect() {
    let mut s = ready_session();
    s.on_voice_command(join_cmd());
    feed(&mut s, STATE_UPDATE);
    expect_connect(&feed(&mut s, SERVER_UPDATE));
    let again = feed(&mut s, SERVER_UPDATE);
    assert!(again.is_empty());
}

#[test]
fn driver_ids_parse_decimals() {
    let info = VoiceConnectionInfo {
        guild_id: Some(String::from("12")),
        channel_id: String::from("34"),
        endpoint: String::from("ep"),
        token: String::from("tk"),
        session_id: String::from("s"),
        user_id: String::from("56"),
    };
    assert_eq!(
        driver_ids(&info),
        Some(DriverIds { guild_id: 12, channel_id: 34, user_id: 56 })
    );
}

#[test]
fn driver_ids_guild_falls_back_to_one() {
    let info = VoiceConnectionInfo {
        guild_id: None,
        channel_id: String::from("34"),
        endpoint: String::from("ep"),
        token: String::from("tk"),
        session_id: String::from("s"),
        user_id: String::from("56"),
    };
    assert_eq!(driver_ids(&info).unwrap().guild_id, 1);
    let dm = VoiceConnectionInfo { guild_id: Some(String::from("junk")), ..info };
    assert_eq!(driver_ids(&dm).unwrap().guild_id, 1);
}

#[test]
fn driver_ids_reject_unparsable_channel_or_user() {
    let info = VoiceConnectionInfo {
        guild_id: None,
        channel_id: String::from("abc"),
        endpoint: String::from("ep"),
        token: String::from("tk"),
        session_id: String::from("s"),
        user_id: String::from("56"),
    };
    assert_eq!(driver_ids(&info), None);
    let zero_user = VoiceConnectionInfo {
        channel_id: String::from("34"),
        user_id: String::from("0"),
        ..info
    };
    assert_eq!(driver_ids(&zero_user), None);
}
