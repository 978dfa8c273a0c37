use velocity::digits::{dec_string, parse_id};
use velocity::models::{
    default_presence, default_true, AppSettings, Channel, DiscordUser, Guild, Message,
    PresenceStatus, State,
};
use velocity::typing::TypingTracker;
use velocity::updater::{check_for_updates, perform_update};

#[test]
fn settings_defaults() {
    let s = AppSettings::default();
    assert!(!s.show_metrics_overlay);
    assert!(!s.welcome_seen);
    assert!(s.animations_enabled);
    assert_eq!(s.presence, PresenceStatus::Online);
    assert!(!s.ghost_typing);
    assert!(default_true());
    assert_eq!(default_presence(), PresenceStatus::Online);
}

#[test]
fn state_starts_empty() {
    let st = State::default();
    assert!(st.token.is_none());
    assert!(st.guilds.is_empty());
    assert!(st.channels.is_empty());
    assert!(st.messages.is_empty());
}

#[test]
fn model_values_round_trip_fields() {
    let g = Guild { id: String::from("1"), name: String::from("g") };
    let c = Channel { id: String::from("2"), name: String::from("c"), guild_id: Some(g.id.clone()) };
    assert_eq!(c.guild_id.as_deref(), Some("1"));
    let m = Message {
        id: String::from("m"),
        channel_id: c.id.clone(),
        author_id: String::from("u"),
        author_username: None,
        content: String::from("hi"),
        timestamp: None,
        sending: true,
    };
    assert_eq!(m, m.clone());
    let u = DiscordUser {
        id: String::from("u"),
        username: String::from("kim"),
        global_name: None,
        discriminator: None,
        avatar: None,
    };
    assert_eq!(u.username, "kim");
}

#[test]
fn updater_reports_nothing_without_backend() {
    assert_eq!(check_for_updates(), Ok(None));
    assert_eq!(
        perform_update(),
        Err(String::from("self-update feature is disabled"))
    );
}

#[test]
fn typing_notice_expires_after_ten_seconds() {
    let mut t = TypingTracker::new();
    t.note_typing(String::from("c"), String::from("u"), 100);
    assert_eq!(t.typing_users("c", 105), vec![String::from("u")]);
    assert_eq!(t.typing_users("c", 109), vec![String::from("u")]);
    assert!(t.typing_users("c", 110).is_empty());
}

#[test]
fn typing_notice_is_refreshed_in_place() {
    let mut t = TypingTracker::new();
    t.note_typing(String::from("c"), String::from("u"), 100);
    t.note_typing(String::from("c"), String::from("u"), 200);
    assert_eq!(t.typing_users("c", 205), vec![String::from("u")]);
    assert_eq!(t.typing_users("c", 205).len(), 1);
}

#[test]
fn typing_is_tracked_per_channel() {
    let mut t = TypingTracker::new();
    t.note_typing(String::from("c1"), String::from("u1"), 100);
    t.note_typing(String::from("c2"), String::from("u2"), 100);
    t.note_typing(String::from("c1"), String::from("u3"), 100);
    assert_eq!(
        t.typing_users("c1", 101),
        vec![String::from("u1"), String::from("u3")]
    );
    assert_eq!(t.typing_users("c2", 101), vec![String::from("u2")]);
    assert!(t.typing_users("c3", 101).is_empty());
}

#[test]
fn parse_id_handles_valid_and_invalid_input() {
    assert_eq!(parse_id("123"), 123);
    assert_eq!(parse_id("+5"), 5);
    assert_eq!(parse_id("0"), 0);
    assert_eq!(parse_id(""), 0);
    assert_eq!(parse_id("abc"), 0);
    assert_eq!(parse_id("12a"), 0);
    assert_eq!(parse_id("-3"), 0);
    assert_eq!(parse_id("18446744073709551615"), u64::MAX);
    assert_eq!(parse_id("18446744073709551616"), 0);
    assert_eq!(parse_id("99999999999999999999999"), 0);
}

#[test]
fn dec_string_renders_decimals() {
    assert_eq!(dec_string(0), "0");
    assert_eq!(dec_string(7), "7");
    assert_eq!(dec_string(1042), "1042");
    assert_eq!(dec_string(u64::MAX), "18446744073709551615");
}
