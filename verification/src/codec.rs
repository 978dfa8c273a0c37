//! Decoding of inbound frames: the JSON envelope `{op, d, s, t}` and the
//! typed payloads of the dispatched events.
//!
//! Parsed documents are opaque (they come from the JSON library), so the
//! contracts here are structural: whatever a payload parsed to, the produced
//! event variant agrees with the event name, and unknown names produce no
//! event.  The session state machine is then exact over every event value.

use vstd::prelude::*;

use crate::digits::dec_string;
use crate::json::{json_as_str, json_as_u64, json_field, json_is_null, parse_json};
use crate::models::{opt_str_view, Message, MessageV};

verus! {

/// Why inbound text could not be decoded into a frame.
#[derive(Clone, Copy, Debug, PartialEq, Eq, Structural)]
pub enum DecodeError {
    /// The text is not valid JSON.
    NotJson,
    /// The document carries no usable integer `op` field.
    NoOpcode,
}

/// An inbound frame: envelope fields as plain values, the document kept for
/// payload parsing.
#[derive(Debug)]
pub struct FrameData {
    /// Opcode of the frame.
    pub op: u8,
    /// Sequence number, when the frame carries one.
    pub seq: Option<u64>,
    /// Event name, on dispatch frames.
    pub event: Option<String>,
    /// The whole parsed document; payloads are read from its `d` field.
    pub doc: serde_json::Value,
}

/// Decode inbound wire text into a frame.  Failure here is fatal for the
/// connection attempt; which texts fail is decided by the JSON library.
pub fn decode_frame(text: &str) -> (r: Result<FrameData, DecodeError>)
    ensures
        r is Ok ==> r->Ok_0.op <= 255,
{
    let doc = match parse_json(text) {
        Some(v) => v,
        None => {
            return Err(DecodeError::NotJson);
        },
    };
    let op: u8 = match json_field(&doc, "op") {
        Some(v) => match json_as_u64(v) {
            Some(n) => {
                if n <= 255 {
                    n as u8
                } else {
                    return Err(DecodeError::NoOpcode);
                }
            },
            None => {
                return Err(DecodeError::NoOpcode);
            },
        },
        None => {
            return Err(DecodeError::NoOpcode);
        },
    };
    let seq: Option<u64> = match json_field(&doc, "s") {
        Some(v) => json_as_u64(v),
        None => None,
    };
    let event: Option<String> = match json_field(&doc, "t") {
        Some(v) => match json_as_str(v) {
            Some(s) => Some(s.to_owned()),
            None => None,
        },
        None => None,
    };
    Ok(FrameData { op, seq, event, doc })
}

/// The heartbeat interval carried by a hello frame, if its payload has one.
pub(crate) fn hello_interval(f: &FrameData) -> Option<u64> {
    match json_field(&f.doc, "d") {
        Some(d) => match json_field(d, "heartbeat_interval") {
            Some(v) => json_as_u64(v),
            None => None,
        },
        None => None,
    }
}

/// A dispatched event, decoded to plain values.
#[derive(Clone, Debug)]
pub enum DispatchEvent {
    MessageCreated(Message),
    TypingStarted { channel_id: String, user_id: String },
    PresenceChanged { user_id: String, status: String },
    VoiceStateChanged { user_id: String, session_id: String, channel_id: Option<String> },
    VoiceServerAssigned { token: String, endpoint: Option<String>, guild_id: Option<String> },
}

/// Mathematical value of a [`DispatchEvent`].
#[verifier::ext_equal]
pub enum DispatchEventV {
    MessageCreated(MessageV),
    TypingStarted { channel_id: Seq<char>, user_id: Seq<char> },
    PresenceChanged { user_id: Seq<char>, status: Seq<char> },
    VoiceStateChanged { user_id: Seq<char>, session_id: Seq<char>, channel_id: Option<Seq<char>> },
    VoiceServerAssigned {
        token: Seq<char>,
        endpoint: Option<Seq<char>>,
        guild_id: Option<Seq<char>>,
    },
}

impl View for DispatchEvent {
    type V = DispatchEventV;

    open spec fn view(&self) -> DispatchEventV {
        match self {
            DispatchEvent::MessageCreated(m) => DispatchEventV::MessageCreated(m@),
            DispatchEvent::TypingStarted { channel_id, user_id } => DispatchEventV::TypingStarted {
                channel_id: channel_id@,
                user_id: user_id@,
            },
            DispatchEvent::PresenceChanged { user_id, status } => DispatchEventV::PresenceChanged {
                user_id: user_id@,
                status: status@,
            },
            DispatchEvent::VoiceStateChanged { user_id, session_id, channel_id } => {
                DispatchEventV::VoiceStateChanged {
                    user_id: user_id@,
                    session_id: session_id@,
                    channel_id: opt_str_view(channel_id),
                }
            },
            DispatchEvent::VoiceServerAssigned { token, endpoint, guild_id } => {
                DispatchEventV::VoiceServerAssigned {
                    token: token@,
                    endpoint: opt_str_view(endpoint),
                    guild_id: opt_str_view(guild_id),
                }
            },
        }
    }
}

/// The event names this client understands.
pub open spec fn spec_known_event(name: Seq<char>) -> bool {
    ||| name == "MESSAGE_CREATE"@
    ||| name == "TYPING_START"@
    ||| name == "PRESENCE_UPDATE"@
    ||| name == "VOICE_STATE_UPDATE"@
    ||| name == "VOICE_SERVER_UPDATE"@
}

/// The produced event variant belongs to the named event type.
pub open spec fn spec_event_matches(name: Seq<char>, ev: DispatchEventV) -> bool {
    match ev {
        DispatchEventV::MessageCreated(_) => name == "MESSAGE_CREATE"@,
        DispatchEventV::TypingStarted { .. } => name == "TYPING_START"@,
        DispatchEventV::PresenceChanged { .. } => name == "PRESENCE_UPDATE"@,
        DispatchEventV::VoiceStateChanged { .. } => name == "VOICE_STATE_UPDATE"@,
        DispatchEventV::VoiceServerAssigned { .. } => name == "VOICE_SERVER_UPDATE"@,
    }
}

/// Character-wise string comparison.
pub fn str_eq(a: &str, b: &str) -> (r: bool)
    ensures
        r == (a@ == b@),
{
    let na = a.unicode_len();
    let nb = b.unicode_len();
    if na != nb {
        return false;
    }
    let mut i: usize = 0;
    while i < na
        invariant
            na == a@.len(),
            na == b@.len(),
            i <= na,
            forall|j: int| 0 <= j < i ==> a@[j] == b@[j],
        decreases na - i,
    {
        if a.get_char(i) != b.get_char(i) {
            return false;
        }
        i = i + 1;
    }
    proof {
        assert(a@ =~= b@);
    }
    true
}

/// Field that must be a string: `Some` content exactly when it is one.
fn req_str_field(d: &serde_json::Value, key: &str) -> Option<String> {
    match json_field(d, key) {
        Some(v) => match json_as_str(v) {
            Some(s) => Some(s.to_owned()),
            None => None,
        },
        None => None,
    }
}

/// Field that may be a string or null/absent; any other shape is malformed.
fn opt_str_field(d: &serde_json::Value, key: &str) -> Result<Option<String>, ()> {
    match json_field(d, key) {
        Some(v) => {
            if json_is_null(v) {
                Ok(None)
            } else {
                match json_as_str(v) {
                    Some(s) => Ok(Some(s.to_owned())),
                    None => Err(()),
                }
            }
        },
        None => Ok(None),
    }
}

/// Identifier field sent either as a string or as a number.
fn snowflake_field(d: &serde_json::Value, key: &str) -> Option<String> {
    match json_field(d, key) {
        Some(v) => match json_as_str(v) {
            Some(s) => Some(s.to_owned()),
            None => match json_as_u64(v) {
                Some(n) => Some(dec_string(n)),
                None => None,
            },
        },
        None => None,
    }
}

fn parse_message_create(f: &FrameData) -> Option<Message> {
    let d = match json_field(&f.doc, "d") {
        Some(d) => d,
        None => {
            return None;
        },
    };
    let id = match req_str_field(d, "id") {
        Some(s) => s,
        None => {
            return None;
        },
    };
    let channel_id = match req_str_field(d, "channel_id") {
        Some(s) => s,
        None => {
            return None;
        },
    };
    let content = match req_str_field(d, "content") {
        Some(s) => s,
        None => {
            return None;
        },
    };
    let timestamp = match opt_str_field(d, "timestamp") {
        Ok(t) => t,
        Err(_) => {
            return None;
        },
    };
    let (author_id, author_username) = match json_field(d, "author") {
        Some(a) => {
            let aid = match snowflake_field(a, "id") {
                Some(s) => s,
                None => {
                    return None;
                },
            };
            let username = match req_str_field(a, "username") {
                Some(s) => s,
                None => {
                    return None;
                },
            };
            let global_name = match opt_str_field(a, "global_name") {
                Ok(g) => g,
                Err(_) => {
                    return None;
                },
            };
            let shown = match global_name {
                Some(g) => g,
                None => username,
            };
            (aid, Some(shown))
        },
        None => (String::new(), None),
    };
    Some(
        Message {
            id,
            channel_id,
            author_id,
            author_username,
            content,
            timestamp,
            sending: false,
        },
    )
}

fn parse_typing_start(f: &FrameData) -> (r: Option<DispatchEvent>)
    ensures
        r matches Some(ev) ==> ev@ is TypingStarted,
{
    let d = match json_field(&f.doc, "d") {
        Some(d) => d,
        None => {
            return None;
        },
    };
    let channel_id = match req_str_field(d, "channel_id") {
        Some(s) => s,
        None => {
            return None;
        },
    };
    let user_id = match req_str_field(d, "user_id") {
        Some(s) => s,
        None => {
            return None;
        },
    };
    Some(DispatchEvent::TypingStarted { channel_id, user_id })
}

fn parse_presence_update(f: &FrameData) -> (r: Option<DispatchEvent>)
    ensures
        r matches Some(ev) ==> ev@ is PresenceChanged,
{
    let d = match json_field(&f.doc, "d") {
        Some(d) => d,
        None => {
            return None;
        },
    };
    let user = match json_field(d, "user") {
        Some(u) => u,
        None => {
            return None;
        },
    };
    let user_id = match snowflake_field(user, "id") {
        Some(s) => s,
        None => {
            return None;
        },
    };
    let status = match opt_str_field(d, "status") {
        Ok(Some(s)) => s,
        Ok(None) => String::from_str("offline"),
        Err(_) => {
            return None;
        },
    };
    Some(DispatchEvent::PresenceChanged { user_id, status })
}

fn parse_voice_state_update(f: &FrameData) -> (r: Option<DispatchEvent>)
    ensures
        r matches Some(ev) ==> ev@ is VoiceStateChanged,
{
    let d = match json_field(&f.doc, "d") {
        Some(d) => d,
        None => {
            return None;
        },
    };
    let user_id = match snowflake_field(d, "user_id") {
        Some(s) => s,
        None => {
            return None;
        },
    };
    let session_id = match req_str_field(d, "session_id") {
        Some(s) => s,
        None => {
            return None;
        },
    };
    let channel_id = snowflake_field(d, "channel_id");
    Some(DispatchEvent::VoiceStateChanged { user_id, session_id, channel_id })
}

fn parse_voice_server_update(f: &FrameData) -> (r: Option<DispatchEvent>)
    ensures
        r matches Some(ev) ==> ev@ is VoiceServerAssigned,
{
    let d = match json_field(&f.doc, "d") {
        Some(d) => d,
        None => {
            return None;
        },
    };
    let token = match req_str_field(d, "token") {
        Some(s) => s,
        None => {
            return None;
        },
    };
    let endpoint = match opt_str_field(d, "endpoint") {
        Ok(e) => e,
        Err(_) => {
            return None;
        },
    };
    let guild_id = snowflake_field(d, "guild_id");
    Some(DispatchEvent::VoiceServerAssigned { token, endpoint, guild_id })
}

/// Parse the payload of a dispatch frame by its event name.  A malformed
/// payload or an unknown name yields no event; neither is fatal.
pub fn parse_dispatch(event: &str, f: &FrameData) -> (r: Option<DispatchEvent>)
    ensures
        match r {
            Some(ev) => spec_event_matches(event@, ev@),
            None => true,
        },
        !spec_known_event(event@) ==> r is None,
{
    if str_eq(event, "MESSAGE_CREATE") {
        match parse_message_create(f) {
            Some(m) => Some(DispatchEvent::MessageCreated(m)),
            None => None,
        }
    } else if str_eq(event, "TYPING_START") {
        parse_typing_start(f)
    } else if str_eq(event, "PRESENCE_UPDATE") {
        parse_presence_update(f)
    } else if str_eq(event, "VOICE_STATE_UPDATE") {
        parse_voice_state_update(f)
    } else if str_eq(event, "VOICE_SERVER_UPDATE") {
        parse_voice_server_update(f)
    } else {
        None
    }
}

} // verus!
