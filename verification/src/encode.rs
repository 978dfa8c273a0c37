//! Encoding of outbound control frames: exact JSON text, built and specified
//! character by character.

use vstd::prelude::*;

use crate::digits::{append_dec, spec_dec, spec_digit};
use crate::models::{opt_str_view, PresenceStatus};

verus! {

/// An outbound control frame, still as plain values.
#[derive(Clone, Debug)]
pub enum OutFrame {
    Identify { token: String, intents: u64, os: String, presence: PresenceStatus },
    Heartbeat { last_seq: u64 },
    PresenceUpdate { presence: PresenceStatus },
    VoiceState {
        guild_id: Option<String>,
        channel_id: Option<String>,
        self_mute: bool,
        self_deaf: bool,
    },
}

/// Mathematical value of an [`OutFrame`].
#[verifier::ext_equal]
pub enum OutFrameV {
    Identify { token: Seq<char>, intents: u64, os: Seq<char>, presence: PresenceStatus },
    Heartbeat { last_seq: u64 },
    PresenceUpdate { presence: PresenceStatus },
    VoiceState {
        guild_id: Option<Seq<char>>,
        channel_id: Option<Seq<char>>,
        self_mute: bool,
        self_deaf: bool,
    },
}

impl View for OutFrame {
    type V = OutFrameV;

    open spec fn view(&self) -> OutFrameV {
        match self {
            OutFrame::Identify { token, intents, os, presence } => OutFrameV::Identify {
                token: token@,
                intents: *intents,
                os: os@,
                presence: *presence,
            },
            OutFrame::Heartbeat { last_seq } => OutFrameV::Heartbeat { last_seq: *last_seq },
            OutFrame::PresenceUpdate { presence } => OutFrameV::PresenceUpdate {
                presence: *presence,
            },
            OutFrame::VoiceState { guild_id, channel_id, self_mute, self_deaf } => {
                OutFrameV::VoiceState {
                    guild_id: opt_str_view(guild_id),
                    channel_id: opt_str_view(channel_id),
                    self_mute: *self_mute,
                    self_deaf: *self_deaf,
                }
            },
        }
    }
}

pub open spec fn spec_hex_digit(d: int) -> char {
    if d < 10 {
        spec_digit(d)
    } else if d == 10 {
        'a'
    } else if d == 11 {
        'b'
    } else if d == 12 {
        'c'
    } else if d == 13 {
        'd'
    } else if d == 14 {
        'e'
    } else {
        'f'
    }
}

/// JSON escaping of one character: quotes and backslashes get a backslash,
/// control characters a `\u00..` form, everything else stands as itself.
pub open spec fn spec_escape_char(c: char) -> Seq<char> {
    if c == '"' {
        seq!['\\', '"']
    } else if c == '\\' {
        seq!['\\', '\\']
    } else if (c as u32) < 0x20 {
        seq!['\\', 'u', '0', '0', spec_hex_digit(c as u32 as int / 16), spec_hex_digit(
            c as u32 as int % 16,
        )]
    } else {
        seq![c]
    }
}

/// JSON escaping of a whole string body.
pub open spec fn spec_escape(s: Seq<char>) -> Seq<char>
    decreases s.len(),
{
    if s.len() == 0 {
        Seq::empty()
    } else {
        spec_escape_char(s[0]) + spec_escape(s.drop_first())
    }
}

proof fn lemma_escape_push(t: Seq<char>, c: char)
    ensures
        spec_escape(t.push(c)) == spec_escape(t) + spec_escape_char(c),
    decreases t.len(),
{
    if t.len() == 0 {
        let e = t.push(c).drop_first();
        assert(e =~= Seq::<char>::empty());
        assert(spec_escape(e) == Seq::<char>::empty());
        assert(spec_escape(t.push(c)) =~= spec_escape(t) + spec_escape_char(c));
    } else {
        assert(t.push(c).drop_first() =~= t.drop_first().push(c));
        lemma_escape_push(t.drop_first(), c);
        assert(spec_escape(t.push(c)) =~= spec_escape(t) + spec_escape_char(c));
    }
}

/// A JSON string literal: quote, escaped body, quote.
pub open spec fn spec_quoted(s: Seq<char>) -> Seq<char> {
    seq!['"'] + spec_escape(s) + seq!['"']
}

/// A JSON string or `null`.
pub open spec fn spec_json_opt_string(o: Option<Seq<char>>) -> Seq<char> {
    match o {
        Some(s) => spec_quoted(s),
        None => "null"@,
    }
}

pub open spec fn spec_bool_text(b: bool) -> Seq<char> {
    if b {
        "true"@
    } else {
        "false"@
    }
}

/// Wire word for a presence status.
pub open spec fn spec_status_text(p: PresenceStatus) -> Seq<char> {
    match p {
        PresenceStatus::Online => "online"@,
        PresenceStatus::Idle => "idle"@,
        PresenceStatus::DoNotDisturb => "dnd"@,
        PresenceStatus::Invisible => "invisible"@,
    }
}

/// Idle presence is reported as away-from-keyboard.
pub open spec fn spec_afk(p: PresenceStatus) -> bool {
    p is Idle
}

/// The presence object sent inside identify and presence-update frames.
pub open spec fn spec_presence_body(p: PresenceStatus) -> Seq<char> {
    "{\"since\":null,\"activities\":[],\"status\":\""@ + spec_status_text(p) + "\",\"afk\":"@
        + spec_bool_text(spec_afk(p)) + "}"@
}

/// The exact wire text of an outbound frame.
pub open spec fn spec_encode(f: OutFrameV) -> Seq<char> {
    match f {
        OutFrameV::Heartbeat { last_seq } => "{\"op\":1,\"d\":"@ + spec_dec(last_seq as nat)
            + "}"@,
        OutFrameV::Identify { token, intents, os, presence } => "{\"op\":2,\"d\":{\"token\":"@
            + spec_quoted(token) + ",\"intents\":"@ + spec_dec(intents as nat)
            + ",\"properties\":{\"os\":"@ + spec_quoted(os)
            + ",\"browser\":\"Velocity\",\"device\":\"Velocity\"},\"presence\":"@
            + spec_presence_body(presence) + "}}"@,
        OutFrameV::PresenceUpdate { presence } => "{\"op\":3,\"d\":"@ + spec_presence_body(presence)
            + "}"@,
        OutFrameV::VoiceState { guild_id, channel_id, self_mute, self_deaf } => {
            "{\"op\":4,\"d\":{\"guild_id\":"@ + spec_json_opt_string(guild_id)
                + ",\"channel_id\":"@ + spec_json_opt_string(channel_id) + ",\"self_mute\":"@
                + spec_bool_text(self_mute) + ",\"self_deaf\":"@ + spec_bool_text(self_deaf)
                + "}}"@
        },
    }
}

fn append_hex_digit(out: &mut String, d: u32)
    requires
        d < 16,
    ensures
        final(out)@ == old(out)@ + seq![spec_hex_digit(d as int)],
{
    let piece: &str = if d == 0 {
        "0"
    } else if d == 1 {
        "1"
    } else if d == 2 {
        "2"
    } else if d == 3 {
        "3"
    } else if d == 4 {
        "4"
    } else if d == 5 {
        "5"
    } else if d == 6 {
        "6"
    } else if d == 7 {
        "7"
    } else if d == 8 {
        "8"
    } else if d == 9 {
        "9"
    } else if d == 10 {
        "a"
    } else if d == 11 {
        "b"
    } else if d == 12 {
        "c"
    } else if d == 13 {
        "d"
    } else if d == 14 {
        "e"
    } else {
        "f"
    };
    proof {
        reveal_strlit("0");
        reveal_strlit("1");
        reveal_strlit("2");
        reveal_strlit("3");
        reveal_strlit("4");
        reveal_strlit("5");
        reveal_strlit("6");
        reveal_strlit("7");
        reveal_strlit("8");
        reveal_strlit("9");
        reveal_strlit("a");
        reveal_strlit("b");
        reveal_strlit("c");
        reveal_strlit("d");
        reveal_strlit("e");
        reveal_strlit("f");
        assert(piece@ =~= seq![spec_hex_digit(d as int)]);
    }
    out.append(piece);
}

/// Append the JSON escaping of `s` to `out`.
fn append_escaped(out: &mut String, s: &str)
    ensures
        final(out)@ == old(out)@ + spec_escape(s@),
{
    let n = s.unicode_len();
    let mut i: usize = 0;
    while i < n
        invariant
            n == s@.len(),
            i <= n,
            out@ == old(out)@ + spec_escape(s@.take(i as int)),
        decreases n - i,
    {
        let c = s.get_char(i);
        if c == '"' {
            out.append("\\\"");
            proof {
                reveal_strlit("\\\"");
                assert("\\\""@ =~= spec_escape_char(c));
            }
        } else if c == '\\' {
            out.append("\\\\");
            proof {
                reveal_strlit("\\\\");
                assert("\\\\"@ =~= spec_escape_char(c));
            }
        } else if (c as u32) < 0x20 {
            out.append("\\u00");
            append_hex_digit(out, (c as u32) / 16);
            append_hex_digit(out, (c as u32) % 16);
            proof {
                reveal_strlit("\\u00");
                assert("\\u00"@ + seq![spec_hex_digit(c as u32 as int / 16)] + seq![
                    spec_hex_digit(c as u32 as int % 16),
                ] =~= spec_escape_char(c));
            }
        } else {
            let piece = s.substring_char(i, i + 1);
            proof {
                assert(piece@ =~= seq![c]);
                assert(seq![c] =~= spec_escape_char(c));
            }
            out.append(piece);
        }
        proof {
            assert(s@.take(i + 1) =~= s@.take(i as int).push(c));
            lemma_escape_push(s@.take(i as int), c);
            assert(out@ =~= old(out)@ + spec_escape(s@.take(i + 1)));
        }
        i = i + 1;
    }
    proof {
        assert(s@.take(n as int) =~= s@);
    }
}

/// Append a quoted, escaped JSON string to `out`.
fn append_json_string(out: &mut String, s: &str)
    ensures
        final(out)@ == old(out)@ + spec_quoted(s@),
{
    out.append("\"");
    append_escaped(out, s);
    out.append("\"");
    proof {
        reveal_strlit("\"");
        assert("\""@ =~= seq!['"']);
        assert(out@ =~= old(out)@ + spec_quoted(s@));
    }
}

/// Append a JSON string or `null` to `out`.
fn append_json_opt_string(out: &mut String, o: &Option<String>)
    ensures
        final(out)@ == old(out)@ + spec_json_opt_string(opt_str_view(o)),
{
    match o {
        Some(s) => append_json_string(out, s.as_str()),
        None => out.append("null"),
    }
}

fn append_bool(out: &mut String, b: bool)
    ensures
        final(out)@ == old(out)@ + spec_bool_text(b),
{
    if b {
        out.append("true");
    } else {
        out.append("false");
    }
}

/// Append the presence object for `p` to `out`.
fn append_presence_body(out: &mut String, p: PresenceStatus)
    ensures
        final(out)@ == old(out)@ + spec_presence_body(p),
{
    out.append("{\"since\":null,\"activities\":[],\"status\":\"");
    match p {
        PresenceStatus::Online => out.append("online"),
        PresenceStatus::Idle => out.append("idle"),
        PresenceStatus::DoNotDisturb => out.append("dnd"),
        PresenceStatus::Invisible => out.append("invisible"),
    }
    out.append("\",\"afk\":");
    append_bool(out, matches!(p, PresenceStatus::Idle));
    out.append("}");
    proof {
        assert(out@ =~= old(out)@ + spec_presence_body(p));
    }
}

/// Encode an outbound frame as its exact wire text.
pub fn encode_frame(f: &OutFrame) -> (r: String)
    ensures
        r@ == spec_encode(f@),
{
    match f {
        OutFrame::Heartbeat { last_seq } => {
            let mut out = String::new();
            out.append("{\"op\":1,\"d\":");
            append_dec(&mut out, *last_seq);
            out.append("}");
            proof {
                assert(out@ =~= spec_encode(f@));
            }
            out
        },
        OutFrame::Identify { token, intents, os, presence } => {
            let mut out = String::new();
            out.append("{\"op\":2,\"d\":{\"token\":");
            append_json_string(&mut out, token.as_str());
            out.append(",\"intents\":");
            append_dec(&mut out, *intents);
            out.append(",\"properties\":{\"os\":");
            append_json_string(&mut out, os.as_str());
            out.append(",\"browser\":\"Velocity\",\"device\":\"Velocity\"},\"presence\":");
            append_presence_body(&mut out, *presence);
            out.append("}}");
            proof {
                assert(out@ =~= spec_encode(f@));
            }
            out
        },
        OutFrame::PresenceUpdate { presence } => {
            let mut out = String::new();
            out.append("{\"op\":3,\"d\":");
            append_presence_body(&mut out, *presence);
            out.append("}");
            proof {
                assert(out@ =~= spec_encode(f@));
            }
            out
        },
        OutFrame::VoiceState { guild_id, channel_id, self_mute, self_deaf } => {
            let mut out = String::new();
            out.append("{\"op\":4,\"d\":{\"guild_id\":");
            append_json_opt_string(&mut out, guild_id);
            out.append(",\"channel_id\":");
            append_json_opt_string(&mut out, channel_id);
            out.append(",\"self_mute\":");
            append_bool(&mut out, *self_mute);
            out.append(",\"self_deaf\":");
            append_bool(&mut out, *self_deaf);
            out.append("}}");
            proof {
                assert(out@ =~= spec_encode(f@));
            }
            out
        },
    }
}

} // verus!
