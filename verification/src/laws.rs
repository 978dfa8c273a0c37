//! Protocol laws, proved over whole runs of the session state machine.

use vstd::prelude::*;

use crate::codec::DispatchEventV;
use crate::encode::OutFrameV;
use crate::models::PresenceStatus;
use crate::session::{
    spec_note_seq, spec_on_dispatch, spec_on_dispatch_opt, spec_on_hello, spec_on_presence_command,
    spec_on_tick, spec_on_voice_command, ActionV, SessionV, Step,
};
use crate::voice::{spec_nego_empty, PendingSessionV, VoiceCommandV, VoiceConnectionInfoV};

verus! {

/// One input to the session task, at specification level: a decoded inbound
/// frame, a heartbeat tick, or a caller command.
pub enum GEventV {
    /// Hello frame (opcode 10) with its heartbeat interval.
    Hello { seq_no: Option<u64>, interval: u64 },
    /// Dispatch frame (opcode 0); `ev` is whatever its payload parsed to.
    Dispatch { seq_no: Option<u64>, ev: Option<DispatchEventV> },
    /// Close frame (opcode 9).
    CloseFrame { seq_no: Option<u64> },
    /// Any other frame; ignored apart from its sequence number.
    OtherFrame { seq_no: Option<u64>, op: u8 },
    /// The heartbeat timer fired.
    Tick,
    /// The caller asked for a new presence.
    PresenceCmd(PresenceStatus),
    /// The caller asked to join or leave voice.
    VoiceCmd(VoiceCommandV),
}

/// The transition one event causes, exactly as the handlers implement it.
pub open spec fn spec_step(s: SessionV, e: GEventV) -> Step {
    match e {
        GEventV::Hello { seq_no, interval } => spec_on_hello(spec_note_seq(s, seq_no), interval),
        GEventV::Dispatch { seq_no, ev } => spec_on_dispatch_opt(spec_note_seq(s, seq_no), ev),
        GEventV::CloseFrame { seq_no } => Step {
            s: spec_note_seq(s, seq_no),
            out: seq![ActionV::Close],
        },
        GEventV::OtherFrame { seq_no, op } => Step { s: spec_note_seq(s, seq_no), out: seq![] },
        GEventV::Tick => spec_on_tick(s),
        GEventV::PresenceCmd(p) => spec_on_presence_command(s, p),
        GEventV::VoiceCmd(c) => spec_on_voice_command(s, c),
    }
}

/// A whole run: fold the step over the events, concatenating all actions.
pub open spec fn spec_run(s: SessionV, evs: Seq<GEventV>) -> Step
    decreases evs.len(),
{
    if evs.len() == 0 {
        Step { s, out: seq![] }
    } else {
        let first = spec_step(s, evs[0]);
        let rest = spec_run(first.s, evs.drop_first());
        Step { s: rest.s, out: first.out + rest.out }
    }
}

/// How many identify frames a trace sends.
pub open spec fn count_identify(tr: Seq<ActionV>) -> nat
    decreases tr.len(),
{
    if tr.len() == 0 {
        0
    } else {
        (match tr[0] {
            ActionV::SendFrame(OutFrameV::Identify { .. }) => 1nat,
            _ => 0nat,
        }) + count_identify(tr.drop_first())
    }
}

pub open spec fn is_identify(a: ActionV) -> bool {
    a matches ActionV::SendFrame(OutFrameV::Identify { .. })
}

proof fn lemma_count_identify_one(a: ActionV)
    ensures
        count_identify(seq![a]) == if is_identify(a) {
            1nat
        } else {
            0nat
        },
{
    let e = seq![a].drop_first();
    assert(e =~= Seq::<ActionV>::empty());
    assert(count_identify(e) == 0);
}

proof fn lemma_count_identify_two(a: ActionV, b: ActionV)
    ensures
        count_identify(seq![a, b]) == (if is_identify(a) {
            1nat
        } else {
            0nat
        }) + (if is_identify(b) {
            1nat
        } else {
            0nat
        }),
{
    assert(seq![a, b].drop_first() =~= seq![b]);
    lemma_count_identify_one(b);
}

proof fn lemma_count_identify_add(a: Seq<ActionV>, b: Seq<ActionV>)
    ensures
        count_identify(a + b) == count_identify(a) + count_identify(b),
    decreases a.len(),
{
    if a.len() == 0 {
        assert(a + b =~= b);
    } else {
        assert((a + b).drop_first() =~= a.drop_first() + b);
        assert((a + b)[0] == a[0]);
        lemma_count_identify_add(a.drop_first(), b);
    }
}

/// Dispatched events neither identify nor un-identify.
proof fn lemma_dispatch_identify(s: SessionV, d: Option<DispatchEventV>)
    ensures
        spec_on_dispatch_opt(s, d).s.identified == s.identified,
        count_identify(spec_on_dispatch_opt(s, d).out) == 0,
{
    match d {
        None => {
            assert(count_identify(Seq::<ActionV>::empty()) == 0);
        },
        Some(ev) => {
            let st = spec_on_dispatch(s, ev);
            assert(count_identify(st.out) == 0) by {
                if st.out.len() == 0 {
                    assert(count_identify(st.out) == 0);
                } else {
                    lemma_count_identify_one(st.out[0]);
                    assert(st.out =~= seq![st.out[0]]);
                }
            }
        },
    }
}

/// What one step does to the identified flag, and when it identifies.
proof fn lemma_step_identify(s: SessionV, e: GEventV)
    ensures
        spec_step(s, e).s.identified == (s.identified || e is Hello),
        count_identify(spec_step(s, e).out) == if !s.identified && e is Hello {
            1nat
        } else {
            0nat
        },
{
    match e {
        GEventV::Hello { seq_no, interval } => {
            if s.identified {
                lemma_count_identify_one(ActionV::ArmHeartbeat(interval));
            } else {
                let s1 = spec_note_seq(s, seq_no);
                lemma_count_identify_two(
                    ActionV::ArmHeartbeat(interval),
                    ActionV::SendFrame(
                        OutFrameV::Identify {
                            token: s1.token,
                            intents: s1.intents,
                            os: s1.os_name,
                            presence: s1.presence,
                        },
                    ),
                );
            }
        },
        GEventV::Dispatch { seq_no, ev } => {
            lemma_dispatch_identify(spec_note_seq(s, seq_no), ev);
        },
        GEventV::CloseFrame { seq_no } => {
            lemma_count_identify_one(ActionV::Close);
        },
        GEventV::OtherFrame { .. } => {
            assert(count_identify(Seq::<ActionV>::empty()) == 0);
        },
        GEventV::Tick => {
            if s.identified {
                lemma_count_identify_one(
                    ActionV::SendFrame(OutFrameV::Heartbeat { last_seq: s.last_seq }),
                );
            } else {
                assert(count_identify(Seq::<ActionV>::empty()) == 0);
            }
        },
        GEventV::PresenceCmd(p) => {
            if s.identified {
                lemma_count_identify_one(
                    ActionV::SendFrame(OutFrameV::PresenceUpdate { presence: p }),
                );
            } else {
                assert(count_identify(Seq::<ActionV>::empty()) == 0);
            }
        },
        GEventV::VoiceCmd(c) => {
            let st = spec_on_voice_command(s, c);
            assert(count_identify(st.out) == 0) by {
                if st.out.len() == 0 {
                } else if st.out.len() == 1 {
                    lemma_count_identify_one(st.out[0]);
                    assert(st.out =~= seq![st.out[0]]);
                } else {
                    lemma_count_identify_two(st.out[0], st.out[1]);
                    assert(st.out =~= seq![st.out[0], st.out[1]]);
                }
            }
        },
    }
}

/// Some event of the run is a hello frame.
pub open spec fn has_hello(evs: Seq<GEventV>) -> bool {
    exists|i: int| 0 <= i < evs.len() && evs[i] is Hello
}

/// A run decomposes: running `a` then `b` is running `a + b`, and the
/// traces concatenate.
pub proof fn lemma_run_append(s: SessionV, a: Seq<GEventV>, b: Seq<GEventV>)
    ensures
        spec_run(s, a + b).s == spec_run(spec_run(s, a).s, b).s,
        spec_run(s, a + b).out == spec_run(s, a).out + spec_run(spec_run(s, a).s, b).out,
    decreases a.len(),
{
    if a.len() == 0 {
        assert(a + b =~= b);
        assert(spec_run(s, a).out + spec_run(spec_run(s, a).s, b).out =~= spec_run(s, b).out);
    } else {
        let st = spec_step(s, a[0]);
        assert((a + b)[0] == a[0]);
        assert((a + b).drop_first() =~= a.drop_first() + b);
        lemma_run_append(st.s, a.drop_first(), b);
        assert(spec_run(s, a + b).out =~= spec_run(s, a).out + spec_run(
            spec_run(s, a).s,
            b,
        ).out);
    }
}

/// From an identified session, no identify frame is ever sent again, and
/// the session stays identified.
pub proof fn lemma_no_further_identify(s: SessionV, evs: Seq<GEventV>)
    requires
        s.identified,
    ensures
        count_identify(spec_run(s, evs).out) == 0,
        spec_run(s, evs).s.identified,
    decreases evs.len(),
{
    if evs.len() > 0 {
        let st = spec_step(s, evs[0]);
        lemma_step_identify(s, evs[0]);
        lemma_no_further_identify(st.s, evs.drop_first());
        lemma_count_identify_add(st.out, spec_run(st.s, evs.drop_first()).out);
    } else {
        assert(count_identify(Seq::<ActionV>::empty()) == 0);
    }
}

/// Identify is sent exactly once per connection lifetime: never before the
/// first hello, once when it arrives, never after.
pub proof fn lemma_identify_exactly_once(s: SessionV, evs: Seq<GEventV>)
    requires
        !s.identified,
    ensures
        count_identify(spec_run(s, evs).out) == if has_hello(evs) {
            1nat
        } else {
            0nat
        },
        spec_run(s, evs).s.identified == has_hello(evs),
    decreases evs.len(),
{
    if evs.len() == 0 {
        assert(count_identify(Seq::<ActionV>::empty()) == 0);
    } else {
        let st = spec_step(s, evs[0]);
        let rest = spec_run(st.s, evs.drop_first());
        lemma_step_identify(s, evs[0]);
        lemma_count_identify_add(st.out, rest.out);
        if evs[0] is Hello {
            lemma_no_further_identify(st.s, evs.drop_first());
            assert(has_hello(evs));
        } else {
            lemma_identify_exactly_once(st.s, evs.drop_first());
            assert(has_hello(evs) == has_hello(evs.drop_first())) by {
                if has_hello(evs) {
                    let i = choose|i: int| 0 <= i < evs.len() && evs[i] is Hello;
                    assert(evs.drop_first()[i - 1] == evs[i]);
                    assert(has_hello(evs.drop_first()));
                }
                if has_hello(evs.drop_first()) {
                    let j = choose|j: int|
                        0 <= j < evs.drop_first().len() && evs.drop_first()[j] is Hello;
                    assert(evs[j + 1] == evs.drop_first()[j]);
                    assert(has_hello(evs));
                }
            }
        }
    }
}

/// Before the first hello, no identify frame is ever sent: the trace of any
/// hello-free prefix of a run holds none.
pub proof fn lemma_no_identify_before_first_hello(s: SessionV, evs: Seq<GEventV>, k: int)
    requires
        !s.identified,
        0 <= k <= evs.len(),
        !has_hello(evs.take(k)),
    ensures
        count_identify(spec_run(s, evs.take(k)).out) == 0,
{
    lemma_identify_exactly_once(s, evs.take(k));
}

/// With no session assignment pending, a server assignment alone can never
/// emit a descriptor: after an emission both halves are cleared, so
/// repeating the update cannot emit a duplicate.
pub proof fn lemma_server_update_alone_is_silent(
    s: SessionV,
    token: Seq<char>,
    endpoint: Option<Seq<char>>,
    guild_id: Option<Seq<char>>,
)
    requires
        s.nego.pending_session is None,
    ensures
        spec_on_dispatch(
            s,
            DispatchEventV::VoiceServerAssigned { token, endpoint, guild_id },
        ).out == Seq::<ActionV>::empty(),
{
    let st = spec_on_dispatch(
        s,
        DispatchEventV::VoiceServerAssigned { token, endpoint, guild_id },
    );
    assert(st.out =~= Seq::<ActionV>::empty());
}

/// With no server assignment pending, the local identity's own voice-state
/// update alone can never emit a descriptor.
pub proof fn lemma_session_update_alone_is_silent(
    s: SessionV,
    user_id: Seq<char>,
    session_id: Seq<char>,
    channel_id: Option<Seq<char>>,
)
    requires
        s.nego.pending_server is None,
    ensures
        spec_on_dispatch(
            s,
            DispatchEventV::VoiceStateChanged { user_id, session_id, channel_id },
        ).out == Seq::<ActionV>::empty(),
{
    let st = spec_on_dispatch(
        s,
        DispatchEventV::VoiceStateChanged { user_id, session_id, channel_id },
    );
    assert(st.out =~= Seq::<ActionV>::empty());
}

/// The sequence number a frame event carries, if any.
pub open spec fn frame_seq(e: GEventV) -> Option<u64> {
    match e {
        GEventV::Hello { seq_no, .. } => seq_no,
        GEventV::Dispatch { seq_no, .. } => seq_no,
        GEventV::CloseFrame { seq_no } => seq_no,
        GEventV::OtherFrame { seq_no, .. } => seq_no,
        _ => None,
    }
}

/// Frame sequence numbers, where present, strictly grow along the run.
pub open spec fn seqs_increasing(evs: Seq<GEventV>) -> bool {
    forall|i: int, j: int|
        0 <= i < j < evs.len() && frame_seq(evs[i]) is Some && frame_seq(evs[j]) is Some
            ==> frame_seq(evs[i])->0 < frame_seq(evs[j])->0
}

/// The highest sequence number seen after these events, starting from s0.
pub open spec fn spec_max_seq(s0: u64, evs: Seq<GEventV>) -> u64
    decreases evs.len(),
{
    if evs.len() == 0 {
        s0
    } else {
        let h = match frame_seq(evs[0]) {
            Some(n) => if n > s0 {
                n
            } else {
                s0
            },
            None => s0,
        };
        spec_max_seq(h, evs.drop_first())
    }
}

/// One step moves the last-seen sequence to the frame's number, or leaves it.
proof fn lemma_step_last_seq(s: SessionV, e: GEventV)
    ensures
        spec_step(s, e).s.last_seq == (match frame_seq(e) {
            Some(n) => n,
            None => s.last_seq,
        }),
{
}

/// With increasing sequence numbers, the last-seen sequence after a run is
/// the highest one seen.
proof fn lemma_run_last_seq_is_max(s: SessionV, evs: Seq<GEventV>)
    requires
        seqs_increasing(evs),
        forall|i: int|
            0 <= i < evs.len() && #[trigger] frame_seq(evs[i]) is Some ==> frame_seq(evs[i])->0
                >= s.last_seq,
    ensures
        spec_run(s, evs).s.last_seq == spec_max_seq(s.last_seq, evs),
    decreases evs.len(),
{
    if evs.len() > 0 {
        let st = spec_step(s, evs[0]);
        lemma_step_last_seq(s, evs[0]);
        let tail = evs.drop_first();
        assert(frame_seq(evs[0]) is Some ==> frame_seq(evs[0])->0 >= s.last_seq);
        assert forall|i: int, j: int|
            0 <= i < j < tail.len() && frame_seq(tail[i]) is Some && frame_seq(
                tail[j],
            ) is Some implies frame_seq(tail[i])->0 < frame_seq(tail[j])->0 by {
            assert(tail[i] == evs[i + 1]);
            assert(tail[j] == evs[j + 1]);
        }
        assert forall|i: int|
            0 <= i < tail.len() && #[trigger] frame_seq(tail[i]) is Some implies frame_seq(
            tail[i],
        )->0 >= st.s.last_seq by {
            assert(tail[i] == evs[i + 1]);
            assert(frame_seq(evs[i + 1]) is Some);
            if frame_seq(evs[0]) is Some {
                assert(frame_seq(evs[i + 1])->0 > frame_seq(evs[0])->0);
            }
        }
        lemma_run_last_seq_is_max(st.s, tail);
    }
}

/// Every heartbeat sent carries the numerically highest sequence number
/// seen so far at the moment the timer fired.
pub proof fn lemma_heartbeat_carries_highest(s: SessionV, evs: Seq<GEventV>, k: int)
    requires
        seqs_increasing(evs),
        forall|i: int|
            0 <= i < evs.len() && #[trigger] frame_seq(evs[i]) is Some ==> frame_seq(evs[i])->0
                >= s.last_seq,
        0 <= k < evs.len(),
        evs[k] is Tick,
        spec_run(s, evs.take(k)).s.identified,
    ensures
        spec_step(spec_run(s, evs.take(k)).s, evs[k]).out == seq![
            ActionV::SendFrame(
                OutFrameV::Heartbeat { last_seq: spec_max_seq(s.last_seq, evs.take(k)) },
            ),
        ],
{
    let prefix = evs.take(k);
    assert forall|i: int, j: int|
        0 <= i < j < prefix.len() && frame_seq(prefix[i]) is Some && frame_seq(
            prefix[j],
        ) is Some implies frame_seq(prefix[i])->0 < frame_seq(prefix[j])->0 by {
        assert(prefix[i] == evs[i]);
        assert(prefix[j] == evs[j]);
    }
    assert forall|i: int|
        0 <= i < prefix.len() && #[trigger] frame_seq(prefix[i]) is Some implies frame_seq(
        prefix[i],
    )->0 >= s.last_seq by {
        assert(prefix[i] == evs[i]);
    }
    lemma_run_last_seq_is_max(s, prefix);
}

/// The two voice updates about the local identity, arriving in either
/// order, emit exactly one connect descriptor built from the pair, and
/// leave the pending state empty.  The two orders end in the same state
/// and emit the same descriptor.
pub proof fn lemma_negotiation_emits_once(
    s: SessionV,
    session_id: Seq<char>,
    channel_id: Seq<char>,
    token: Seq<char>,
    endpoint: Seq<char>,
    guild_id: Option<Seq<char>>,
)
    requires
        s.user_id is Some,
        s.nego == spec_nego_empty(),
        channel_id.len() > 0,
    ensures
        ({
            let ev_state = DispatchEventV::VoiceStateChanged {
                user_id: s.user_id->0,
                session_id,
                channel_id: Some(channel_id),
            };
            let ev_server = DispatchEventV::VoiceServerAssigned {
                token,
                endpoint: Some(endpoint),
                guild_id,
            };
            let info = VoiceConnectionInfoV {
                guild_id,
                channel_id,
                endpoint,
                token,
                session_id,
                user_id: s.user_id->0,
            };
            let devices = match s.voice_pref {
                Some(p) => (p.input_device, p.output_device),
                None => (None, None),
            };
            let connect = ActionV::VoiceConnect {
                info,
                input_device: devices.0,
                output_device: devices.1,
            };
            let a1 = spec_on_dispatch(s, ev_state);
            let a2 = spec_on_dispatch(a1.s, ev_server);
            let b1 = spec_on_dispatch(s, ev_server);
            let b2 = spec_on_dispatch(b1.s, ev_state);
            &&& a1.out == Seq::<ActionV>::empty()
            &&& b1.out == Seq::<ActionV>::empty()
            &&& a2.out == seq![connect]
            &&& b2.out == seq![connect]
            &&& a2.s.nego == spec_nego_empty()
            &&& a2.s == b2.s
        }),
{
    let ev_state = DispatchEventV::VoiceStateChanged {
        user_id: s.user_id->0,
        session_id,
        channel_id: Some(channel_id),
    };
    let a1 = spec_on_dispatch(s, ev_state);
    let ev_server = DispatchEventV::VoiceServerAssigned {
        token,
        endpoint: Some(endpoint),
        guild_id,
    };
    let a2 = spec_on_dispatch(a1.s, ev_server);
    let b1 = spec_on_dispatch(s, ev_server);
    let b2 = spec_on_dispatch(b1.s, ev_state);
    assert(a1.out =~= Seq::<ActionV>::empty());
    assert(b1.out =~= Seq::<ActionV>::empty());
    assert(a2.s =~~= b2.s);
}

/// A server assignment whose endpoint is still null is "not yet ready":
/// it emits nothing, whatever else is pending.
pub proof fn lemma_null_endpoint_not_ready(
    s: SessionV,
    token: Seq<char>,
    guild_id: Option<Seq<char>>,
)
    ensures
        spec_on_dispatch(
            s,
            DispatchEventV::VoiceServerAssigned { token, endpoint: None, guild_id },
        ).out == Seq::<ActionV>::empty(),
{
    let st = spec_on_dispatch(
        s,
        DispatchEventV::VoiceServerAssigned { token, endpoint: None, guild_id },
    );
    assert(st.out =~= Seq::<ActionV>::empty());
}

/// After a null-endpoint assignment, the endpoint's arrival (with a session
/// assignment already present) emits exactly one connect descriptor.
pub proof fn lemma_endpoint_arrival_connects(
    s: SessionV,
    token1: Seq<char>,
    guild1: Option<Seq<char>>,
    token2: Seq<char>,
    endpoint: Seq<char>,
    guild2: Option<Seq<char>>,
)
    requires
        s.user_id is Some,
        s.nego.pending_session is Some,
        s.nego.pending_session->0.channel_id.len() > 0,
    ensures
        ({
            let st1 = spec_on_dispatch(
                s,
                DispatchEventV::VoiceServerAssigned { token: token1, endpoint: None, guild_id: guild1 },
            );
            let st2 = spec_on_dispatch(
                st1.s,
                DispatchEventV::VoiceServerAssigned {
                    token: token2,
                    endpoint: Some(endpoint),
                    guild_id: guild2,
                },
            );
            let info = VoiceConnectionInfoV {
                guild_id: guild2,
                channel_id: s.nego.pending_session->0.channel_id,
                endpoint,
                token: token2,
                session_id: s.nego.pending_session->0.session_id,
                user_id: s.user_id->0,
            };
            let devices = match s.voice_pref {
                Some(p) => (p.input_device, p.output_device),
                None => (None, None),
            };
            &&& st1.out == Seq::<ActionV>::empty()
            &&& st2.out == seq![
                ActionV::VoiceConnect {
                    info,
                    input_device: devices.0,
                    output_device: devices.1,
                },
            ]
            &&& st2.s.nego == spec_nego_empty()
        }),
{
    let st1 = spec_on_dispatch(
        s,
        DispatchEventV::VoiceServerAssigned { token: token1, endpoint: None, guild_id: guild1 },
    );
    assert(st1.out =~= Seq::<ActionV>::empty());
    let st2 = spec_on_dispatch(
        st1.s,
        DispatchEventV::VoiceServerAssigned {
            token: token2,
            endpoint: Some(endpoint),
            guild_id: guild2,
        },
    );
    assert(st2.s.nego =~~= spec_nego_empty());
}

/// A voice-state update about a different identity never mutates pending
/// state and never triggers an emission.
pub proof fn lemma_foreign_voice_state_ignored(
    s: SessionV,
    user_id: Seq<char>,
    session_id: Seq<char>,
    channel_id: Option<Seq<char>>,
)
    requires
        s.user_id != Some(user_id),
    ensures
        spec_on_dispatch(
            s,
            DispatchEventV::VoiceStateChanged { user_id, session_id, channel_id },
        ).s == s,
        spec_on_dispatch(
            s,
            DispatchEventV::VoiceStateChanged { user_id, session_id, channel_id },
        ).out == Seq::<ActionV>::empty(),
{
    let st = spec_on_dispatch(
        s,
        DispatchEventV::VoiceStateChanged { user_id, session_id, channel_id },
    );
    assert(st.out =~= Seq::<ActionV>::empty());
}

/// Typing by the local identity itself is never forwarded.
pub proof fn lemma_own_typing_not_forwarded(s: SessionV, channel_id: Seq<char>)
    requires
        s.user_id is Some,
    ensures
        spec_on_dispatch(
            s,
            DispatchEventV::TypingStarted { channel_id, user_id: s.user_id->0 },
        ).out == Seq::<ActionV>::empty(),
{
    let st = spec_on_dispatch(
        s,
        DispatchEventV::TypingStarted { channel_id, user_id: s.user_id->0 },
    );
    assert(st.out =~= Seq::<ActionV>::empty());
}

} // verus!
