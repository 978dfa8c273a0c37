//! The gateway session state machine.
//!
//! One task owns the socket and feeds this machine: every inbound frame,
//! heartbeat tick and caller command becomes a call of one handler, and the
//! handler answers with the actions the task must perform (frames to send,
//! events to deliver, the voice driver to notify).  Each handler is exact
//! against a specification-level transition function, so the protocol rules
//! (sequence bookkeeping, identify-once, heartbeat discipline, voice
//! negotiation) are proved over every possible run.

use vstd::prelude::*;

use crate::codec::{hello_interval, parse_dispatch, str_eq, DispatchEvent, DispatchEventV, FrameData};
use crate::encode::{OutFrame, OutFrameV};
use crate::models::{opt_str_view, MessageV, PresenceStatus};
use crate::voice::{
    clone_opt_string, spec_nego_descriptor, spec_nego_empty, spec_nego_ready, PendingSessionV,
    PendingServerV, VoiceCommand, VoiceCommandV, VoiceConnectionInfoV, VoiceNegotiation,
    VoiceNegotiationV, VoicePref, VoicePrefV,
};

verus! {

/// Intent bits requested at identify time: direct messages, direct-message
/// typing, guild presences, guild voice states and guild members.
pub const DEFAULT_INTENTS: u64 = 4096 | 16384 | 256 | 128 | 2;

/// What the task driving the session must do after a handler call.
#[derive(Clone, Debug)]
pub enum Action {
    /// (Re)arm the heartbeat timer at this period in milliseconds.
    ArmHeartbeat(u64),
    /// Send this control frame on the socket.
    SendFrame(OutFrame),
    /// Forward a new chat message to the caller.
    DeliverMessage(crate::models::Message),
    /// Forward a typing notice to the caller.
    DeliverTyping { channel_id: String, user_id: String },
    /// Forward a presence change to the caller.
    DeliverPresence { user_id: String, status: String },
    /// Hand a connection descriptor to the media driver.
    VoiceConnect {
        info: crate::voice::VoiceConnectionInfo,
        input_device: Option<String>,
        output_device: Option<String>,
    },
    /// Tell the media driver to tear its transport down.
    VoiceDisconnect,
    /// The connection is over; the task ends.
    Close,
}

/// Mathematical value of an [`Action`].
#[verifier::ext_equal]
pub enum ActionV {
    ArmHeartbeat(u64),
    SendFrame(OutFrameV),
    DeliverMessage(MessageV),
    DeliverTyping { channel_id: Seq<char>, user_id: Seq<char> },
    DeliverPresence { user_id: Seq<char>, status: Seq<char> },
    VoiceConnect {
        info: VoiceConnectionInfoV,
        input_device: Option<Seq<char>>,
        output_device: Option<Seq<char>>,
    },
    VoiceDisconnect,
    Close,
}

impl DeepView for Action {
    type V = ActionV;

    open spec fn deep_view(&self) -> ActionV {
        match self {
            Action::ArmHeartbeat(iv) => ActionV::ArmHeartbeat(*iv),
            Action::SendFrame(f) => ActionV::SendFrame(f@),
            Action::DeliverMessage(m) => ActionV::DeliverMessage(m@),
            Action::DeliverTyping { channel_id, user_id } => ActionV::DeliverTyping {
                channel_id: channel_id@,
                user_id: user_id@,
            },
            Action::DeliverPresence { user_id, status } => ActionV::DeliverPresence {
                user_id: user_id@,
                status: status@,
            },
            Action::VoiceConnect { info, input_device, output_device } => ActionV::VoiceConnect {
                info: info@,
                input_device: opt_str_view(input_device),
                output_device: opt_str_view(output_device),
            },
            Action::VoiceDisconnect => ActionV::VoiceDisconnect,
            Action::Close => ActionV::Close,
        }
    }
}

/// Why a frame was fatal to the connection attempt.
#[derive(Clone, Copy, Debug, PartialEq, Eq, Structural)]
pub enum SessionError {
    /// A hello frame without a usable heartbeat interval: heartbeating could
    /// never start, so the attempt fails.
    MalformedHello,
}

/// The state one gateway connection carries.
pub struct Session {
    /// Long-lived secret the identify frame presents.
    pub token: String,
    /// Operating system name reported in the identify metadata.
    pub os_name: String,
    /// Event-subscription bitmask requested at identify time.
    pub intents: u64,
    /// The local identity, when the caller knows it.
    pub user_id: Option<String>,
    /// Last sequence number seen from the server.
    pub last_seq: u64,
    /// An identify frame has been sent on this connection.
    pub identified: bool,
    /// Heartbeat period dictated by the last hello, in milliseconds.
    pub heartbeat_interval: Option<u64>,
    /// Presence currently desired by the caller.
    pub presence: PresenceStatus,
    /// Target and device preferences of the latest voice join.
    pub voice_pref: Option<VoicePref>,
    /// The two pending halves of voice negotiation.
    pub nego: VoiceNegotiation,
}

/// Mathematical value of a [`Session`].
#[verifier::ext_equal]
pub struct SessionV {
    pub token: Seq<char>,
    pub os_name: Seq<char>,
    pub intents: u64,
    pub user_id: Option<Seq<char>>,
    pub last_seq: u64,
    pub identified: bool,
    pub heartbeat_interval: Option<u64>,
    pub presence: PresenceStatus,
    pub voice_pref: Option<VoicePrefV>,
    pub nego: VoiceNegotiationV,
}

impl View for Session {
    type V = SessionV;

    open spec fn view(&self) -> SessionV {
        SessionV {
            token: self.token@,
            os_name: self.os_name@,
            intents: self.intents,
            user_id: opt_str_view(&self.user_id),
            last_seq: self.last_seq,
            identified: self.identified,
            heartbeat_interval: self.heartbeat_interval,
            presence: self.presence,
            voice_pref: match self.voice_pref {
                Some(ref p) => Some(p@),
                None => None,
            },
            nego: self.nego@,
        }
    }
}

/// One transition: the state after it and the actions it asks for.
#[verifier::ext_equal]
pub struct Step {
    pub s: SessionV,
    pub out: Seq<ActionV>,
}

/// Any frame that carries a sequence number updates the last-seen sequence
/// before anything else happens.
pub open spec fn spec_note_seq(s: SessionV, q: Option<u64>) -> SessionV {
    match q {
        Some(n) => SessionV { last_seq: n, ..s },
        None => s,
    }
}

/// Hello: rearm the heartbeat timer at the dictated period and, the first
/// time only, send the identify frame.
pub open spec fn spec_on_hello(s: SessionV, interval: u64) -> Step {
    let armed = SessionV { heartbeat_interval: Some(interval), ..s };
    if s.identified {
        Step { s: armed, out: seq![ActionV::ArmHeartbeat(interval)] }
    } else {
        Step {
            s: SessionV { identified: true, ..armed },
            out: seq![
                ActionV::ArmHeartbeat(interval),
                ActionV::SendFrame(
                    OutFrameV::Identify {
                        token: s.token,
                        intents: s.intents,
                        os: s.os_name,
                        presence: s.presence,
                    },
                ),
            ],
        }
    }
}

/// Heartbeat tick: once identified, send the last-seen sequence number.
pub open spec fn spec_on_tick(s: SessionV) -> Step {
    if s.identified {
        Step { s, out: seq![ActionV::SendFrame(OutFrameV::Heartbeat { last_seq: s.last_seq })] }
    } else {
        Step { s, out: seq![] }
    }
}

/// Presence command: remember the new presence; once identified, announce it
/// immediately, otherwise it rides along with the next identify.
pub open spec fn spec_on_presence_command(s: SessionV, p: PresenceStatus) -> Step {
    let s2 = SessionV { presence: p, ..s };
    if s.identified {
        Step { s: s2, out: seq![ActionV::SendFrame(OutFrameV::PresenceUpdate { presence: p })] }
    } else {
        Step { s: s2, out: seq![] }
    }
}

/// When both negotiation halves are ready, emit exactly one connection
/// descriptor (with the device preferences of the originating join) and
/// clear them; otherwise change nothing.
pub open spec fn spec_try_voice_connect(s: SessionV) -> Step {
    if s.user_id is Some && spec_nego_ready(s.nego) {
        let devices = match s.voice_pref {
            Some(p) => (p.input_device, p.output_device),
            None => (None, None),
        };
        Step {
            s: SessionV { nego: spec_nego_empty(), ..s },
            out: seq![
                ActionV::VoiceConnect {
                    info: spec_nego_descriptor(s.nego, s.user_id->0),
                    input_device: devices.0,
                    output_device: devices.1,
                },
            ],
        }
    } else {
        Step { s, out: seq![] }
    }
}

/// Voice command: before identifying, commands are dropped.  Join records
/// the target, restarts negotiation and announces the intent to join; Leave
/// clears everything, tells the driver to disconnect and announces a null
/// channel.
pub open spec fn spec_on_voice_command(s: SessionV, cmd: VoiceCommandV) -> Step {
    if !s.identified {
        Step { s, out: seq![] }
    } else {
        match cmd {
            VoiceCommandV::Join {
                guild_id,
                channel_id,
                self_mute,
                self_deaf,
                input_device,
                output_device,
            } => Step {
                s: SessionV {
                    voice_pref: Some(
                        VoicePrefV {
                            guild_id,
                            channel_id,
                            self_mute,
                            self_deaf,
                            input_device,
                            output_device,
                        },
                    ),
                    nego: spec_nego_empty(),
                    ..s
                },
                out: seq![
                    ActionV::SendFrame(
                        OutFrameV::VoiceState {
                            guild_id,
                            channel_id: Some(channel_id),
                            self_mute,
                            self_deaf,
                        },
                    ),
                ],
            },
            VoiceCommandV::Leave => {
                let guild = match s.voice_pref {
                    Some(p) => p.guild_id,
                    None => None,
                };
                Step {
                    s: SessionV { voice_pref: None, nego: spec_nego_empty(), ..s },
                    out: seq![
                        ActionV::VoiceDisconnect,
                        ActionV::SendFrame(
                            OutFrameV::VoiceState {
                                guild_id: guild,
                                channel_id: None,
                                self_mute: false,
                                self_deaf: false,
                            },
                        ),
                    ],
                }
            },
        }
    }
}

/// A dispatched event: messages and presence changes are forwarded; typing
/// by the local identity itself is never forwarded; the two voice updates
/// feed negotiation, and updates about other identities are ignored.
pub open spec fn spec_on_dispatch(s: SessionV, ev: DispatchEventV) -> Step {
    match ev {
        DispatchEventV::MessageCreated(m) => Step { s, out: seq![ActionV::DeliverMessage(m)] },
        DispatchEventV::TypingStarted { channel_id, user_id } => {
            if s.user_id == Some(user_id) {
                Step { s, out: seq![] }
            } else {
                Step { s, out: seq![ActionV::DeliverTyping { channel_id, user_id }] }
            }
        },
        DispatchEventV::PresenceChanged { user_id, status } => Step {
            s,
            out: seq![ActionV::DeliverPresence { user_id, status }],
        },
        DispatchEventV::VoiceStateChanged { user_id, session_id, channel_id } => {
            if s.user_id == Some(user_id) {
                let ch = match channel_id {
                    Some(c) => c,
                    None => Seq::empty(),
                };
                spec_try_voice_connect(
                    SessionV {
                        nego: VoiceNegotiationV {
                            pending_session: Some(
                                PendingSessionV { session_id, channel_id: ch },
                            ),
                            pending_server: s.nego.pending_server,
                        },
                        ..s
                    },
                )
            } else {
                Step { s, out: seq![] }
            }
        },
        DispatchEventV::VoiceServerAssigned { token, endpoint, guild_id } => {
            spec_try_voice_connect(
                SessionV {
                    nego: VoiceNegotiationV {
                        pending_session: s.nego.pending_session,
                        pending_server: Some(PendingServerV { token, endpoint, guild_id }),
                    },
                    ..s
                },
            )
        },
    }
}

/// A dispatch frame whose payload yielded no event changes nothing.
pub open spec fn spec_on_dispatch_opt(s: SessionV, d: Option<DispatchEventV>) -> Step {
    match d {
        Some(ev) => spec_on_dispatch(s, ev),
        None => Step { s, out: seq![] },
    }
}

impl Session {
    /// A fresh, unidentified session for one connection attempt.
    pub fn new(token: String, os_name: String, user_id: Option<String>, presence: PresenceStatus)
        -> (r: Session)
        ensures
            r@ == (SessionV {
                token: token@,
                os_name: os_name@,
                intents: DEFAULT_INTENTS,
                user_id: opt_str_view(&user_id),
                last_seq: 0,
                identified: false,
                heartbeat_interval: None,
                presence,
                voice_pref: None,
                nego: spec_nego_empty(),
            }),
    {
        Session {
            token,
            os_name,
            intents: DEFAULT_INTENTS,
            user_id,
            last_seq: 0,
            identified: false,
            heartbeat_interval: None,
            presence,
            voice_pref: None,
            nego: VoiceNegotiation::new(),
        }
    }

    /// Handle a hello frame whose interval was already extracted.
    pub fn on_hello(&mut self, interval: u64) -> (acts: Vec<Action>)
        ensures
            final(self)@ == spec_on_hello(old(self)@, interval).s,
            acts.deep_view() == spec_on_hello(old(self)@, interval).out,
    {
        self.heartbeat_interval = Some(interval);
        let mut acts: Vec<Action> = Vec::new();
        acts.push(Action::ArmHeartbeat(interval));
        if !self.identified {
            acts.push(
                Action::SendFrame(
                    OutFrame::Identify {
                        token: self.token.clone(),
                        intents: self.intents,
                        os: self.os_name.clone(),
                        presence: self.presence,
                    },
                ),
            );
            self.identified = true;
        }
        proof {
            assert(self@ =~~= spec_on_hello(old(self)@, interval).s);
            assert(acts.deep_view() =~~= spec_on_hello(old(self)@, interval).out);
        }
        acts
    }

    /// The heartbeat timer fired.
    pub fn on_heartbeat_tick(&self) -> (acts: Vec<Action>)
        ensures
            acts.deep_view() == spec_on_tick(self@).out,
            spec_on_tick(self@).s == self@,
    {
        let mut acts: Vec<Action> = Vec::new();
        if self.identified {
            acts.push(Action::SendFrame(OutFrame::Heartbeat { last_seq: self.last_seq }));
        }
        proof {
            assert(acts.deep_view() =~~= spec_on_tick(self@).out);
        }
        acts
    }

    /// The caller asked for a new presence.
    pub fn on_presence_command(&mut self, p: PresenceStatus) -> (acts: Vec<Action>)
        ensures
            final(self)@ == spec_on_presence_command(old(self)@, p).s,
            acts.deep_view() == spec_on_presence_command(old(self)@, p).out,
    {
        self.presence = p;
        let mut acts: Vec<Action> = Vec::new();
        if self.identified {
            acts.push(Action::SendFrame(OutFrame::PresenceUpdate { presence: p }));
        }
        proof {
            assert(self@ =~~= spec_on_presence_command(old(self)@, p).s);
            assert(acts.deep_view() =~~= spec_on_presence_command(old(self)@, p).out);
        }
        acts
    }

    /// The caller asked to join or leave voice.
    pub fn on_voice_command(&mut self, cmd: VoiceCommand) -> (acts: Vec<Action>)
        ensures
            final(self)@ == spec_on_voice_command(old(self)@, cmd@).s,
            acts.deep_view() == spec_on_voice_command(old(self)@, cmd@).out,
    {
        let mut acts: Vec<Action> = Vec::new();
        if !self.identified {
            proof {
                assert(acts.deep_view() =~~= spec_on_voice_command(old(self)@, cmd@).out);
            }
            return acts;
        }
        match cmd {
            VoiceCommand::Join {
                guild_id,
                channel_id,
                self_mute,
                self_deaf,
                input_device,
                output_device,
            } => {
                self.voice_pref = Some(
                    VoicePref {
                        guild_id: clone_opt_string(&guild_id),
                        channel_id: channel_id.clone(),
                        self_mute,
                        self_deaf,
                        input_device,
                        output_device,
                    },
                );
                self.nego.clear();
                acts.push(
                    Action::SendFrame(
                        OutFrame::VoiceState {
                            guild_id,
                            channel_id: Some(channel_id),
                            self_mute,
                            self_deaf,
                        },
                    ),
                );
            },
            VoiceCommand::Leave => {
                let guild = match &self.voice_pref {
                    Some(p) => clone_opt_string(&p.guild_id),
                    None => None,
                };
                self.voice_pref = None;
                self.nego.clear();
                acts.push(Action::VoiceDisconnect);
                acts.push(
                    Action::SendFrame(
                        OutFrame::VoiceState {
                            guild_id: guild,
                            channel_id: None,
                            self_mute: false,
                            self_deaf: false,
                        },
                    ),
                );
            },
        }
        proof {
            assert(self@ =~~= spec_on_voice_command(old(self)@, cmd@).s);
            assert(acts.deep_view() =~~= spec_on_voice_command(old(self)@, cmd@).out);
        }
        acts
    }

    /// Run the shared negotiation check, turning a ready pair into the one
    /// connect action.
    fn try_voice_connect(&mut self) -> (acts: Vec<Action>)
        ensures
            final(self)@ == spec_try_voice_connect(old(self)@).s,
            acts.deep_view() == spec_try_voice_connect(old(self)@).out,
    {
        let mut acts: Vec<Action> = Vec::new();
        let uid = match &self.user_id {
            Some(u) => u.clone(),
            None => {
                proof {
                    assert(acts.deep_view() =~~= spec_try_voice_connect(old(self)@).out);
                }
                return acts;
            },
        };
        match self.nego.take_ready(&uid) {
            Some(info) => {
                let (input_device, output_device) = match &self.voice_pref {
                    Some(p) => (clone_opt_string(&p.input_device), clone_opt_string(
                        &p.output_device,
                    )),
                    None => (None, None),
                };
                acts.push(Action::VoiceConnect { info, input_device, output_device });
            },
            None => {},
        }
        proof {
            assert(self@ =~~= spec_try_voice_connect(old(self)@).s);
            assert(acts.deep_view() =~~= spec_try_voice_connect(old(self)@).out);
        }
        acts
    }

    /// Route one decoded dispatch event.
    pub fn on_dispatch(&mut self, ev: DispatchEvent) -> (acts: Vec<Action>)
        ensures
            final(self)@ == spec_on_dispatch(old(self)@, ev@).s,
            acts.deep_view() == spec_on_dispatch(old(self)@, ev@).out,
    {
        let mut acts: Vec<Action> = Vec::new();
        match ev {
            DispatchEvent::MessageCreated(m) => {
                acts.push(Action::DeliverMessage(m));
            },
            DispatchEvent::TypingStarted { channel_id, user_id } => {
                let own = match &self.user_id {
                    Some(mine) => str_eq(mine.as_str(), user_id.as_str()),
                    None => false,
                };
                if !own {
                    acts.push(Action::DeliverTyping { channel_id, user_id });
                }
            },
            DispatchEvent::PresenceChanged { user_id, status } => {
                acts.push(Action::DeliverPresence { user_id, status });
            },
            DispatchEvent::VoiceStateChanged { user_id, session_id, channel_id } => {
                let own = match &self.user_id {
                    Some(mine) => str_eq(mine.as_str(), user_id.as_str()),
                    None => false,
                };
                if own {
                    let ch = match channel_id {
                        Some(c) => c,
                        None => String::new(),
                    };
                    self.nego.record_session(session_id, ch);
                    let mut connect_acts = self.try_voice_connect();
                    acts.append(&mut connect_acts);
                }
            },
            DispatchEvent::VoiceServerAssigned { token, endpoint, guild_id } => {
                self.nego.record_server(token, endpoint, guild_id);
                let mut connect_acts = self.try_voice_connect();
                acts.append(&mut connect_acts);
            },
        }
        proof {
            assert(self@ =~~= spec_on_dispatch(old(self)@, ev@).s);
            assert(acts.deep_view() =~~= spec_on_dispatch(old(self)@, ev@).out);
        }
        acts
    }

    /// Handle one decoded inbound frame.  The sequence number is noted
    /// first, whatever the frame is.  A dispatch frame is never fatal: a
    /// payload that parses to no event is dropped and the loop stays alive.
    /// Only a hello without a usable interval ends the attempt.
    pub fn handle_frame(&mut self, f: &FrameData) -> (r: Result<Vec<Action>, SessionError>)
        ensures
            f.op == 10 ==> (match r {
                Ok(acts) => exists|iv: u64|
                    #![auto]
                    final(self)@ == spec_on_hello(spec_note_seq(old(self)@, f.seq), iv).s
                        && acts.deep_view() == spec_on_hello(
                        spec_note_seq(old(self)@, f.seq),
                        iv,
                    ).out,
                Err(e) => e == SessionError::MalformedHello && final(self)@ == spec_note_seq(
                    old(self)@,
                    f.seq,
                ),
            }),
            f.op == 0 ==> (r matches Ok(acts) && exists|d: Option<DispatchEventV>|
                #![auto]
                final(self)@ == spec_on_dispatch_opt(spec_note_seq(old(self)@, f.seq), d).s
                    && acts.deep_view() == spec_on_dispatch_opt(
                    spec_note_seq(old(self)@, f.seq),
                    d,
                ).out),
            f.op == 9 ==> (r matches Ok(acts) && final(self)@ == spec_note_seq(old(self)@, f.seq)
                && acts.deep_view() == seq![ActionV::Close]),
            f.op != 0 && f.op != 9 && f.op != 10 ==> (r matches Ok(acts) && final(self)@
                == spec_note_seq(old(self)@, f.seq) && acts.deep_view() == Seq::<
                ActionV,
            >::empty()),
            f.op != 10 ==> r is Ok,
    {
        if let Some(n) = f.seq {
            self.last_seq = n;
        }
        let ghost s1 = self@;
        proof {
            assert(s1 =~~= spec_note_seq(old(self)@, f.seq));
        }
        if f.op == 10 {
            let interval = match hello_interval(f) {
                Some(iv) => iv,
                None => {
                    return Err(SessionError::MalformedHello);
                },
            };
            let acts = self.on_hello(interval);
            proof {
                assert(self@ == spec_on_hello(s1, interval).s && acts.deep_view() == spec_on_hello(
                    s1,
                    interval,
                ).out);
            }
            Ok(acts)
        } else if f.op == 0 {
            let ev = match &f.event {
                Some(name) => parse_dispatch(name.as_str(), f),
                None => None,
            };
            match ev {
                Some(ev) => {
                    let ghost evv = ev@;
                    let acts = self.on_dispatch(ev);
                    proof {
                        assert(self@ == spec_on_dispatch_opt(s1, Some(evv)).s && acts.deep_view()
                            == spec_on_dispatch_opt(s1, Some(evv)).out);
                    }
                    Ok(acts)
                },
                None => {
                    let acts: Vec<Action> = Vec::new();
                    proof {
                        assert(acts.deep_view() =~~= spec_on_dispatch_opt(
                            s1,
                            None::<DispatchEventV>,
                        ).out);
                        assert(self@ == spec_on_dispatch_opt(s1, None::<DispatchEventV>).s);
                    }
                    Ok(acts)
                },
            }
        } else if f.op == 9 {
            let mut acts: Vec<Action> = Vec::new();
            acts.push(Action::Close);
            proof {
                assert(acts.deep_view() =~~= seq![ActionV::Close]);
            }
            Ok(acts)
        } else {
            let acts: Vec<Action> = Vec::new();
            proof {
                assert(acts.deep_view() =~~= Seq::<ActionV>::empty());
            }
            Ok(acts)
        }
    }
}

} // verus!
