//! Voice types and the negotiation coordinator: the two asynchronous server
//! updates (session assignment and server assignment) are correlated into one
//! connection descriptor, emitted at most once per pair.

use vstd::prelude::*;

use crate::digits::{parse_id, spec_parse_id};
use crate::models::opt_str_view;

verus! {

/// Clone an optional string, preserving its value.
pub fn clone_opt_string(o: &Option<String>) -> (r: Option<String>)
    ensures
        opt_str_view(&r) == opt_str_view(o),
{
    match o {
        Some(s) => Some(s.clone()),
        None => None,
    }
}

/// Everything the media driver needs to open the secondary transport.
#[derive(Clone, Debug)]
pub struct VoiceConnectionInfo {
    pub guild_id: Option<String>,
    pub channel_id: String,
    pub endpoint: String,
    pub token: String,
    pub session_id: String,
    pub user_id: String,
}

/// Mathematical value of a [`VoiceConnectionInfo`].
#[verifier::ext_equal]
pub struct VoiceConnectionInfoV {
    pub guild_id: Option<Seq<char>>,
    pub channel_id: Seq<char>,
    pub endpoint: Seq<char>,
    pub token: Seq<char>,
    pub session_id: Seq<char>,
    pub user_id: Seq<char>,
}

impl View for VoiceConnectionInfo {
    type V = VoiceConnectionInfoV;

    open spec fn view(&self) -> VoiceConnectionInfoV {
        VoiceConnectionInfoV {
            guild_id: opt_str_view(&self.guild_id),
            channel_id: self.channel_id@,
            endpoint: self.endpoint@,
            token: self.token@,
            session_id: self.session_id@,
            user_id: self.user_id@,
        }
    }
}

/// Command from the caller to the gateway about voice.
#[derive(Clone, Debug)]
pub enum VoiceCommand {
    Join {
        guild_id: Option<String>,
        channel_id: String,
        self_mute: bool,
        self_deaf: bool,
        input_device: Option<String>,
        output_device: Option<String>,
    },
    Leave,
}

/// Mathematical value of a [`VoiceCommand`].
#[verifier::ext_equal]
pub enum VoiceCommandV {
    Join {
        guild_id: Option<Seq<char>>,
        channel_id: Seq<char>,
        self_mute: bool,
        self_deaf: bool,
        input_device: Option<Seq<char>>,
        output_device: Option<Seq<char>>,
    },
    Leave,
}

impl View for VoiceCommand {
    type V = VoiceCommandV;

    open spec fn view(&self) -> VoiceCommandV {
        match self {
            VoiceCommand::Join {
                guild_id,
                channel_id,
                self_mute,
                self_deaf,
                input_device,
                output_device,
            } => VoiceCommandV::Join {
                guild_id: opt_str_view(guild_id),
                channel_id: channel_id@,
                self_mute: *self_mute,
                self_deaf: *self_deaf,
                input_device: opt_str_view(input_device),
                output_device: opt_str_view(output_device),
            },
            VoiceCommand::Leave => VoiceCommandV::Leave,
        }
    }
}

/// Message to the media driver task: connect with a descriptor and device
/// preferences, or tear the transport down.
#[derive(Clone, Debug)]
pub enum VoiceMessage {
    Connect {
        info: VoiceConnectionInfo,
        input_device: Option<String>,
        output_device: Option<String>,
    },
    Leave,
}

/// Mathematical value of a [`VoiceMessage`].
#[verifier::ext_equal]
pub enum VoiceMessageV {
    Connect {
        info: VoiceConnectionInfoV,
        input_device: Option<Seq<char>>,
        output_device: Option<Seq<char>>,
    },
    Leave,
}

impl View for VoiceMessage {
    type V = VoiceMessageV;

    open spec fn view(&self) -> VoiceMessageV {
        match self {
            VoiceMessage::Connect { info, input_device, output_device } => VoiceMessageV::Connect {
                info: info@,
                input_device: opt_str_view(input_device),
                output_device: opt_str_view(output_device),
            },
            VoiceMessage::Leave => VoiceMessageV::Leave,
        }
    }
}

/// The voice target and device preferences of the latest join command.
#[derive(Clone, Debug)]
pub struct VoicePref {
    pub guild_id: Option<String>,
    pub channel_id: String,
    pub self_mute: bool,
    pub self_deaf: bool,
    pub input_device: Option<String>,
    pub output_device: Option<String>,
}

/// Mathematical value of a [`VoicePref`].
#[verifier::ext_equal]
pub struct VoicePrefV {
    pub guild_id: Option<Seq<char>>,
    pub channel_id: Seq<char>,
    pub self_mute: bool,
    pub self_deaf: bool,
    pub input_device: Option<Seq<char>>,
    pub output_device: Option<Seq<char>>,
}

impl View for VoicePref {
    type V = VoicePrefV;

    open spec fn view(&self) -> VoicePrefV {
        VoicePrefV {
            guild_id: opt_str_view(&self.guild_id),
            channel_id: self.channel_id@,
            self_mute: self.self_mute,
            self_deaf: self.self_deaf,
            input_device: opt_str_view(&self.input_device),
            output_device: opt_str_view(&self.output_device),
        }
    }
}

/// The pending session assignment: session id and target channel.
pub struct PendingSession {
    pub session_id: String,
    pub channel_id: String,
}

/// Mathematical value of a [`PendingSession`].
#[verifier::ext_equal]
pub struct PendingSessionV {
    pub session_id: Seq<char>,
    pub channel_id: Seq<char>,
}

impl View for PendingSession {
    type V = PendingSessionV;

    open spec fn view(&self) -> PendingSessionV {
        PendingSessionV { session_id: self.session_id@, channel_id: self.channel_id@ }
    }
}

/// The pending server assignment: signaling token, endpoint when already
/// known, and the optional guild reference.
pub struct PendingServer {
    pub token: String,
    pub endpoint: Option<String>,
    pub guild_id: Option<String>,
}

/// Mathematical value of a [`PendingServer`].
#[verifier::ext_equal]
pub struct PendingServerV {
    pub token: Seq<char>,
    pub endpoint: Option<Seq<char>>,
    pub guild_id: Option<Seq<char>>,
}

impl View for PendingServer {
    type V = PendingServerV;

    open spec fn view(&self) -> PendingServerV {
        PendingServerV {
            token: self.token@,
            endpoint: opt_str_view(&self.endpoint),
            guild_id: opt_str_view(&self.guild_id),
        }
    }
}

/// The two independently settable halves of voice negotiation.
pub struct VoiceNegotiation {
    pub pending_session: Option<PendingSession>,
    pub pending_server: Option<PendingServer>,
}

/// Mathematical value of a [`VoiceNegotiation`].
#[verifier::ext_equal]
pub struct VoiceNegotiationV {
    pub pending_session: Option<PendingSessionV>,
    pub pending_server: Option<PendingServerV>,
}

impl View for VoiceNegotiation {
    type V = VoiceNegotiationV;

    open spec fn view(&self) -> VoiceNegotiationV {
        VoiceNegotiationV {
            pending_session: match self.pending_session {
                Some(ref p) => Some(p@),
                None => None,
            },
            pending_server: match self.pending_server {
                Some(ref p) => Some(p@),
                None => None,
            },
        }
    }
}

/// Negotiation state with neither half present.
pub open spec fn spec_nego_empty() -> VoiceNegotiationV {
    VoiceNegotiationV { pending_session: None, pending_server: None }
}

/// Both halves are present, the target channel is non-empty and the endpoint
/// is known: a connection attempt may be triggered.
pub open spec fn spec_nego_ready(n: VoiceNegotiationV) -> bool {
    &&& n.pending_session is Some
    &&& n.pending_session->0.channel_id.len() > 0
    &&& n.pending_server is Some
    &&& n.pending_server->0.endpoint is Some
}

/// The descriptor built from ready negotiation state for the local identity.
pub open spec fn spec_nego_descriptor(n: VoiceNegotiationV, user_id: Seq<char>) -> (
    VoiceConnectionInfoV)
    recommends
        spec_nego_ready(n),
{
    VoiceConnectionInfoV {
        guild_id: n.pending_server->0.guild_id,
        channel_id: n.pending_session->0.channel_id,
        endpoint: n.pending_server->0.endpoint->0,
        token: n.pending_server->0.token,
        session_id: n.pending_session->0.session_id,
        user_id: user_id,
    }
}

impl VoiceNegotiation {
    /// Fresh negotiation state: nothing pending.
    pub fn new() -> (r: Self)
        ensures
            r@ == spec_nego_empty(),
    {
        VoiceNegotiation { pending_session: None, pending_server: None }
    }

    /// Drop both pending halves.
    pub fn clear(&mut self)
        ensures
            final(self)@ == spec_nego_empty(),
    {
        self.pending_session = None;
        self.pending_server = None;
    }

    /// Record the session assignment from the local identity's own
    /// voice-state update.
    pub fn record_session(&mut self, session_id: String, channel_id: String)
        ensures
            final(self)@ == (VoiceNegotiationV {
                pending_session: Some(
                    PendingSessionV { session_id: session_id@, channel_id: channel_id@ },
                ),
                pending_server: old(self)@.pending_server,
            }),
    {
        self.pending_session = Some(PendingSession { session_id, channel_id });
    }

    /// Record the server assignment; a null endpoint means "not yet ready"
    /// and is recorded as such, never treated as an error.
    pub fn record_server(&mut self, token: String, endpoint: Option<String>, guild_id: Option<
        String,
    >)
        ensures
            final(self)@ == (VoiceNegotiationV {
                pending_session: old(self)@.pending_session,
                pending_server: Some(
                    PendingServerV {
                        token: token@,
                        endpoint: opt_str_view(&endpoint),
                        guild_id: opt_str_view(&guild_id),
                    },
                ),
            }),
    {
        self.pending_server = Some(PendingServer { token, endpoint, guild_id });
    }

    /// The one check-and-clear step both update handlers share: when both
    /// halves are ready, hand the descriptor out and clear them, so that
    /// repeated identical updates can never emit a duplicate descriptor.
    pub fn take_ready(&mut self, user_id: &String) -> (r: Option<VoiceConnectionInfo>)
        ensures
            spec_nego_ready(old(self)@) ==> final(self)@ == spec_nego_empty() && (r matches Some(
                info,
            ) && info@ == spec_nego_descriptor(old(self)@, user_id@)),
            !spec_nego_ready(old(self)@) ==> final(self)@ == old(self)@ && r is None,
    {
        let ready: bool = match (&self.pending_session, &self.pending_server) {
            (Some(ps), Some(sv)) => !ps.channel_id.as_str().is_empty() && matches!(
                sv.endpoint,
                Some(_),
            ),
            _ => false,
        };
        if !ready {
            return None;
        }
        let (session_id, channel_id) = match &self.pending_session {
            Some(p) => (p.session_id.clone(), p.channel_id.clone()),
            None => {
                return None;
            },
        };
        let (token, endpoint, guild_id) = match &self.pending_server {
            Some(sv) => {
                let ep = match &sv.endpoint {
                    Some(e) => e.clone(),
                    None => {
                        return None;
                    },
                };
                (sv.token.clone(), ep, clone_opt_string(&sv.guild_id))
            },
            None => {
                return None;
            },
        };
        self.pending_session = None;
        self.pending_server = None;
        let info = VoiceConnectionInfo {
            guild_id,
            channel_id,
            endpoint,
            token,
            session_id,
            user_id: user_id.clone(),
        };
        proof {
            assert(info@ =~~= spec_nego_descriptor(old(self)@, user_id@));
        }
        Some(info)
    }
}

/// Numeric identifiers for the media transport.  The guild falls back to 1
/// when absent or unparsable (direct-message calls); a channel or user id
/// that does not parse to a non-zero number leaves no usable descriptor.
#[derive(Clone, Copy, Debug, PartialEq, Eq, Structural)]
pub struct DriverIds {
    pub guild_id: u64,
    pub channel_id: u64,
    pub user_id: u64,
}

/// The numeric ids [`driver_ids`] extracts from a descriptor.
pub open spec fn spec_driver_ids(v: VoiceConnectionInfoV) -> Option<DriverIds> {
    let guild = match v.guild_id {
        Some(g) => if spec_parse_id(g) == 0 {
            1u64
        } else {
            spec_parse_id(g)
        },
        None => 1u64,
    };
    if spec_parse_id(v.channel_id) == 0 || spec_parse_id(v.user_id) == 0 {
        None
    } else {
        Some(
            DriverIds {
                guild_id: guild,
                channel_id: spec_parse_id(v.channel_id),
                user_id: spec_parse_id(v.user_id),
            },
        )
    }
}

/// Parse the decimal identifiers of a descriptor for the media transport.
pub fn driver_ids(info: &VoiceConnectionInfo) -> (r: Option<DriverIds>)
    ensures
        r == spec_driver_ids(info@),
{
    let guild_id = match &info.guild_id {
        Some(g) => {
            let n = parse_id(g.as_str());
            if n == 0 {
                1
            } else {
                n
            }
        },
        None => 1,
    };
    let channel_id = parse_id(info.channel_id.as_str());
    let user_id = parse_id(info.user_id.as_str());
    if channel_id == 0 || user_id == 0 {
        None
    } else {
        Some(DriverIds { guild_id, channel_id, user_id })
    }
}

} // verus!
