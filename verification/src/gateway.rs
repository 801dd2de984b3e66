//! Control-plane session logic: what each received opcode does to the
//! resume state (session id, resume URL, last sequence), when a cycle
//! ends, and how the next cycle connects — resuming exactly when the
//! whole resume triple is present. The WebSocket itself lives with the
//! caller; it feeds parsed messages in and carries typed commands out.

use vstd::prelude::*;

verus! {

/// Intents bitmask sent with IDENTIFY: guilds, guild members and guild
/// voice states.
pub const GATEWAY_INTENTS: u64 = 641;

/// Backoff between gateway cycles after any cycle error.
pub const GATEWAY_RETRY_MS: u64 = 5000;

/// The fixed control-plane endpoint with its version and encoding query.
pub open spec fn spec_gateway_url() -> Seq<char> {
    "wss://gateway.discord.gg/?v=10&encoding=json"@
}

/// The query string appended to a server-provided resume URL.
pub open spec fn spec_resume_query() -> Seq<char> {
    "?v=10&encoding=json"@
}

/// The fixed control-plane URL.
pub fn gateway_url() -> (s: String)
    ensures
        s@ == spec_gateway_url(),
{
    "wss://gateway.discord.gg/?v=10&encoding=json".to_owned()
}

/// Relies on `format!` from std: the concatenation of two strings.
#[verifier::external_body]
fn concat_str(a: &str, b: &str) -> (r: String)
    ensures
        r@ == a@ + b@,
{
    format!("{}{}", a, b)
}

/// A message of the control plane, already parsed from its JSON frame.
pub enum GatewayServerMessage {
    /// Op 10: the heartbeat interval in milliseconds, when present.
    Hello { heartbeat_interval: Option<u64> },
    /// Op 0: a dispatch with its sequence number and event.
    Dispatch { seq: Option<i64>, event: DispatchEvent },
    /// Op 7: the server asks for a reconnect.
    Reconnect,
    /// Op 9: the session is invalid; `resumable` is the payload's `d`.
    InvalidSession { resumable: bool },
    /// Any other opcode.
    Other,
}

/// The dispatch events the session state cares about.
pub enum DispatchEvent {
    /// `t == "READY"`: the session id and resume URL to keep.
    Ready { session_id: Option<String>, resume_gateway_url: Option<String> },
    /// `t == "RESUMED"`: replay complete.
    Resumed,
    /// Every other event type.
    Other,
}

/// Why a gateway cycle ended; the caller retries after its fixed backoff.
#[derive(Debug, Clone, Copy, PartialEq, Eq, Structural)]
pub enum CycleEnd {
    /// The server asked for a reconnect (op 7).
    Reconnect,
    /// Invalid session, resume allowed (op 9 with `d == true`).
    InvalidResumable,
    /// Invalid session, resume forbidden (op 9 with `d == false`).
    InvalidNoResume,
}

/// What to do with a handled message.
pub enum GatewayDisposition {
    /// Keep listening; forward the event when asked, and spawn the
    /// heartbeat task when an interval is given.
    Continue { forward: bool, spawn_heartbeat: Option<u64> },
    /// The cycle is over; reconnect after the backoff.
    EndCycle { reason: CycleEnd },
}

/// A command for the caller to serialize and send on the control socket.
pub enum GatewayCommand {
    /// Op 2 with the token, [`GATEWAY_INTENTS`] and static device data.
    Identify { token: String },
    /// Op 6 with the token and the stored session id and sequence.
    Resume { token: String, session_id: String, seq: i64 },
    /// Op 1 carrying the last seen sequence.
    Heartbeat { last_seq: Option<i64> },
    /// Op 4 asking to join a voice channel, unmuted and undeafened.
    VoiceStateUpdate { guild_id: String, channel_id: String },
}

/// How the next cycle opens: which URL to dial and whether to resume.
pub struct ConnectPlan {
    /// The WebSocket URL to dial.
    pub url: String,
    /// The first authentication payload to send.
    pub auth: GatewayCommand,
}

/// The control-plane session state that must survive reconnects.
pub struct Gateway {
    /// Heartbeat interval from the last HELLO.
    pub heartbeat_interval: Option<u64>,
    /// Session id from the last READY.
    pub session_id: Option<String>,
    /// Resume URL from the last READY.
    pub resume_url: Option<String>,
    /// Sequence number of the last dispatch.
    pub last_seq: Option<i64>,
}

impl Gateway {
    /// Resume is attempted exactly when the whole triple is present.
    pub open spec fn resume_eligible(&self) -> bool {
        self.session_id is Some && self.resume_url is Some && self.last_seq is Some
    }

    /// A fresh session: nothing stored yet, so the first cycle identifies.
    pub fn new() -> (g: Gateway)
        ensures
            g.heartbeat_interval is None,
            g.session_id is None,
            g.resume_url is None,
            g.last_seq is None,
            !g.resume_eligible(),
    {
        Gateway {
            heartbeat_interval: Option::None,
            session_id: Option::None,
            resume_url: Option::None,
            last_seq: Option::None,
        }
    }

    /// Handles one parsed message. HELLO stores the interval and spawns
    /// the heartbeat. A dispatch stores its sequence; READY additionally
    /// stores the session id and resume URL; dispatches are forwarded.
    /// RECONNECT ends the cycle resumably. INVALID_SESSION ends the
    /// cycle, and when not resumable it clears the session id first.
    pub fn handle_message(&mut self, msg: GatewayServerMessage) -> (d: GatewayDisposition)
        ensures
            match msg {
                GatewayServerMessage::Hello { heartbeat_interval } => {
                    &&& final(self).heartbeat_interval == (if heartbeat_interval is Some {
                        heartbeat_interval
                    } else {
                        old(self).heartbeat_interval
                    })
                    &&& final(self).session_id == old(self).session_id
                    &&& final(self).resume_url == old(self).resume_url
                    &&& final(self).last_seq == old(self).last_seq
                    &&& d matches GatewayDisposition::Continue { forward, spawn_heartbeat }
                        && forward && spawn_heartbeat == heartbeat_interval
                },
                GatewayServerMessage::Dispatch { seq, event } => {
                    &&& final(self).last_seq == (if seq is Some {
                        seq
                    } else {
                        old(self).last_seq
                    })
                    &&& final(self).heartbeat_interval == old(self).heartbeat_interval
                    &&& match event {
                        DispatchEvent::Ready { session_id, resume_gateway_url } => final(self).session_id == session_id && final(self).resume_url
                            == resume_gateway_url,
                        _ => final(self).session_id == old(self).session_id && final(self).resume_url == old(self).resume_url,
                    }
                    &&& d matches GatewayDisposition::Continue { forward, spawn_heartbeat }
                        && forward && spawn_heartbeat is None
                },
                GatewayServerMessage::Reconnect => *final(self) == *old(self) && d
                    == (GatewayDisposition::EndCycle { reason: CycleEnd::Reconnect }),
                GatewayServerMessage::InvalidSession { resumable } => {
                    &&& final(self).heartbeat_interval == old(self).heartbeat_interval
                    &&& final(self).resume_url == old(self).resume_url
                    &&& final(self).last_seq == old(self).last_seq
                    &&& resumable ==> final(self).session_id == old(self).session_id && d
                        == (GatewayDisposition::EndCycle { reason: CycleEnd::InvalidResumable })
                    &&& !resumable ==> final(self).session_id is None && d
                        == (GatewayDisposition::EndCycle { reason: CycleEnd::InvalidNoResume })
                },
                GatewayServerMessage::Other => {
                    &&& *final(self) == *old(self)
                    &&& d matches GatewayDisposition::Continue { forward, spawn_heartbeat }
                        && forward && spawn_heartbeat is None
                },
            },
    {
        match msg {
            GatewayServerMessage::Hello { heartbeat_interval } => {
                match heartbeat_interval {
                    Option::Some(i) => {
                        self.heartbeat_interval = Option::Some(i);
                        GatewayDisposition::Continue {
                            forward: true,
                            spawn_heartbeat: Option::Some(i),
                        }
                    },
                    Option::None => GatewayDisposition::Continue {
                        forward: true,
                        spawn_heartbeat: Option::None,
                    },
                }
            },
            GatewayServerMessage::Dispatch { seq, event } => {
                if let Option::Some(s) = seq {
                    self.last_seq = Option::Some(s);
                }
                match event {
                    DispatchEvent::Ready { session_id, resume_gateway_url } => {
                        self.session_id = session_id;
                        self.resume_url = resume_gateway_url;
                    },
                    DispatchEvent::Resumed => {},
                    DispatchEvent::Other => {},
                }
                GatewayDisposition::Continue { forward: true, spawn_heartbeat: Option::None }
            },
            GatewayServerMessage::Reconnect => {
                GatewayDisposition::EndCycle { reason: CycleEnd::Reconnect }
            },
            GatewayServerMessage::InvalidSession { resumable } => {
                if resumable {
                    GatewayDisposition::EndCycle { reason: CycleEnd::InvalidResumable }
                } else {
                    self.session_id = Option::None;
                    GatewayDisposition::EndCycle { reason: CycleEnd::InvalidNoResume }
                }
            },
            GatewayServerMessage::Other => {
                GatewayDisposition::Continue { forward: true, spawn_heartbeat: Option::None }
            },
        }
    }

    /// Plans the next cycle. With the full resume triple stored, the plan
    /// dials the stored resume URL (with the version query appended) and
    /// opens with RESUME carrying exactly the stored session id and
    /// sequence; otherwise it dials the fixed URL and opens with IDENTIFY.
    pub fn connect_plan(&self, token: &str) -> (plan: ConnectPlan)
        ensures
            self.resume_eligible() ==> {
                &&& plan.auth matches GatewayCommand::Resume { token: t, session_id, seq }
                &&& t@ == token@
                &&& Option::Some(session_id@) == crate::queue::opt_str_view(self.session_id)
                &&& Option::Some(seq) == self.last_seq
                &&& plan.url@ == self.resume_url->0@ + spec_resume_query()
            },
            !self.resume_eligible() ==> {
                &&& plan.auth matches GatewayCommand::Identify { token: t } && t@ == token@
                &&& plan.url@ == spec_gateway_url()
            },
    {
        match (&self.session_id, &self.resume_url, &self.last_seq) {
            (Option::Some(sid), Option::Some(rurl), Option::Some(seq)) => ConnectPlan {
                url: concat_str(rurl.as_str(), "?v=10&encoding=json"),
                auth: GatewayCommand::Resume {
                    token: token.to_owned(),
                    session_id: sid.clone(),
                    seq: *seq,
                },
            },
            _ => ConnectPlan {
                url: gateway_url(),
                auth: GatewayCommand::Identify { token: token.to_owned() },
            },
        }
    }

    /// The heartbeat payload for the current state: op 1 with the last
    /// seen sequence.
    pub fn heartbeat(&self) -> (c: GatewayCommand)
        ensures
            c matches GatewayCommand::Heartbeat { last_seq } && last_seq == self.last_seq,
    {
        GatewayCommand::Heartbeat { last_seq: self.last_seq }
    }
}

/// The collected voice-negotiation data for one guild: filled from
/// VOICE_STATE_UPDATE and VOICE_SERVER_UPDATE dispatches until complete.
pub struct VoiceInfo {
    /// Voice session id from VOICE_STATE_UPDATE.
    pub session_id: Option<String>,
    /// Voice token from VOICE_SERVER_UPDATE.
    pub token: Option<String>,
    /// Voice endpoint from VOICE_SERVER_UPDATE.
    pub endpoint: Option<String>,
}

/// A dispatch event carrying voice-negotiation data.
pub enum VoiceInfoEvent {
    /// VOICE_STATE_UPDATE for some guild.
    VoiceState { guild_id: String, session_id: Option<String> },
    /// VOICE_SERVER_UPDATE for some guild.
    VoiceServer { guild_id: String, token: Option<String>, endpoint: Option<String> },
    /// Anything else.
    Other,
}

impl VoiceInfo {
    /// Nothing observed yet.
    pub fn new() -> (v: VoiceInfo)
        ensures
            v.session_id is None,
            v.token is None,
            v.endpoint is None,
    {
        VoiceInfo { session_id: Option::None, token: Option::None, endpoint: Option::None }
    }

    /// All three pieces are present.
    pub open spec fn complete(&self) -> bool {
        self.session_id is Some && self.token is Some && self.endpoint is Some
    }

    /// Folds one event in: a VOICE_STATE_UPDATE for the watched guild
    /// sets the session id, a VOICE_SERVER_UPDATE for it sets token and
    /// endpoint, everything else changes nothing.
    pub fn observe(&mut self, watched_guild: &str, ev: VoiceInfoEvent)
        ensures
            match ev {
                VoiceInfoEvent::VoiceState { guild_id, session_id } => {
                    &&& guild_id@ == watched_guild@ ==> *final(self) == (VoiceInfo {
                        session_id,
                        ..*old(self)
                    })
                    &&& guild_id@ != watched_guild@ ==> *final(self) == *old(self)
                },
                VoiceInfoEvent::VoiceServer { guild_id, token, endpoint } => {
                    &&& guild_id@ == watched_guild@ ==> *final(self) == (VoiceInfo {
                        token,
                        endpoint,
                        ..*old(self)
                    })
                    &&& guild_id@ != watched_guild@ ==> *final(self) == *old(self)
                },
                VoiceInfoEvent::Other => *final(self) == *old(self),
            },
    {
        match ev {
            VoiceInfoEvent::VoiceState { guild_id, session_id } => {
                if str_eq(guild_id.as_str(), watched_guild) {
                    self.session_id = session_id;
                }
            },
            VoiceInfoEvent::VoiceServer { guild_id, token, endpoint } => {
                if str_eq(guild_id.as_str(), watched_guild) {
                    self.token = token;
                    self.endpoint = endpoint;
                }
            },
            VoiceInfoEvent::Other => {},
        }
    }
}

/// Equality of two string slices over their character views.
fn str_eq(a: &str, b: &str) -> (r: bool)
    ensures
        r == (a@ == b@),
{
    let x = a.to_owned();
    let y = b.to_owned();
    x == y
}

} // verus!
