//! Reading the JSON frames of the two WebSockets. Each plane has one
//! trusted extraction call that turns a frame text into plain field
//! values; every field is tied to a named function of the text, so what
//! a frame means — which opcode carries which fields, and which message
//! or event follows — is fixed by contracts all the way from the text to
//! the typed result. The interpretation itself is verified logic.

use vstd::prelude::*;

use crate::gateway::{DispatchEvent, GatewayServerMessage, VoiceInfoEvent};
use crate::handshake::VoiceServerMessage;
use crate::queue::opt_str_view;

verus! {

/// The view of optional key bytes.
pub open spec fn opt_bytes_view(b: Option<Vec<u8>>) -> Option<Seq<u8>> {
    match b {
        Option::None => Option::None,
        Option::Some(v) => Option::Some(v@),
    }
}

// What `serde_json` reads from a control-plane frame text: one name per
// field, each a function of the text alone. `gw_wf` holds exactly when
// the text parses as JSON.
pub uninterp spec fn gw_wf(t: Seq<char>) -> bool;

pub uninterp spec fn gw_op_of(t: Seq<char>) -> Option<i64>;

pub uninterp spec fn gw_s_of(t: Seq<char>) -> Option<i64>;

pub uninterp spec fn gw_t_of(t: Seq<char>) -> Option<Seq<char>>;

pub uninterp spec fn gw_heartbeat_of(t: Seq<char>) -> Option<u64>;

pub uninterp spec fn gw_session_id_of(t: Seq<char>) -> Option<Seq<char>>;

pub uninterp spec fn gw_resume_url_of(t: Seq<char>) -> Option<Seq<char>>;

pub uninterp spec fn gw_d_bool_of(t: Seq<char>) -> Option<bool>;

pub uninterp spec fn gw_guild_of(t: Seq<char>) -> Option<Seq<char>>;

pub uninterp spec fn gw_token_of(t: Seq<char>) -> Option<Seq<char>>;

pub uninterp spec fn gw_endpoint_of(t: Seq<char>) -> Option<Seq<char>>;

pub uninterp spec fn gw_user_id_of(t: Seq<char>) -> Option<Seq<char>>;

/// The fields a control-plane frame may carry, each already a plain
/// value; absent fields are `None`.
pub struct RawGatewayPayload {
    pub op: Option<i64>,
    pub s: Option<i64>,
    pub t: Option<String>,
    pub d_heartbeat_interval: Option<u64>,
    pub d_session_id: Option<String>,
    pub d_resume_gateway_url: Option<String>,
    pub d_bool: Option<bool>,
    pub d_guild_id: Option<String>,
    pub d_token: Option<String>,
    pub d_endpoint: Option<String>,
    pub d_user_id: Option<String>,
}

/// The opcode-level fields of a control-plane frame.
struct RawSessionFields {
    op: Option<i64>,
    s: Option<i64>,
    t: Option<String>,
    d_heartbeat_interval: Option<u64>,
    d_bool: Option<bool>,
}

/// The string fields dispatches carry under `d`.
struct RawDispatchFields {
    d_session_id: Option<String>,
    d_resume_gateway_url: Option<String>,
    d_guild_id: Option<String>,
    d_token: Option<String>,
    d_endpoint: Option<String>,
    d_user_id: Option<String>,
}

/// Relies on `serde_json::from_str` and the `Value` getters `get`,
/// `as_i64`, `as_u64`, `as_str`, `as_bool`: parses one control-plane
/// frame and reads its opcode-level fields. Parsing and each field are
/// functions of the frame text alone; `None` comes back exactly when
/// the text is not JSON.
#[verifier::external_body]
fn extract_gateway_session_fields(text: &str) -> (r: Option<RawSessionFields>)
    ensures
        r is Some <==> gw_wf(text@),
        r matches Some(p) ==> {
            &&& p.op == gw_op_of(text@)
            &&& p.s == gw_s_of(text@)
            &&& opt_str_view(p.t) == gw_t_of(text@)
            &&& p.d_heartbeat_interval == gw_heartbeat_of(text@)
            &&& p.d_bool == gw_d_bool_of(text@)
        },
{
    let v: serde_json::Value = match serde_json::from_str(text) {
        Ok(v) => v,
        Err(_) => return None,
    };
    Some(RawSessionFields {
        op: v.get("op").and_then(|y| y.as_i64()),
        s: v.get("s").and_then(|y| y.as_i64()),
        t: v.get("t").and_then(|y| y.as_str()).map(|y| y.to_owned()),
        d_heartbeat_interval: v.get("d").and_then(|y| y.get("heartbeat_interval")).and_then(|y| y.as_u64()),
        d_bool: v.get("d").and_then(|y| y.as_bool()),
    })
}

/// Relies on `serde_json::from_str` and the `Value` getters `get` and
/// `as_str`: parses the same control-plane frame and reads the string
/// fields under `d` that dispatches carry (the user id sits one level
/// deeper, under `d.user.id`). Each is a function of the frame text
/// alone; `None` comes back exactly when the text is not JSON.
#[verifier::external_body]
fn extract_gateway_dispatch_fields(text: &str) -> (r: Option<RawDispatchFields>)
    ensures
        r is Some <==> gw_wf(text@),
        r matches Some(p) ==> {
            &&& opt_str_view(p.d_session_id) == gw_session_id_of(text@)
            &&& opt_str_view(p.d_resume_gateway_url) == gw_resume_url_of(text@)
            &&& opt_str_view(p.d_guild_id) == gw_guild_of(text@)
            &&& opt_str_view(p.d_token) == gw_token_of(text@)
            &&& opt_str_view(p.d_endpoint) == gw_endpoint_of(text@)
            &&& opt_str_view(p.d_user_id) == gw_user_id_of(text@)
        },
{
    let v: serde_json::Value = match serde_json::from_str(text) {
        Ok(v) => v,
        Err(_) => return None,
    };
    let txt = |x: Option<&serde_json::Value>| x.and_then(|y| y.as_str()).map(|y| y.to_owned());
    let dk = |k: &str| v.get("d").and_then(|y| y.get(k));
    Some(RawDispatchFields {
        d_session_id: txt(dk("session_id")),
        d_resume_gateway_url: txt(dk("resume_gateway_url")),
        d_guild_id: txt(dk("guild_id")),
        d_token: txt(dk("token")),
        d_endpoint: txt(dk("endpoint")),
        d_user_id: txt(dk("user").and_then(|u| u.get("id"))),
    })
}

/// Reads every control-plane field of a frame, tying each to its named
/// function of the text; `None` exactly when the text is not JSON.
fn extract_gateway_fields(text: &str) -> (r: Option<RawGatewayPayload>)
    ensures
        r is Some <==> gw_wf(text@),
        r matches Some(p) ==> {
            &&& p.op == gw_op_of(text@)
            &&& p.s == gw_s_of(text@)
            &&& opt_str_view(p.t) == gw_t_of(text@)
            &&& p.d_heartbeat_interval == gw_heartbeat_of(text@)
            &&& opt_str_view(p.d_session_id) == gw_session_id_of(text@)
            &&& opt_str_view(p.d_resume_gateway_url) == gw_resume_url_of(text@)
            &&& p.d_bool == gw_d_bool_of(text@)
            &&& opt_str_view(p.d_guild_id) == gw_guild_of(text@)
            &&& opt_str_view(p.d_token) == gw_token_of(text@)
            &&& opt_str_view(p.d_endpoint) == gw_endpoint_of(text@)
            &&& opt_str_view(p.d_user_id) == gw_user_id_of(text@)
        },
{
    match (extract_gateway_session_fields(text), extract_gateway_dispatch_fields(text)) {
        (Option::Some(a), Option::Some(b)) => Option::Some(RawGatewayPayload {
            op: a.op,
            s: a.s,
            t: a.t,
            d_heartbeat_interval: a.d_heartbeat_interval,
            d_session_id: b.d_session_id,
            d_resume_gateway_url: b.d_resume_gateway_url,
            d_bool: a.d_bool,
            d_guild_id: b.d_guild_id,
            d_token: b.d_token,
            d_endpoint: b.d_endpoint,
            d_user_id: b.d_user_id,
        }),
        _ => Option::None,
    }
}

/// Whether a dispatch's `t` equals a given name.
fn t_is(t: &Option<String>, name: &str) -> (r: bool)
    ensures
        r == (t matches Some(s) && s@ == name@),
{
    match t {
        Option::Some(s) => {
            let a = s.clone();
            a == name.to_owned()
        },
        Option::None => false,
    }
}

/// What a control-plane frame with the given fields means: op 10 is
/// HELLO with its interval, op 0 a dispatch whose READY carries the
/// session id and resume URL, op 7 a reconnect, op 9 an invalid session
/// whose `d` defaults to not resumable; everything else is opaque.
pub open spec fn spec_gateway_message(
    op: Option<i64>,
    s: Option<i64>,
    t: Option<Seq<char>>,
    heartbeat: Option<u64>,
    session_id: Option<Seq<char>>,
    resume_url: Option<Seq<char>>,
    d_bool: Option<bool>,
    msg: GatewayServerMessage,
) -> bool {
    if op == Option::Some(10i64) {
        msg matches GatewayServerMessage::Hello { heartbeat_interval } && heartbeat_interval
            == heartbeat
    } else if op == Option::Some(0i64) {
        msg matches GatewayServerMessage::Dispatch { seq, event } && seq == s && (match event {
            DispatchEvent::Ready { session_id: sid, resume_gateway_url } => t == Option::Some(
                "READY"@,
            ) && opt_str_view(sid) == session_id && opt_str_view(resume_gateway_url) == resume_url,
            DispatchEvent::Resumed => t == Option::Some("RESUMED"@),
            DispatchEvent::Other => t != Option::Some("READY"@) && t != Option::Some("RESUMED"@),
        })
    } else if op == Option::Some(7i64) {
        msg is Reconnect
    } else if op == Option::Some(9i64) {
        msg matches GatewayServerMessage::InvalidSession { resumable } && resumable == (
        d_bool matches Some(true))
    } else {
        msg is Other
    }
}

/// Interprets the extracted control-plane fields.
pub fn interpret_gateway(raw: RawGatewayPayload) -> (msg: GatewayServerMessage)
    ensures
        spec_gateway_message(
            raw.op,
            raw.s,
            opt_str_view(raw.t),
            raw.d_heartbeat_interval,
            opt_str_view(raw.d_session_id),
            opt_str_view(raw.d_resume_gateway_url),
            raw.d_bool,
            msg,
        ),
{
    proof {
        reveal_strlit("READY");
        reveal_strlit("RESUMED");
        assert("READY"@.len() == 5);
        assert("RESUMED"@.len() == 7);
    }
    let op = match raw.op {
        Option::Some(n) => n,
        Option::None => {
            return GatewayServerMessage::Other;
        },
    };
    if op == 10 {
        GatewayServerMessage::Hello { heartbeat_interval: raw.d_heartbeat_interval }
    } else if op == 0 {
        let event = if t_is(&raw.t, "READY") {
            DispatchEvent::Ready {
                session_id: raw.d_session_id,
                resume_gateway_url: raw.d_resume_gateway_url,
            }
        } else if t_is(&raw.t, "RESUMED") {
            DispatchEvent::Resumed
        } else {
            DispatchEvent::Other
        };
        GatewayServerMessage::Dispatch { seq: raw.s, event }
    } else if op == 7 {
        GatewayServerMessage::Reconnect
    } else if op == 9 {
        let resumable = match raw.d_bool {
            Option::Some(b) => b,
            Option::None => false,
        };
        GatewayServerMessage::InvalidSession { resumable }
    } else {
        GatewayServerMessage::Other
    }
}

/// Parses one control-plane text frame: `None` exactly on text that is
/// not JSON (which ends the cycle); otherwise the message is fixed by
/// the frame's named fields.
pub fn parse_gateway_message(text: &str) -> (r: Option<GatewayServerMessage>)
    ensures
        r is Some <==> gw_wf(text@),
        r matches Some(m) ==> spec_gateway_message(
            gw_op_of(text@),
            gw_s_of(text@),
            gw_t_of(text@),
            gw_heartbeat_of(text@),
            gw_session_id_of(text@),
            gw_resume_url_of(text@),
            gw_d_bool_of(text@),
            m,
        ),
{
    match extract_gateway_fields(text) {
        Option::Some(raw) => Option::Some(interpret_gateway(raw)),
        Option::None => Option::None,
    }
}

/// The bot user id under `d.user.id` of a frame, when the text parses;
/// the caller pairs it with the frame being a READY dispatch.
pub fn ready_user_id(text: &str) -> (r: Option<String>)
    ensures
        gw_wf(text@) ==> opt_str_view(r) == gw_user_id_of(text@),
        !gw_wf(text@) ==> r is None,
{
    match extract_gateway_fields(text) {
        Option::Some(raw) => raw.d_user_id,
        Option::None => Option::None,
    }
}

/// Which voice-negotiation event a dispatch with the given fields
/// carries: the guild and session of a VOICE_STATE_UPDATE, the guild,
/// token and endpoint of a VOICE_SERVER_UPDATE, and nothing otherwise
/// (a frame without a guild id carries neither).
pub open spec fn spec_voice_info_event(
    t: Option<Seq<char>>,
    guild: Option<Seq<char>>,
    session: Option<Seq<char>>,
    token: Option<Seq<char>>,
    endpoint: Option<Seq<char>>,
    ev: VoiceInfoEvent,
) -> bool {
    match guild {
        Option::None => ev is Other,
        Option::Some(g) => {
            if t == Option::Some("VOICE_STATE_UPDATE"@) {
                ev matches VoiceInfoEvent::VoiceState { guild_id, session_id } && guild_id@ == g
                    && opt_str_view(session_id) == session
            } else if t == Option::Some("VOICE_SERVER_UPDATE"@) {
                ev matches VoiceInfoEvent::VoiceServer { guild_id, token: tk, endpoint: ep }
                    && guild_id@ == g && opt_str_view(tk) == token && opt_str_view(ep) == endpoint
            } else {
                ev is Other
            }
        },
    }
}

/// Interprets the extracted fields as a voice-negotiation event.
fn interpret_voice_info(raw: RawGatewayPayload) -> (ev: VoiceInfoEvent)
    ensures
        spec_voice_info_event(
            opt_str_view(raw.t),
            opt_str_view(raw.d_guild_id),
            opt_str_view(raw.d_session_id),
            opt_str_view(raw.d_token),
            opt_str_view(raw.d_endpoint),
            ev,
        ),
{
    proof {
        reveal_strlit("VOICE_STATE_UPDATE");
        reveal_strlit("VOICE_SERVER_UPDATE");
        assert("VOICE_STATE_UPDATE"@.len() == 18);
        assert("VOICE_SERVER_UPDATE"@.len() == 19);
    }
    let guild_id = match raw.d_guild_id {
        Option::Some(g) => g,
        Option::None => {
            return VoiceInfoEvent::Other;
        },
    };
    if t_is(&raw.t, "VOICE_STATE_UPDATE") {
        VoiceInfoEvent::VoiceState { guild_id, session_id: raw.d_session_id }
    } else if t_is(&raw.t, "VOICE_SERVER_UPDATE") {
        VoiceInfoEvent::VoiceServer { guild_id, token: raw.d_token, endpoint: raw.d_endpoint }
    } else {
        VoiceInfoEvent::Other
    }
}

/// Pulls a voice-negotiation event out of one dispatch frame text; an
/// unparseable frame carries nothing.
pub fn extract_voice_info_event(text: &str) -> (ev: VoiceInfoEvent)
    ensures
        gw_wf(text@) ==> spec_voice_info_event(
            gw_t_of(text@),
            gw_guild_of(text@),
            gw_session_id_of(text@),
            gw_token_of(text@),
            gw_endpoint_of(text@),
            ev,
        ),
        !gw_wf(text@) ==> ev is Other,
{
    match extract_gateway_fields(text) {
        Option::Some(raw) => interpret_voice_info(raw),
        Option::None => VoiceInfoEvent::Other,
    }
}

// What `serde_json` reads from a voice-plane frame text, one name per
// field as above; `vp_secret_key_of` is the byte vector of a
// `secret_key` array whose entries are all integers below 256.
pub uninterp spec fn vp_wf(t: Seq<char>) -> bool;

pub uninterp spec fn vp_op_of(t: Seq<char>) -> Option<i64>;

pub uninterp spec fn vp_heartbeat_of(t: Seq<char>) -> Option<u64>;

pub uninterp spec fn vp_ssrc_of(t: Seq<char>) -> Option<u64>;

pub uninterp spec fn vp_ip_of(t: Seq<char>) -> Option<Seq<char>>;

pub uninterp spec fn vp_port_of(t: Seq<char>) -> Option<u64>;

pub uninterp spec fn vp_secret_key_of(t: Seq<char>) -> Option<Seq<u8>>;

pub uninterp spec fn vp_mode_of(t: Seq<char>) -> Option<Seq<char>>;

/// The fields a voice-plane frame may carry, each already a plain value.
pub struct RawVoicePayload {
    pub op: Option<i64>,
    pub d_heartbeat_interval: Option<u64>,
    pub d_ssrc: Option<u64>,
    pub d_ip: Option<String>,
    pub d_port: Option<u64>,
    pub d_secret_key: Option<Vec<u8>>,
    pub d_mode: Option<String>,
}

/// The plain fields of a voice-plane frame, without the secret key.
struct RawVoiceScalars {
    op: Option<i64>,
    d_heartbeat_interval: Option<u64>,
    d_ssrc: Option<u64>,
    d_ip: Option<String>,
    d_port: Option<u64>,
    d_mode: Option<String>,
}

/// Relies on `serde_json::from_str` and the `Value` getters `get`,
/// `as_i64`, `as_u64`, `as_str`: parses one voice-plane frame and reads
/// its scalar fields. Parsing and each field are functions of the frame
/// text alone; `None` comes back exactly when the text is not JSON.
#[verifier::external_body]
fn extract_voice_scalars(text: &str) -> (r: Option<RawVoiceScalars>)
    ensures
        r is Some <==> vp_wf(text@),
        r matches Some(p) ==> {
            &&& p.op == vp_op_of(text@)
            &&& p.d_heartbeat_interval == vp_heartbeat_of(text@)
            &&& p.d_ssrc == vp_ssrc_of(text@)
            &&& opt_str_view(p.d_ip) == vp_ip_of(text@)
            &&& p.d_port == vp_port_of(text@)
            &&& opt_str_view(p.d_mode) == vp_mode_of(text@)
        },
{
    let v: serde_json::Value = match serde_json::from_str(text) {
        Ok(v) => v,
        Err(_) => return None,
    };
    let dk = |k: &str| v.get("d").and_then(|y| y.get(k));
    Some(RawVoiceScalars {
        op: v.get("op").and_then(|y| y.as_i64()),
        d_heartbeat_interval: dk("heartbeat_interval").and_then(|y| y.as_u64()),
        d_ssrc: dk("ssrc").and_then(|y| y.as_u64()),
        d_ip: dk("ip").and_then(|y| y.as_str()).map(|y| y.to_owned()),
        d_port: dk("port").and_then(|y| y.as_u64()),
        d_mode: dk("mode").and_then(|y| y.as_str()).map(|y| y.to_owned()),
    })
}

/// Relies on `serde_json::from_str`, `Value::get`, `Value::as_array` and
/// `Value::as_u64`: the secret-key bytes of the same frame, present
/// exactly when `d.secret_key` is an array holding only integers below
/// 256 — a function of the frame text alone. An unparseable text has no
/// key.
#[verifier::external_body]
fn extract_voice_secret_key(text: &str) -> (r: Option<Vec<u8>>)
    ensures
        vp_wf(text@) ==> opt_bytes_view(r) == vp_secret_key_of(text@),
        !vp_wf(text@) ==> r is None,
{
    let v: serde_json::Value = match serde_json::from_str(text) {
        Ok(v) => v,
        Err(_) => return None,
    };
    let arr = v.get("d").and_then(|y| y.get("secret_key")).and_then(|y| y.as_array())?;
    arr.iter().map(|x| x.as_u64().and_then(|n| u8::try_from(n).ok())).collect::<Option<Vec<u8>>>()
}

/// Reads every voice-plane field of a frame, tying each to its named
/// function of the text; `None` exactly when the text is not JSON.
fn extract_voice_fields(text: &str) -> (r: Option<RawVoicePayload>)
    ensures
        r is Some <==> vp_wf(text@),
        r matches Some(p) ==> {
            &&& p.op == vp_op_of(text@)
            &&& p.d_heartbeat_interval == vp_heartbeat_of(text@)
            &&& p.d_ssrc == vp_ssrc_of(text@)
            &&& opt_str_view(p.d_ip) == vp_ip_of(text@)
            &&& p.d_port == vp_port_of(text@)
            &&& opt_bytes_view(p.d_secret_key) == vp_secret_key_of(text@)
            &&& opt_str_view(p.d_mode) == vp_mode_of(text@)
        },
{
    let key = extract_voice_secret_key(text);
    match extract_voice_scalars(text) {
        Option::Some(a) => Option::Some(RawVoicePayload {
            op: a.op,
            d_heartbeat_interval: a.d_heartbeat_interval,
            d_ssrc: a.d_ssrc,
            d_ip: a.d_ip,
            d_port: a.d_port,
            d_secret_key: key,
            d_mode: a.d_mode,
        }),
        Option::None => Option::None,
    }
}

/// Which voice-plane message a frame with the given fields means. Op 8
/// needs its interval, op 2 its SSRC, address and port (the numbers
/// taken modulo their wire width), op 4 its key bytes and mode string; a
/// frame of one of these opcodes that lacks its fields means `None` — a
/// fatal handshake error. Other opcodes are ignored messages.
pub open spec fn spec_voice_message(
    op: Option<i64>,
    heartbeat: Option<u64>,
    ssrc: Option<u64>,
    ip: Option<Seq<char>>,
    port: Option<u64>,
    key: Option<Seq<u8>>,
    mode: Option<Seq<char>>,
    r: Option<VoiceServerMessage>,
) -> bool {
    if op == Option::Some(8i64) {
        match heartbeat {
            Option::Some(i) => r matches Some(m) && (m matches VoiceServerMessage::Hello {
                heartbeat_interval,
            } && heartbeat_interval == i),
            Option::None => r is None,
        }
    } else if op == Option::Some(2i64) {
        match (ssrc, ip, port) {
            (Option::Some(sv), Option::Some(iv), Option::Some(pv)) => r matches Some(m) && (
            m matches VoiceServerMessage::Ready { ssrc: s2, ip: i2, port: p2 } && s2 == sv
                % 0x100000000 && i2@ == iv && p2 == pv % 0x10000),
            _ => r is None,
        }
    } else if op == Option::Some(4i64) {
        match (key, mode) {
            (Option::Some(kv), Option::Some(mv)) => r matches Some(m) && (
            m matches VoiceServerMessage::SessionDescription { secret_key, mode: md }
                && secret_key@ == kv && md@ == mv),
            _ => r is None,
        }
    } else {
        r matches Some(m) && m is Other
    }
}

/// Interprets the extracted voice-plane fields.
pub fn interpret_voice(raw: RawVoicePayload) -> (r: Option<VoiceServerMessage>)
    ensures
        spec_voice_message(
            raw.op,
            raw.d_heartbeat_interval,
            raw.d_ssrc,
            opt_str_view(raw.d_ip),
            raw.d_port,
            opt_bytes_view(raw.d_secret_key),
            opt_str_view(raw.d_mode),
            r,
        ),
{
    let op = match raw.op {
        Option::Some(n) => n,
        Option::None => {
            return Option::Some(VoiceServerMessage::Other);
        },
    };
    if op == 8 {
        match raw.d_heartbeat_interval {
            Option::Some(i) => Option::Some(VoiceServerMessage::Hello { heartbeat_interval: i }),
            Option::None => Option::None,
        }
    } else if op == 2 {
        match (raw.d_ssrc, raw.d_ip, raw.d_port) {
            (Option::Some(ssrc), Option::Some(ip), Option::Some(port)) => Option::Some(
                VoiceServerMessage::Ready {
                    ssrc: (ssrc % 0x100000000) as u32,
                    ip,
                    port: (port % 0x10000) as u16,
                },
            ),
            _ => Option::None,
        }
    } else if op == 4 {
        match (raw.d_secret_key, raw.d_mode) {
            (Option::Some(key), Option::Some(mode)) => Option::Some(
                VoiceServerMessage::SessionDescription { secret_key: key, mode },
            ),
            _ => Option::None,
        }
    } else {
        Option::Some(VoiceServerMessage::Other)
    }
}

/// Parses one voice-plane text frame: `None` when the text is not JSON
/// or a handshake frame lacks its fields; otherwise the message is
/// fixed by the frame's named fields.
pub fn parse_voice_message(text: &str) -> (r: Option<VoiceServerMessage>)
    ensures
        !vp_wf(text@) ==> r is None,
        vp_wf(text@) ==> spec_voice_message(
            vp_op_of(text@),
            vp_heartbeat_of(text@),
            vp_ssrc_of(text@),
            vp_ip_of(text@),
            vp_port_of(text@),
            vp_secret_key_of(text@),
            vp_mode_of(text@),
            r,
        ),
{
    match extract_voice_fields(text) {
        Option::Some(raw) => interpret_voice(raw),
        Option::None => Option::None,
    }
}

} // verus!
