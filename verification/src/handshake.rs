//! The voice media-plane handshake: IDENTIFY, HELLO with the heartbeat
//! interval, READY with SSRC and server address, IP discovery, SELECT
//! PROTOCOL, and the session description that carries the secret key and
//! cipher mode. The caller owns the WebSocket and the UDP socket; this
//! machine decides each transition and builds each outbound payload.

use vstd::prelude::*;

use crate::crypto::{xchacha_mode_name, CipherMode, CryptoError};

verus! {

/// Where the handshake stands.
#[derive(Debug, Clone, Copy, PartialEq, Eq, Structural)]
pub enum HandshakeStage {
    /// IDENTIFY sent; waiting for op 8.
    AwaitHello,
    /// Heartbeat running; waiting for op 2.
    AwaitReady,
    /// SELECT_PROTOCOL under way; waiting for op 4.
    AwaitSessionDesc,
    /// The cipher is negotiated.
    Done,
}

/// A payload for the caller to serialize and send on the voice socket.
pub enum VoiceCommand {
    /// Op 0 with the guild, user, session and token.
    Identify { server_id: String, user_id: String, session_id: String, token: String },
    /// Op 1 choosing UDP with the discovered address and port and the
    /// XChaCha20-Poly1305 mode.
    SelectProtocol { address: Vec<u8>, port: u16, mode: String },
    /// Op 3; the caller fills in the current Unix milliseconds.
    Heartbeat,
    /// Op 5 with speaking flags 5 (microphone and priority) and delay 0.
    Speaking { ssrc: u32 },
}

/// A message of the voice control socket, already parsed from JSON.
pub enum VoiceServerMessage {
    /// Op 8 with the heartbeat interval in milliseconds.
    Hello { heartbeat_interval: u64 },
    /// Op 2 with the SSRC and the UDP address of the media server.
    Ready { ssrc: u32, ip: String, port: u16 },
    /// Op 4 with the secret key bytes and the chosen mode string.
    SessionDescription { secret_key: Vec<u8>, mode: String },
    /// Any other opcode; the handshake ignores it.
    Other,
}

/// What the caller must do after a handshake step.
pub enum HandshakeAction {
    /// Nothing; keep reading.
    Ignore,
    /// Spawn the voice heartbeat at this interval (milliseconds).
    SpawnHeartbeat { interval_ms: u64 },
    /// Bind and connect the UDP socket to this server address, run IP
    /// discovery, and send [`VoiceCommand::SelectProtocol`].
    SetupTransport { ssrc: u32, ip: String, port: u16 },
    /// The cipher is negotiated; build the connection state around it.
    Negotiated { cipher: CipherMode, mode: String },
}

/// The handshake state: the stage plus everything learned so far.
pub struct VoiceHandshake {
    /// Where the handshake stands.
    pub stage: HandshakeStage,
    /// Interval from HELLO.
    pub heartbeat_interval: Option<u64>,
    /// SSRC from READY.
    pub ssrc: Option<u32>,
}

/// Starts a handshake: the caller sends the returned IDENTIFY first.
pub fn begin_handshake(
    server_id: String,
    user_id: String,
    session_id: String,
    token: String,
) -> (r: (VoiceHandshake, VoiceCommand))
    ensures
        r.0.stage == HandshakeStage::AwaitHello,
        r.0.heartbeat_interval is None,
        r.0.ssrc is None,
        r.1 matches VoiceCommand::Identify { server_id: s, user_id: u, session_id: i, token: t }
            && s@ == server_id@ && u@ == user_id@ && i@ == session_id@ && t@ == token@,
{
    (
        VoiceHandshake {
            stage: HandshakeStage::AwaitHello,
            heartbeat_interval: Option::None,
            ssrc: Option::None,
        },
        VoiceCommand::Identify { server_id, user_id, session_id, token },
    )
}

/// Builds the SELECT_PROTOCOL payload from the discovered external
/// address and port; the mode is always the XChaCha20-Poly1305 name.
pub fn select_protocol(address: Vec<u8>, port: u16) -> (c: VoiceCommand)
    ensures
        c matches VoiceCommand::SelectProtocol { address: a, port: p, mode } && a@ == address@ && p
            == port && mode@ == xchacha_mode_name(),
{
    VoiceCommand::SelectProtocol {
        address,
        port,
        mode: "aead_xchacha20_poly1305_rtpsize".to_owned(),
    }
}

/// Builds the SPEAKING payload sent once before emission begins.
pub fn speaking(ssrc: u32) -> (c: VoiceCommand)
    ensures
        c matches VoiceCommand::Speaking { ssrc: s } && s == ssrc,
{
    VoiceCommand::Speaking { ssrc }
}

/// Handles one parsed voice message. Each stage consumes exactly its
/// expected opcode and ignores every other message; the session
/// description builds the cipher, and a bad key or mode there is the
/// fatal end of the handshake.
pub fn handshake_step(hs: &mut VoiceHandshake, msg: VoiceServerMessage) -> (r: Result<
    HandshakeAction,
    CryptoError,
>)
    ensures
        match msg {
            VoiceServerMessage::Hello { heartbeat_interval } => {
                &&& old(hs).stage == HandshakeStage::AwaitHello ==> {
                    &&& final(hs).stage == HandshakeStage::AwaitReady
                    &&& final(hs).heartbeat_interval == Option::Some(heartbeat_interval)
                    &&& final(hs).ssrc == old(hs).ssrc
                    &&& r matches Ok(HandshakeAction::SpawnHeartbeat { interval_ms })
                        && interval_ms == heartbeat_interval
                }
                &&& old(hs).stage != HandshakeStage::AwaitHello ==> *final(hs) == *old(hs) && (
                r matches Ok(a) && a is Ignore)
            },
            VoiceServerMessage::Ready { ssrc, ip, port } => {
                &&& old(hs).stage == HandshakeStage::AwaitReady ==> {
                    &&& final(hs).stage == HandshakeStage::AwaitSessionDesc
                    &&& final(hs).ssrc == Option::Some(ssrc)
                    &&& final(hs).heartbeat_interval == old(hs).heartbeat_interval
                    &&& r matches Ok(HandshakeAction::SetupTransport { ssrc: s, ip: i, port: p })
                        && s == ssrc && i@ == ip@ && p == port
                }
                &&& old(hs).stage != HandshakeStage::AwaitReady ==> *final(hs) == *old(hs) && (
                r matches Ok(a) && a is Ignore)
            },
            VoiceServerMessage::SessionDescription { secret_key, mode } => {
                &&& old(hs).stage == HandshakeStage::AwaitSessionDesc ==> {
                    &&& secret_key@.len() == 32 && (mode@ == crate::crypto::aes_mode_name()
                        || mode@ == xchacha_mode_name()) ==> {
                        &&& final(hs).stage == HandshakeStage::Done
                        &&& r matches Ok(HandshakeAction::Negotiated { cipher, mode: m }) && m@
                            == mode@ && cipher.wf() && cipher.key_view() == secret_key@
                    }
                    &&& secret_key@.len() != 32 ==> r == Result::<
                        HandshakeAction,
                        CryptoError,
                    >::Err(CryptoError::KeyLength)
                    &&& secret_key@.len() == 32 && mode@ != crate::crypto::aes_mode_name() && mode@
                        != xchacha_mode_name() ==> r == Result::<HandshakeAction, CryptoError>::Err(
                        CryptoError::UnsupportedMode,
                    )
                }
                &&& old(hs).stage != HandshakeStage::AwaitSessionDesc ==> *final(hs) == *old(hs)
                    && (r matches Ok(a) && a is Ignore)
            },
            VoiceServerMessage::Other => *final(hs) == *old(hs) && (r matches Ok(a) && a is Ignore),
        },
{
    match msg {
        VoiceServerMessage::Hello { heartbeat_interval } => {
            if hs.stage == HandshakeStage::AwaitHello {
                hs.stage = HandshakeStage::AwaitReady;
                hs.heartbeat_interval = Option::Some(heartbeat_interval);
                Ok(HandshakeAction::SpawnHeartbeat { interval_ms: heartbeat_interval })
            } else {
                Ok(HandshakeAction::Ignore)
            }
        },
        VoiceServerMessage::Ready { ssrc, ip, port } => {
            if hs.stage == HandshakeStage::AwaitReady {
                hs.stage = HandshakeStage::AwaitSessionDesc;
                hs.ssrc = Option::Some(ssrc);
                Ok(HandshakeAction::SetupTransport { ssrc, ip, port })
            } else {
                Ok(HandshakeAction::Ignore)
            }
        },
        VoiceServerMessage::SessionDescription { secret_key, mode } => {
            if hs.stage == HandshakeStage::AwaitSessionDesc {
                match CipherMode::from_secret_and_mode(secret_key.as_slice(), mode.as_str()) {
                    Ok(cipher) => {
                        hs.stage = HandshakeStage::Done;
                        Ok(HandshakeAction::Negotiated { cipher, mode })
                    },
                    Err(e) => Err(e),
                }
            } else {
                Ok(HandshakeAction::Ignore)
            }
        },
        VoiceServerMessage::Other => Ok(HandshakeAction::Ignore),
    }
}

} // verus!
