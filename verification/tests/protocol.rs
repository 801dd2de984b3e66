//! Wire-format and session-protocol behaviour: byte codecs, AEAD packet
//! round trips, RTP header layout, IP discovery, gateway resume rules,
//! the voice handshake, JSON frame parsing, and fetch-range planning.

use voicebot::api::DiscordVoiceApi;
use voicebot::bytes::{i16_from_le_pair, u16_from_be_bytes, u32_from_be_bytes};
use voicebot::connection::VoiceConnection;
use voicebot::consumer::consumer_emit;
use voicebot::crypto::{CipherMode, CryptoError};
use voicebot::discovery::{build_discovery_probe, parse_discovery_reply, DiscoveryError};
use voicebot::fetch::{next_range, retry_backoff_ms, total_from_head, FetchError};
use voicebot::gateway::{
    ConnectPlan, CycleEnd, DispatchEvent, Gateway, GatewayCommand, GatewayDisposition,
    GatewayServerMessage, VoiceInfo, VoiceInfoEvent,
};
use voicebot::handshake::{
    begin_handshake, handshake_step, select_protocol, speaking, HandshakeAction, HandshakeStage,
    VoiceCommand, VoiceServerMessage,
};
use voicebot::jsonio::{extract_voice_info_event, parse_gateway_message, parse_voice_message,
    ready_user_id};
use voicebot::metadata::is_playlist_url;
use voicebot::player::AudioPlayer;
use voicebot::rtp::{build_rtp_header, RtpStream};

const AES_MODE: &str = "aead_aes256_gcm_rtpsize";
const XCHACHA_MODE: &str = "aead_xchacha20_poly1305_rtpsize";

fn test_key() -> Vec<u8> {
    (0u8..32u8).collect()
}

#[test]
fn be_codecs_round_trip() {
    assert_eq!(u16_from_be_bytes(&[0x12, 0x34]), 0x1234);
    assert_eq!(u32_from_be_bytes(&[0x01, 0x02, 0x03, 0x04]), 0x01020304);
    assert_eq!(i16_from_le_pair(0x34, 0x12), 0x1234);
    assert_eq!(i16_from_le_pair(0xff, 0xff), -1);
    assert_eq!(i16_from_le_pair(0x00, 0x80), i16::MIN);
}

#[test]
fn cipher_rejects_bad_key_length() {
    let r = CipherMode::from_secret_and_mode(&[0u8; 31], AES_MODE);
    assert!(matches!(r, Err(CryptoError::KeyLength)));
}

#[test]
fn cipher_rejects_unknown_mode() {
    let r = CipherMode::from_secret_and_mode(&[0u8; 32], "xsalsa20_poly1305");
    assert!(matches!(r, Err(CryptoError::UnsupportedMode)));
}

#[test]
fn aes_packet_round_trip() {
    let cipher = CipherMode::from_secret_and_mode(&test_key(), AES_MODE).unwrap();
    let header = build_rtp_header(7, 960, 0xdeadbeef);
    let payload: Vec<u8> = vec![1, 2, 3, 4, 5, 6, 7, 8];
    let body = cipher.encrypt_packet(&header, &payload, 42);
    assert_eq!(body.len(), payload.len() + 20);
    // The body ends with the counter, big-endian.
    assert_eq!(&body[body.len() - 4..], &[0, 0, 0, 42]);
    let opened = cipher.decrypt_packet(&header, &body).unwrap();
    assert_eq!(opened.0, payload);
    assert_eq!(opened.1, 42);
}

#[test]
fn xchacha_packet_round_trip() {
    let cipher = CipherMode::from_secret_and_mode(&test_key(), XCHACHA_MODE).unwrap();
    let header = build_rtp_header(1, 0, 5);
    let payload: Vec<u8> = vec![9; 100];
    let body = cipher.encrypt_packet(&header, &payload, 1);
    let opened = cipher.decrypt_packet(&header, &body).unwrap();
    assert_eq!(opened.0, payload);
    assert_eq!(opened.1, 1);
}

#[test]
fn tampered_packet_is_rejected() {
    let cipher = CipherMode::from_secret_and_mode(&test_key(), XCHACHA_MODE).unwrap();
    let header = build_rtp_header(1, 0, 5);
    let mut body = cipher.encrypt_packet(&header, &[1, 2, 3], 9);
    body[0] ^= 0x40;
    assert!(cipher.decrypt_packet(&header, &body).is_none());
}

#[test]
fn rtp_header_layout() {
    let h = build_rtp_header(0x0102, 0x03040506, 0x0708090a);
    assert_eq!(
        h,
        vec![0x80, 0x78, 0x01, 0x02, 0x03, 0x04, 0x05, 0x06, 0x07, 0x08, 0x09, 0x0a]
    );
}

#[test]
fn rtp_stream_wraps() {
    let mut s = RtpStream { seq: u16::MAX, timestamp: u32::MAX - 100 };
    s.advance();
    assert_eq!(s.seq, 0);
    assert_eq!(s.timestamp, 859);
}

#[test]
fn consumer_packets_step_seq_ts_and_counter() {
    let cipher = CipherMode::from_secret_and_mode(&test_key(), XCHACHA_MODE).unwrap();
    let mut conn = VoiceConnection::new(0x11223344, XCHACHA_MODE.to_owned(), cipher);
    let check = CipherMode::from_secret_and_mode(&test_key(), XCHACHA_MODE).unwrap();
    let mut rtp = RtpStream { seq: 0, timestamp: 0 };
    let payload: Vec<u8> = vec![0xAB; 50];
    for n in 0u32..3 {
        let packet = consumer_emit(&mut conn, &mut rtp, &payload);
        // Header carries the pre-step sequence and timestamp.
        assert_eq!(u16_from_be_bytes(&packet[2..4]) as u32, n);
        assert_eq!(u32_from_be_bytes(&packet[4..8]), n * 960);
        assert_eq!(u32_from_be_bytes(&packet[8..12]), 0x11223344);
        // The AEAD counters on the wire are 1, 2, 3, …
        let opened = check.decrypt_packet(&packet[..12], &packet[12..]).unwrap();
        assert_eq!(opened.0, payload);
        assert_eq!(opened.1, n + 1);
    }
    assert_eq!(rtp.seq, 3);
    assert_eq!(rtp.timestamp, 2880);
}

#[test]
fn discovery_probe_layout() {
    let p = build_discovery_probe(0x01020304);
    assert_eq!(p.len(), 74);
    assert_eq!(&p[0..8], &[0, 1, 0, 70, 1, 2, 3, 4]);
    assert!(p[8..].iter().all(|&b| b == 0));
}

#[test]
fn discovery_reply_round_trip() {
    let mut reply = vec![0u8; 74];
    let addr = b"203.0.113.7";
    reply[8..8 + addr.len()].copy_from_slice(addr);
    reply[72] = 0x1f;
    reply[73] = 0x90;
    let (got_addr, got_port) = parse_discovery_reply(&reply).unwrap();
    assert_eq!(got_addr, addr.to_vec());
    assert_eq!(got_port, 8080);
}

#[test]
fn discovery_short_reply_is_error() {
    let reply = vec![0u8; 73];
    assert_eq!(
        parse_discovery_reply(&reply),
        Err(DiscoveryError::ReplyTooShort)
    );
}

#[test]
fn discovery_non_ascii_address_is_error() {
    let mut reply = vec![0u8; 74];
    reply[8] = b'1';
    reply[9] = 0xc3;
    reply[10] = 0xa9;
    assert_eq!(
        parse_discovery_reply(&reply),
        Err(DiscoveryError::AddressNotAscii)
    );
}

fn ready_dispatch(seq: i64, sid: &str, url: &str) -> GatewayServerMessage {
    GatewayServerMessage::Dispatch {
        seq: Some(seq),
        event: DispatchEvent::Ready {
            session_id: Some(sid.to_owned()),
            resume_gateway_url: Some(url.to_owned()),
        },
    }
}

#[test]
fn resume_after_gateway_close() {
    let mut g = Gateway::new();
    let d = g.handle_message(GatewayServerMessage::Hello { heartbeat_interval: Some(41250) });
    assert!(matches!(
        d,
        GatewayDisposition::Continue { forward: true, spawn_heartbeat: Some(41250) }
    ));
    g.handle_message(ready_dispatch(1, "sess-1", "wss://resume.example"));
    g.handle_message(GatewayServerMessage::Dispatch {
        seq: Some(5),
        event: DispatchEvent::Other,
    });
    // The socket closes; the next cycle must RESUME with the stored values.
    let ConnectPlan { url, auth } = g.connect_plan("tok");
    assert_eq!(url, "wss://resume.example?v=10&encoding=json");
    match auth {
        GatewayCommand::Resume { token, session_id, seq } => {
            assert_eq!(token, "tok");
            assert_eq!(session_id, "sess-1");
            assert_eq!(seq, 5);
        }
        _ => panic!("expected RESUME"),
    }
}

#[test]
fn invalid_session_non_resumable_clears_session() {
    let mut g = Gateway::new();
    g.handle_message(ready_dispatch(1, "sess-1", "wss://resume.example"));
    let d = g.handle_message(GatewayServerMessage::InvalidSession { resumable: false });
    assert!(matches!(
        d,
        GatewayDisposition::EndCycle { reason: CycleEnd::InvalidNoResume }
    ));
    assert!(g.session_id.is_none());
    let ConnectPlan { url, auth } = g.connect_plan("tok");
    assert_eq!(url, "wss://gateway.discord.gg/?v=10&encoding=json");
    assert!(matches!(auth, GatewayCommand::Identify { .. }));
}

#[test]
fn invalid_session_resumable_keeps_session() {
    let mut g = Gateway::new();
    g.handle_message(ready_dispatch(3, "sess-9", "wss://r.example"));
    let d = g.handle_message(GatewayServerMessage::InvalidSession { resumable: true });
    assert!(matches!(
        d,
        GatewayDisposition::EndCycle { reason: CycleEnd::InvalidResumable }
    ));
    assert_eq!(g.session_id.as_deref(), Some("sess-9"));
    assert!(matches!(
        g.connect_plan("t").auth,
        GatewayCommand::Resume { .. }
    ));
}

#[test]
fn heartbeat_carries_last_seq() {
    let mut g = Gateway::new();
    assert!(matches!(
        g.heartbeat(),
        GatewayCommand::Heartbeat { last_seq: None }
    ));
    g.handle_message(GatewayServerMessage::Dispatch { seq: Some(17), event: DispatchEvent::Other });
    assert!(matches!(
        g.heartbeat(),
        GatewayCommand::Heartbeat { last_seq: Some(17) }
    ));
}

#[test]
fn voice_info_collects_for_watched_guild_only() {
    let mut v = VoiceInfo::new();
    v.observe(
        "42",
        VoiceInfoEvent::VoiceState { guild_id: "7".to_owned(), session_id: Some("x".to_owned()) },
    );
    assert!(v.session_id.is_none());
    v.observe(
        "42",
        VoiceInfoEvent::VoiceState { guild_id: "42".to_owned(), session_id: Some("vs".to_owned()) },
    );
    v.observe(
        "42",
        VoiceInfoEvent::VoiceServer {
            guild_id: "42".to_owned(),
            token: Some("vt".to_owned()),
            endpoint: Some("host:443".to_owned()),
        },
    );
    assert_eq!(v.session_id.as_deref(), Some("vs"));
    assert_eq!(v.token.as_deref(), Some("vt"));
    assert_eq!(v.endpoint.as_deref(), Some("host:443"));
}

#[test]
fn handshake_runs_in_order() {
    let (mut hs, identify) = begin_handshake(
        "guild".to_owned(),
        "user".to_owned(),
        "sess".to_owned(),
        "tok".to_owned(),
    );
    match identify {
        VoiceCommand::Identify { server_id, user_id, session_id, token } => {
            assert_eq!(server_id, "guild");
            assert_eq!(user_id, "user");
            assert_eq!(session_id, "sess");
            assert_eq!(token, "tok");
        }
        _ => panic!("expected identify"),
    }
    // A READY before HELLO is ignored.
    let r = handshake_step(
        &mut hs,
        VoiceServerMessage::Ready { ssrc: 1, ip: "x".to_owned(), port: 1 },
    );
    assert!(matches!(r, Ok(HandshakeAction::Ignore)));
    assert_eq!(hs.stage, HandshakeStage::AwaitHello);

    let r = handshake_step(&mut hs, VoiceServerMessage::Hello { heartbeat_interval: 13750 });
    assert!(matches!(r, Ok(HandshakeAction::SpawnHeartbeat { interval_ms: 13750 })));

    let r = handshake_step(
        &mut hs,
        VoiceServerMessage::Ready { ssrc: 99, ip: "198.51.100.2".to_owned(), port: 50000 },
    );
    match r {
        Ok(HandshakeAction::SetupTransport { ssrc, ip, port }) => {
            assert_eq!(ssrc, 99);
            assert_eq!(ip, "198.51.100.2");
            assert_eq!(port, 50000);
        }
        _ => panic!("expected transport setup"),
    }

    let r = handshake_step(
        &mut hs,
        VoiceServerMessage::SessionDescription {
            secret_key: test_key(),
            mode: XCHACHA_MODE.to_owned(),
        },
    );
    match r {
        Ok(HandshakeAction::Negotiated { cipher: _, mode }) => assert_eq!(mode, XCHACHA_MODE),
        _ => panic!("expected negotiated cipher"),
    }
    assert_eq!(hs.stage, HandshakeStage::Done);
}

#[test]
fn handshake_bad_key_is_fatal() {
    let (mut hs, _) = begin_handshake(
        "g".to_owned(),
        "u".to_owned(),
        "s".to_owned(),
        "t".to_owned(),
    );
    handshake_step(&mut hs, VoiceServerMessage::Hello { heartbeat_interval: 1 }).unwrap();
    handshake_step(
        &mut hs,
        VoiceServerMessage::Ready { ssrc: 1, ip: "a".to_owned(), port: 2 },
    )
    .unwrap();
    let r = handshake_step(
        &mut hs,
        VoiceServerMessage::SessionDescription {
            secret_key: vec![0; 16],
            mode: XCHACHA_MODE.to_owned(),
        },
    );
    assert!(matches!(r, Err(CryptoError::KeyLength)));
}

#[test]
fn select_protocol_and_speaking_payloads() {
    let c = select_protocol(b"192.0.2.1".to_vec(), 4444);
    match c {
        VoiceCommand::SelectProtocol { address, port, mode } => {
            assert_eq!(address, b"192.0.2.1".to_vec());
            assert_eq!(port, 4444);
            assert_eq!(mode, XCHACHA_MODE);
        }
        _ => panic!("expected select protocol"),
    }
    assert!(matches!(speaking(31), VoiceCommand::Speaking { ssrc: 31 }));
}

#[test]
fn gateway_json_frames_parse() {
    let hello = parse_gateway_message(r#"{"op":10,"d":{"heartbeat_interval":41250}}"#).unwrap();
    assert!(matches!(
        hello,
        GatewayServerMessage::Hello { heartbeat_interval: Some(41250) }
    ));

    let ready = parse_gateway_message(
        r#"{"op":0,"s":1,"t":"READY","d":{"session_id":"abc","resume_gateway_url":"wss://r"}}"#,
    )
    .unwrap();
    match ready {
        GatewayServerMessage::Dispatch { seq, event } => {
            assert_eq!(seq, Some(1));
            match event {
                DispatchEvent::Ready { session_id, resume_gateway_url } => {
                    assert_eq!(session_id.as_deref(), Some("abc"));
                    assert_eq!(resume_gateway_url.as_deref(), Some("wss://r"));
                }
                _ => panic!("expected READY"),
            }
        }
        _ => panic!("expected dispatch"),
    }

    let invalid = parse_gateway_message(r#"{"op":9,"d":false}"#).unwrap();
    assert!(matches!(
        invalid,
        GatewayServerMessage::InvalidSession { resumable: false }
    ));
    assert!(matches!(
        parse_gateway_message(r#"{"op":7,"d":null}"#).unwrap(),
        GatewayServerMessage::Reconnect
    ));
    assert!(parse_gateway_message("not json").is_none());
}

#[test]
fn voice_json_frames_parse() {
    let hello = parse_voice_message(r#"{"op":8,"d":{"heartbeat_interval":13750}}"#).unwrap();
    assert!(matches!(
        hello,
        VoiceServerMessage::Hello { heartbeat_interval: 13750 }
    ));

    let ready =
        parse_voice_message(r#"{"op":2,"d":{"ssrc":77,"ip":"203.0.113.9","port":50001}}"#).unwrap();
    match ready {
        VoiceServerMessage::Ready { ssrc, ip, port } => {
            assert_eq!(ssrc, 77);
            assert_eq!(ip, "203.0.113.9");
            assert_eq!(port, 50001);
        }
        _ => panic!("expected ready"),
    }

    let mut key_json = String::from(r#"{"op":4,"d":{"mode":"aead_xchacha20_poly1305_rtpsize","secret_key":["#);
    for i in 0..32 {
        if i > 0 {
            key_json.push(',');
        }
        key_json.push_str(&i.to_string());
    }
    key_json.push_str("]}}");
    let secret = parse_voice_message(&key_json).unwrap();
    match secret {
        VoiceServerMessage::SessionDescription { secret_key, mode } => {
            assert_eq!(secret_key, test_key());
            assert!(CipherMode::from_secret_and_mode(&secret_key, &mode).is_ok());
        }
        _ => panic!("expected session description"),
    }

    // A READY missing its fields is a fatal parse failure.
    assert!(parse_voice_message(r#"{"op":2,"d":{"ssrc":77}}"#).is_none());
}

#[test]
fn ready_frame_carries_the_bot_id() {
    let frame = r#"{"op":0,"s":1,"t":"READY","d":{"user":{"id":"999"},"session_id":"abc"}}"#;
    assert_eq!(ready_user_id(frame).as_deref(), Some("999"));
    assert!(ready_user_id(r#"{"op":0,"t":"READY","d":{}}"#).is_none());
    assert!(ready_user_id("not json").is_none());
}

#[test]
fn voice_info_frames_parse() {
    let vs = r#"{"op":0,"t":"VOICE_STATE_UPDATE","d":{"guild_id":"42","session_id":"vs"}}"#;
    match extract_voice_info_event(vs) {
        VoiceInfoEvent::VoiceState { guild_id, session_id } => {
            assert_eq!(guild_id, "42");
            assert_eq!(session_id.as_deref(), Some("vs"));
        }
        _ => panic!("expected voice state"),
    }
    let sv =
        r#"{"op":0,"t":"VOICE_SERVER_UPDATE","d":{"guild_id":"42","token":"vt","endpoint":"h:443"}}"#;
    match extract_voice_info_event(sv) {
        VoiceInfoEvent::VoiceServer { guild_id, token, endpoint } => {
            assert_eq!(guild_id, "42");
            assert_eq!(token.as_deref(), Some("vt"));
            assert_eq!(endpoint.as_deref(), Some("h:443"));
        }
        _ => panic!("expected voice server"),
    }
    assert!(matches!(
        extract_voice_info_event(r#"{"op":0,"t":"GUILD_CREATE","d":{"guild_id":"42"}}"#),
        VoiceInfoEvent::Other
    ));
    assert!(matches!(
        extract_voice_info_event("not json"),
        VoiceInfoEvent::Other
    ));
}

#[test]
fn fetch_ranges_cover_the_stream() {
    assert_eq!(next_range(0, 1_000_000), Some((0, 262_143)));
    assert_eq!(next_range(262_144, 1_000_000), Some((262_144, 524_287)));
    assert_eq!(next_range(786_432, 1_000_000), Some((786_432, 999_999)));
    assert_eq!(next_range(1_000_000, 1_000_000), None);
    assert_eq!(next_range(0, 0), None);
    assert_eq!(total_from_head(Some(5)), 5);
    assert_eq!(total_from_head(None), 0);
    assert_eq!(retry_backoff_ms(FetchError::Chunk), 1000);
    assert_eq!(retry_backoff_ms(FetchError::Request), 2000);
}

#[test]
fn playlist_urls_are_detected() {
    assert!(is_playlist_url(
        "https://www.youtube.com/watch?v=abc&list=PL123"
    ));
    assert!(is_playlist_url("list="));
    assert!(!is_playlist_url("https://www.youtube.com/watch?v=abc"));
    assert!(!is_playlist_url("list"));
    assert!(!is_playlist_url(""));
}

#[test]
fn facade_maps_guilds_to_players() {
    let cipher = CipherMode::from_secret_and_mode(&test_key(), XCHACHA_MODE).unwrap();
    let conn = VoiceConnection::new(5, XCHACHA_MODE.to_owned(), cipher);
    let mut api = DiscordVoiceApi::new();
    assert!(!api.has_player(42));
    assert!(api.get_player(42).is_none());
    api.insert_player(42, AudioPlayer::new(conn));
    assert!(api.has_player(42));
    assert_eq!(api.get_player(42).unwrap().conn.ssrc, 5);
}
