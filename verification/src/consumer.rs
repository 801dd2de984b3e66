//! The audio consumer's per-frame work: apply drained filter commands,
//! then turn one Opus-encoded payload into the next encrypted RTP
//! datagram, stepping the sequence, the timestamp and the AEAD counter
//! together. The caller paces these calls on the 20 ms tick, runs the
//! Opus encoder and sends the datagram on the socket.

use vstd::prelude::*;

use crate::connection::VoiceConnection;
use crate::rtp::{build_voice_packet, spec_voice_packet, RtpStream};

verus! {

/// Builds the next voice datagram: takes the connection's next counter
/// value, encrypts the payload against the current RTP header, and steps
/// the sequence and timestamp for the following packet.
pub fn consumer_emit(conn: &mut VoiceConnection, rtp: &mut RtpStream, opus_payload: &[u8]) -> (p:
    Vec<u8>)
    requires
        old(conn).wf(),
        old(conn).counter_view() < u32::MAX,
        opus_payload@.len() <= 0x100000,
    ensures
        final(conn).wf(),
        p@ == spec_voice_packet(
            old(conn).cipher,
            old(rtp).seq,
            old(rtp).timestamp,
            old(conn).ssrc,
            opus_payload@,
            (old(conn).counter_view() + 1) as u32,
        ),
        p@.len() == opus_payload@.len() + 32,
        final(conn).counter_view() == old(conn).counter_view() + 1,
        final(conn).history_view() == old(conn).history_view().push(
            (old(conn).counter_view() + 1) as u32,
        ),
        final(conn).cipher == old(conn).cipher,
        final(conn).ssrc == old(conn).ssrc,
        final(conn).mode == old(conn).mode,
        final(rtp).seq == (old(rtp).seq + 1) % 0x10000,
        final(rtp).timestamp == (old(rtp).timestamp + 960) % 0x100000000,
{
    let counter = conn.next_counter();
    let packet = build_voice_packet(
        &conn.cipher,
        rtp.seq,
        rtp.timestamp,
        conn.ssrc,
        opus_payload,
        counter,
    );
    rtp.advance();
    packet
}

} // verus!
