//! RTP framing: the fixed 12-byte header, the per-packet sequence and
//! timestamp stepping, and the assembly of one encrypted voice datagram.

use vstd::prelude::*;

use crate::TIMESTAMP_STEP;
use crate::bytes::{push_u16_be, push_u32_be, spec_u16_be, spec_u32_be};
use crate::crypto::CipherMode;

verus! {

/// First header byte: RTP version 2.
pub const RTP_VERSION: u8 = 0x80;

/// Second header byte: payload type 120.
pub const RTP_PAYLOAD_TYPE: u8 = 0x78;

/// The 12 header bytes: version, payload type, then sequence, timestamp
/// and SSRC, each big-endian.
pub open spec fn spec_rtp_header(seq: u16, timestamp: u32, ssrc: u32) -> Seq<u8> {
    seq![RTP_VERSION, RTP_PAYLOAD_TYPE] + spec_u16_be(seq) + spec_u32_be(timestamp) + spec_u32_be(
        ssrc,
    )
}

/// Builds the 12-byte RTP header.
pub fn build_rtp_header(seq: u16, timestamp: u32, ssrc: u32) -> (h: Vec<u8>)
    ensures
        h@ == spec_rtp_header(seq, timestamp, ssrc),
        h@.len() == 12,
{
    let mut h: Vec<u8> = Vec::new();
    h.push(RTP_VERSION);
    h.push(RTP_PAYLOAD_TYPE);
    push_u16_be(&mut h, seq);
    push_u32_be(&mut h, timestamp);
    push_u32_be(&mut h, ssrc);
    assert(h@ =~= spec_rtp_header(seq, timestamp, ssrc));
    h
}

/// One full voice datagram: the RTP header followed by the encrypted body
/// (ciphertext, tag and big-endian counter) that uses the same header as
/// associated data.
pub open spec fn spec_voice_packet(
    cipher: CipherMode,
    seq: u16,
    timestamp: u32,
    ssrc: u32,
    payload: Seq<u8>,
    counter: u32,
) -> Seq<u8> {
    spec_rtp_header(seq, timestamp, ssrc) + cipher.spec_encrypt_packet(
        spec_rtp_header(seq, timestamp, ssrc),
        payload,
        counter,
    )
}

/// Assembles one encrypted voice datagram from an already Opus-encoded
/// payload: builds the header, encrypts under the counter's nonce with the
/// header as associated data, and concatenates the two.
pub fn build_voice_packet(
    cipher: &CipherMode,
    seq: u16,
    timestamp: u32,
    ssrc: u32,
    opus_payload: &[u8],
    counter: u32,
) -> (p: Vec<u8>)
    requires
        cipher.wf(),
        opus_payload@.len() <= 0x100000,
    ensures
        p@ == spec_voice_packet(*cipher, seq, timestamp, ssrc, opus_payload@, counter),
        p@.len() == opus_payload@.len() + 32,
{
    let header = build_rtp_header(seq, timestamp, ssrc);
    let body = cipher.encrypt_packet(header.as_slice(), opus_payload, counter);
    let mut p = header;
    let mut i: usize = 0;
    while i < body.len()
        invariant
            i <= body@.len(),
            p@ == spec_rtp_header(seq, timestamp, ssrc) + body@.subrange(0, i as int),
        decreases body@.len() - i,
    {
        p.push(body[i]);
        assert(p@ =~= spec_rtp_header(seq, timestamp, ssrc) + body@.subrange(0, i + 1));
        i = i + 1;
    }
    assert(body@.subrange(0, body@.len() as int) =~= body@);
    p
}

/// The per-consumer RTP position: sequence and timestamp of the next
/// packet, both wrapping.
pub struct RtpStream {
    pub seq: u16,
    pub timestamp: u32,
}

impl RtpStream {
    /// Steps to the next packet: sequence up by one modulo 2^16,
    /// timestamp up by 960 modulo 2^32.
    pub fn advance(&mut self)
        ensures
            final(self).seq == (old(self).seq + 1) % 0x10000,
            final(self).timestamp == (old(self).timestamp + TIMESTAMP_STEP) % 0x100000000,
    {
        self.seq = self.seq.wrapping_add(1);
        self.timestamp = self.timestamp.wrapping_add(TIMESTAMP_STEP);
    }
}

/// The sequence number of the `n`-th packet after a start value.
pub open spec fn spec_seq_after(s0: u16, n: nat) -> u16 {
    ((s0 + n) % 0x10000) as u16
}

/// The timestamp of the `n`-th packet after a start value.
pub open spec fn spec_ts_after(t0: u32, n: nat) -> u32 {
    ((t0 + 960 * n) % 0x100000000) as u32
}

/// One packet's step applied to a stream position, as
/// [`RtpStream::advance`] performs it.
pub open spec fn spec_rtp_step(p: (u16, u32)) -> (u16, u32) {
    (((p.0 + 1) % 0x10000) as u16, ((p.1 + 960) % 0x100000000) as u32)
}

/// The stream position after `n` single-packet steps from a start.
pub open spec fn spec_rtp_run(s0: u16, t0: u32, n: nat) -> (u16, u32)
    decreases n,
{
    if n == 0 {
        (s0, t0)
    } else {
        spec_rtp_step(spec_rtp_run(s0, t0, (n - 1) as nat))
    }
}

/// The stream never resets: after `n` emitted packets — in one playback
/// session or across several that carry the position over — the sequence
/// stands at exactly `(s0 + n) mod 2^16` and the timestamp at
/// `(t0 + 960·n) mod 2^32`, so the next packet continues the same RTP
/// stream.
pub proof fn lemma_rtp_run_closed(s0: u16, t0: u32, n: nat)
    ensures
        spec_rtp_run(s0, t0, n) == (spec_seq_after(s0, n), spec_ts_after(t0, n)),
    decreases n,
{
    if n == 0 {
        lemma_rtp_stream_steps(s0, t0, 0);
    } else {
        lemma_rtp_run_closed(s0, t0, (n - 1) as nat);
        lemma_rtp_stream_steps(s0, t0, (n - 1) as nat);
    }
}

/// RTP emission order: packet `n + 1` carries a sequence exactly one above
/// packet `n` modulo 2^16 and a timestamp exactly 960 above packet `n`
/// modulo 2^32 — the strict per-packet increments of the stream.
pub proof fn lemma_rtp_stream_steps(s0: u16, t0: u32, n: nat)
    ensures
        spec_seq_after(s0, n + 1) == (spec_seq_after(s0, n) + 1) % 0x10000,
        spec_ts_after(t0, n + 1) == (spec_ts_after(t0, n) + 960) % 0x100000000,
        spec_seq_after(s0, 0) == s0,
        spec_ts_after(t0, 0) == t0,
{
    vstd::arithmetic::div_mod::lemma_add_mod_noop(s0 + n, 1, 0x10000);
    vstd::arithmetic::div_mod::lemma_mod_twice((s0 + n) as int, 0x10000);
    assert(960 * (n + 1) == 960 * n + 960) by (nonlinear_arith);
    vstd::arithmetic::div_mod::lemma_add_mod_noop(t0 + 960 * n, 960, 0x100000000);
    vstd::arithmetic::div_mod::lemma_mod_twice((t0 + 960 * n) as int, 0x100000000);
    vstd::arithmetic::div_mod::lemma_small_mod(s0 as nat, 0x10000);
    vstd::arithmetic::div_mod::lemma_small_mod(t0 as nat, 0x100000000);
}

} // verus!
