//! Core logic of a voice-bot audio pipeline: control-plane session state,
//! voice handshake, RTP framing, AEAD packet encryption, IP discovery,
//! track queueing, crossfade mixing, and the producer/consumer state
//! machines that drive 20 ms voice frames to the wire.
//!
//! All I/O (WebSockets, UDP, subprocesses, timers) lives outside this
//! library; the functions here compute plans, packets and state
//! transitions from plain values.

pub mod api;
pub mod bytes;
pub mod connection;
pub mod consumer;
pub mod control;
pub mod crypto;
pub mod discovery;
pub mod fetch;
pub mod gateway;
pub mod handshake;
pub mod jsonio;
pub mod metadata;
pub mod mix;
pub mod player;
pub mod producer;
pub mod queue;
pub mod rtp;

use vstd::prelude::*;

verus! {

/// Bytes in one 20 ms frame of 48 kHz interleaved stereo s16le PCM.
pub const FRAME_SIZE: usize = 3840;

/// Interleaved i16 samples in one 20 ms frame (960 stereo sample pairs).
pub const SAMPLES_PER_FRAME: usize = 1920;

/// Milliseconds of audio per frame.
pub const FRAME_MS: u64 = 20;

/// RTP timestamp increment per frame (48 kHz * 20 ms).
pub const TIMESTAMP_STEP: u32 = 960;

/// Length of the crossfade window in milliseconds.
pub const FADE_MS: u64 = 8000;

/// Capacity of the producer-to-consumer frame channel (about 2 s).
pub const BUFFER_FRAMES: usize = 100;

/// Backoff when the decoder lives but has no bytes ready.
pub const DECODER_BACKOFF_MS: u64 = 50;

/// Upper bound of one Opus-encoded frame on the wire.
pub const OPUS_BUFFER_SIZE: usize = 1000;

} // verus!
