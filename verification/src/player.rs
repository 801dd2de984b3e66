//! Per-guild playback state: the media-plane connection, the track
//! queue, the RTP position carried across playback sessions, and the
//! playing flag that decides when a new producer/consumer pair must be
//! spawned. The channels and tasks around it live with the caller.

use vstd::prelude::*;

use crate::connection::VoiceConnection;
use crate::control::AudioFilterState;
use crate::queue::{Track, TrackQueue};
use crate::rtp::RtpStream;

verus! {

/// Everything one guild's player owns. The RTP position persists across
/// playback sessions, so a later batch of tracks continues the same RTP
/// stream.
pub struct AudioPlayer {
    /// The negotiated media-plane connection state.
    pub conn: VoiceConnection,
    /// The pending tracks and the current slot.
    pub queue: TrackQueue,
    /// The sequence and timestamp of the next packet.
    pub rtp: RtpStream,
    /// True while a producer/consumer pair is running.
    pub is_playing: bool,
    /// The filter toggles read by the consumer.
    pub filter_state: AudioFilterState,
}

impl AudioPlayer {
    /// A fresh player around a new connection: empty queue, RTP position
    /// at zero, nothing playing, filters at their defaults.
    pub fn new(conn: VoiceConnection) -> (p: AudioPlayer)
        requires
            conn.wf(),
        ensures
            p.conn == conn,
            p.queue.pending_view() == Seq::<crate::queue::TrackView>::empty(),
            p.queue.current_view() is None,
            p.rtp.seq == 0,
            p.rtp.timestamp == 0,
            !p.is_playing,
            !p.filter_state.bass_boost,
            !p.filter_state.nightcore,
            !p.filter_state.vaporwave,
            p.filter_state.volume_hundredths == 100,
    {
        AudioPlayer {
            conn,
            queue: TrackQueue::new(),
            rtp: RtpStream { seq: 0, timestamp: 0 },
            is_playing: false,
            filter_state: AudioFilterState::default(),
        }
    }

    /// The queue, for display snapshots.
    pub fn get_queue(&self) -> (q: &TrackQueue)
        ensures
            *q == self.queue,
    {
        &self.queue
    }

    /// Appends a track and reports whether playback must start: exactly
    /// when nothing was playing. After the call the player counts as
    /// playing; when the result is true the caller spawns the
    /// producer/consumer pair.
    pub fn enqueue(&mut self, track: Track) -> (start: bool)
        ensures
            final(self).queue.pending_view() == old(self).queue.pending_view().push(track@),
            final(self).queue.current_view() == old(self).queue.current_view(),
            start == !old(self).is_playing,
            final(self).is_playing,
            final(self).conn == old(self).conn,
            final(self).rtp == old(self).rtp,
            final(self).filter_state == old(self).filter_state,
    {
        self.queue.push(track);
        let start = !self.is_playing;
        self.is_playing = true;
        start
    }

    /// Marks the playback session over: the producer/consumer pair has
    /// returned and the next enqueue starts a new one.
    pub fn playback_finished(&mut self)
        ensures
            !final(self).is_playing,
            final(self).queue == old(self).queue,
            final(self).conn == old(self).conn,
            final(self).rtp == old(self).rtp,
            final(self).filter_state == old(self).filter_state,
    {
        self.is_playing = false;
    }
}

} // verus!
