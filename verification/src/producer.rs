//! The audio producer's decisions: which track to start, when a track has
//! ended, when to begin and finish a crossfade, and what each emitted
//! 20 ms frame holds. The caller runs the loop around these functions —
//! it spawns and kills decoder processes, reads their output and sends
//! the frames on the channel; every decision and every sample value is
//! computed here.

use vstd::prelude::*;

use crate::{FADE_MS, FRAME_MS, FRAME_SIZE, SAMPLES_PER_FRAME};
use crate::bytes::{i16_from_le_pair, spec_i16_from_le};
use crate::control::AudioCommand;
use crate::mix::{fade_num, mix_frame, spec_fade_num, spec_mix};
use crate::queue::{opt_track_view, Track, TrackQueue};

verus! {

/// The interleaved i16 samples read little-endian from a byte buffer.
pub open spec fn spec_pcm_samples(b: Seq<u8>) -> Seq<i16> {
    Seq::new((b.len() / 2) as nat, |i: int| spec_i16_from_le(b[2 * i], b[2 * i + 1]))
}

/// Decodes one frame buffer of s16le bytes into interleaved samples;
/// a full 3840-byte buffer becomes exactly 1920 samples.
pub fn pcm_from_bytes(buf: &[u8]) -> (r: Vec<i16>)
    requires
        buf@.len() == FRAME_SIZE,
    ensures
        r@ == spec_pcm_samples(buf@),
        r@.len() == SAMPLES_PER_FRAME,
{
    let mut r: Vec<i16> = Vec::new();
    let mut i: usize = 0;
    while i < FRAME_SIZE / 2
        invariant
            i <= FRAME_SIZE / 2,
            buf@.len() == FRAME_SIZE,
            r@.len() == i,
            forall|j: int| 0 <= j < i ==> r@[j] == spec_i16_from_le(buf@[2 * j], buf@[2 * j + 1]),
        decreases FRAME_SIZE / 2 - i,
    {
        r.push(i16_from_le_pair(buf[2 * i], buf[2 * i + 1]));
        i = i + 1;
    }
    assert(r@ =~= spec_pcm_samples(buf@));
    r
}

/// A frame of silence: 1920 zero samples.
pub fn silence_frame() -> (r: Vec<i16>)
    ensures
        r@.len() == SAMPLES_PER_FRAME,
        forall|i: int| 0 <= i < r@.len() ==> r@[i] == 0i16,
{
    let mut r: Vec<i16> = Vec::new();
    let mut i: usize = 0;
    while i < SAMPLES_PER_FRAME
        invariant
            i <= SAMPLES_PER_FRAME,
            r@.len() == i,
            forall|j: int| 0 <= j < i ==> r@[j] == 0i16,
        decreases SAMPLES_PER_FRAME - i,
    {
        r.push(0);
        i = i + 1;
    }
    r
}

/// The producer's state between iterations: the track whose decoder is
/// current, how much of it has played, the pause flag, and the crossfade
/// slot holding the upcoming track while a fade is running.
pub struct ProducerState {
    /// The track whose decoder output is being read, if any.
    pub current_track: Option<Track>,
    /// Milliseconds of the current track played so far.
    pub played_ms: u64,
    /// While paused the producer reads nothing and emits nothing.
    pub paused: bool,
    /// True while a crossfade into `next_track` is running.
    pub fading: bool,
    /// The track faded in during a crossfade.
    pub next_track: Option<Track>,
}

impl ProducerState {
    /// A fade only ever runs between a current and a next track.
    pub open spec fn wf(&self) -> bool {
        self.fading ==> (self.current_track is Some && self.next_track is Some)
    }

    /// The state before the first iteration: nothing current, not paused.
    pub fn new() -> (s: ProducerState)
        ensures
            s.wf(),
            s.current_track is None,
            s.next_track is None,
            !s.paused,
            !s.fading,
            s.played_ms == 0,
    {
        ProducerState {
            current_track: Option::None,
            played_ms: 0,
            paused: false,
            fading: false,
            next_track: Option::None,
        }
    }
}

/// What the caller must do to its decoder processes after a command.
pub enum DecoderAction {
    /// Nothing to kill.
    KeepAll,
    /// Kill the current decoder, and the fade target's decoder when a
    /// fade was running.
    KillCurrent { also_next: bool },
}

/// Applies one playback command. Pause and resume set the flag; a skip
/// drops the current track (and cancels a running fade, whose target
/// decoder must then be killed too); filter commands change nothing.
pub fn apply_playback_command(state: &mut ProducerState, cmd: &AudioCommand) -> (a: DecoderAction)
    requires
        old(state).wf(),
    ensures
        final(state).wf(),
        match *cmd {
            AudioCommand::Pause => *final(state) == (ProducerState {
                paused: true,
                ..*old(state)
            }) && a == DecoderAction::KeepAll,
            AudioCommand::Resume => *final(state) == (ProducerState {
                paused: false,
                ..*old(state)
            }) && a == DecoderAction::KeepAll,
            AudioCommand::Skip => final(state).current_track is None && final(state).next_track is None && !final(state).fading && final(state).paused == old(state).paused && a == (DecoderAction::KillCurrent { also_next: old(state).fading }),
            _ => *final(state) == *old(state) && a == DecoderAction::KeepAll,
        },
{
    match cmd {
        AudioCommand::Pause => {
            state.paused = true;
            DecoderAction::KeepAll
        },
        AudioCommand::Resume => {
            state.paused = false;
            DecoderAction::KeepAll
        },
        AudioCommand::Skip => {
            let was_fading = state.fading;
            state.current_track = Option::None;
            state.next_track = Option::None;
            state.fading = false;
            DecoderAction::KillCurrent { also_next: was_fading }
        },
        _ => DecoderAction::KeepAll,
    }
}

/// What an iteration begins with.
pub enum IterationStart {
    /// Paused: sleep one frame time and try again.
    Wait,
    /// A decoder is current: read the next frame buffer from it.
    Read,
    /// A new track was dequeued: spawn its decoder for this URL; it is
    /// now the current track and the queue's current slot.
    Start { url: String },
    /// The dequeued track had no media URL and was dropped.
    Unplayable { title: String },
    /// The queue is exhausted: the current slot was cleared; stop.
    Finished,
}

/// Decides how an iteration begins. Paused states wait. With a current
/// decoder the caller reads from it. Otherwise the queue's front track is
/// dequeued: with a URL it becomes current (current slot set, play time
/// reset); without one it is dropped; an empty queue ends the producer
/// and clears the current slot.
pub fn begin_iteration(state: &mut ProducerState, queue: &mut TrackQueue) -> (d: IterationStart)
    requires
        old(state).wf(),
    ensures
        final(state).wf(),
        old(state).paused ==> d is Wait && *final(state) == *old(state) && *final(queue) == *old(queue),
        !old(state).paused && old(state).current_track is Some ==> d is Read && *final(state)
            == *old(state) && *final(queue) == *old(queue),
        !old(state).paused && old(state).current_track is None && old(queue).pending_view().len()
            == 0 ==> d is Finished && final(queue).current_view() is None && final(queue).pending_view() == old(queue).pending_view() && *final(state) == *old(state),
        !old(state).paused && old(state).current_track is None && old(queue).pending_view().len()
            > 0 ==> {
            let front = old(queue).pending_view().first();
            &&& final(queue).pending_view() == old(queue).pending_view().drop_first()
            &&& match front.url {
                Option::Some(u) => {
                    &&& d matches IterationStart::Start { url } && url@ == u
                    &&& final(state).current_track matches Some(t) && t@ == front
                    &&& final(state).played_ms == 0
                    &&& final(queue).current_view() == Option::Some(front)
                    &&& final(state).fading == old(state).fading
                    &&& final(state).next_track == old(state).next_track
                },
                Option::None => {
                    &&& d matches IterationStart::Unplayable { title } && title@ == front.title
                    &&& final(state).current_track is None
                    &&& final(queue).current_view() == old(queue).current_view()
                    &&& *final(state) == *old(state)
                },
            }
        },
{
    if state.paused {
        return IterationStart::Wait;
    }
    if state.current_track.is_some() {
        return IterationStart::Read;
    }
    match queue.pop() {
        Option::None => {
            queue.clear_current_track();
            IterationStart::Finished
        },
        Option::Some(track) => {
            match &track.url {
                Option::Some(u) => {
                    let url = u.clone();
                    queue.set_current_track(track.clone());
                    state.current_track = Option::Some(track);
                    state.played_ms = 0;
                    IterationStart::Start { url }
                },
                Option::None => {
                    IterationStart::Unplayable { title: track.title.clone() }
                },
            }
        },
    }
}

/// What a read from the current decoder means.
pub enum ReadOutcome {
    /// Zero bytes and the decoder has exited outside a fade: the track
    /// ended; the decoder slot was cleared, the next iteration dequeues.
    TrackEnded,
    /// Zero bytes but the decoder lives, outside a fade: back off 50 ms.
    Backoff,
    /// Zero bytes during a fade: mix a frame of silence for the current
    /// side and keep fading.
    SilenceDuringFade,
    /// Bytes arrived: decode and produce a frame.
    Process,
}

/// Interprets a read of `n` bytes from the current decoder, with
/// `decoder_alive` saying whether the process still runs.
pub fn on_read_result(state: &mut ProducerState, n: usize, decoder_alive: bool) -> (r: ReadOutcome)
    requires
        old(state).wf(),
    ensures
        final(state).wf(),
        n > 0 ==> r is Process && *final(state) == *old(state),
        n == 0 && old(state).fading ==> r is SilenceDuringFade && *final(state) == *old(state),
        n == 0 && !old(state).fading && decoder_alive ==> r is Backoff && *final(state) == *old(state),
        n == 0 && !old(state).fading && !decoder_alive ==> r is TrackEnded && final(state).current_track is None && final(state).next_track == old(state).next_track && final(state).paused == old(state).paused && !final(state).fading,
{
    if n > 0 {
        ReadOutcome::Process
    } else if state.fading {
        ReadOutcome::SilenceDuringFade
    } else if decoder_alive {
        ReadOutcome::Backoff
    } else {
        state.current_track = Option::None;
        ReadOutcome::TrackEnded
    }
}

/// Advances the play position by one frame time.
pub fn advance_played(state: &mut ProducerState)
    requires
        old(state).played_ms + FRAME_MS <= u64::MAX,
        old(state).wf(),
    ensures
        final(state).wf(),
        *final(state) == (ProducerState { played_ms: (old(state).played_ms + FRAME_MS) as u64,
            ..*old(state) }),
{
    state.played_ms = state.played_ms + FRAME_MS;
}

/// Whether a crossfade must begin: no fade runs yet, the current track's
/// duration is known, and no more than the fade window remains.
pub open spec fn spec_should_fade(state: ProducerState) -> bool {
    &&& !state.fading
    &&& state.current_track matches Some(t)
    &&& t@.duration_ms matches Some(d)
    &&& d <= state.played_ms + FADE_MS
}

/// How a crossfade attempt ended.
pub enum CrossfadeStart {
    /// No fade was due, or the queue held nothing to fade into.
    NotStarted,
    /// The fade target was dequeued: spawn its decoder for this URL.
    Started { url: String },
    /// The dequeued fade target had no media URL and was dropped.
    NextUnplayable { title: String },
}

/// Begins a crossfade when one is due and a playable track is pending:
/// dequeues the fade target and marks the fade running. A pending track
/// without a URL is dropped instead.
pub fn maybe_start_crossfade(state: &mut ProducerState, queue: &mut TrackQueue) -> (r:
    CrossfadeStart)
    requires
        old(state).wf(),
    ensures
        final(state).wf(),
        final(queue).current_view() == old(queue).current_view(),
        !spec_should_fade(*old(state)) ==> r is NotStarted && *final(state) == *old(state)
            && *final(queue) == *old(queue),
        spec_should_fade(*old(state)) && old(queue).pending_view().len() == 0 ==> r is NotStarted
            && *final(state) == *old(state) && final(queue).pending_view() == old(queue).pending_view(),
        spec_should_fade(*old(state)) && old(queue).pending_view().len() > 0 ==> {
            let front = old(queue).pending_view().first();
            &&& final(queue).pending_view() == old(queue).pending_view().drop_first()
            &&& match front.url {
                Option::Some(u) => {
                    &&& r matches CrossfadeStart::Started { url } && url@ == u
                    &&& final(state).fading
                    &&& final(state).next_track matches Some(t) && t@ == front
                    &&& final(state).current_track == old(state).current_track
                    &&& final(state).played_ms == old(state).played_ms
                    &&& final(state).paused == old(state).paused
                },
                Option::None => {
                    &&& r matches CrossfadeStart::NextUnplayable { title } && title@ == front.title
                    &&& *final(state) == *old(state)
                },
            }
        },
{
    let due = !state.fading && match &state.current_track {
        Option::Some(t) => match t.duration_ms {
            Option::Some(d) => d <= FADE_MS || d - FADE_MS <= state.played_ms,
            Option::None => false,
        },
        Option::None => false,
    };
    if !due {
        return CrossfadeStart::NotStarted;
    }
    match queue.pop() {
        Option::None => CrossfadeStart::NotStarted,
        Option::Some(track) => {
            match &track.url {
                Option::Some(u) => {
                    let url = u.clone();
                    state.next_track = Option::Some(track);
                    state.fading = true;
                    CrossfadeStart::Started { url }
                },
                Option::None => {
                    CrossfadeStart::NextUnplayable { title: track.title.clone() }
                },
            }
        },
    }
}

/// The fade denominator for a current track: its duration when known,
/// else the fade window itself.
pub open spec fn spec_fade_duration(state: ProducerState) -> u64 {
    match state.current_track {
        Option::Some(t) => match t@.duration_ms {
            Option::Some(d) => d,
            Option::None => FADE_MS,
        },
        Option::None => FADE_MS,
    }
}

/// Produces the frame for this iteration. Outside a fade — or when the
/// fade target's decoder yielded no frame — the current samples pass
/// through unchanged. During a fade the two frames are mixed at the
/// current fade progress, and when the progress reaches 1 the fade
/// target becomes the current track (the caller kills the old decoder
/// and promotes the new one) with the play position set to the fade
/// window length.
pub fn produce_frame(
    state: &mut ProducerState,
    pcm_curr: &Vec<i16>,
    pcm_next: Option<&Vec<i16>>,
) -> (r: (Vec<i16>, bool))
    requires
        old(state).wf(),
        pcm_curr@.len() == SAMPLES_PER_FRAME,
        match pcm_next {
            Option::Some(v) => v@.len() == SAMPLES_PER_FRAME,
            Option::None => true,
        },
    ensures
        final(state).wf(),
        r.0@.len() == SAMPLES_PER_FRAME,
        !old(state).fading ==> r.0@ == pcm_curr@ && *final(state) == *old(state) && !r.1,
        old(state).fading && pcm_next is None ==> r.0@ == pcm_curr@ && *final(state) == *old(state)
            && !r.1,
        old(state).fading ==> match pcm_next {
            Option::None => true,
            Option::Some(nx) => {
            let num = spec_fade_num(spec_fade_duration(*old(state)), old(state).played_ms);
            &&& forall|i: int|
                0 <= i < SAMPLES_PER_FRAME ==> r.0@[i] == spec_mix(
                    pcm_curr@[i],
                    nx@[i],
                    num,
                    FADE_MS as int,
                )
            &&& r.1 == (num == FADE_MS)
            &&& !r.1 ==> *final(state) == *old(state)
            &&& r.1 ==> final(state).current_track == old(state).next_track && final(state).next_track is None && !final(state).fading && final(state).played_ms == FADE_MS
                && final(state).paused == old(state).paused
            },
        },
{
    if !state.fading {
        let out = clone_frame(pcm_curr);
        return (out, false);
    }
    match pcm_next {
        Option::None => {
            let out = clone_frame(pcm_curr);
            (out, false)
        },
        Option::Some(nx) => {
            let duration: u64 = match &state.current_track {
                Option::Some(t) => match t.duration_ms {
                    Option::Some(d) => d,
                    Option::None => FADE_MS,
                },
                Option::None => FADE_MS,
            };
            let num = fade_num(duration, state.played_ms);
            let out = mix_frame(pcm_curr, nx, num, FADE_MS as u32);
            if num == FADE_MS as u32 {
                state.current_track = state.next_track.take();
                state.fading = false;
                state.played_ms = FADE_MS;
                (out, true)
            } else {
                (out, false)
            }
        },
    }
}

/// Records the producer's current track in the queue's current slot.
/// Called after a completed crossfade promotes the fade target, so that
/// the slot shows the promoted track and not the faded-out one; with no
/// current track the slot is cleared.
pub fn update_current_slot(state: &ProducerState, queue: &mut TrackQueue)
    ensures
        final(queue).current_view() == opt_track_view(state.current_track),
        final(queue).pending_view() == old(queue).pending_view(),
{
    match &state.current_track {
        Option::Some(t) => {
            queue.set_current_track(t.clone());
        },
        Option::None => {
            queue.clear_current_track();
        },
    }
}

/// Copies a frame of samples.
fn clone_frame(v: &Vec<i16>) -> (r: Vec<i16>)
    ensures
        r@ == v@,
{
    let mut r: Vec<i16> = Vec::new();
    let mut i: usize = 0;
    while i < v.len()
        invariant
            i <= v@.len(),
            r@ == v@.subrange(0, i as int),
        decreases v@.len() - i,
    {
        r.push(v[i]);
        assert(r@ =~= v@.subrange(0, i + 1));
        i = i + 1;
    }
    assert(r@ =~= v@);
    r
}

} // verus!
