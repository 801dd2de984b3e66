//! The audio pipeline end of the library: queue FIFO behaviour, PCM
//! decoding, crossfade mixing, and full simulated runs of the producer
//! state machine — a normal track end, a crossfade between two tracks,
//! a skip, and pause/resume.

use voicebot::control::{apply_filter_commands, AudioCommand, AudioFilterState};
use voicebot::mix::{fade_num, mix_sample};
use voicebot::player::AudioPlayer;
use voicebot::producer::{
    advance_played, apply_playback_command, begin_iteration, maybe_start_crossfade,
    on_read_result, pcm_from_bytes, produce_frame, silence_frame, update_current_slot,
    CrossfadeStart, DecoderAction, IterationStart, ProducerState, ReadOutcome,
};
use voicebot::consumer::consumer_emit;
use voicebot::queue::{Track, TrackQueue};
use voicebot::connection::VoiceConnection;
use voicebot::crypto::CipherMode;

fn track(id: &str, title: &str, duration_ms: Option<u64>, url: Option<&str>) -> Track {
    Track {
        id: id.to_owned(),
        title: title.to_owned(),
        duration_ms,
        thumbnail: None,
        url: url.map(|u| u.to_owned()),
    }
}

/// A frame buffer whose every sample is `v`, as s16le bytes.
fn const_frame_bytes(v: i16) -> Vec<u8> {
    let le = v.to_le_bytes();
    let mut buf = Vec::with_capacity(3840);
    for _ in 0..1920 {
        buf.push(le[0]);
        buf.push(le[1]);
    }
    buf
}

#[test]
fn queue_is_fifo() {
    let mut q = TrackQueue::new();
    assert!(q.is_empty());
    q.push(track("1", "a", None, None));
    q.push(track("2", "b", None, None));
    q.push(track("3", "c", None, None));
    assert_eq!(q.len(), 3);
    let snapshot = q.iter();
    assert_eq!(snapshot.len(), 3);
    assert_eq!(snapshot[0].id, "1");
    assert_eq!(q.pop().unwrap().id, "1");
    assert_eq!(q.pop().unwrap().id, "2");
    assert_eq!(q.pop().unwrap().id, "3");
    assert!(q.pop().is_none());
}

#[test]
fn current_slot_holds_one_track() {
    let mut q = TrackQueue::new();
    assert!(q.get_current_track().is_none());
    q.set_current_track(track("1", "a", None, None));
    q.set_current_track(track("2", "b", None, None));
    assert_eq!(q.get_current_track().unwrap().id, "2");
    q.clear_current_track();
    assert!(q.get_current_track().is_none());
}

#[test]
fn pcm_decodes_little_endian() {
    let mut buf = vec![0u8; 3840];
    buf[0] = 0x34;
    buf[1] = 0x12;
    buf[2] = 0xff;
    buf[3] = 0xff;
    let pcm = pcm_from_bytes(&buf);
    assert_eq!(pcm.len(), 1920);
    assert_eq!(pcm[0], 0x1234);
    assert_eq!(pcm[1], -1);
    assert_eq!(pcm[2], 0);
}

#[test]
fn mix_endpoints_and_midpoint() {
    // At progress 0 the mix is the current sample, at 1 the next one.
    assert_eq!(mix_sample(1000, 2000, 0, 8000), 1000);
    assert_eq!(mix_sample(1000, 2000, 8000, 8000), 2000);
    assert_eq!(mix_sample(1000, 2000, 4000, 8000), 1500);
    // Rounding is to the nearest value: 0.75 of the way from 0 to 3 is 2.25.
    assert_eq!(mix_sample(0, 3, 2000, 8000), 1);
    assert_eq!(mix_sample(0, 3, 6000, 8000), 2);
    // Extremes stay inside the i16 range without saturating; the midpoint
    // of the full range, -0.5, rounds up to 0.
    assert_eq!(mix_sample(i16::MIN, i16::MAX, 4000, 8000), 0);
    assert_eq!(mix_sample(i16::MIN, i16::MAX, 0, 8000), i16::MIN);
    assert_eq!(mix_sample(i16::MIN, i16::MAX, 8000, 8000), i16::MAX);
}

#[test]
fn fade_progress_is_clamped() {
    // More than the fade window left: progress 0.
    assert_eq!(fade_num(60_000, 0), 0);
    // Exactly at the window edge.
    assert_eq!(fade_num(10_000, 2_000), 0);
    // Halfway through the fade.
    assert_eq!(fade_num(10_000, 6_000), 4_000);
    // At and past the end: clamped to the window.
    assert_eq!(fade_num(10_000, 10_000), 8_000);
    assert_eq!(fade_num(10_000, 12_000), 8_000);
    // Unknown remainder shorter than the window.
    assert_eq!(fade_num(3_000, 0), 5_000);
}

#[test]
fn silence_is_all_zero() {
    let s = silence_frame();
    assert_eq!(s.len(), 1920);
    assert!(s.iter().all(|&x| x == 0));
}

#[test]
fn filter_commands_fold_in_order() {
    let mut st = AudioFilterState::default();
    let cmds = vec![
        AudioCommand::ToggleBassBoost(true),
        AudioCommand::SetVolume(250),
        AudioCommand::Pause,
        AudioCommand::ToggleNightcore(true),
        AudioCommand::SetVolume(80),
    ];
    apply_filter_commands(&mut st, &cmds);
    assert!(st.bass_boost);
    assert!(st.nightcore);
    assert!(!st.vaporwave);
    assert_eq!(st.volume_hundredths, 80);
}

#[test]
fn single_track_normal_end() {
    // One 3-second track: 150 frames, then EOF, then the queue is done.
    let cipher =
        CipherMode::from_secret_and_mode(&(0u8..32).collect::<Vec<u8>>(), "aead_xchacha20_poly1305_rtpsize")
            .unwrap();
    let conn = VoiceConnection::new(1, "aead_xchacha20_poly1305_rtpsize".to_owned(), cipher);
    let mut player = AudioPlayer::new(conn);
    let start = player.enqueue(track("1", "three seconds", Some(3000), Some("http://stub/3s")));
    assert!(start);
    assert!(player.is_playing);

    let mut st = ProducerState::new();
    let mut decoder_frames = 0u32;
    let mut emitted = 0u32;
    let zero = const_frame_bytes(0);
    loop {
        match begin_iteration(&mut st, &mut player.queue) {
            IterationStart::Finished => break,
            IterationStart::Start { url } => {
                assert_eq!(url, "http://stub/3s");
                decoder_frames = 150;
            }
            IterationStart::Read => {}
            IterationStart::Wait | IterationStart::Unplayable { .. } => continue,
        }
        if decoder_frames == 150 {
            // Starting the track filled the queue's current slot.
            assert_eq!(player.queue.get_current_track().unwrap().title, "three seconds");
        }
        let n = if decoder_frames > 0 { 3840 } else { 0 };
        match on_read_result(&mut st, n, decoder_frames > 0) {
            ReadOutcome::Process => {}
            _ => continue,
        }
        decoder_frames -= 1;
        let pcm = pcm_from_bytes(&zero);
        advance_played(&mut st);
        maybe_start_crossfade(&mut st, &mut player.queue);
        let (frame, _) = produce_frame(&mut st, &pcm, None);
        assert_eq!(frame.len(), 1920);
        // The consumer turns each frame into one RTP packet.
        let payload = [0x5au8; 60];
        let packet = consumer_emit(&mut player.conn, &mut player.rtp, &payload);
        assert_eq!(packet.len(), 12 + 60 + 20);
        emitted += 1;
    }
    // 3 s of audio at 20 ms per frame: 150 packets on the wire.
    assert_eq!(emitted, 150);
    assert_eq!(player.rtp.seq, 150);
    assert_eq!(player.rtp.timestamp, 150 * 960);
    assert_eq!(player.conn.counter, 150);
    assert!(player.queue.get_current_track().is_none());
    player.playback_finished();
    assert!(!player.is_playing);
}

#[test]
fn crossfade_between_two_tracks() {
    // Two 10-second tracks with an 8-second fade window: the fade starts
    // at t = 2 s of track A, the output in between is the linear mix, and
    // at t = 10 s track B is current with 8 s already accounted for.
    let mut q = TrackQueue::new();
    q.push(track("a", "A", Some(10_000), Some("http://stub/a")));
    q.push(track("b", "B", Some(10_000), Some("http://stub/b")));
    let mut st = ProducerState::new();

    let a_bytes = const_frame_bytes(1000);
    let b_bytes = const_frame_bytes(2000);
    let mut a_frames = 500u32;
    let mut b_frames = 500u32;
    let mut current_is_a = true;
    let mut emitted = 0u32;
    let mut fade_started_at: Option<u64> = None;
    let mut completed_at: Option<u64> = None;

    loop {
        match begin_iteration(&mut st, &mut q) {
            IterationStart::Finished => break,
            IterationStart::Start { url } => {
                assert_eq!(url, "http://stub/a");
            }
            IterationStart::Read => {}
            _ => continue,
        }
        let remaining = if current_is_a { &mut a_frames } else { &mut b_frames };
        let n = if *remaining > 0 { 3840 } else { 0 };
        let alive = *remaining > 0;
        match on_read_result(&mut st, n, alive) {
            ReadOutcome::Process => {}
            _ => continue,
        }
        *remaining -= 1;
        let pcm = pcm_from_bytes(if current_is_a { &a_bytes } else { &b_bytes });
        advance_played(&mut st);
        match maybe_start_crossfade(&mut st, &mut q) {
            CrossfadeStart::Started { url } => {
                assert_eq!(url, "http://stub/b");
                fade_started_at = Some(st.played_ms);
            }
            _ => {}
        }
        let next_pcm;
        let next_ref = if st.fading && b_frames > 0 {
            b_frames -= 1;
            next_pcm = pcm_from_bytes(&b_bytes);
            Some(&next_pcm)
        } else {
            None
        };
        let had_next = next_ref.is_some();
        let expected_mix = if st.fading {
            let num = fade_num(10_000, st.played_ms);
            Some(mix_sample(1000, 2000, num, 8000))
        } else {
            None
        };
        let (frame, completed) = produce_frame(&mut st, &pcm, next_ref);
        if let (Some(m), true) = (expected_mix, had_next) {
            assert_eq!(frame[0], m);
        }
        if completed {
            completed_at = Some(st.played_ms);
            assert_eq!(st.current_track.as_ref().unwrap().title, "B");
            // The queue's current slot follows the promotion.
            update_current_slot(&st, &mut q);
            assert_eq!(q.get_current_track().unwrap().title, "B");
            current_is_a = false;
        }
        emitted += 1;
    }

    // The fade began as soon as 8 s remained of track A.
    assert_eq!(fade_started_at, Some(2_000));
    // On completion track B is current with the fade length on the clock.
    assert_eq!(completed_at, Some(8_000));
    // Gapless total: track A's 500 frames overlap 401 frames of track B,
    // whose remaining 99 frames then play alone.
    assert_eq!(emitted, 599);
}

#[test]
fn skip_drops_current_and_next_track_starts() {
    let mut q = TrackQueue::new();
    q.push(track("1", "first", Some(60_000), Some("http://stub/1")));
    q.push(track("2", "second", Some(60_000), Some("http://stub/2")));
    let mut st = ProducerState::new();

    match begin_iteration(&mut st, &mut q) {
        IterationStart::Start { url } => assert_eq!(url, "http://stub/1"),
        _ => panic!("expected start"),
    }
    // Play one second.
    let bytes = const_frame_bytes(5);
    for _ in 0..50 {
        assert!(matches!(
            on_read_result(&mut st, 3840, true),
            ReadOutcome::Process
        ));
        let pcm = pcm_from_bytes(&bytes);
        advance_played(&mut st);
        let (frame, _) = produce_frame(&mut st, &pcm, None);
        assert_eq!(frame.len(), 1920);
    }
    assert_eq!(st.played_ms, 1_000);

    // Skip: the current decoder is killed at once, nothing else changes.
    let action = apply_playback_command(&mut st, &AudioCommand::Skip);
    assert!(matches!(
        action,
        DecoderAction::KillCurrent { also_next: false }
    ));
    assert!(st.current_track.is_none());

    // The next iteration starts the next track.
    match begin_iteration(&mut st, &mut q) {
        IterationStart::Start { url } => assert_eq!(url, "http://stub/2"),
        _ => panic!("expected next track"),
    }
    assert_eq!(st.played_ms, 0);
}

#[test]
fn pause_freezes_the_producer() {
    let mut q = TrackQueue::new();
    q.push(track("1", "t", None, Some("http://stub/t")));
    let mut st = ProducerState::new();
    apply_playback_command(&mut st, &AudioCommand::Pause);
    assert!(matches!(
        begin_iteration(&mut st, &mut q),
        IterationStart::Wait
    ));
    assert_eq!(q.len(), 1);
    apply_playback_command(&mut st, &AudioCommand::Resume);
    assert!(matches!(
        begin_iteration(&mut st, &mut q),
        IterationStart::Start { .. }
    ));
}

#[test]
fn unplayable_track_is_dropped() {
    let mut q = TrackQueue::new();
    q.push(track("1", "no url", None, None));
    q.push(track("2", "ok", None, Some("http://stub/2")));
    let mut st = ProducerState::new();
    match begin_iteration(&mut st, &mut q) {
        IterationStart::Unplayable { title } => assert_eq!(title, "no url"),
        _ => panic!("expected unplayable"),
    }
    assert!(matches!(
        begin_iteration(&mut st, &mut q),
        IterationStart::Start { .. }
    ));
}

#[test]
fn eof_during_fade_mixes_silence() {
    let mut q = TrackQueue::new();
    q.push(track("a", "A", Some(5_000), Some("http://stub/a")));
    q.push(track("b", "B", Some(30_000), Some("http://stub/b")));
    let mut st = ProducerState::new();
    assert!(matches!(
        begin_iteration(&mut st, &mut q),
        IterationStart::Start { .. }
    ));
    // First frame: duration 5 s is inside the fade window, so the fade
    // starts immediately.
    assert!(matches!(
        on_read_result(&mut st, 3840, true),
        ReadOutcome::Process
    ));
    advance_played(&mut st);
    assert!(matches!(
        maybe_start_crossfade(&mut st, &mut q),
        CrossfadeStart::Started { .. }
    ));
    // The current decoder hits EOF while the fade runs: the producer
    // keeps going with silence for the current side.
    assert!(matches!(
        on_read_result(&mut st, 0, false),
        ReadOutcome::SilenceDuringFade
    ));
    let silence = silence_frame();
    let next = pcm_from_bytes(&const_frame_bytes(2000));
    let (frame, _) = produce_frame(&mut st, &silence, Some(&next));
    // The mix is between zero and the next track's samples.
    let num = fade_num(5_000, st.played_ms);
    assert_eq!(frame[0], mix_sample(0, 2000, num, 8000));
}
