use avsync::cell::{FrameHandoffCell, VideoFrame};
use avsync::clips::Clip;
use avsync::clock::MasterClock;
use avsync::controller::{PlaybackController, PlayerState, SessionConfig};
use avsync::intervals::IntervalSet;
use avsync::output::fill_output;
use avsync::ring::AudioRing;
use avsync::timebase::{audio_time_us, AudioFormat};

fn clip(start_us: u64, end_us: u64, audio: bool) -> Clip {
    Clip {
        start_us,
        end_us,
        asset_id: None,
        fade_in_us: 0,
        fade_out_us: 0,
        linked: true,
        video_enabled: true,
        audio_enabled: audio,
    }
}

#[test]
fn clock_starts_at_zero_and_advances_exactly() {
    let mut clock = MasterClock::new();
    assert_eq!(clock.samples_delivered(), 0);
    clock.advance(480);
    assert_eq!(clock.samples_delivered(), 480);
    clock.advance(0);
    assert_eq!(clock.samples_delivered(), 480);
    clock.advance(20);
    assert_eq!(clock.samples_delivered(), 500);
}

#[test]
fn clock_never_decreases_over_a_callback_sequence() {
    let mut clock = MasterClock::new();
    let mut last = clock.samples_delivered();
    for delta in [512u64, 0, 4096, 1, 0, 128] {
        clock.advance(delta);
        let now = clock.samples_delivered();
        assert!(now >= last);
        last = now;
    }
}

#[test]
fn audio_time_is_exact_for_48k_stereo() {
    let fmt = AudioFormat { sample_rate: 48000, channels: 2 };
    // After N delivered samples the time is N / (48000 * 2) seconds.
    assert_eq!(audio_time_us(96000, &fmt), 1_000_000);
    assert_eq!(audio_time_us(48000, &fmt), 500_000);
    assert_eq!(audio_time_us(0, &fmt), 0);
    assert_eq!(audio_time_us(96, &fmt), 1_000);
}

#[test]
fn ring_accepts_what_fits_and_refuses_whole_chunks() {
    let mut ring = AudioRing::new(4);
    assert_eq!(ring.capacity(), 4);
    assert!(ring.try_push(&vec![1, 2, 3]));
    assert_eq!(ring.len(), 3);
    // 3 + 2 > 4: the chunk is refused whole, nothing is trimmed in.
    assert!(!ring.try_push(&vec![4, 5]));
    assert_eq!(ring.len(), 3);
    assert!(ring.try_push(&vec![4]));
    assert_eq!(ring.len(), 4);
    assert!(ring.len() <= ring.capacity());
}

#[test]
fn ring_pops_fifo_and_signals_empty() {
    let mut ring = AudioRing::new(8);
    assert!(ring.try_push(&vec![10, 20, 30]));
    assert_eq!(ring.pop_front(), Some(10));
    assert_eq!(ring.pop_front(), Some(20));
    assert!(ring.try_push(&vec![40]));
    assert_eq!(ring.pop_front(), Some(30));
    assert_eq!(ring.pop_front(), Some(40));
    assert_eq!(ring.pop_front(), None);
    assert_eq!(ring.len(), 0);
}

#[test]
fn ring_clear_empties_without_changing_capacity() {
    let mut ring = AudioRing::new(6);
    assert!(ring.try_push(&vec![1, 2, 3, 4]));
    ring.clear();
    assert_eq!(ring.len(), 0);
    assert_eq!(ring.capacity(), 6);
    assert_eq!(ring.pop_front(), None);
}

#[test]
fn fill_pops_in_order_and_zero_fills_underrun() {
    let mut ring = AudioRing::new(64);
    assert!(ring.try_push(&vec![10, 20, 30]));
    let mut clock = MasterClock::new();
    let set = IntervalSet::from_clips(&vec![clip(0, 1_000_000_000, true)]);
    let fmt = AudioFormat { sample_rate: 48000, channels: 2 };
    let out = fill_output(&mut ring, &mut clock, &set, &fmt, 0, 5);
    assert_eq!(out, vec![10, 20, 30, 0, 0]);
    // The clock advanced by the request size, not by what was buffered.
    assert_eq!(clock.samples_delivered(), 5);
    assert_eq!(ring.len(), 0);
}

#[test]
fn fill_masks_samples_outside_enabled_intervals() {
    // Enabled only during [0s, 5s); the session starts at 7s, so every
    // delivered sample falls outside and is silenced.
    let set = IntervalSet::from_clips(&vec![clip(0, 5_000_000, true)]);
    let fmt = AudioFormat { sample_rate: 48000, channels: 2 };
    let mut ring = AudioRing::new(16);
    assert!(ring.try_push(&vec![1234, -1234]));
    let mut clock = MasterClock::new();
    let out = fill_output(&mut ring, &mut clock, &set, &fmt, 7_000_000, 2);
    assert_eq!(out, vec![0, 0]);

    // The same samples inside the enabled range pass through unchanged.
    let mut ring2 = AudioRing::new(16);
    assert!(ring2.try_push(&vec![1234, -1234]));
    let mut clock2 = MasterClock::new();
    let out2 = fill_output(&mut ring2, &mut clock2, &set, &fmt, 1_000_000, 2);
    assert_eq!(out2, vec![1234, -1234]);
}

#[test]
fn interval_set_matches_audio_enabled_clips_only() {
    let clips = vec![clip(0, 5_000_000, true), clip(5_000_000, 9_000_000, false)];
    let set = IntervalSet::from_clips(&clips);
    assert!(set.is_enabled_at(0));
    assert!(set.is_enabled_at(4_999_999));
    assert!(!set.is_enabled_at(5_000_000));
    assert!(!set.is_enabled_at(7_000_000));
    assert_eq!(set.gate_sample(77, 7_000_000), 0);
    assert_eq!(set.gate_sample(77, 1), 77);
}

#[test]
fn handoff_cell_is_most_recent_wins_and_take_clears() {
    let mut cell = FrameHandoffCell::new();
    assert!(cell.take().is_none());
    let f1 = VideoFrame::new(1, 1, 100, vec![0; 4]).unwrap();
    let f2 = VideoFrame::new(1, 1, 200, vec![255; 4]).unwrap();
    cell.publish(f1);
    cell.publish(f2);
    let got = cell.take().unwrap();
    assert_eq!(got.pts_us, 200);
    assert_eq!(got.data, vec![255; 4]);
    assert!(cell.take().is_none());
}

#[test]
fn video_frame_rejects_mismatched_byte_counts() {
    assert!(VideoFrame::new(2, 2, 0, vec![0; 16]).is_some());
    assert!(VideoFrame::new(2, 2, 0, vec![0; 15]).is_none());
    assert_eq!(VideoFrame::byte_size(2, 2), Some(16));
    assert_eq!(VideoFrame::byte_size(640, 360), Some(640 * 360 * 4));
}

#[test]
fn current_time_is_start_offset_plus_clock_time() {
    let mut pc = PlaybackController::new();
    let cfg = SessionConfig {
        input_path: "movie.mp4".to_string(),
        duration_us: 60_000_000,
        start_offset_us: 500_000,
        fmt: AudioFormat { sample_rate: 48000, channels: 2 },
        rate: avsync::timebase::FrameRate { num: 30, den: 1 },
    };
    pc.start(&cfg).unwrap();
    // 96000 samples at 48 kHz stereo are exactly one second.
    assert_eq!(pc.current_time_us(96000), Some(1_500_000));
    assert_eq!(pc.current_time_us(0), Some(500_000));
    pc.stop();
    assert_eq!(pc.current_time_us(96000), None);
    assert_eq!(pc.current_state(), PlayerState::Stopped);
}
