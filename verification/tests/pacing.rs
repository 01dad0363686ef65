use avsync::barrier::ReadinessBarrier;
use avsync::controller::{PlaybackController, PlayerState, SessionConfig, StartError};
use avsync::pacer::{decide, pace_sleep_us, PaceAction, PacerConfig, VideoPacer};
use avsync::timebase::{frame_target_us, AudioFormat, FrameRate};

fn stock() -> PacerConfig {
    PacerConfig::default()
}

fn config(start_offset_us: u64) -> SessionConfig {
    SessionConfig {
        input_path: "movie.mp4".to_string(),
        duration_us: 60_000_000,
        start_offset_us,
        fmt: AudioFormat { sample_rate: 48000, channels: 2 },
        rate: FrameRate { num: 30, den: 1 },
    }
}

#[test]
fn frame_far_behind_is_dropped_once_barrier_open() {
    // The frame targets 0.30 s behind the clock and the barrier is open.
    let a = decide(700_000, 1_000_000, true, true, &stock());
    assert_eq!(a, PaceAction::Drop);
}

#[test]
fn frame_behind_is_kept_while_barrier_closed() {
    let a = decide(700_000, 1_000_000, false, true, &stock());
    assert_eq!(a, PaceAction::Display);
}

#[test]
fn first_frame_is_always_displayed() {
    // Even 0.30 s behind with the barrier open, the session's first
    // frame goes to the handoff cell.
    let a = decide(700_000, 1_000_000, true, false, &stock());
    assert_eq!(a, PaceAction::Display);
}

#[test]
fn frame_ahead_waits_and_frame_on_time_displays() {
    assert_eq!(decide(1_020_000, 1_000_000, true, true, &stock()), PaceAction::Wait);
    assert_eq!(decide(1_004_000, 1_000_000, true, true, &stock()), PaceAction::Display);
    assert_eq!(decide(1_000_000, 1_000_000, true, true, &stock()), PaceAction::Display);
    // Exactly at the drop threshold the frame is still displayed.
    assert_eq!(decide(950_000, 1_000_000, true, true, &stock()), PaceAction::Display);
    assert_eq!(decide(949_999, 1_000_000, true, true, &stock()), PaceAction::Drop);
}

#[test]
fn pacing_sleep_is_bounded_and_wakes_early() {
    let cfg = stock();
    // A long gap sleeps at most 20 ms less the 2 ms margin.
    assert_eq!(pace_sleep_us(2_000_000, 1_000_000, &cfg), 18_000);
    // A short gap sleeps the remainder less the margin.
    assert_eq!(pace_sleep_us(1_010_000, 1_000_000, &cfg), 8_000);
    // Within the margin there is no sleep at all.
    assert_eq!(pace_sleep_us(1_001_000, 1_000_000, &cfg), 0);
    assert_eq!(pace_sleep_us(900_000, 1_000_000, &cfg), 0);
}

#[test]
fn frame_targets_follow_the_rational_rate() {
    let ntsc = FrameRate { num: 30000, den: 1001 };
    assert_eq!(frame_target_us(0, &ntsc), 0);
    assert_eq!(frame_target_us(30000, &ntsc), 1_001_000_000);
    let pal = FrameRate { num: 25, den: 1 };
    assert_eq!(frame_target_us(25, &pal), 1_000_000);
    assert_eq!(frame_target_us(1, &pal), 40_000);
}

#[test]
fn pacer_walk_catches_up_then_displays() {
    let rate = FrameRate { num: 10, den: 1 };
    let mut p = VideoPacer::new(0, rate, stock());
    assert!(!p.has_delivered_first());
    // First frame: unconditional display.
    assert_eq!(p.decide(350_000, false), PaceAction::Display);
    p.note_displayed();
    assert!(p.has_delivered_first());
    // Frames 1 and 2 target 100 ms and 200 ms: both over 50 ms behind a
    // clock at 350 ms, so they are dropped forward, never reordered.
    assert_eq!(p.decide(350_000, true), PaceAction::Drop);
    p.note_dropped();
    assert_eq!(p.decide(350_000, true), PaceAction::Drop);
    p.note_dropped();
    // Frame 3 targets 300 ms: exactly at the threshold, displayed.
    assert_eq!(p.next_frame_index(), 3);
    assert_eq!(p.decide(350_000, true), PaceAction::Display);
    p.note_displayed();
    // Frame 4 targets 400 ms: 50 ms ahead, so the pacer waits.
    assert_eq!(p.decide(350_000, true), PaceAction::Wait);
    assert_eq!(p.decide(396_000, true), PaceAction::Display);
}

#[test]
fn barrier_opens_once_and_stays_open() {
    let mut b = ReadinessBarrier::new();
    assert!(!b.observed());
    b.signal();
    assert!(b.observed());
    b.signal();
    assert!(b.observed());
}

#[test]
fn controller_follows_starting_then_playing() {
    let mut pc = PlaybackController::new();
    assert_eq!(pc.current_state(), PlayerState::Stopped);
    let first = pc.start(&config(0)).unwrap();
    assert_eq!(first, 0);
    assert_eq!(pc.current_state(), PlayerState::Starting);
    // Audio must not start before the readiness barrier opens.
    assert!(!pc.observe_readiness(false));
    assert_eq!(pc.current_state(), PlayerState::Starting);
    assert!(pc.observe_readiness(true));
    assert_eq!(pc.current_state(), PlayerState::Playing);
    // A second poll does not start audio twice.
    assert!(!pc.observe_readiness(true));
}

#[test]
fn stop_reaches_stopped_from_every_state() {
    let mut pc = PlaybackController::new();
    pc.stop();
    assert_eq!(pc.current_state(), PlayerState::Stopped);
    pc.start(&config(0)).unwrap();
    pc.stop();
    assert_eq!(pc.current_state(), PlayerState::Stopped);
    pc.start(&config(0)).unwrap();
    assert!(pc.observe_readiness(true));
    pc.stop();
    assert_eq!(pc.current_state(), PlayerState::Stopped);
    assert!(pc.session_params().is_none());
}

#[test]
fn seek_performs_the_same_teardown() {
    let mut pc = PlaybackController::new();
    pc.start(&config(1_000_000)).unwrap();
    pc.seek();
    assert_eq!(pc.current_state(), PlayerState::Stopped);
    assert!(pc.session_params().is_none());
}

#[test]
fn start_restarts_a_live_session() {
    let mut pc = PlaybackController::new();
    pc.start(&config(0)).unwrap();
    assert!(pc.observe_readiness(true));
    // Starting anew tears the previous session down first.
    let idx = pc.start(&config(2_000_000)).unwrap();
    assert_eq!(idx, 60);
    assert_eq!(pc.current_state(), PlayerState::Starting);
}

#[test]
fn video_death_while_starting_aborts_the_session() {
    let mut pc = PlaybackController::new();
    pc.start(&config(0)).unwrap();
    assert!(pc.video_thread_ended());
    assert_eq!(pc.current_state(), PlayerState::Stopped);
    // After readiness, the video stream ending is a natural completion.
    pc.start(&config(0)).unwrap();
    assert!(pc.observe_readiness(true));
    assert!(!pc.video_thread_ended());
    assert_eq!(pc.current_state(), PlayerState::Playing);
}

#[test]
fn start_rejects_bad_configurations() {
    let mut pc = PlaybackController::new();
    let mut empty = config(0);
    empty.input_path = String::new();
    assert_eq!(pc.start(&empty), Err(StartError::NothingToPlay));
    // A path of nothing but white space names no file either.
    let mut spaces = config(0);
    spaces.input_path = " \t ".to_string();
    assert_eq!(pc.start(&spaces), Err(StartError::NothingToPlay));
    let mut wide_space = config(0);
    wide_space.input_path = "\u{2003}\u{00A0}".to_string();
    assert_eq!(pc.start(&wide_space), Err(StartError::NothingToPlay));
    let mut padded = config(0);
    padded.input_path = " movie.mp4 ".to_string();
    assert!(pc.start(&padded).is_ok());
    let mut zero = config(0);
    zero.duration_us = 0;
    assert_eq!(pc.start(&zero), Err(StartError::NothingToPlay));
    let mut bad_fmt = config(0);
    bad_fmt.fmt.sample_rate = 0;
    assert_eq!(pc.start(&bad_fmt), Err(StartError::BadAudioFormat));
    let mut slow = config(0);
    slow.rate = FrameRate { num: 1, den: 2 };
    assert_eq!(pc.start(&slow), Err(StartError::BadFrameRate));
    let mut far = config(u64::MAX / 1000);
    far.rate = FrameRate { num: 4_000_000_000, den: 1 };
    assert_eq!(pc.start(&far), Err(StartError::BeyondPacingRange));
    assert_eq!(pc.current_state(), PlayerState::Stopped);
}
