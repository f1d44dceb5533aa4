use std::time::{Duration, Instant};

use raptor::avsync::{AVSync, ClockState, VideoSyncDecision, MAX_WAIT_US};

#[test]
fn test_avsync_new() {
    let sync = AVSync::new();
    assert_eq!(sync.master_clock(), 0);
    assert_eq!(sync.video_clock(), 0);
}

#[test]
fn test_set_first_frame_time() {
    let mut sync = AVSync::new();
    sync.set_first_frame_time(1_500_000);
    let clock = sync.master_clock();
    // Just set: the clock is close to 1.5 s.
    assert!((clock - 1_500_000).abs() < 100_000);
}

#[test]
fn test_video_sync_decision_display() {
    let mut sync = AVSync::new();
    sync.set_first_frame_time(0);
    // A frame at the clock's time is shown.
    let decision = sync.video_sync_decision(0);
    assert!(matches!(decision, VideoSyncDecision::Display));
}

#[test]
fn test_video_sync_decision_wait() {
    let mut sync = AVSync::new();
    sync.set_first_frame_time(0);
    // A frame far ahead is waited for.
    let decision = sync.video_sync_decision(10_000_000);
    assert!(matches!(decision, VideoSyncDecision::Wait(_)));
}

#[test]
fn test_video_sync_decision_drop() {
    let mut sync = AVSync::new();
    sync.set_first_frame_time(0);
    // 200 ms later a frame at 0 is far behind: dropped.
    let decision = sync.video_sync_decision_at(0, 200_000, Instant::now());
    assert!(matches!(decision, VideoSyncDecision::Drop));
}

#[test]
fn test_reset() {
    let mut sync = AVSync::new();
    sync.set_first_frame_time(1_000_000);
    sync.update_video_clock(1_500_000);
    sync.reset(5_000_000);
    assert_eq!(sync.video_clock(), 0);
    // After a reset the clock is stopped: the master clock is 0.
    assert_eq!(sync.master_clock(), 0);
}

#[test]
fn default_matches_new() {
    let a = AVSync::new();
    let b = AVSync::default();
    assert_eq!(a.master_clock(), b.master_clock());
    assert_eq!(a.video_clock(), b.video_clock());
}

#[test]
fn display_decision_before_start() {
    let mut sync = AVSync::new();
    // Without a first frame every frame is shown.
    let decision = sync.video_sync_decision(5_000_000);
    assert!(matches!(decision, VideoSyncDecision::Display));
}

#[test]
fn first_frame_only_set_once() {
    let mut sync = AVSync::new();
    sync.set_first_frame_time(1_000_000);
    sync.set_first_frame_time(99_000_000); // ignored
    let clock = sync.master_clock();
    assert!((clock - 1_000_000).abs() < 500_000);
}

#[test]
fn update_video_clock_records_pts() {
    let mut sync = AVSync::new();
    sync.update_video_clock(2_710_000);
    assert_eq!(sync.video_clock(), 2_710_000);
}

#[test]
fn consecutive_drops_trigger_resync() {
    let mut sync = AVSync::new();
    sync.set_first_frame_time(0);

    // 300 ms later frames at 0 lag by more than the threshold: four drops.
    for _ in 0..4 {
        let decision = sync.video_sync_decision_at(0, 300_000, Instant::now());
        assert!(matches!(decision, VideoSyncDecision::Drop));
    }

    // The fifth re-bases the clock and is shown.
    let decision = sync.video_sync_decision_at(0, 300_000, Instant::now());
    assert!(
        matches!(decision, VideoSyncDecision::Display),
        "Expected Display after 5 consecutive drops, got {:?}",
        decision
    );
}

// === Further cases, on the clock state with explicit elapsed times ===

fn started(base: i64) -> ClockState {
    let mut s = ClockState::new();
    assert!(s.set_first_frame_time(base));
    s
}

#[test]
fn wait_is_capped() {
    let mut s = started(0);
    assert_eq!(s.sync_step(30_000, 0), (VideoSyncDecision::Wait(30_000), false));
    assert_eq!(s.sync_step(10_000_000, 0), (VideoSyncDecision::Wait(MAX_WAIT_US), false));
    // 10 ms ahead exactly is not waited for.
    assert_eq!(s.sync_step(10_000, 0), (VideoSyncDecision::Display, false));
}

#[test]
fn large_drift_resyncs_at_once() {
    let mut s = started(1_000_000);
    let (d, restart) = s.sync_step(0, 2_500_000);
    assert_eq!(d, VideoSyncDecision::Display);
    assert!(restart);
    assert_eq!(s.base_pts_us, 0);
    assert_eq!(s.consecutive_drops, 0);
    assert_eq!(s.master_clock_at(0), 0);
}

#[test]
fn on_time_frame_clears_drops() {
    let mut s = started(0);
    assert_eq!(s.sync_step(0, 200_000).0, VideoSyncDecision::Drop);
    assert_eq!(s.consecutive_drops, 1);
    assert_eq!(s.sync_step(200_000, 200_000).0, VideoSyncDecision::Display);
    assert_eq!(s.consecutive_drops, 0);
}

#[test]
fn master_clock_before_and_after_start() {
    let s = ClockState::new();
    assert_eq!(s.master_clock_at(1_000), 0);
    let s = started(2_000_000);
    assert_eq!(s.master_clock_at(500_000), 2_500_000);
    assert_eq!(started(i64::MAX).master_clock_at(10), i64::MAX);
}

#[test]
fn reset_then_decision_displays() {
    let mut sync = AVSync::new();
    sync.set_first_frame_time(0);
    sync.reset(7_000_000);
    assert!(!sync.is_started());
    assert_eq!(sync.video_sync_decision_at(0, 10_000_000, Instant::now()), VideoSyncDecision::Display);
}

#[test]
fn second_first_frame_time_keeps_start_instant() {
    let mut sync = AVSync::new();
    assert_eq!(sync.start_instant(), None);
    let t0 = Instant::now();
    sync.set_first_frame_time_at(1_000_000, t0);
    assert_eq!(sync.start_instant(), Some(t0));
    sync.set_first_frame_time_at(99_000_000, t0 + Duration::from_secs(5));
    assert_eq!(sync.start_instant(), Some(t0));
    sync.set_first_frame_time(42);
    assert_eq!(sync.start_instant(), Some(t0));
    sync.update_video_clock(7);
    assert_eq!(sync.start_instant(), Some(t0));
    sync.reset(0);
    assert_eq!(sync.start_instant(), None);
}

#[test]
fn resync_restarts_the_clock_from_the_given_instant() {
    let mut sync = AVSync::new();
    let t0 = Instant::now();
    sync.set_first_frame_time_at(0, t0);
    let later = t0 + Duration::from_millis(300);
    for _ in 0..4 {
        assert_eq!(sync.video_sync_decision_at(0, 300_000, later), VideoSyncDecision::Drop);
        assert_eq!(sync.start_instant(), Some(t0));
    }
    assert_eq!(sync.video_sync_decision_at(0, 300_000, later), VideoSyncDecision::Display);
    assert_eq!(sync.start_instant(), Some(later));
    // Counted from the new instant, the clock reads the frame's pts again.
    assert_eq!(sync.video_sync_decision_at(0, 0, later), VideoSyncDecision::Display);
}
