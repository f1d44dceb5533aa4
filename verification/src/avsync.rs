//! A/V synchronisation with the wall clock as master clock.
//!
//! The master clock is `elapsed since the first frame + base pts`, so it advances
//! with real time whatever the decoding speed. Each video frame's pts is compared
//! with it to decide whether to display, wait or drop the frame.
//!
//! When too many frames in a row are dropped, or the drift grows too large, the
//! master clock is re-based onto the current frame's pts, so that a lagging
//! video cannot freeze the picture for good.
//!
//! All times are in microseconds.
use vstd::prelude::*;

use crate::clock::{elapsed_micros, instant_now};
use std::time::Instant;

verus! {

/// A video frame that lags the master clock by more than this is dropped.
pub const MAX_SYNC_THRESHOLD_US: i64 = 100_000;

/// After this many drops in a row the master clock is re-based.
pub const MAX_CONSECUTIVE_DROPS: u32 = 5;

/// A lag larger than this re-bases the master clock at once.
pub const MAX_DRIFT_US: i64 = 2_000_000;

/// A frame ahead of the master clock by more than this is waited for.
pub const WAIT_THRESHOLD_US: i64 = 10_000;

/// The longest wait before a frame is shown.
pub const MAX_WAIT_US: i64 = 50_000;

/// What to do with a video frame.
#[derive(Clone, Copy, Debug, PartialEq, Eq, Structural)]
pub enum VideoSyncDecision {
    /// Show it now.
    Display,
    /// Wait this many microseconds, then show it.
    Wait(i64),
    /// Drop it (it is too late).
    Drop,
}

/// The clock's state, without the instant at which it started.
#[derive(Clone, Copy, Debug, PartialEq, Eq, Structural)]
pub struct ClockState {
    /// Whether the first frame has set the clock's base.
    pub started: bool,
    /// The pts that the master clock showed when it (re)started.
    pub base_pts_us: i64,
    /// The pts of the last frame handed to the output (diagnostics).
    pub video_clock_us: i64,
    /// Frames dropped in a row.
    pub consecutive_drops: u32,
}

/// The master clock after `elapsed_us` since the clock started; 0 before the
/// first frame.
pub open spec fn spec_master_clock(s: ClockState, elapsed_us: int) -> int {
    if s.started {
        elapsed_us + s.base_pts_us
    } else {
        0
    }
}

/// One synchronisation decision: the next clock state, the decision, and
/// whether the clock restarts (its instant is taken anew and its base is the
/// frame's pts).
pub open spec fn spec_sync_step(s: ClockState, frame_pts_us: int, elapsed_us: int) -> (ClockState, VideoSyncDecision, bool) {
    if !s.started {
        (s, VideoSyncDecision::Display, false)
    } else {
        let diff = frame_pts_us - (elapsed_us + s.base_pts_us);
        if diff > WAIT_THRESHOLD_US {
            let w = if diff < MAX_WAIT_US { diff } else { MAX_WAIT_US as int };
            (ClockState { consecutive_drops: 0, ..s }, VideoSyncDecision::Wait(w as i64), false)
        } else if diff < -MAX_SYNC_THRESHOLD_US {
            let drops = s.consecutive_drops + 1;
            if drops >= MAX_CONSECUTIVE_DROPS || -diff > MAX_DRIFT_US {
                (
                    ClockState { base_pts_us: frame_pts_us as i64, consecutive_drops: 0, ..s },
                    VideoSyncDecision::Display,
                    true,
                )
            } else {
                (ClockState { consecutive_drops: drops as u32, ..s }, VideoSyncDecision::Drop, false)
            }
        } else {
            (ClockState { consecutive_drops: 0, ..s }, VideoSyncDecision::Display, false)
        }
    }
}

impl ClockState {
    /// The clock's state invariant: fewer drops in a row than the re-base limit.
    pub open spec fn wf(self) -> bool {
        self.consecutive_drops < MAX_CONSECUTIVE_DROPS
    }

    /// A clock that has not started, with base 0.
    pub fn new() -> (s: ClockState)
        ensures
            s == (ClockState { started: false, base_pts_us: 0, video_clock_us: 0, consecutive_drops: 0 }),
            s.wf(),
    {
        ClockState { started: false, base_pts_us: 0, video_clock_us: 0, consecutive_drops: 0 }
    }

    /// The master clock after `elapsed_us`, saturated to the range of `i64`.
    pub fn master_clock_at(&self, elapsed_us: u64) -> (r: i64)
        ensures
            r == clamp_i64(spec_master_clock(*self, elapsed_us as int)),
    {
        if self.started {
            let sum: i128 = elapsed_us as i128 + self.base_pts_us as i128;
            saturate_i64(sum)
        } else {
            0
        }
    }

    /// One synchronisation decision for a frame with pts `frame_pts_us`, the
    /// clock having run `elapsed_us` since it started. Returns the decision and
    /// whether the clock restarts.
    pub fn sync_step(&mut self, frame_pts_us: i64, elapsed_us: u64) -> (r: (VideoSyncDecision, bool))
        requires
            old(self).wf(),
        ensures
            (*final(self), r.0, r.1) == spec_sync_step(*old(self), frame_pts_us as int, elapsed_us as int),
            final(self).wf(),
    {
        if !self.started {
            return (VideoSyncDecision::Display, false);
        }
        let clock: i128 = elapsed_us as i128 + self.base_pts_us as i128;
        let diff: i128 = frame_pts_us as i128 - clock;
        if diff > WAIT_THRESHOLD_US as i128 {
            self.consecutive_drops = 0;
            let w: i64 = if diff < MAX_WAIT_US as i128 { diff as i64 } else { MAX_WAIT_US };
            (VideoSyncDecision::Wait(w), false)
        } else if diff < -(MAX_SYNC_THRESHOLD_US as i128) {
            let drops: u32 = self.consecutive_drops + 1;
            if drops >= MAX_CONSECUTIVE_DROPS || -diff > MAX_DRIFT_US as i128 {
                self.base_pts_us = frame_pts_us;
                self.consecutive_drops = 0;
                (VideoSyncDecision::Display, true)
            } else {
                self.consecutive_drops = drops;
                (VideoSyncDecision::Drop, false)
            }
        } else {
            self.consecutive_drops = 0;
            (VideoSyncDecision::Display, false)
        }
    }

    /// Sets the clock's base from the first frame; later calls change nothing.
    /// Returns whether the clock started now.
    pub fn set_first_frame_time(&mut self, pts_us: i64) -> (started_now: bool)
        ensures
            started_now == !old(self).started,
            *final(self) == if old(self).started {
                *old(self)
            } else {
                ClockState { started: true, base_pts_us: pts_us, ..*old(self) }
            },
    {
        if !self.started {
            self.started = true;
            self.base_pts_us = pts_us;
            true
        } else {
            false
        }
    }

    /// Records the pts of the last frame handed to the output.
    pub fn update_video_clock(&mut self, pts_us: i64)
        ensures
            *final(self) == (ClockState { video_clock_us: pts_us, ..*old(self) }),
    {
        self.video_clock_us = pts_us;
    }

    /// Stops the clock (after a seek): the next first frame restarts it.
    pub fn reset(&mut self, seek_target_us: i64)
        ensures
            *final(self) == (ClockState {
                started: false,
                base_pts_us: seek_target_us,
                video_clock_us: 0,
                consecutive_drops: 0,
            }),
    {
        self.started = false;
        self.base_pts_us = seek_target_us;
        self.video_clock_us = 0;
        self.consecutive_drops = 0;
    }
}

/// `v` saturated to the range of `i64`.
pub open spec fn clamp_i64(v: int) -> int {
    if v > i64::MAX {
        i64::MAX as int
    } else if v < i64::MIN {
        i64::MIN as int
    } else {
        v
    }
}

fn saturate_i64(v: i128) -> (r: i64)
    ensures
        r == clamp_i64(v as int),
{
    if v > i64::MAX as i128 {
        i64::MAX
    } else if v < i64::MIN as i128 {
        i64::MIN
    } else {
        v as i64
    }
}

/// A/V synchroniser: the clock state and the instant at which the master clock
/// (re)started.
pub struct AVSync {
    state: ClockState,
    start_instant: Option<Instant>,
}

impl AVSync {
    #[verifier::type_invariant]
    spec fn inv(self) -> bool {
        &&& self.state.wf()
        &&& self.state.started <==> self.start_instant is Some
    }

    /// The clock's state.
    pub closed spec fn clock(self) -> ClockState {
        self.state
    }

    /// The instant from which the master clock counts, once it has started.
    pub closed spec fn started_at(self) -> Option<Instant> {
        self.start_instant
    }

    /// A synchroniser whose clock has not started.
    pub fn new() -> (s: AVSync)
        ensures
            s.clock() == (ClockState { started: false, base_pts_us: 0, video_clock_us: 0, consecutive_drops: 0 }),
            s.started_at() is None,
    {
        AVSync { state: ClockState::new(), start_instant: None }
    }

    /// The instant from which the master clock counts, once it has started.
    pub fn start_instant(&self) -> (r: Option<Instant>)
        ensures
            r == self.started_at(),
    {
        self.start_instant
    }

    /// Starts the master clock at the first frame's pts, counting from `now`;
    /// once the clock has started, a call changes nothing.
    pub fn set_first_frame_time_at(&mut self, pts_us: i64, now: Instant)
        ensures
            final(self).clock() == if old(self).clock().started {
                old(self).clock()
            } else {
                ClockState { started: true, base_pts_us: pts_us, ..old(self).clock() }
            },
            final(self).started_at() == if old(self).clock().started {
                old(self).started_at()
            } else {
                Some(now)
            },
    {
        proof { use_type_invariant(&*self); }
        if self.start_instant.is_none() {
            let mut st = self.state;
            st.set_first_frame_time(pts_us);
            *self = AVSync { state: st, start_instant: Some(now) };
        }
    }

    /// Starts the master clock at the first frame's pts, counting from the
    /// present instant; once the clock has started, a call changes nothing
    /// (see `set_first_frame_time_at`).
    pub fn set_first_frame_time(&mut self, pts_us: i64)
        ensures
            final(self).clock() == if old(self).clock().started {
                old(self).clock()
            } else {
                ClockState { started: true, base_pts_us: pts_us, ..old(self).clock() }
            },
            old(self).clock().started ==> final(self).started_at() == old(self).started_at(),
            final(self).started_at() is Some,
    {
        proof { use_type_invariant(&*self); }
        if !self.state.started {
            let now = instant_now();
            self.set_first_frame_time_at(pts_us, now);
        }
    }

    /// The master clock: 0 before the first frame, else the time elapsed since
    /// the clock started plus its base, saturated to `i64`.
    pub fn master_clock(&self) -> (r: i64)
        ensures
            !self.clock().started ==> r == 0,
            self.clock().started ==> exists|e: u64| #![trigger spec_master_clock(self.clock(), e as int)]
                r == clamp_i64(spec_master_clock(self.clock(), e as int)),
    {
        proof { use_type_invariant(self); }
        match &self.start_instant {
            Some(start) => {
                let e = elapsed_micros(start);
                self.state.master_clock_at(e)
            },
            None => 0,
        }
    }

    /// Decides what to do with a video frame of pts `frame_pts_us`, by the time
    /// elapsed since the clock started (see `spec_sync_step`); where the clock
    /// is re-based, it counts anew from the present instant.
    pub fn video_sync_decision(&mut self, frame_pts_us: i64) -> (r: VideoSyncDecision)
        ensures
            exists|e: u64| #![trigger spec_sync_step(old(self).clock(), frame_pts_us as int, e as int)] {
                let step = spec_sync_step(old(self).clock(), frame_pts_us as int, e as int);
                &&& final(self).clock() == step.0
                &&& r == step.1
                &&& !step.2 ==> final(self).started_at() == old(self).started_at()
                &&& step.2 ==> final(self).started_at() is Some
            },
    {
        proof { use_type_invariant(&*self); }
        let e: u64 = match &self.start_instant {
            Some(start) => elapsed_micros(start),
            None => 0,
        };
        let now = instant_now();
        let ghost before = *self;
        let d = self.video_sync_decision_at(frame_pts_us, e, now);
        assert(spec_sync_step(before.clock(), frame_pts_us as int, e as int).0 == self.clock());
        d
    }

    /// Decides what to do with a video frame when the clock has run
    /// `elapsed_us` since it started (see `spec_sync_step`); where the clock is
    /// re-based, it counts anew from `now`, else from the instant it counted
    /// from before.
    pub fn video_sync_decision_at(&mut self, frame_pts_us: i64, elapsed_us: u64, now: Instant) -> (r: VideoSyncDecision)
        ensures
            ({
                let step = spec_sync_step(old(self).clock(), frame_pts_us as int, elapsed_us as int);
                &&& final(self).clock() == step.0
                &&& r == step.1
                &&& final(self).started_at() == if step.2 { Some(now) } else { old(self).started_at() }
            }),
    {
        proof { use_type_invariant(&*self); }
        let mut st = self.state;
        let (d, restart) = st.sync_step(frame_pts_us, elapsed_us);
        if restart {
            *self = AVSync { state: st, start_instant: Some(now) };
        } else {
            self.state = st;
        }
        d
    }

    /// Records the pts of the last frame handed to the output.
    pub fn update_video_clock(&mut self, pts_us: i64)
        ensures
            final(self).clock() == (ClockState { video_clock_us: pts_us, ..old(self).clock() }),
            final(self).started_at() == old(self).started_at(),
    {
        proof { use_type_invariant(&*self); }
        let mut st = self.state;
        st.update_video_clock(pts_us);
        self.state = st;
    }

    /// Stops the clock after a seek to `seek_target_us`.
    pub fn reset(&mut self, seek_target_us: i64)
        ensures
            final(self).clock() == (ClockState {
                started: false,
                base_pts_us: seek_target_us,
                video_clock_us: 0,
                consecutive_drops: 0,
            }),
            final(self).started_at() is None,
    {
        proof { use_type_invariant(&*self); }
        let mut st = self.state;
        st.reset(seek_target_us);
        *self = AVSync { state: st, start_instant: None };
    }

    /// The pts of the last frame handed to the output.
    pub fn video_clock(&self) -> (r: i64)
        ensures
            r == self.clock().video_clock_us,
    {
        self.state.video_clock_us
    }

    /// Whether the clock has started.
    pub fn is_started(&self) -> (r: bool)
        ensures
            r == self.clock().started,
    {
        self.state.started
    }
}

impl Default for AVSync {
    fn default() -> (s: AVSync)
        ensures
            s.clock() == (ClockState { started: false, base_pts_us: 0, video_clock_us: 0, consecutive_drops: 0 }),
            s.started_at() is None,
    {
        AVSync::new()
    }
}

/// Before the first frame every frame is shown at once and the clock does not
/// change.
pub proof fn lemma_display_before_start(s: ClockState, frame_pts_us: int, elapsed_us: int)
    requires
        !s.started,
    ensures
        spec_sync_step(s, frame_pts_us, elapsed_us) == (s, VideoSyncDecision::Display, false),
{
}

/// A drop adds one to the drops in a row, which stay below the re-base limit;
/// any other decision clears them.
pub proof fn lemma_drop_streak_bounded(s: ClockState, frame_pts_us: i64, elapsed_us: u64)
    requires
        s.wf(),
    ensures
        ({
            let (s2, d, _) = spec_sync_step(s, frame_pts_us as int, elapsed_us as int);
            &&& s2.wf()
            &&& d is Drop ==> s2.consecutive_drops == s.consecutive_drops + 1
            &&& !(d is Drop) ==> s2.consecutive_drops == 0 || !s.started
        }),
{
}

/// When the clock is re-based, the master clock reads the frame's pts again at
/// the restart, and the frame is shown.
pub proof fn lemma_resync_matches_frame(s: ClockState, frame_pts_us: i64, elapsed_us: u64)
    requires
        s.wf(),
        spec_sync_step(s, frame_pts_us as int, elapsed_us as int).2,
    ensures
        spec_master_clock(spec_sync_step(s, frame_pts_us as int, elapsed_us as int).0, 0) == frame_pts_us,
        spec_sync_step(s, frame_pts_us as int, elapsed_us as int).1 is Display,
{
}

/// A wait is longer than the waiting threshold and no longer than the longest
/// wait.
pub proof fn lemma_wait_bounds(s: ClockState, frame_pts_us: i64, elapsed_us: u64)
    requires
        s.wf(),
    ensures
        spec_sync_step(s, frame_pts_us as int, elapsed_us as int).1 matches VideoSyncDecision::Wait(w)
            ==> WAIT_THRESHOLD_US < w <= MAX_WAIT_US,
{
}

/// A frame within the thresholds of the master clock is shown at once.
pub proof fn lemma_on_time_frame_displayed(s: ClockState, frame_pts_us: i64, elapsed_us: u64)
    requires
        s.started,
        -MAX_SYNC_THRESHOLD_US <= frame_pts_us - spec_master_clock(s, elapsed_us as int) <= WAIT_THRESHOLD_US,
    ensures
        spec_sync_step(s, frame_pts_us as int, elapsed_us as int).1 is Display,
        !spec_sync_step(s, frame_pts_us as int, elapsed_us as int).2,
{
}

/// Frames that keep lagging the master clock (by more than the drop threshold
/// but no more than the drift limit) are dropped `MAX_CONSECUTIVE_DROPS - 1`
/// times in a row; the next one re-bases the clock and is shown.
pub proof fn lemma_lagging_frames_resync(s: ClockState, frame_pts_us: i64, elapsed_us: u64)
    requires
        s.started,
        s.wf(),
        MAX_SYNC_THRESHOLD_US < spec_master_clock(s, elapsed_us as int) - frame_pts_us <= MAX_DRIFT_US,
    ensures
        ({
            let (s2, d, restart) = spec_sync_step(s, frame_pts_us as int, elapsed_us as int);
            if s.consecutive_drops + 1 < MAX_CONSECUTIVE_DROPS {
                d is Drop && !restart && s2.consecutive_drops == s.consecutive_drops + 1
            } else {
                d is Display && restart && s2.consecutive_drops == 0
            }
        }),
{
}

/// A reset stops the clock: the next frame is shown whatever its pts.
pub proof fn lemma_reset_then_display(s: ClockState, seek_target_us: i64, frame_pts_us: int, elapsed_us: int)
    ensures
        ({
            let r = ClockState { started: false, base_pts_us: seek_target_us, video_clock_us: 0, consecutive_drops: 0 };
            &&& r.wf()
            &&& spec_sync_step(r, frame_pts_us, elapsed_us).1 is Display
        }),
{
}

} // verus!
