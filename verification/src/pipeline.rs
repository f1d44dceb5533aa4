//! Decisions of the playback pipeline: which threads a start spawns, what the
//! decode loops and the render loop do at each turn, and how a frame's time
//! becomes the playback position. The loops themselves, which wait on channels
//! and sleep, run outside; they hand each observation to these functions and
//! perform the action they return. Times are in microseconds.
use vstd::prelude::*;

use crate::avsync::VideoSyncDecision;
use crate::event::{AudioInfo, VideoInfo};
use crate::media::{route_packet, spec_route, MediaInfo, PacketRoute};

verus! {

/// A pending seek.
#[derive(Clone, Copy, Debug, PartialEq, Eq, Structural)]
pub struct SeekRequest {
    /// Where to seek to.
    pub target_us: i64,
    /// The playback position when the seek was requested.
    pub from_us: u64,
}

/// Handles that the player keeps of a pipeline.
pub struct PipelineHandles {
    _placeholder: (),
}

impl PipelineHandles {
    /// The handles of a pipeline.
    pub fn new() -> (h: PipelineHandles) {
        PipelineHandles { _placeholder: () }
    }
}

/// The threads and the audio output that a pipeline start sets up.
#[derive(Clone, Copy, Debug)]
pub struct PipelinePlan {
    /// Whether a video decode thread runs.
    pub video_decoder: bool,
    /// Whether an audio decode thread runs.
    pub audio_decoder: bool,
    /// The sample rate and channel count that the audio output is opened
    /// with, if it is opened.
    pub audio_output: Option<(u32, u32)>,
}

/// What a pipeline start sets up: a video decoder where the demuxer has a video
/// codec context or the file has a video stream description; likewise for
/// audio; the audio output opened with the audio stream's description, else
/// with the file's sample rate and channels where that rate is not 0.
pub open spec fn spec_pipeline_plan(
    has_video_context: bool,
    has_audio_context: bool,
    video_info: Option<VideoInfo>,
    audio_info: Option<AudioInfo>,
    info: MediaInfo,
) -> PipelinePlan {
    PipelinePlan {
        video_decoder: has_video_context || video_info is Some,
        audio_decoder: has_audio_context || audio_info is Some,
        audio_output: match audio_info {
            Some(ai) => Some((ai.sample_rate, ai.channels)),
            None => if info.sample_rate > 0 { Some((info.sample_rate, info.channels)) } else { None },
        },
    }
}

/// What a pipeline start sets up (see `spec_pipeline_plan`).
pub fn pipeline_plan(
    has_video_context: bool,
    has_audio_context: bool,
    video_info: &Option<VideoInfo>,
    audio_info: &Option<AudioInfo>,
    info: &MediaInfo,
) -> (p: PipelinePlan)
    ensures
        p == spec_pipeline_plan(has_video_context, has_audio_context, *video_info, *audio_info, *info),
{
    let audio_output = match audio_info {
        Some(ai) => Some((ai.sample_rate, ai.channels)),
        None => if info.sample_rate > 0 { Some((info.sample_rate, info.channels)) } else { None },
    };
    PipelinePlan {
        video_decoder: has_video_context || video_info.is_some(),
        audio_decoder: has_audio_context || audio_info.is_some(),
        audio_output,
    }
}

/// A time in microseconds as the pipeline stores it: unsigned, with negative
/// times at 0.
pub open spec fn spec_stored_micros(t_us: i64) -> u64 {
    if t_us < 0 { 0 } else { t_us as u64 }
}

/// A time in microseconds as the pipeline stores it (its duration, its
/// position): negative times become 0.
pub fn stored_micros(t_us: i64) -> (r: u64)
    ensures
        r == spec_stored_micros(t_us),
{
    if t_us < 0 {
        0
    } else {
        t_us as u64
    }
}

/// What the demux loop does at the top of a turn.
#[derive(Clone, Copy, Debug, PartialEq, Eq, Structural)]
pub enum DemuxTurn {
    /// Leave the loop.
    Exit,
    /// Seek the demuxer to `target_us`, move the seek generation on by one,
    /// reset the A/V clock to `target_us` and queue a seek marker for each
    /// decoder; then read.
    Seek { target_us: i64 },
    /// Read the next packet.
    Read,
}

/// The demux loop leaves once shutdown is asked; else it serves a pending
/// seek before it reads on.
pub open spec fn spec_demux_turn(shutdown: bool, pending: Option<SeekRequest>) -> DemuxTurn {
    if shutdown {
        DemuxTurn::Exit
    } else {
        match pending {
            Some(r) => DemuxTurn::Seek { target_us: r.target_us },
            None => DemuxTurn::Read,
        }
    }
}

/// What the demux loop does at the top of a turn (see `spec_demux_turn`);
/// `pending` is the seek request taken from the pipeline, if there was one.
pub fn demux_turn(shutdown: bool, pending: Option<SeekRequest>) -> (t: DemuxTurn)
    ensures
        t == spec_demux_turn(shutdown, pending),
{
    if shutdown {
        DemuxTurn::Exit
    } else {
        match pending {
            Some(r) => DemuxTurn::Seek { target_us: r.target_us },
            None => DemuxTurn::Read,
        }
    }
}

/// What a read of the demuxer gave back.
#[derive(Clone, Copy, Debug, PartialEq, Eq, Structural)]
pub enum DemuxRead {
    /// A packet of the stream `stream_index`.
    Packet { stream_index: usize },
    /// The end of the file.
    EndOfStream,
    /// A read error.
    Failed,
}

/// What the demux loop does with what it read.
#[derive(Clone, Copy, Debug, PartialEq, Eq, Structural)]
pub enum DemuxAction {
    /// Send the packet to the video decoder (leave the loop if that fails).
    SendVideo,
    /// Send the packet to the audio decoder (leave the loop if that fails).
    SendAudio,
    /// Drop the packet and read on.
    Skip,
    /// Mark the demuxing complete and leave the loop.
    Finish,
    /// Leave the loop.
    Exit,
}

/// A packet goes where its stream routes it (dropped where the file's streams
/// are not known); the end of the file completes the demuxing; an error ends
/// the loop.
pub open spec fn spec_demux_action(info: Option<MediaInfo>, read: DemuxRead) -> DemuxAction {
    match read {
        DemuxRead::Packet { stream_index } => match info {
            Some(i) => match spec_route(i, stream_index) {
                PacketRoute::Video => DemuxAction::SendVideo,
                PacketRoute::Audio => DemuxAction::SendAudio,
                PacketRoute::Discard => DemuxAction::Skip,
            },
            None => DemuxAction::Skip,
        },
        DemuxRead::EndOfStream => DemuxAction::Finish,
        DemuxRead::Failed => DemuxAction::Exit,
    }
}

/// What the demux loop does with what it read (see `spec_demux_action`).
pub fn demux_action(info: &Option<MediaInfo>, read: DemuxRead) -> (a: DemuxAction)
    ensures
        a == spec_demux_action(*info, read),
{
    match read {
        DemuxRead::Packet { stream_index } => match info {
            Some(i) => match route_packet(i, stream_index) {
                PacketRoute::Video => DemuxAction::SendVideo,
                PacketRoute::Audio => DemuxAction::SendAudio,
                PacketRoute::Discard => DemuxAction::Skip,
            },
            None => DemuxAction::Skip,
        },
        DemuxRead::EndOfStream => DemuxAction::Finish,
        DemuxRead::Failed => DemuxAction::Exit,
    }
}

/// A video decode loop keeps at most this many decoded frames waiting.
pub const MAX_VIDEO_BUFFER_FRAMES: usize = 8;

/// What a decode loop does next.
#[derive(Clone, Copy, Debug, PartialEq, Eq, Structural)]
pub enum DecodeStep {
    /// Leave the loop.
    Exit,
    /// Sleep this many milliseconds, then look again.
    Sleep(u64),
    /// Wait for the next packet; flush the decoder first where asked.
    Receive { flush: bool },
}

/// A decode loop's memory: the seek generation that it last flushed for.
#[derive(Clone, Copy, Debug, PartialEq, Eq, Structural)]
pub struct DecodeLoop {
    pub last_seek_gen: u64,
}

/// One turn of a decode loop: leave on shutdown; sleep 10 ms while paused;
/// sleep 5 ms while the output holds `MAX_VIDEO_BUFFER_FRAMES` frames or more
/// (only the video loop reports its output); else receive, flushing the decoder
/// first where the seek generation moved since the last flush.
pub open spec fn spec_decode_step(
    last_seek_gen: u64,
    shutdown: bool,
    paused: bool,
    buffered: Option<usize>,
    seek_gen: u64,
) -> (u64, DecodeStep) {
    if shutdown {
        (last_seek_gen, DecodeStep::Exit)
    } else if paused {
        (last_seek_gen, DecodeStep::Sleep(10))
    } else if buffered matches Some(n) && n >= MAX_VIDEO_BUFFER_FRAMES {
        (last_seek_gen, DecodeStep::Sleep(5))
    } else if seek_gen != last_seek_gen {
        (seek_gen, DecodeStep::Receive { flush: true })
    } else {
        (last_seek_gen, DecodeStep::Receive { flush: false })
    }
}

impl DecodeLoop {
    /// A loop that has not flushed yet (generation 0).
    pub fn new() -> (d: DecodeLoop)
        ensures
            d.last_seek_gen == 0,
    {
        DecodeLoop { last_seek_gen: 0 }
    }

    /// One turn of the loop (see `spec_decode_step`).
    pub fn step(&mut self, shutdown: bool, paused: bool, buffered: Option<usize>, seek_gen: u64) -> (s: DecodeStep)
        ensures
            (final(self).last_seek_gen, s) == spec_decode_step(old(self).last_seek_gen, shutdown, paused, buffered, seek_gen),
    {
        if shutdown {
            return DecodeStep::Exit;
        }
        if paused {
            return DecodeStep::Sleep(10);
        }
        match buffered {
            Some(n) => if n >= MAX_VIDEO_BUFFER_FRAMES {
                return DecodeStep::Sleep(5);
            },
            None => {},
        }
        if seek_gen != self.last_seek_gen {
            self.last_seek_gen = seek_gen;
            DecodeStep::Receive { flush: true }
        } else {
            DecodeStep::Receive { flush: false }
        }
    }
}

/// Without frames, the render loop ends playback after this many empty waits
/// once the demuxer is done.
pub const END_IDLE_LIMIT: u32 = 20;

/// What the render loop does at the top of a turn.
#[derive(Clone, Copy, Debug, PartialEq, Eq, Structural)]
pub enum RenderPoll {
    /// Leave the loop.
    Exit,
    /// Report the end of the file (the window was closed), then leave.
    EndStopped,
    /// Sleep 10 ms, then look again.
    Idle,
    /// Wait for the next frame.
    Receive,
}

/// The top of a render loop turn: leave on shutdown; end the file when the
/// window is closed; idle while paused; else receive.
pub open spec fn spec_render_poll(shutdown: bool, window_closed: bool, paused: bool) -> RenderPoll {
    if shutdown {
        RenderPoll::Exit
    } else if window_closed {
        RenderPoll::EndStopped
    } else if paused {
        RenderPoll::Idle
    } else {
        RenderPoll::Receive
    }
}

/// The top of a render loop turn (see `spec_render_poll`).
pub fn render_poll(shutdown: bool, window_closed: bool, paused: bool) -> (r: RenderPoll)
    ensures
        r == spec_render_poll(shutdown, window_closed, paused),
{
    if shutdown {
        RenderPoll::Exit
    } else if window_closed {
        RenderPoll::EndStopped
    } else if paused {
        RenderPoll::Idle
    } else {
        RenderPoll::Receive
    }
}

/// What the render loop does with a frame once the clock has decided.
#[derive(Clone, Copy, Debug, PartialEq, Eq, Structural)]
pub struct FrameAction {
    /// Microseconds to sleep before showing the frame.
    pub wait_us: i64,
    /// Whether the frame is shown.
    pub show: bool,
    /// The playback position to store.
    pub position_us: u64,
}

/// A displayed or waited-for frame is shown (after the wait); a dropped frame is
/// not; either way the position moves to the frame's time, so that progress
/// keeps moving.
pub open spec fn spec_frame_action(d: VideoSyncDecision, pts_us: i64) -> FrameAction {
    match d {
        VideoSyncDecision::Display => FrameAction { wait_us: 0, show: true, position_us: spec_stored_micros(pts_us) },
        VideoSyncDecision::Wait(w) => FrameAction { wait_us: w, show: true, position_us: spec_stored_micros(pts_us) },
        VideoSyncDecision::Drop => FrameAction { wait_us: 0, show: false, position_us: spec_stored_micros(pts_us) },
    }
}

/// What the render loop does with a frame of time `pts_us` (see
/// `spec_frame_action`).
pub fn frame_action(d: VideoSyncDecision, pts_us: i64) -> (r: FrameAction)
    ensures
        r == spec_frame_action(d, pts_us),
{
    let position_us = stored_micros(pts_us);
    match d {
        VideoSyncDecision::Display => FrameAction { wait_us: 0, show: true, position_us },
        VideoSyncDecision::Wait(w) => FrameAction { wait_us: w, show: true, position_us },
        VideoSyncDecision::Drop => FrameAction { wait_us: 0, show: false, position_us },
    }
}

/// The render loop's memory: when it showed its first frame (on a monotonic
/// clock in microseconds) and how many empty waits it has seen in a row.
#[derive(Clone, Copy, Debug, PartialEq, Eq, Structural)]
pub struct RenderTracker {
    pub render_start_us: Option<u64>,
    pub idle_count: u32,
}

/// Whether playback has lasted the file's duration: the time since the first
/// frame is at least `duration_us`.
pub open spec fn spec_duration_reached(t: RenderTracker, now_us: u64, duration_us: u64) -> bool {
    match t.render_start_us {
        Some(start) => now_us >= start && now_us - start >= duration_us,
        None => false,
    }
}

/// A wait for a frame that timed out: with no video stream, nothing ends;
/// otherwise, once the demuxer is done, the file ends where its duration has
/// passed, else after `END_IDLE_LIMIT` empty waits in a row. Returns the next
/// memory and whether the file ends.
pub open spec fn spec_on_timeout(
    t: RenderTracker,
    has_video: bool,
    demux_complete: bool,
    now_us: u64,
    duration_us: u64,
) -> (RenderTracker, bool) {
    if !has_video || !demux_complete {
        (t, false)
    } else if spec_duration_reached(t, now_us, duration_us) {
        (t, true)
    } else {
        let idle = if t.idle_count == u32::MAX { u32::MAX } else { (t.idle_count + 1) as u32 };
        (RenderTracker { idle_count: idle, ..t }, idle >= END_IDLE_LIMIT)
    }
}

impl RenderTracker {
    /// A loop that has shown no frame.
    pub fn new() -> (t: RenderTracker)
        ensures
            t.render_start_us is None,
            t.idle_count == 0,
    {
        RenderTracker { render_start_us: None, idle_count: 0 }
    }

    /// A frame arrived at `now_us`: the empty waits start over, and the first
    /// frame marks the start of playback. Returns whether it is the first.
    pub fn on_frame(&mut self, now_us: u64) -> (first: bool)
        ensures
            first == (old(self).render_start_us is None),
            final(self).idle_count == 0,
            final(self).render_start_us == if first { Some(now_us) } else { old(self).render_start_us },
    {
        self.idle_count = 0;
        if self.render_start_us.is_none() {
            self.render_start_us = Some(now_us);
            true
        } else {
            false
        }
    }

    /// Whether playback has lasted `duration_us` at `now_us` (see
    /// `spec_duration_reached`).
    pub fn duration_reached(&self, now_us: u64, duration_us: u64) -> (r: bool)
        ensures
            r == spec_duration_reached(*self, now_us, duration_us),
    {
        match self.render_start_us {
            Some(start) => now_us >= start && now_us - start >= duration_us,
            None => false,
        }
    }

    /// A wait for a frame timed out (see `spec_on_timeout`); returns whether
    /// the file ends.
    pub fn on_timeout(&mut self, has_video: bool, demux_complete: bool, now_us: u64, duration_us: u64) -> (end: bool)
        ensures
            (*final(self), end) == spec_on_timeout(*old(self), has_video, demux_complete, now_us, duration_us),
    {
        if !has_video || !demux_complete {
            return false;
        }
        if self.duration_reached(now_us, duration_us) {
            return true;
        }
        self.idle_count = self.idle_count.saturating_add(1);
        self.idle_count >= END_IDLE_LIMIT
    }
}

/// A decode loop flushes once per seek: a turn that receives with the same seek
/// generation as the last flush does not flush again.
pub proof fn lemma_flush_once_per_seek(last_seek_gen: u64, seek_gen: u64, buffered: Option<usize>)
    ensures
        ({
            let (g, st) = spec_decode_step(last_seek_gen, false, false, buffered, seek_gen);
            &&& st matches DecodeStep::Receive { flush } ==> g == seek_gen
                && flush == (seek_gen != last_seek_gen)
            &&& spec_decode_step(g, false, false, buffered, seek_gen).1 matches DecodeStep::Receive { flush }
                ==> !flush
        }),
{
}

/// Once the demuxer is done, every empty wait of a video file either ends the
/// file or counts one more; the count reaching `END_IDLE_LIMIT` ends it.
pub proof fn lemma_idle_waits_end_file(t: RenderTracker, now_us: u64, duration_us: u64)
    requires
        t.idle_count < END_IDLE_LIMIT,
    ensures
        ({
            let (t2, end) = spec_on_timeout(t, true, true, now_us, duration_us);
            &&& end || t2.idle_count == t.idle_count + 1
            &&& t.idle_count + 1 >= END_IDLE_LIMIT ==> end
        }),
{
}

/// A file without video never ends by an empty wait.
pub proof fn lemma_audio_only_never_idles_out(t: RenderTracker, demux_complete: bool, now_us: u64, duration_us: u64)
    ensures
        spec_on_timeout(t, false, demux_complete, now_us, duration_us) == (t, false),
{
}

/// The demux loop: once shutdown is asked it leaves before it seeks or reads;
/// otherwise it seeks to a pending request's target before it reads; a packet
/// goes to the decoder of the played video or audio stream, any other is
/// dropped; the end of the file completes the demuxing and ends the loop, and
/// a read error ends it without completing it.
pub proof fn lemma_demux_loop(pending: Option<SeekRequest>, info: MediaInfo, stream_index: usize)
    ensures
        spec_demux_turn(true, pending) == DemuxTurn::Exit,
        pending matches Some(r) ==> spec_demux_turn(false, pending) == (DemuxTurn::Seek { target_us: r.target_us }),
        pending is None ==> spec_demux_turn(false, pending) == DemuxTurn::Read,
        info.video_stream_index == Some(stream_index)
            ==> spec_demux_action(Some(info), DemuxRead::Packet { stream_index }) == DemuxAction::SendVideo,
        info.video_stream_index != Some(stream_index) && info.audio_stream_index == Some(stream_index)
            ==> spec_demux_action(Some(info), DemuxRead::Packet { stream_index }) == DemuxAction::SendAudio,
        info.video_stream_index != Some(stream_index) && info.audio_stream_index != Some(stream_index)
            ==> spec_demux_action(Some(info), DemuxRead::Packet { stream_index }) == DemuxAction::Skip,
        spec_demux_action(Some(info), DemuxRead::EndOfStream) == DemuxAction::Finish,
        spec_demux_action(Some(info), DemuxRead::Failed) == DemuxAction::Exit,
{
}

/// Whatever the decision, the render loop moves the position to the frame's
/// time (a negative time counts as 0), so that progress keeps moving even over
/// dropped frames; only a dropped frame is not shown, and only a wait sleeps.
pub proof fn lemma_frame_action_moves_position(d: VideoSyncDecision, pts_us: i64)
    ensures
        spec_frame_action(d, pts_us).position_us == (if pts_us < 0 { 0 } else { pts_us as int }),
        spec_frame_action(d, pts_us).show <==> !(d is Drop),
        d matches VideoSyncDecision::Wait(w) ==> spec_frame_action(d, pts_us).wait_us == w,
        !(d is Wait) ==> spec_frame_action(d, pts_us).wait_us == 0,
{
}

} // verus!
