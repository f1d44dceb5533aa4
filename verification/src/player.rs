//! The player's control logic: how a command moves the player's state and what
//! it asks of the pipeline, the property store and the event channel.
//!
//! The player's owner performs each returned action in order: pipeline actions
//! apply to the running pipeline, if there is one. Loading a file asks the owner
//! to open it and start a pipeline; once that succeeds the owner reports back
//! with `file_loaded`. Times are in microseconds.
use vstd::prelude::*;
use vstd::string::*;

use crate::command::Command;
use crate::error::{CommandResult, MediaInfo, RaptorError};
use crate::event::{AudioInfo, RaptorEvent, VideoInfo};
use crate::media;
use crate::media::{audio_codec_label, spec_audio_codec_label, spec_video_codec_label, video_codec_label};
use crate::pipeline::SeekRequest;
use crate::state::{
    spec_can_transition, spec_invalid_transition_message, spec_next_state, spec_state_name,
    PlayerEvent, PlayerState, SeekMode,
};

verus! {

/// Something the player's owner does for a command.
#[derive(Debug)]
pub enum PlayerAction {
    /// Stop the running pipeline, if any, and wait for its threads.
    StopPipeline,
    /// Open the file, create the renderer and start a paused pipeline on it,
    /// then report back with `file_loaded`.
    OpenMedia { url: String },
    /// Resume the pipeline (its clock restarts at the current position).
    ResumePipeline,
    /// Pause the pipeline.
    PausePipeline,
    /// Set the pipeline's volume (0-100).
    SetPipelineVolume { volume: u8 },
    /// Hand the pipeline a seek request.
    RequestSeek { request: SeekRequest },
    /// Set the `volume` property to the integer `volume`.
    SetVolumeProperty { volume: u8 },
    /// Set the `position` property to `position_us`, in seconds.
    SetPositionProperty { position_us: u64 },
    /// Send an event.
    Emit { event: RaptorEvent },
}

/// The player's control state.
pub struct PlayerCore {
    state: PlayerState,
}

/// The actions of an outcome, as a sequence.
pub open spec fn actions_of(r: Result<Vec<PlayerAction>, RaptorError>) -> Result<Seq<PlayerAction>, RaptorError> {
    match r {
        Ok(a) => Ok(a@),
        Err(e) => Err(e),
    }
}

/// The message of a refused toggle.
pub open spec fn spec_toggle_message(s: PlayerState) -> Seq<char> {
    "cannot toggle from "@ + spec_state_name(s)
}

/// Whether `e` is an `InvalidState` error with message `msg`.
pub open spec fn is_invalid_state(e: RaptorError, msg: Seq<char>) -> bool {
    e matches RaptorError::InvalidState(m) && m@ == msg
}

/// Whether `r` is the outcome of a refused transition by `event` in `s`.
pub open spec fn refused(r: Result<Seq<PlayerAction>, RaptorError>, s: PlayerState, event: PlayerEvent) -> bool {
    r is Err && is_invalid_state(r->Err_0, spec_invalid_transition_message(s, event))
}

/// The outcome of `Play` in state `s`: refused unless the state machine accepts
/// it; else the player is playing, the pipeline resumes and playback restarts.
pub open spec fn play_outcome(s: PlayerState, s2: PlayerState, r: Result<Seq<PlayerAction>, RaptorError>) -> bool {
    if !spec_can_transition(s, PlayerEvent::Play) {
        s2 == s && refused(r, s, PlayerEvent::Play)
    } else {
        &&& s2 == PlayerState::Playing
        &&& r is Ok
        &&& r->Ok_0.len() == 2
        &&& r->Ok_0[0] is ResumePipeline
        &&& r->Ok_0[1] is Emit && r->Ok_0[1]->event is PlaybackRestart
    }
}

/// The outcome of `Pause` in state `s` at position `pos`: refused unless the
/// state machine accepts it; else the player is paused, the pipeline pauses and
/// the `position` property takes the position.
pub open spec fn pause_outcome(s: PlayerState, pos: u64, s2: PlayerState, r: Result<Seq<PlayerAction>, RaptorError>) -> bool {
    if !spec_can_transition(s, PlayerEvent::Pause) {
        s2 == s && refused(r, s, PlayerEvent::Pause)
    } else {
        &&& s2 == PlayerState::Paused
        &&& r is Ok
        &&& r->Ok_0.len() == 2
        &&& r->Ok_0[0] is PausePipeline
        &&& r->Ok_0[1] == (PlayerAction::SetPositionProperty { position_us: pos })
    }
}

/// What a command does in state `s`, the pipeline being at position `pos`
/// (0 without a pipeline): `s2` is the next state and `r` the actions, or the
/// error.
pub open spec fn dispatch_outcome(
    s: PlayerState,
    cmd: Command,
    pos: u64,
    s2: PlayerState,
    r: Result<Seq<PlayerAction>, RaptorError>,
) -> bool {
    match cmd {
        Command::LoadFile { url } => {
            let ev = PlayerEvent::Load { url };
            if !spec_can_transition(s, ev) {
                s2 == s && refused(r, s, ev)
            } else {
                &&& s2 == PlayerState::Loading
                &&& r is Ok
                &&& r->Ok_0.len() == 2
                &&& r->Ok_0[0] is StopPipeline
                &&& r->Ok_0[1] == (PlayerAction::OpenMedia { url })
            }
        },
        Command::Play => play_outcome(s, s2, r),
        Command::Pause => pause_outcome(s, pos, s2, r),
        Command::TogglePause => match s {
            PlayerState::Playing => pause_outcome(s, pos, s2, r),
            PlayerState::Paused => play_outcome(s, s2, r),
            _ => s2 == s && r is Err && is_invalid_state(r->Err_0, spec_toggle_message(s)),
        },
        Command::Stop => {
            if !spec_can_transition(s, PlayerEvent::Stop) {
                s2 == s && refused(r, s, PlayerEvent::Stop)
            } else {
                &&& s2 == PlayerState::Stopped
                &&& r is Ok
                &&& r->Ok_0.len() == 1
                &&& r->Ok_0[0] is StopPipeline
            }
        },
        Command::Seek { target_us, mode } => {
            let ev = PlayerEvent::Seek { target_us, mode: SeekMode::Absolute };
            if !spec_can_transition(s, ev) {
                s2 == s && refused(r, s, ev)
            } else {
                &&& s2 == s
                &&& r is Ok
                &&& r->Ok_0.len() == 2
                &&& r->Ok_0[0] == (PlayerAction::RequestSeek { request: SeekRequest { target_us, from_us: pos } })
                &&& r->Ok_0[1] is Emit
                &&& r->Ok_0[1]->event == (RaptorEvent::Seek { from_us: pos, to_us: target_us })
            }
        },
        Command::SetVolume { volume } => {
            &&& s2 == s
            &&& r is Ok
            &&& r->Ok_0.len() == 2
            &&& r->Ok_0[0] == (PlayerAction::SetVolumeProperty { volume })
            &&& r->Ok_0[1] == (PlayerAction::SetPipelineVolume { volume })
        },
        Command::Quit => {
            &&& s2 == s
            &&& r is Ok
            &&& r->Ok_0.len() == 2
            &&& r->Ok_0[0] is StopPipeline
            &&& r->Ok_0[1] is Emit && r->Ok_0[1]->event is End
        },
    }
}

/// Whether `v` describes the played video stream of `info`: its size, the
/// `Debug` text of its codec and its frame rate.
pub open spec fn describes_video(info: media::MediaInfo, v: Option<VideoInfo>) -> bool {
    match v {
        None => info.video_stream_index is None,
        Some(vi) => {
            &&& info.video_stream_index is Some
            &&& vi.width == info.width
            &&& vi.height == info.height
            &&& vi.codec@ == spec_video_codec_label(info.video_codec_id)
            &&& vi.fps_num == info.fps_num
            &&& vi.fps_den == info.fps_den
        },
    }
}

/// Whether `a` describes the played audio stream of `info`: the `Debug` text of
/// its codec, its channels and sample rate.
pub open spec fn describes_audio(info: media::MediaInfo, a: Option<AudioInfo>) -> bool {
    match a {
        None => info.audio_stream_index is None,
        Some(ai) => {
            &&& info.audio_stream_index is Some
            &&& ai.codec@ == spec_audio_codec_label(info.audio_codec_id)
            &&& ai.channels == info.channels
            &&& ai.sample_rate == info.sample_rate
        },
    }
}

/// The descriptions of the played video and audio streams of an opened file,
/// as the player reports them.
pub fn stream_infos(info: &media::MediaInfo) -> (r: (Option<VideoInfo>, Option<AudioInfo>))
    ensures
        describes_video(*info, r.0),
        describes_audio(*info, r.1),
{
    let video = if info.video_stream_index.is_some() {
        Some(VideoInfo {
            width: info.width,
            height: info.height,
            codec: video_codec_label(info.video_codec_id),
            fps_num: info.fps_num,
            fps_den: info.fps_den,
        })
    } else {
        None
    };
    let audio = if info.audio_stream_index.is_some() {
        Some(AudioInfo {
            codec: audio_codec_label(info.audio_codec_id),
            channels: info.channels,
            sample_rate: info.sample_rate,
        })
    } else {
        None
    };
    (video, audio)
}

impl PlayerCore {
    /// The player's state.
    pub closed spec fn view_state(self) -> PlayerState {
        self.state
    }

    /// An idle player.
    pub fn new() -> (p: PlayerCore)
        ensures
            p.view_state() == PlayerState::Idle,
    {
        PlayerCore { state: PlayerState::Idle }
    }

    /// The player's state.
    pub fn state(&self) -> (s: PlayerState)
        ensures
            s == self.view_state(),
    {
        self.state
    }

    fn play(&mut self) -> (r: Result<Vec<PlayerAction>, RaptorError>)
        ensures
            play_outcome(old(self).view_state(), final(self).view_state(), actions_of(r)),
    {
        if let Err(msg) = self.state.can_transition_to(&PlayerEvent::Play) {
            return Err(RaptorError::InvalidState(msg));
        }
        self.state = PlayerState::Playing;
        let mut a: Vec<PlayerAction> = Vec::new();
        a.push(PlayerAction::ResumePipeline);
        a.push(PlayerAction::Emit { event: RaptorEvent::PlaybackRestart });
        Ok(a)
    }

    fn pause(&mut self, position_us: u64) -> (r: Result<Vec<PlayerAction>, RaptorError>)
        ensures
            pause_outcome(old(self).view_state(), position_us, final(self).view_state(), actions_of(r)),
    {
        if let Err(msg) = self.state.can_transition_to(&PlayerEvent::Pause) {
            return Err(RaptorError::InvalidState(msg));
        }
        self.state = PlayerState::Paused;
        let mut a: Vec<PlayerAction> = Vec::new();
        a.push(PlayerAction::PausePipeline);
        a.push(PlayerAction::SetPositionProperty { position_us });
        Ok(a)
    }

    /// Handles a command, the pipeline being at `position_us` (0 without a
    /// pipeline): moves the state and returns the actions to perform, or the
    /// error (see `dispatch_outcome`).
    pub fn dispatch_command(&mut self, cmd: Command, position_us: u64) -> (r: Result<Vec<PlayerAction>, RaptorError>)
        ensures
            dispatch_outcome(old(self).view_state(), cmd, position_us, final(self).view_state(), actions_of(r)),
    {
        match cmd {
            Command::LoadFile { url } => {
                if let Err(msg) = self.state.can_transition_to(&PlayerEvent::Load { url: url.clone() }) {
                    return Err(RaptorError::InvalidState(msg));
                }
                self.state = PlayerState::Loading;
                let mut a: Vec<PlayerAction> = Vec::new();
                a.push(PlayerAction::StopPipeline);
                a.push(PlayerAction::OpenMedia { url });
                Ok(a)
            },
            Command::Play => self.play(),
            Command::Pause => self.pause(position_us),
            Command::TogglePause => match self.state {
                PlayerState::Playing => self.pause(position_us),
                PlayerState::Paused => self.play(),
                _ => {
                    let mut msg = String::from_str("cannot toggle from ");
                    msg.append(self.state.name());
                    Err(RaptorError::InvalidState(msg))
                },
            },
            Command::Stop => {
                if let Err(msg) = self.state.can_transition_to(&PlayerEvent::Stop) {
                    return Err(RaptorError::InvalidState(msg));
                }
                self.state = PlayerState::Stopped;
                let mut a: Vec<PlayerAction> = Vec::new();
                a.push(PlayerAction::StopPipeline);
                Ok(a)
            },
            Command::Seek { target_us, mode: _ } => {
                if let Err(msg) = self.state.can_transition_to(&PlayerEvent::Seek { target_us, mode: SeekMode::Absolute }) {
                    return Err(RaptorError::InvalidState(msg));
                }
                let mut a: Vec<PlayerAction> = Vec::new();
                a.push(PlayerAction::RequestSeek { request: SeekRequest { target_us, from_us: position_us } });
                a.push(PlayerAction::Emit { event: RaptorEvent::Seek { from_us: position_us, to_us: target_us } });
                Ok(a)
            },
            Command::SetVolume { volume } => {
                let mut a: Vec<PlayerAction> = Vec::new();
                a.push(PlayerAction::SetVolumeProperty { volume });
                a.push(PlayerAction::SetPipelineVolume { volume });
                Ok(a)
            },
            Command::Quit => {
                let mut a: Vec<PlayerAction> = Vec::new();
                a.push(PlayerAction::StopPipeline);
                a.push(PlayerAction::Emit { event: RaptorEvent::End });
                Ok(a)
            },
        }
    }

    /// The file being loaded is open and its pipeline started: the player is
    /// ready, the `position` property is 0 and `FileLoaded` is sent. The result
    /// of the load carries the duration only.
    pub fn file_loaded(&mut self, duration_us: i64, video: Option<VideoInfo>, audio: Option<AudioInfo>) -> (r: (CommandResult, Vec<PlayerAction>))
        ensures
            final(self).view_state() == PlayerState::Ready,
            r.0 matches CommandResult::MediaInfo(mi) && mi.duration_us == duration_us
                && mi.video is None && mi.audio is None,
            r.1@.len() == 2,
            r.1@[0] == (PlayerAction::SetPositionProperty { position_us: 0 }),
            r.1@[1] == (PlayerAction::Emit { event: RaptorEvent::FileLoaded { duration_us, video, audio } }),
    {
        self.state = PlayerState::Ready;
        let mut a: Vec<PlayerAction> = Vec::new();
        a.push(PlayerAction::SetPositionProperty { position_us: 0 });
        a.push(PlayerAction::Emit { event: RaptorEvent::FileLoaded { duration_us, video, audio } });
        (CommandResult::MediaInfo(MediaInfo { duration_us, video: None, audio: None }), a)
    }
}

/// The state-machine event that a command stands for.
pub open spec fn command_event(cmd: Command) -> PlayerEvent {
    match cmd {
        Command::LoadFile { url } => PlayerEvent::Load { url },
        Command::Play => PlayerEvent::Play,
        Command::Pause => PlayerEvent::Pause,
        Command::TogglePause => PlayerEvent::TogglePause,
        Command::Stop => PlayerEvent::Stop,
        Command::Seek { target_us, mode } => PlayerEvent::Seek { target_us, mode },
        Command::SetVolume { volume } => PlayerEvent::SetVolume { volume },
        Command::Quit => PlayerEvent::Quit,
    }
}

/// Every command but `SetVolume` and `Quit` follows the state machine: it
/// succeeds exactly when the state machine accepts its event, and then moves
/// the player to the state that the machine gives; a refused command leaves the
/// state as it was.
pub proof fn lemma_dispatch_follows_state_machine(
    s: PlayerState,
    cmd: Command,
    pos: u64,
    s2: PlayerState,
    r: Result<Seq<PlayerAction>, RaptorError>,
)
    requires
        dispatch_outcome(s, cmd, pos, s2, r),
        !(cmd is SetVolume),
        !(cmd is Quit),
    ensures
        r is Ok <==> spec_can_transition(s, command_event(cmd)),
        r is Ok ==> spec_next_state(s, command_event(cmd)) == Some(s2),
        r is Err ==> s2 == s,
{
}

/// Loading a file first stops the pipeline that was playing, then opens the new
/// file.
pub proof fn lemma_load_stops_old_pipeline_first(
    s: PlayerState,
    url: String,
    pos: u64,
    s2: PlayerState,
    r: Result<Seq<PlayerAction>, RaptorError>,
)
    requires
        dispatch_outcome(s, Command::LoadFile { url }, pos, s2, r),
        r is Ok,
    ensures
        r->Ok_0[0] is StopPipeline,
        r->Ok_0[1] is OpenMedia,
{
}

} // verus!
