//! Events that the player reports, and the stream descriptions they carry.
use vstd::prelude::*;

verus! {

/// Why playback of a file ended.
#[derive(Clone, Copy, Debug, PartialEq, Eq, Structural)]
pub enum EndReason {
    Eof,
    Error,
    Stop,
}

/// Video stream description. The frame rate is the rational
/// `fps_num / fps_den` frames per second, with `fps_den >= 1`.
#[derive(Clone, Debug)]
pub struct VideoInfo {
    pub width: u32,
    pub height: u32,
    pub codec: String,
    pub fps_num: i32,
    pub fps_den: i32,
}

/// Audio stream description.
#[derive(Clone, Debug)]
pub struct AudioInfo {
    pub codec: String,
    pub channels: u32,
    pub sample_rate: u32,
}

/// An event reported by the player. Times are in microseconds.
#[derive(Clone, Debug)]
pub enum RaptorEvent {
    /// A file finished loading.
    FileLoaded { duration_us: i64, video: Option<VideoInfo>, audio: Option<AudioInfo> },
    /// Playback of the file ended.
    EndFile { reason: EndReason },
    /// An error.
    Error { code: i32, message: String },
    /// A seek was requested.
    Seek { from_us: u64, to_us: i64 },
    /// A property changed.
    PropertyChange { name: String, value: String },
    /// Playback (re)started.
    PlaybackRestart,
    /// The player terminated.
    End,
}

} // verus!
