//! Commands that the player accepts.
use vstd::prelude::*;

use crate::state::SeekMode;

verus! {

/// A player command. Times are in microseconds.
#[derive(Clone, Debug)]
pub enum Command {
    /// Load a file.
    LoadFile { url: String },
    /// Start playing.
    Play,
    /// Pause.
    Pause,
    /// Toggle between playing and paused.
    TogglePause,
    /// Stop.
    Stop,
    /// Seek to a time.
    Seek { target_us: i64, mode: SeekMode },
    /// Set the volume (0-100).
    SetVolume { volume: u8 },
    /// Quit.
    Quit,
}

} // verus!
