//! The player's state machine: every control flow goes through a state transition.
use vstd::prelude::*;
use vstd::string::*;

use crate::text::{append_str_debug, i64_to_decimal, int_decimal, str_debug};

verus! {

/// Player state.
#[derive(Clone, Copy, Debug, PartialEq, Eq, Structural)]
pub enum PlayerState {
    /// Idle (the initial state).
    Idle,
    /// A file is being loaded.
    Loading,
    /// A file is loaded and can be played.
    Ready,
    /// Playing.
    Playing,
    /// Paused.
    Paused,
    /// Stopped.
    Stopped,
}

/// Seek mode.
#[derive(Clone, Copy, Debug, PartialEq, Eq, Structural)]
pub enum SeekMode {
    Absolute,
    Relative,
}

/// An event that drives a state transition. Times are in microseconds.
#[derive(Clone, Debug)]
pub enum PlayerEvent {
    Load { url: String },
    Play,
    Pause,
    TogglePause,
    Stop,
    Seek { target_us: i64, mode: SeekMode },
    SetVolume { volume: u8 },
    Quit,
    End,
    PlaybackRestart,
    FileLoaded,
}

/// The transition table: the state that `event` leads to from `state`, if the
/// transition is allowed.
pub open spec fn spec_next_state(state: PlayerState, event: PlayerEvent) -> Option<PlayerState> {
    match (state, event) {
        (PlayerState::Idle, PlayerEvent::Load { .. }) => Some(PlayerState::Loading),
        (PlayerState::Loading, PlayerEvent::FileLoaded) => Some(PlayerState::Ready),
        (PlayerState::Loading, PlayerEvent::End) => Some(PlayerState::Idle),
        (PlayerState::Ready, PlayerEvent::Play) => Some(PlayerState::Playing),
        (PlayerState::Ready, PlayerEvent::Load { .. }) => Some(PlayerState::Loading),
        (PlayerState::Ready, PlayerEvent::Stop) => Some(PlayerState::Stopped),
        (PlayerState::Playing, PlayerEvent::Pause) => Some(PlayerState::Paused),
        (PlayerState::Playing, PlayerEvent::TogglePause) => Some(PlayerState::Paused),
        (PlayerState::Playing, PlayerEvent::Stop) => Some(PlayerState::Stopped),
        (PlayerState::Playing, PlayerEvent::Load { .. }) => Some(PlayerState::Loading),
        (PlayerState::Playing, PlayerEvent::End) => Some(PlayerState::Stopped),
        (PlayerState::Playing, PlayerEvent::Quit) => Some(PlayerState::Stopped),
        (PlayerState::Playing, PlayerEvent::Seek { .. }) => Some(PlayerState::Playing),
        (PlayerState::Playing, PlayerEvent::SetVolume { .. }) => Some(PlayerState::Playing),
        (PlayerState::Playing, PlayerEvent::PlaybackRestart) => Some(PlayerState::Playing),
        (PlayerState::Paused, PlayerEvent::Play) => Some(PlayerState::Playing),
        (PlayerState::Paused, PlayerEvent::TogglePause) => Some(PlayerState::Playing),
        (PlayerState::Paused, PlayerEvent::Stop) => Some(PlayerState::Stopped),
        (PlayerState::Paused, PlayerEvent::Load { .. }) => Some(PlayerState::Loading),
        (PlayerState::Paused, PlayerEvent::End) => Some(PlayerState::Stopped),
        (PlayerState::Paused, PlayerEvent::Quit) => Some(PlayerState::Stopped),
        (PlayerState::Paused, PlayerEvent::Seek { .. }) => Some(PlayerState::Paused),
        (PlayerState::Stopped, PlayerEvent::Load { .. }) => Some(PlayerState::Loading),
        _ => None,
    }
}

/// Whether `event` may be handled in `state`.
pub open spec fn spec_can_transition(state: PlayerState, event: PlayerEvent) -> bool {
    spec_next_state(state, event) is Some
}

/// The name of a state, as its variant is written.
pub open spec fn spec_state_name(state: PlayerState) -> Seq<char> {
    match state {
        PlayerState::Idle => "Idle"@,
        PlayerState::Loading => "Loading"@,
        PlayerState::Ready => "Ready"@,
        PlayerState::Playing => "Playing"@,
        PlayerState::Paused => "Paused"@,
        PlayerState::Stopped => "Stopped"@,
    }
}

/// The name of an event's variant.
pub open spec fn spec_event_name(event: PlayerEvent) -> Seq<char> {
    match event {
        PlayerEvent::Load { .. } => "Load"@,
        PlayerEvent::Play => "Play"@,
        PlayerEvent::Pause => "Pause"@,
        PlayerEvent::TogglePause => "TogglePause"@,
        PlayerEvent::Stop => "Stop"@,
        PlayerEvent::Seek { .. } => "Seek"@,
        PlayerEvent::SetVolume { .. } => "SetVolume"@,
        PlayerEvent::Quit => "Quit"@,
        PlayerEvent::End => "End"@,
        PlayerEvent::PlaybackRestart => "PlaybackRestart"@,
        PlayerEvent::FileLoaded => "FileLoaded"@,
    }
}

/// The name of a seek mode.
pub open spec fn spec_seek_mode_name(mode: SeekMode) -> Seq<char> {
    match mode {
        SeekMode::Absolute => "Absolute"@,
        SeekMode::Relative => "Relative"@,
    }
}

/// The `Debug` text of an event: the variant's name, then for a variant with
/// fields `{ field: value, .. }`, a string field in its `Debug` form (quoted
/// and escaped), a number in decimal. A seek's target is a whole number of
/// microseconds, so a seek reads `Seek { target_us: 1500000, mode: Absolute }`
/// (not a number of seconds).
pub open spec fn spec_event_debug(event: PlayerEvent) -> Seq<char> {
    match event {
        PlayerEvent::Load { url } => "Load { url: "@ + str_debug(url@) + " }"@,
        PlayerEvent::Seek { target_us, mode } => "Seek { target_us: "@ + int_decimal(target_us as int)
            + ", mode: "@ + spec_seek_mode_name(mode) + " }"@,
        PlayerEvent::SetVolume { volume } => "SetVolume { volume: "@ + int_decimal(volume as int) + " }"@,
        _ => spec_event_name(event),
    }
}

/// The message of a refused transition: the state and the whole event, each
/// in its `Debug` form.
pub open spec fn spec_invalid_transition_message(state: PlayerState, event: PlayerEvent) -> Seq<char> {
    "invalid transition: "@ + spec_state_name(state) + " cannot handle "@ + spec_event_debug(event)
}

impl Default for PlayerState {
    fn default() -> (s: PlayerState)
        ensures
            s == PlayerState::Idle,
    {
        PlayerState::Idle
    }
}

impl SeekMode {
    /// The mode's name.
    pub fn name(&self) -> (r: &'static str)
        ensures
            r@ == spec_seek_mode_name(*self),
    {
        match self {
            SeekMode::Absolute => "Absolute",
            SeekMode::Relative => "Relative",
        }
    }
}

impl PlayerEvent {
    /// The event's `Debug` text (see `spec_event_debug`).
    pub fn debug_text(&self) -> (r: String)
        ensures
            r@ == spec_event_debug(*self),
    {
        match self {
            PlayerEvent::Load { url } => {
                let mut out = String::from_str("Load { url: ");
                append_str_debug(&mut out, url.as_str());
                out.append(" }");
                out
            },
            PlayerEvent::Seek { target_us, mode } => {
                let mut out = String::from_str("Seek { target_us: ");
                let t = i64_to_decimal(*target_us);
                out.append(t.as_str());
                out.append(", mode: ");
                out.append(mode.name());
                out.append(" }");
                out
            },
            PlayerEvent::SetVolume { volume } => {
                let mut out = String::from_str("SetVolume { volume: ");
                let v = i64_to_decimal(*volume as i64);
                out.append(v.as_str());
                out.append(" }");
                out
            },
            _ => String::from_str(self.name()),
        }
    }

    /// The name of the event's variant.
    pub fn name(&self) -> (r: &'static str)
        ensures
            r@ == spec_event_name(*self),
    {
        match self {
            PlayerEvent::Load { .. } => "Load",
            PlayerEvent::Play => "Play",
            PlayerEvent::Pause => "Pause",
            PlayerEvent::TogglePause => "TogglePause",
            PlayerEvent::Stop => "Stop",
            PlayerEvent::Seek { .. } => "Seek",
            PlayerEvent::SetVolume { .. } => "SetVolume",
            PlayerEvent::Quit => "Quit",
            PlayerEvent::End => "End",
            PlayerEvent::PlaybackRestart => "PlaybackRestart",
            PlayerEvent::FileLoaded => "FileLoaded",
        }
    }
}

impl PlayerState {
    /// Checks whether `event` may be handled in this state; the error names the
    /// state and the event that it refused, each in its `Debug` form.
    pub fn can_transition_to(&self, event: &PlayerEvent) -> (r: Result<(), String>)
        ensures
            r is Ok <==> spec_can_transition(*self, *event),
            r matches Err(msg) ==> msg@ == spec_invalid_transition_message(*self, *event),
    {
        match self.next_state(event) {
            Some(_) => Ok(()),
            None => {
                let mut msg = String::from_str("invalid transition: ");
                msg.append(self.name());
                msg.append(" cannot handle ");
                let e = event.debug_text();
                msg.append(e.as_str());
                Err(msg)
            },
        }
    }

    /// The state that `event` leads to, or `None` where the transition is refused.
    pub fn next_state(&self, event: &PlayerEvent) -> (r: Option<PlayerState>)
        ensures
            r == spec_next_state(*self, *event),
    {
        match self {
            PlayerState::Idle => match event {
                PlayerEvent::Load { .. } => Some(PlayerState::Loading),
                _ => None,
            },
            PlayerState::Loading => match event {
                PlayerEvent::FileLoaded => Some(PlayerState::Ready),
                PlayerEvent::End => Some(PlayerState::Idle),
                _ => None,
            },
            PlayerState::Ready => match event {
                PlayerEvent::Play => Some(PlayerState::Playing),
                PlayerEvent::Load { .. } => Some(PlayerState::Loading),
                PlayerEvent::Stop => Some(PlayerState::Stopped),
                _ => None,
            },
            PlayerState::Playing => match event {
                PlayerEvent::Pause => Some(PlayerState::Paused),
                PlayerEvent::TogglePause => Some(PlayerState::Paused),
                PlayerEvent::Stop => Some(PlayerState::Stopped),
                PlayerEvent::Load { .. } => Some(PlayerState::Loading),
                PlayerEvent::End => Some(PlayerState::Stopped),
                PlayerEvent::Quit => Some(PlayerState::Stopped),
                PlayerEvent::Seek { .. } => Some(PlayerState::Playing),
                PlayerEvent::SetVolume { .. } => Some(PlayerState::Playing),
                PlayerEvent::PlaybackRestart => Some(PlayerState::Playing),
                _ => None,
            },
            PlayerState::Paused => match event {
                PlayerEvent::Play => Some(PlayerState::Playing),
                PlayerEvent::TogglePause => Some(PlayerState::Playing),
                PlayerEvent::Stop => Some(PlayerState::Stopped),
                PlayerEvent::Load { .. } => Some(PlayerState::Loading),
                PlayerEvent::End => Some(PlayerState::Stopped),
                PlayerEvent::Quit => Some(PlayerState::Stopped),
                PlayerEvent::Seek { .. } => Some(PlayerState::Paused),
                _ => None,
            },
            PlayerState::Stopped => match event {
                PlayerEvent::Load { .. } => Some(PlayerState::Loading),
                _ => None,
            },
        }
    }

    /// The state's name.
    pub fn name(&self) -> (r: &'static str)
        ensures
            r@ == spec_state_name(*self),
    {
        match self {
            PlayerState::Idle => "Idle",
            PlayerState::Loading => "Loading",
            PlayerState::Ready => "Ready",
            PlayerState::Playing => "Playing",
            PlayerState::Paused => "Paused",
            PlayerState::Stopped => "Stopped",
        }
    }
}

/// A transition check accepts exactly the events for which there is a next
/// state.
pub proof fn lemma_check_agrees_with_next_state(state: PlayerState, event: PlayerEvent)
    ensures
        spec_can_transition(state, event) <==> spec_next_state(state, event) is Some,
{
}

/// Loading a file is accepted in every state but `Loading`, and always leads to
/// `Loading`.
pub proof fn lemma_load_accepted_unless_loading(state: PlayerState, url: String)
    ensures
        spec_can_transition(state, PlayerEvent::Load { url }) <==> state != PlayerState::Loading,
        spec_can_transition(state, PlayerEvent::Load { url })
            ==> spec_next_state(state, PlayerEvent::Load { url }) == Some(PlayerState::Loading),
{
}

/// Seeking, changing the volume and restarting playback never change the
/// state.
pub proof fn lemma_in_place_events_keep_state(state: PlayerState, event: PlayerEvent)
    requires
        event is Seek || event is SetVolume || event is PlaybackRestart,
        spec_can_transition(state, event),
    ensures
        spec_next_state(state, event) == Some(state),
{
}

/// Pausing is undone by playing or toggling, and toggling twice returns to the
/// state it started from.
pub proof fn lemma_pause_round_trip(state: PlayerState)
    requires
        state == PlayerState::Playing || state == PlayerState::Paused,
    ensures
        state == PlayerState::Playing ==> spec_next_state(state, PlayerEvent::Pause) == Some(PlayerState::Paused)
            && spec_next_state(PlayerState::Paused, PlayerEvent::Play) == Some(PlayerState::Playing),
        ({
            let once = spec_next_state(state, PlayerEvent::TogglePause);
            &&& once is Some
            &&& once->0 != state
            &&& spec_next_state(once->0, PlayerEvent::TogglePause) == Some(state)
        }),
{
}

/// Ending, stopping or quitting never leads to `Playing` or `Paused`.
pub proof fn lemma_end_events_stop_playback(state: PlayerState, event: PlayerEvent)
    requires
        event is End || event is Stop || event is Quit,
        spec_can_transition(state, event),
    ensures
        spec_next_state(state, event) != Some(PlayerState::Playing),
        spec_next_state(state, event) != Some(PlayerState::Paused),
{
}

/// From `Idle` and from `Stopped`, only loading a file is accepted.
pub proof fn lemma_idle_and_stopped_only_load(state: PlayerState, event: PlayerEvent)
    requires
        state == PlayerState::Idle || state == PlayerState::Stopped,
        spec_can_transition(state, event),
    ensures
        event is Load,
{
}

/// Playback can only start from a state in which a file is loaded: `Play`
/// leads to `Playing` from `Ready` and `Paused` and from nowhere else.
pub proof fn lemma_play_needs_loaded_file(state: PlayerState)
    ensures
        spec_can_transition(state, PlayerEvent::Play)
            <==> (state == PlayerState::Ready || state == PlayerState::Paused),
{
}

/// A finished load is accepted only while loading, and leads to `Ready`.
pub proof fn lemma_file_loaded_leads_to_ready(state: PlayerState)
    ensures
        spec_can_transition(state, PlayerEvent::FileLoaded) <==> state == PlayerState::Loading,
        spec_can_transition(state, PlayerEvent::FileLoaded)
            ==> spec_next_state(state, PlayerEvent::FileLoaded) == Some(PlayerState::Ready),
{
}

/// Where each state is reached from: `Ready` only by a finished load;
/// `Playing` only by `Play` or `TogglePause` from `Ready` or `Paused`, or in
/// place from `Playing`; `Paused` only by `Pause` or `TogglePause` from
/// `Playing`, or in place from `Paused`; `Loading` only by `Load`; `Idle` only
/// by an end while loading.
pub proof fn lemma_states_reached_from(state: PlayerState, event: PlayerEvent)
    ensures
        spec_next_state(state, event) == Some(PlayerState::Ready)
            ==> state == PlayerState::Loading && event is FileLoaded,
        spec_next_state(state, event) == Some(PlayerState::Playing)
            ==> state == PlayerState::Playing
                || ((event is Play || event is TogglePause)
                    && (state == PlayerState::Ready || state == PlayerState::Paused)),
        spec_next_state(state, event) == Some(PlayerState::Paused)
            ==> state == PlayerState::Paused
                || ((event is Pause || event is TogglePause) && state == PlayerState::Playing),
        spec_next_state(state, event) == Some(PlayerState::Loading) ==> event is Load,
        spec_next_state(state, event) == Some(PlayerState::Idle)
            ==> state == PlayerState::Loading && event is End,
{
}

} // verus!
