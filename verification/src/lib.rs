//! A media player's core: its state machine, property store, A/V clock and the
//! decisions of its playback pipeline, with their contracts.
pub mod command;
pub mod error;
pub mod event;
pub mod state;
pub mod avsync;
pub mod clock;
pub mod text;
pub mod property;
pub mod media;
pub mod pipeline;
pub mod render;
pub mod player;
