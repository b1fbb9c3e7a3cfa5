//! Playback engine for a terminal audio player.
//!
//! The engine owns a play queue, a model of the per-track sample pipeline,
//! and the control surface through which the UI thread and an external
//! command bus steer playback.  Everything here is plain data and verified
//! logic; decoding, the output device and the terminal live outside and
//! talk to this crate through the `Player` control surface.

pub mod command;
pub mod display;
pub mod keys;
pub mod pipeline;
pub mod player;
pub mod queue;
pub mod request;
pub mod state;
