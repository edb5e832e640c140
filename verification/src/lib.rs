//! Per-guild playback session coordination for a voice-channel music bot.
//!
//! The crate holds the state that the bot keeps for each guild (one playback
//! session with its queue of tracks) and the decisions that commands and
//! audio-engine callbacks make against that state. It performs no I/O: every
//! handler takes what was observed outside as plain values and returns what
//! has to be done outside.

pub mod ids;
pub mod track;
pub mod queue;
pub mod session;
pub mod registry;
pub mod text;
pub mod search;
pub mod commands;
pub mod events;
pub mod local_files;
pub mod laws;
