//! Playback coordination core for a voice-relay service: a single-flight
//! playback slot with cooperative cancellation, command-template expansion
//! for the external audio player, the binary preset-select command for the
//! audio-routing device, and a retry backoff for a polling health check.

pub mod ahm;
pub mod backoff;
pub mod callback_handler;
pub mod config;
pub mod heartbeat;
pub mod inline_data_keyboard;
pub mod player;
pub mod set_room;
