//! Core of a voice-channel chat bot: command dispatch with permission
//! gating, voice-presence tracking for one observed channel, announcement
//! composition, playback preparation, and the session event loop's decision
//! logic, each with a verified contract.

pub mod action;
pub mod announce;
pub mod audio;
pub mod command;
pub mod presence;
pub mod session;
pub mod text;
