//! Realtime voice-session core: the live-session wire protocol, the audio
//! capture and playback queues, and the state machine that binds them.
//!
//! The rules here are verified. Hardware, sockets and timers live with the
//! caller, which feeds their events in and carries the answers out; JSON
//! text, base64 and the audio container come from outside crates, each
//! behind one small function that states what is taken from it.

pub mod app;
pub mod capture;
pub mod config;
pub mod dashboard;
pub mod gestures;
pub mod groq;
pub mod hotkeys;
pub mod inject;
pub mod json;
pub mod levels;
pub mod overlay;
pub mod pcm;
pub mod playback;
pub mod protocol;
pub mod session;
pub mod text;
pub mod tools;
