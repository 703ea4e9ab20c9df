//! Session bridge and room broadcast engine for live speech translation.
//!
//! A speaker streams PCM audio; the bridge gates it, drives one translation
//! turn at a time on the upstream engine, and republishes the text the engine
//! returns as outward events for the viewers of a room.

pub mod audio_gate;
pub mod turn;
pub mod wire;
pub mod event;
pub mod adapter;
pub mod directive;
pub mod session;
pub mod registry;
pub mod upstream;
