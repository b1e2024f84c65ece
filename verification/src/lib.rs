//! Core logic of a terminal streaming-audio player: track resolution
//! requests, an append-only stream buffer, incremental frame decoding,
//! elapsed-time tracking, and the playback state machine.

pub mod clock;
pub mod decoder;
pub mod elapsed;
pub mod events;
pub mod player;
pub mod sink;
pub mod soundcloud;
pub mod status;
pub mod stream;
