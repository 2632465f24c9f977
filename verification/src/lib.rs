//! A guild music player: queueing, playback control, source resolution and
//! media framing, with every rule stated as a contract.

pub mod clock;
pub mod commands;
pub mod gateway_control;
pub mod history;
pub mod ids;
pub mod media;
pub mod metrics;
pub mod number;
pub mod player;
pub mod redaction;
pub mod runtime;
pub mod text;
pub mod tools;
pub mod voice_manager;
pub mod voice_session;
pub mod voice_worker;
