//! Tracks, their resolution and their decoding.

pub mod decoder;
pub mod json;
pub mod observed;
pub mod ogg;
pub mod resolver;
pub mod track;
pub mod ytdlp;
