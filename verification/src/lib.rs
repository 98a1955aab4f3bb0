//! The decisions of a desktop audio recorder: which device, channel and stream
//! configuration a recording uses, where its WAV file goes, what is written to
//! it, and how the recorder moves between idle, recording and paused.
//!
//! Everything here works on plain values. Opening devices, writing files and
//! running threads is left to the caller, who carries out what these functions
//! decide and hands back what happened.

pub mod device_laws;
pub mod devices;
pub mod error;
pub mod laws;
pub mod models;
pub mod output;
pub mod path_laws;
pub mod paths;
pub mod recorder;
pub mod recorder_laws;
pub mod resolution;
pub mod samples;
pub mod stream;
pub mod stream_laws;
pub mod text;
pub mod text_laws;
