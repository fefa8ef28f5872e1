//! The local models, and how the recording pipeline uses them.

pub mod model;
pub mod transcription;
