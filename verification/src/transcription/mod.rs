//! Transcription targets: the catalog of providers, the rules of a request and
//! the bookkeeping of the local model.

pub mod elevenlabs;
pub mod gemini;
pub mod http;
pub mod local;
pub mod registry;
pub mod service;
pub mod slot;
pub mod types;
pub mod wav;
