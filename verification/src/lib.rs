//! Verified core of a dictation application: transcription targets, credential
//! storage, keyboard shortcuts and the bookkeeping around the local speech model.

pub mod commands;
pub mod crash_logging;
pub mod gemini_client;
pub mod hardware_detection;
pub mod insanely_fast_whisper_client;
pub mod json;
pub mod keyed_map;
pub mod llm_client;
pub mod managers;
pub mod openblas;
pub mod overlay;
pub mod secrets;
pub mod settings;
pub mod shortcut;
pub mod text;
pub mod transcription;
