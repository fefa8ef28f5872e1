//! What is known of a local model.

use vstd::prelude::*;

verus! {

/// The engine that runs a model.
#[derive(Debug, Clone, Copy, PartialEq, Eq, Structural)]
pub enum EngineType {
    Whisper,
    Parakeet,
    Moonshine,
    MoonshineStreaming,
    SenseVoice,
    /// A command line program, run as a subprocess.
    InsanelyFastWhisper,
}

/// One local model.
#[derive(Debug)]
pub struct ModelInfo {
    pub id: String,
    pub name: String,
    pub engine_type: EngineType,
    pub is_downloaded: bool,
    pub is_downloading: bool,
}

} // verus!
