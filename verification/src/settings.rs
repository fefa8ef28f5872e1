//! The application settings that the library's rules read and change.

use vstd::prelude::*;

use crate::keyed_map::KeyedMap;
use crate::text::same_text;
use crate::transcription::types::TranscriptionTargetId;

verus! {

/// When an idle local model is unloaded.
#[derive(Debug, Clone, Copy, PartialEq, Eq, Structural)]
pub enum ModelUnloadTimeout {
    Never,
    /// Right after each transcription.
    Immediately,
    /// After this many idle seconds.
    Seconds(u64),
}

/// The idle time after which a model is unloaded, if any.
pub open spec fn timeout_seconds(timeout: ModelUnloadTimeout) -> Option<u64> {
    match timeout {
        ModelUnloadTimeout::Never => None,
        ModelUnloadTimeout::Immediately => Some(0),
        ModelUnloadTimeout::Seconds(n) => Some(n),
    }
}

impl ModelUnloadTimeout {
    /// The idle time after which a model is unloaded, if any.
    pub fn to_seconds(&self) -> (r: Option<u64>)
        ensures
            r == timeout_seconds(*self),
            r is None <==> *self == ModelUnloadTimeout::Never,
            *self == ModelUnloadTimeout::Immediately ==> r == Some(0u64),
            *self matches ModelUnloadTimeout::Seconds(n) ==> r == Some(n),
    {
        match self {
            ModelUnloadTimeout::Never => None,
            ModelUnloadTimeout::Immediately => Some(0),
            ModelUnloadTimeout::Seconds(n) => Some(*n),
        }
    }
}

/// How long recordings are kept.
#[derive(Debug, Clone, Copy, PartialEq, Eq, Structural)]
pub enum RecordingRetentionPeriod {
    Never,
    PreserveLimit,
    Days3,
    Weeks2,
    Months3,
}

/// Where the recording overlay is shown.
#[derive(Debug, Clone, Copy, PartialEq, Eq, Structural)]
pub enum OverlayPosition {
    Hidden,
    Top,
    Bottom,
}

/// Which library listens for keyboard shortcuts.
#[derive(Debug, Clone, Copy, PartialEq, Eq, Structural)]
pub enum KeyboardImplementation {
    Tauri,
    HandyKeys,
}

/// A keyboard shortcut and what it is bound to.
#[derive(Debug, PartialEq, Eq)]
pub struct ShortcutBinding {
    pub id: String,
    pub current_binding: String,
}

impl Clone for ShortcutBinding {
    fn clone(&self) -> (r: Self)
        ensures
            r == *self,
    {
        ShortcutBinding { id: self.id.clone(), current_binding: self.current_binding.clone() }
    }
}

/// A provider that post-processes transcripts.
#[derive(Debug)]
pub struct PostProcessProvider {
    pub id: String,
    pub label: String,
    pub base_url: String,
    pub allow_base_url_edit: bool,
    pub models_endpoint: Option<String>,
    pub supports_structured_output: bool,
}

/// The settings of the application.
pub struct AppSettings {
    /// Plaintext key of earlier releases; see [`crate::secrets::migration`].
    pub gemini_api_key: Option<String>,
    /// Plaintext keys of earlier releases, by post-processing provider.
    pub post_process_api_keys: KeyedMap<String, String>,
    pub secret_store_migration_version: u32,
    pub gemini_model: String,
    pub insanely_fast_whisper_model: Option<String>,
    pub selected_model: String,
    pub long_audio_model: Option<String>,
    pub long_audio_target: Option<TranscriptionTargetId>,
    pub selected_transcription_target: Option<TranscriptionTargetId>,
    pub transcription_target_migration_version: u32,
    /// Accepted consent versions by provider.
    pub cloud_provider_consents: KeyedMap<String, u32>,
    pub selected_language: String,
    pub translate_to_english: bool,
    pub custom_words: Vec<String>,
    pub history_limit: usize,
    pub recording_retention_period: RecordingRetentionPeriod,
    pub model_unload_timeout: ModelUnloadTimeout,
    pub preload_model_on_startup: bool,
    pub overlay_position: OverlayPosition,
    pub keyboard_implementation: KeyboardImplementation,
    pub post_process_enabled: bool,
    pub bindings: KeyedMap<String, ShortcutBinding>,
}

/// Settings with no credential, no target and no consent. The selected model is
/// loaded at startup, and unloaded after five idle minutes.
pub fn get_default_settings() -> (r: AppSettings)
    ensures
        r.gemini_api_key is None,
        r.post_process_api_keys@ == Map::<Seq<char>, String>::empty(),
        r.post_process_api_keys.pairs() == Seq::<(String, String)>::empty(),
        r.secret_store_migration_version == 0,
        r.gemini_model@ == "gemini-2.5-flash"@,
        r.insanely_fast_whisper_model is None,
        r.selected_model@ == ""@,
        r.long_audio_model is None,
        r.long_audio_target is None,
        r.selected_transcription_target is None,
        r.transcription_target_migration_version == 0,
        r.cloud_provider_consents@ == Map::<Seq<char>, u32>::empty(),
        r.selected_language@ == "auto"@,
        !r.translate_to_english,
        r.custom_words@ == Seq::<String>::empty(),
        r.history_limit == 5,
        r.recording_retention_period == RecordingRetentionPeriod::PreserveLimit,
        r.model_unload_timeout == ModelUnloadTimeout::Seconds(300),
        r.preload_model_on_startup,
        r.overlay_position == OverlayPosition::Bottom,
        r.keyboard_implementation == KeyboardImplementation::HandyKeys,
        !r.post_process_enabled,
        r.bindings@ == Map::<Seq<char>, ShortcutBinding>::empty(),
{
    AppSettings {
        gemini_api_key: None,
        post_process_api_keys: KeyedMap::new(),
        secret_store_migration_version: 0,
        gemini_model: "gemini-2.5-flash".to_owned(),
        insanely_fast_whisper_model: None,
        selected_model: "".to_owned(),
        long_audio_model: None,
        long_audio_target: None,
        selected_transcription_target: None,
        transcription_target_migration_version: 0,
        cloud_provider_consents: KeyedMap::new(),
        selected_language: "auto".to_owned(),
        translate_to_english: false,
        custom_words: Vec::new(),
        history_limit: 5,
        recording_retention_period: RecordingRetentionPeriod::PreserveLimit,
        model_unload_timeout: ModelUnloadTimeout::Seconds(300),
        preload_model_on_startup: true,
        overlay_position: OverlayPosition::Bottom,
        keyboard_implementation: KeyboardImplementation::HandyKeys,
        post_process_enabled: false,
        bindings: KeyedMap::new(),
    }
}

/// The language that a selection asks an engine for: none for `auto`, plain
/// Chinese for either script, otherwise the selection itself.
pub open spec fn requested_language(selected: Seq<char>) -> Option<Seq<char>> {
    if selected == "auto"@ {
        None
    } else if selected == "zh-Hans"@ || selected == "zh-Hant"@ {
        Some("zh"@)
    } else {
        Some(selected)
    }
}

/// The language that a selection asks an engine for.
pub fn request_language(selected: &str) -> (r: Option<String>)
    ensures
        crate::text::optional_text(r) == requested_language(selected@),
        r is None <==> selected@ == "auto"@,
        r matches Some(language) ==> language@ == (if selected@ == "zh-Hans"@ || selected@
            == "zh-Hant"@ {
            "zh"@
        } else {
            selected@
        }),
{
    if same_text(selected, "auto") {
        None
    } else if same_text(selected, "zh-Hans") || same_text(selected, "zh-Hant") {
        Some("zh".to_owned())
    } else {
        Some(selected.to_owned())
    }
}

/// No language is asked for exactly where the selection is `auto`. Both Chinese
/// scripts ask for the same language, and every other selection for itself.
pub proof fn only_auto_asks_for_no_language(selected: Seq<char>)
    ensures
        requested_language(selected) is None <==> selected == "auto"@,
        requested_language("zh-Hans"@) == requested_language("zh-Hant"@),
        selected == "zh-Hans"@ || selected == "zh-Hant"@ ==> requested_language(selected) == Some(
            "zh"@,
        ),
        selected != "auto"@ && selected != "zh-Hans"@ && selected != "zh-Hant"@
            ==> requested_language(selected) == Some(selected),
{
    reveal_strlit("auto");
    reveal_strlit("zh-Hans");
    reveal_strlit("zh-Hant");
    assert("zh-Hans"@.len() == 7 && "zh-Hant"@.len() == 7 && "auto"@.len() == 4);
}

/// A model is never unloaded for being idle only where the setting says so;
/// otherwise the setting gives the seconds.
pub proof fn only_never_has_no_idle_limit(timeout: ModelUnloadTimeout, n: u64)
    ensures
        timeout_seconds(timeout) is None <==> timeout == ModelUnloadTimeout::Never,
        timeout_seconds(timeout) == Some(n) <==> timeout == ModelUnloadTimeout::Seconds(n) || (n
            == 0 && timeout == ModelUnloadTimeout::Immediately),
{
}

} // verus!
