//! The local provider: which engine is loaded, how a model is loaded and
//! unloaded, and how a transcription runs on it.
//!
//! Loading a model and running an engine are done outside; each operation is
//! split where that work happens. The first half says what to do, the second
//! half takes what came of it.

use vstd::prelude::*;

use super::slot::{MutationKind, RestoreStep, RestoreTicket, VersionedModelSlot};
use super::types::{
    invalid_configuration, ProviderCapabilities, ProviderDescriptor, ProviderKind,
    TranscriptionError, TranscriptionLatency, TranscriptionModelDescriptor, TranscriptionResult,
};
use crate::managers::model::{EngineType, ModelInfo};
use crate::settings::{request_language, AppSettings, ModelUnloadTimeout};
use crate::text::same_text;

verus! {

/// The provider id of the local engines.
pub const PROVIDER_ID: &'static str = "local";

/// The contents of a local catalog with the models `models`.
pub open spec fn local_catalog(
    models: Seq<super::types::ModelView>,
) -> super::types::DescriptorView {
    super::types::DescriptorView {
        id: "local"@,
        label: "Local"@,
        kind: ProviderKind::Local,
        models,
        capabilities: super::types::CapabilitiesView {
            batch: true,
            realtime: false,
            supported_languages: Seq::empty(),
            supports_word_timestamps: false,
            sends_audio_off_device: false,
        },
        requires_credential: false,
        privacy_url: None,
        pricing_url: None,
        cost_text: None,
        retention_text: None,
        consent_version: 0,
        beta: false,
    }
}

/// The catalog entry of a model.
pub open spec fn model_entry(info: ModelInfo) -> super::types::ModelView {
    super::types::ModelView { id: info.id@, label: info.name@ }
}

/// The local catalog with the given models.
pub fn catalog(models: Vec<TranscriptionModelDescriptor>) -> (r: ProviderDescriptor)
    ensures
        r@ == local_catalog(super::types::models_view(models@)),
        r.id@ == "local"@,
        r.label@ == "Local"@,
        r.kind == ProviderKind::Local,
        r.models == models,
        r.capabilities.batch,
        !r.capabilities.realtime,
        r.capabilities.supported_languages@.len() == 0,
        !r.capabilities.supports_word_timestamps,
        !r.capabilities.sends_audio_off_device,
        !r.requires_credential,
        r.privacy_url is None,
        r.pricing_url is None,
        r.cost_text is None,
        r.retention_text is None,
        r.consent_version == 0,
        !r.beta,
{
    let r = ProviderDescriptor {
        id: "local".to_owned(),
        label: "Local".to_owned(),
        kind: ProviderKind::Local,
        models,
        capabilities: ProviderCapabilities {
            batch: true,
            realtime: false,
            supported_languages: Vec::new(),
            supports_word_timestamps: false,
            sends_audio_off_device: false,
        },
        requires_credential: false,
        privacy_url: None,
        pricing_url: None,
        cost_text: None,
        retention_text: None,
        consent_version: 0,
        beta: false,
    };
    proof {
        assert(r@.capabilities.supported_languages == Seq::<Seq<char>>::empty());
    }
    r
}

/// The local catalog of the models on this machine.
pub fn descriptor(available: &Vec<ModelInfo>) -> (r: ProviderDescriptor)
    ensures
        r@ == local_catalog(available@.map_values(|info: ModelInfo| model_entry(info))),
        r.models@.len() == available@.len(),
        forall|i: int|
            0 <= i < available@.len() ==> (#[trigger] r.models@[i]).id@ == available@[i].id@
                && r.models@[i].label@ == available@[i].name@,
{
    let mut models: Vec<TranscriptionModelDescriptor> = Vec::new();
    let mut i: usize = 0;
    while i < available.len()
        invariant
            i <= available@.len(),
            models@.len() == i,
            forall|j: int| 0 <= j < i ==> (#[trigger] models@[j])@ == model_entry(available@[j]),
        decreases available@.len() - i,
    {
        models.push(
            TranscriptionModelDescriptor {
                id: available[i].id.clone(),
                label: available[i].name.clone(),
            },
        );
        i += 1;
    }
    proof {
        assert(super::types::models_view(models@) == available@.map_values(
            |info: ModelInfo| model_entry(info),
        ));
    }
    catalog(models)
}

/// A change of the local model's state, for the user interface.
#[derive(Debug)]
pub struct ModelStateEvent {
    pub event_type: String,
    pub model_id: Option<String>,
    pub model_name: Option<String>,
    pub error: Option<String>,
}

/// The contents of a [`ModelStateEvent`].
pub struct EventView {
    pub event_type: Seq<char>,
    pub model_id: Option<Seq<char>>,
    pub model_name: Option<Seq<char>>,
    pub error: Option<Seq<char>>,
}

impl View for ModelStateEvent {
    type V = EventView;

    open spec fn view(&self) -> EventView {
        EventView {
            event_type: self.event_type@,
            model_id: crate::text::optional_text(self.model_id),
            model_name: crate::text::optional_text(self.model_name),
            error: crate::text::optional_text(self.error),
        }
    }
}

/// The contents of an optional event.
pub open spec fn optional_event(event: Option<ModelStateEvent>) -> Option<EventView> {
    match event {
        Some(e) => Some(e@),
        None => None,
    }
}

/// The event that a model was unloaded.
pub open spec fn unloaded_event() -> EventView {
    EventView { event_type: "unloaded"@, model_id: None, model_name: None, error: None }
}

/// The event that a load failed.
pub open spec fn loading_failed_event(
    model_id: Seq<char>,
    name: Seq<char>,
    error: Seq<char>,
) -> EventView {
    EventView {
        event_type: "loading_failed"@,
        model_id: Some(model_id),
        model_name: Some(name),
        error: Some(error),
    }
}

/// The event that a load succeeded.
pub open spec fn loading_completed_event(model_id: Seq<char>, name: Seq<char>) -> EventView {
    EventView {
        event_type: "loading_completed"@,
        model_id: Some(model_id),
        model_name: Some(name),
        error: None,
    }
}

fn unloaded() -> (r: ModelStateEvent)
    ensures
        r@ == unloaded_event(),
        r.event_type@ == "unloaded"@,
        r.model_id is None,
        r.model_name is None,
        r.error is None,
{
    ModelStateEvent {
        event_type: "unloaded".to_owned(),
        model_id: None,
        model_name: None,
        error: None,
    }
}

fn loading_failed(model_id: &str, name: &String, error: &String) -> (r: ModelStateEvent)
    ensures
        r@ == loading_failed_event(model_id@, name@, error@),
        r.event_type@ == "loading_failed"@,
        r.model_id matches Some(id) && id@ == model_id@,
        r.model_name == Some(*name),
        r.error == Some(*error),
{
    ModelStateEvent {
        event_type: "loading_failed".to_owned(),
        model_id: Some(model_id.to_owned()),
        model_name: Some(name.clone()),
        error: Some(error.clone()),
    }
}

/// The event that opens every load of `model_id`.
pub fn loading_started(model_id: &str) -> (r: ModelStateEvent)
    ensures
        r@ == (EventView {
            event_type: "loading_started"@,
            model_id: Some(model_id@),
            model_name: None,
            error: None,
        }),
        r.event_type@ == "loading_started"@,
        r.model_id matches Some(id) && id@ == model_id@,
        r.model_name is None,
        r.error is None,
{
    ModelStateEvent {
        event_type: "loading_started".to_owned(),
        model_id: Some(model_id.to_owned()),
        model_name: None,
        error: None,
    }
}

/// A load that cannot go on: its error, and the event to announce, if any.
#[derive(Debug)]
pub struct LoadFailure {
    pub event: Option<ModelStateEvent>,
    pub error: String,
}

/// What came of preparing the engine of a model.
#[derive(Debug)]
pub enum LoadAttempt {
    /// The engine holds the model.
    Loaded,
    /// The files of the model could not be located.
    PathUnavailable(String),
    /// The engine refused the model.
    EngineFailed(String),
}

/// What a load ended with.
#[derive(Debug)]
pub struct LoadReport {
    pub event: Option<ModelStateEvent>,
    pub result: Result<(), String>,
}

/// Whether the engine reads model files.
pub open spec fn reads_files(engine: EngineType) -> bool {
    engine != EngineType::InsanelyFastWhisper
}

/// Whether the engine reads model files, so that their path has to be located.
pub fn needs_model_path(engine: EngineType) -> (r: bool)
    ensures
        r == reads_files(engine),
        !r <==> engine == EngineType::InsanelyFastWhisper,
{
    engine != EngineType::InsanelyFastWhisper
}

/// Decides whether `model_id` can be loaded, given what is known of it: the
/// engine to prepare, or why not.
pub fn plan_load(model_id: &str, info: &Option<ModelInfo>) -> (r: Result<EngineType, LoadFailure>)
    ensures
        match (r, *info) {
            (Ok(engine), Some(known)) => known.is_downloaded && engine == known.engine_type,
            (Err(failure), None) => {
                &&& failure.event is None
                &&& failure.error@ == "Model not found: "@ + model_id@
            },
            (Err(failure), Some(known)) => {
                &&& !known.is_downloaded
                &&& failure.error@ == "Model not downloaded"@
                &&& optional_event(failure.event) == Some(
                    loading_failed_event(model_id@, known.name@, "Model not downloaded"@),
                )
            },
            (Ok(_), None) => false,
        },
        r is Ok <==> (info matches Some(known) && known.is_downloaded),
        r matches Err(failure) ==> (failure.event is Some <==> *info is Some),
        r matches Err(failure) ==> (failure.event matches Some(event) ==> {
            &&& event.event_type@ == "loading_failed"@
            &&& event.model_id matches Some(id) && id@ == model_id@
            &&& event.model_name matches Some(name) && name@ == info->0.name@
            &&& event.error matches Some(error) && error@ == failure.error@
        }),
{
    match info {
        None => {
            let mut error: String = "Model not found: ".to_owned();
            error.append(model_id);
            Err(LoadFailure { event: None, error })
        },
        Some(known) => {
            if known.is_downloaded {
                Ok(known.engine_type)
            } else {
                let error: String = "Model not downloaded".to_owned();
                let event = loading_failed(model_id, &known.name, &error);
                Err(LoadFailure { event: Some(event), error })
            }
        },
    }
}

/// The error of an engine that refused the model.
pub open spec fn engine_load_error(
    engine: EngineType,
    model_id: Seq<char>,
    detail: Seq<char>,
) -> Seq<char> {
    match engine {
        EngineType::Whisper => "Failed to load whisper model "@ + model_id + ": "@ + detail,
        EngineType::Parakeet => "Failed to load parakeet model "@ + model_id + ": "@ + detail,
        EngineType::Moonshine => "Failed to load moonshine model "@ + model_id + ": "@ + detail,
        EngineType::MoonshineStreaming => "Failed to load moonshine streaming model "@ + model_id
            + ": "@ + detail,
        EngineType::SenseVoice => "Failed to load SenseVoice model "@ + model_id + ": "@ + detail,
        EngineType::InsanelyFastWhisper =>
        "insanely-fast-whisper is not installed. Install it with: pip install insanely-fast-whisper"@,
    }
}

fn engine_load_error_text(engine: EngineType, model_id: &str, detail: &String) -> (r: String)
    ensures
        r@ == engine_load_error(engine, model_id@, detail@),
        engine == EngineType::Whisper ==> r@ == "Failed to load whisper model "@ + model_id@
            + ": "@ + detail@,
        engine == EngineType::Parakeet ==> r@ == "Failed to load parakeet model "@ + model_id@
            + ": "@ + detail@,
        engine == EngineType::Moonshine ==> r@ == "Failed to load moonshine model "@ + model_id@
            + ": "@ + detail@,
        engine == EngineType::MoonshineStreaming ==> r@
            == "Failed to load moonshine streaming model "@ + model_id@ + ": "@ + detail@,
        engine == EngineType::SenseVoice ==> r@ == "Failed to load SenseVoice model "@ + model_id@
            + ": "@ + detail@,
        engine == EngineType::InsanelyFastWhisper ==> r@
            == "insanely-fast-whisper is not installed. Install it with: pip install insanely-fast-whisper"@,
{
    let opening: &str = match engine {
        EngineType::Whisper => "Failed to load whisper model ",
        EngineType::Parakeet => "Failed to load parakeet model ",
        EngineType::Moonshine => "Failed to load moonshine model ",
        EngineType::MoonshineStreaming => "Failed to load moonshine streaming model ",
        EngineType::SenseVoice => "Failed to load SenseVoice model ",
        EngineType::InsanelyFastWhisper => {
            return "insanely-fast-whisper is not installed. Install it with: pip install insanely-fast-whisper".to_owned();
        },
    };
    let mut out: String = opening.to_owned();
    out.append(model_id);
    out.append(": ");
    out.append(detail.as_str());
    out
}

/// The language of a SenseVoice run.
#[derive(Debug, Clone, Copy, PartialEq, Eq, Structural)]
pub enum SenseVoiceLanguage {
    Auto,
    Chinese,
    English,
    Japanese,
    Korean,
    Cantonese,
}

/// The SenseVoice language for a selection.
pub open spec fn sense_voice_language(selected: Seq<char>) -> SenseVoiceLanguage {
    if selected == "zh"@ || selected == "zh-Hans"@ || selected == "zh-Hant"@ {
        SenseVoiceLanguage::Chinese
    } else if selected == "en"@ {
        SenseVoiceLanguage::English
    } else if selected == "ja"@ {
        SenseVoiceLanguage::Japanese
    } else if selected == "ko"@ {
        SenseVoiceLanguage::Korean
    } else if selected == "yue"@ {
        SenseVoiceLanguage::Cantonese
    } else {
        SenseVoiceLanguage::Auto
    }
}

fn select_sense_voice_language(selected: &str) -> (r: SenseVoiceLanguage)
    ensures
        r == sense_voice_language(selected@),
        r == SenseVoiceLanguage::Chinese <==> selected@ == "zh"@ || selected@ == "zh-Hans"@
            || selected@ == "zh-Hant"@,
        r == SenseVoiceLanguage::English <==> selected@ == "en"@,
        r == SenseVoiceLanguage::Japanese <==> selected@ == "ja"@,
        r == SenseVoiceLanguage::Korean <==> selected@ == "ko"@,
        r == SenseVoiceLanguage::Cantonese <==> selected@ == "yue"@,
{
    proof {
        each_sense_voice_language_has_its_selections(selected@);
    }
    if same_text(selected, "zh") || same_text(selected, "zh-Hans") || same_text(
        selected,
        "zh-Hant",
    ) {
        SenseVoiceLanguage::Chinese
    } else if same_text(selected, "en") {
        SenseVoiceLanguage::English
    } else if same_text(selected, "ja") {
        SenseVoiceLanguage::Japanese
    } else if same_text(selected, "ko") {
        SenseVoiceLanguage::Korean
    } else if same_text(selected, "yue") {
        SenseVoiceLanguage::Cantonese
    } else {
        SenseVoiceLanguage::Auto
    }
}

/// A run of a loaded engine and its parameters.
#[derive(Debug)]
pub enum EngineCall {
    Whisper { language: Option<String>, translate: bool, threads: usize },
    /// With one timestamp per segment.
    Parakeet,
    Moonshine,
    MoonshineStreaming,
    /// With inverse text normalization.
    SenseVoice(SenseVoiceLanguage),
}

/// The contents of an [`EngineCall`].
pub enum CallView {
    Whisper { language: Option<Seq<char>>, translate: bool, threads: usize },
    Parakeet,
    Moonshine,
    MoonshineStreaming,
    SenseVoice(SenseVoiceLanguage),
}

impl View for EngineCall {
    type V = CallView;

    open spec fn view(&self) -> CallView {
        match self {
            EngineCall::Whisper { language, translate, threads } => CallView::Whisper {
                language: crate::text::optional_text(*language),
                translate: *translate,
                threads: *threads,
            },
            EngineCall::Parakeet => CallView::Parakeet,
            EngineCall::Moonshine => CallView::Moonshine,
            EngineCall::MoonshineStreaming => CallView::MoonshineStreaming,
            EngineCall::SenseVoice(language) => CallView::SenseVoice(*language),
        }
    }
}

/// What a transcription has to do next.
#[derive(Debug)]
pub enum TranscribeStep {
    /// Nothing to run.
    Finished(Result<String, String>),
    /// Run the command line program.
    Subprocess { model: String, language: String },
    /// Run the engine, which has been taken out of the provider, and hand the
    /// result to [`LocalProviderState::finish_inference`].
    Infer { engine: EngineType, call: EngineCall },
}

/// The contents of a [`TranscribeStep`].
pub enum TranscribeView {
    Finished(Result<Seq<char>, Seq<char>>),
    Subprocess { model: Seq<char>, language: Seq<char> },
    Infer { engine: EngineType, call: CallView },
}

/// The texts of a result.
pub open spec fn result_text(r: Result<String, String>) -> Result<Seq<char>, Seq<char>> {
    match r {
        Ok(text) => Ok(text@),
        Err(error) => Err(error@),
    }
}

impl View for TranscribeStep {
    type V = TranscribeView;

    open spec fn view(&self) -> TranscribeView {
        match self {
            TranscribeStep::Finished(r) => TranscribeView::Finished(result_text(*r)),
            TranscribeStep::Subprocess { model, language } => TranscribeView::Subprocess {
                model: model@,
                language: language@,
            },
            TranscribeStep::Infer { engine, call } => TranscribeView::Infer {
                engine: *engine,
                call: call@,
            },
        }
    }
}

/// The parameters of an engine run under the given settings, for an engine that
/// runs in this process. Whisper gets as many threads as the machine is
/// recommended to use.
pub open spec fn engine_call(
    engine: EngineType,
    selected_language: Seq<char>,
    translate: bool,
    recommended_threads: usize,
) -> CallView {
    match engine {
        EngineType::Whisper => CallView::Whisper {
            language: crate::settings::requested_language(selected_language),
            translate,
            threads: recommended_threads,
        },
        EngineType::Moonshine => CallView::Moonshine,
        EngineType::MoonshineStreaming => CallView::MoonshineStreaming,
        EngineType::SenseVoice => CallView::SenseVoice(sense_voice_language(selected_language)),
        _ => CallView::Parakeet,
    }
}

/// What a transcription has to do next, with `engine` loaded.
pub open spec fn transcribe_step(
    engine: Option<EngineType>,
    empty_audio: bool,
    settings: AppSettings,
    recommended_threads: usize,
) -> TranscribeView {
    if empty_audio {
        TranscribeView::Finished(Ok(""@))
    } else {
        match engine {
            None => TranscribeView::Finished(Err("Model is not loaded for transcription."@)),
            Some(EngineType::InsanelyFastWhisper) => TranscribeView::Subprocess {
                model: match settings.insanely_fast_whisper_model {
                    Some(model) => model@,
                    None => "openai/whisper-large-v3-turbo"@,
                },
                language: settings.selected_language@,
            },
            Some(loaded) => TranscribeView::Infer {
                engine: loaded,
                call: engine_call(
                    loaded,
                    settings.selected_language@,
                    settings.translate_to_english,
                    recommended_threads,
                ),
            },
        }
    }
}

/// What came of running an engine.
#[derive(Debug)]
pub enum InferenceOutcome {
    Text(String),
    Failed(String),
    /// The engine panicked; the message, where it is a text.
    Panicked(Option<String>),
}

/// What a run of an engine ended with.
#[derive(Debug)]
pub struct InferenceReport {
    pub event: Option<ModelStateEvent>,
    pub result: Result<String, String>,
}

/// The error of an engine run.
pub open spec fn inference_error(engine: EngineType, detail: Seq<char>) -> Seq<char> {
    match engine {
        EngineType::Whisper => "Whisper transcription failed: "@ + detail,
        EngineType::Parakeet => "Parakeet transcription failed: "@ + detail,
        EngineType::Moonshine => "Moonshine transcription failed: "@ + detail,
        EngineType::MoonshineStreaming => "Moonshine streaming transcription failed: "@ + detail,
        EngineType::SenseVoice => "SenseVoice transcription failed: "@ + detail,
        EngineType::InsanelyFastWhisper => detail,
    }
}

fn inference_error_text(engine: EngineType, detail: String) -> (r: String)
    ensures
        r@ == inference_error(engine, detail@),
        engine == EngineType::Whisper ==> r@ == "Whisper transcription failed: "@ + detail@,
        engine == EngineType::Parakeet ==> r@ == "Parakeet transcription failed: "@ + detail@,
        engine == EngineType::Moonshine ==> r@ == "Moonshine transcription failed: "@ + detail@,
        engine == EngineType::MoonshineStreaming ==> r@
            == "Moonshine streaming transcription failed: "@ + detail@,
        engine == EngineType::SenseVoice ==> r@ == "SenseVoice transcription failed: "@ + detail@,
        engine == EngineType::InsanelyFastWhisper ==> r@ == detail@,
{
    let opening: &str = match engine {
        EngineType::Whisper => "Whisper transcription failed: ",
        EngineType::Parakeet => "Parakeet transcription failed: ",
        EngineType::Moonshine => "Moonshine transcription failed: ",
        EngineType::MoonshineStreaming => "Moonshine streaming transcription failed: ",
        EngineType::SenseVoice => "SenseVoice transcription failed: ",
        EngineType::InsanelyFastWhisper => {
            return detail;
        },
    };
    let mut out: String = opening.to_owned();
    out.append(detail.as_str());
    out
}

/// The text of a panic.
pub open spec fn panic_text(message: Option<String>) -> Seq<char> {
    match message {
        Some(text) => text@,
        None => "unknown panic"@,
    }
}

/// The state of the local provider.
pub struct LocalProviderState {
    /// Which model is current.
    pub model_slot: VersionedModelSlot,
    /// The loaded engine; absent also while a run has taken it out.
    pub engine: Option<EngineType>,
    /// When the last transcription began, in milliseconds.
    pub last_activity: u64,
    /// A background load is under way.
    pub is_loading: bool,
}

/// The contents of a [`LocalProviderState`].
pub struct LocalView {
    pub slot: super::slot::SlotView,
    pub engine: Option<EngineType>,
    pub last_activity: u64,
    pub is_loading: bool,
}

impl View for LocalProviderState {
    type V = LocalView;

    open spec fn view(&self) -> LocalView {
        LocalView {
            slot: self.model_slot@,
            engine: self.engine,
            last_activity: self.last_activity,
            is_loading: self.is_loading,
        }
    }
}

/// The state after the model was unloaded.
pub open spec fn after_unload(s: LocalView, kind: MutationKind) -> LocalView {
    LocalView { slot: super::slot::after_set(s.slot, kind, None), engine: None, ..s }
}

/// The state after `model_id` was loaded into `engine`.
pub open spec fn after_load(
    s: LocalView,
    kind: MutationKind,
    model_id: Seq<char>,
    engine: EngineType,
) -> LocalView {
    LocalView {
        slot: super::slot::after_set(s.slot, kind, Some(model_id)),
        engine: Some(engine),
        ..s
    }
}

/// The state after a run of `engine` ended.
pub open spec fn after_inference(s: LocalView, engine: EngineType, panicked: bool) -> LocalView {
    if panicked {
        LocalView {
            slot: super::slot::after_set(s.slot, MutationKind::Explicit, None),
            ..s
        }
    } else {
        LocalView { engine: Some(engine), ..s }
    }
}

/// The state after a transcription began at `now_ms`.
pub open spec fn after_begin_transcription(
    s: LocalView,
    empty_audio: bool,
    now_ms: u64,
) -> LocalView {
    LocalView {
        last_activity: now_ms,
        engine: if !empty_audio && s.engine != Some(EngineType::InsanelyFastWhisper) {
            None
        } else {
            s.engine
        },
        ..s
    }
}

/// A model is loaded, and the settings ask for unloading it after every use.
pub open spec fn unloads_immediately(s: LocalView, timeout: ModelUnloadTimeout) -> bool {
    timeout == ModelUnloadTimeout::Immediately && s.engine is Some
}

/// The state after the model was unloaded where the settings ask for it after
/// every use.
pub open spec fn after_immediate_unload(s: LocalView, timeout: ModelUnloadTimeout) -> LocalView {
    if unloads_immediately(s, timeout) {
        after_unload(s, MutationKind::Explicit)
    } else {
        s
    }
}

/// The event of that, if it happens.
pub open spec fn immediate_unload_event(s: LocalView, timeout: ModelUnloadTimeout) -> Option<
    EventView,
> {
    if unloads_immediately(s, timeout) {
        Some(unloaded_event())
    } else {
        None
    }
}

/// A run on the target `model_id` can start.
pub open spec fn target_ready(s: LocalView, model_id: Seq<char>, loaded: Result<(), String>) -> bool {
    loaded is Ok && s.slot.current == Some(model_id) && s.engine is Some
}

/// What a run on a target has to do next.
#[derive(Debug)]
pub enum TargetStep {
    /// Transcribe, then call [`LocalProviderState::target_transcribed`].
    Transcribe,
    /// Announce the event, if any, and return the result.
    Done { result: Result<String, TranscriptionError>, event: Option<ModelStateEvent> },
}

/// The model has been idle for longer than `timeout` allows.
pub open spec fn idle_too_long(s: LocalView, timeout: ModelUnloadTimeout, now_ms: u64) -> bool {
    match timeout {
        ModelUnloadTimeout::Seconds(limit) => s.engine is Some && now_ms - s.last_activity > limit
            * 1000,
        _ => false,
    }
}

impl LocalProviderState {
    /// A provider without a model.
    pub fn new(now_ms: u64) -> (r: Self)
        ensures
            r.model_slot@ == (super::slot::SlotView {
                current: None,
                generation: 0,
                explicit_epoch: 0,
                next_ticket: 0,
                tickets: Seq::empty(),
            }),
            r.engine is None,
            r.last_activity == now_ms,
            !r.is_loading,
    {
        LocalProviderState {
            model_slot: VersionedModelSlot::new(),
            engine: None,
            last_activity: now_ms,
            is_loading: false,
        }
    }

    /// Whether an engine is loaded.
    pub fn is_model_loaded(&self) -> (r: bool)
        ensures
            r == self.engine.is_some(),
    {
        self.engine.is_some()
    }

    /// The current model.
    pub fn get_current_model(&self) -> (r: Option<String>)
        ensures
            crate::text::optional_text(r) == self@.slot.current,
            r is None <==> self@.slot.current is None,
            r matches Some(model) ==> self@.slot.current == Some(model@),
    {
        self.model_slot.current()
    }

    /// Whether `model_id` is the current model.
    pub fn is_current(&self, model_id: &str) -> (r: bool)
        ensures
            r == (self@.slot.current == Some(model_id@)),
    {
        match self.model_slot.current() {
            Some(current) => same_text(current.as_str(), model_id),
            None => false,
        }
    }

    /// Drops the engine and clears the current model.
    pub fn unload_model_inner(&mut self, kind: MutationKind) -> (r: ModelStateEvent)
        requires
            super::slot::has_room(old(self)@.slot, kind),
        ensures
            final(self)@ == after_unload(old(self)@, kind),
            r@ == unloaded_event(),
            final(self).engine is None,
            final(self)@.slot.current is None,
            final(self)@.slot.tickets == old(self)@.slot.tickets,
            final(self).last_activity == old(self).last_activity,
            final(self).is_loading == old(self).is_loading,
            r.event_type@ == "unloaded"@,
            r.error is None,
    {
        self.engine = None;
        self.model_slot.set(kind, None);
        unloaded()
    }

    /// Unloads the model for good.
    pub fn unload_model(&mut self) -> (r: ModelStateEvent)
        requires
            super::slot::has_room(old(self)@.slot, MutationKind::Explicit),
        ensures
            final(self)@ == after_unload(old(self)@, MutationKind::Explicit),
            r@ == unloaded_event(),
            final(self).engine is None,
            final(self)@.slot.current is None,
            final(self)@.slot.explicit_epoch == old(self)@.slot.explicit_epoch + 1,
            final(self).last_activity == old(self).last_activity,
            final(self).is_loading == old(self).is_loading,
            r.event_type@ == "unloaded"@,
            r.error is None,
    {
        self.unload_model_inner(MutationKind::Explicit)
    }

    /// Unloads a loaded model where the settings ask for it after every use.
    pub fn maybe_unload_immediately(&mut self, timeout: ModelUnloadTimeout) -> (r: Option<
        ModelStateEvent,
    >)
        requires
            unloads_immediately(old(self)@, timeout) ==> super::slot::has_room(
                old(self)@.slot,
                MutationKind::Explicit,
            ),
        ensures
            final(self)@ == after_immediate_unload(old(self)@, timeout),
            optional_event(r) == immediate_unload_event(old(self)@, timeout),
            r is Some <==> timeout == ModelUnloadTimeout::Immediately && old(self).engine is Some,
            r is None ==> final(self)@ == old(self)@,
            r matches Some(event) ==> {
                &&& event.event_type@ == "unloaded"@
                &&& event.error is None
                &&& final(self).engine is None
                &&& final(self)@.slot.current is None
                &&& final(self)@.slot.explicit_epoch == old(self)@.slot.explicit_epoch + 1
                &&& final(self).last_activity == old(self).last_activity
            },
    {
        if timeout == ModelUnloadTimeout::Immediately && self.is_model_loaded() {
            Some(self.unload_model_inner(MutationKind::Explicit))
        } else {
            None
        }
    }

    /// Ends the load of a model whose engine was prepared: on success it
    /// becomes current, otherwise the provider stays as it was.
    pub fn finish_load(
        &mut self,
        model_id: &str,
        info: &ModelInfo,
        kind: MutationKind,
        attempt: LoadAttempt,
    ) -> (r: LoadReport)
        requires
            attempt is Loaded ==> super::slot::has_room(old(self)@.slot, kind),
        ensures
            match attempt {
                LoadAttempt::Loaded => {
                    &&& final(self)@ == after_load(old(self)@, kind, model_id@, info.engine_type)
                    &&& r.result is Ok
                    &&& optional_event(r.event) == Some(
                        loading_completed_event(model_id@, info.name@),
                    )
                },
                LoadAttempt::PathUnavailable(error) => {
                    &&& final(self)@ == old(self)@
                    &&& r.result == Err::<(), String>(error)
                    &&& r.event is None
                },
                LoadAttempt::EngineFailed(detail) => {
                    let error = engine_load_error(info.engine_type, model_id@, detail@);
                    &&& final(self)@ == old(self)@
                    &&& r.result is Err
                    &&& r.result->Err_0@ == error
                    &&& optional_event(r.event) == Some(
                        loading_failed_event(model_id@, info.name@, error),
                    )
                },
            },
            r.result is Ok <==> attempt is Loaded,
            r.result is Ok ==> {
                &&& final(self).engine == Some(info.engine_type)
                &&& final(self)@.slot.current == Some(model_id@)
                &&& final(self)@.slot.tickets == old(self)@.slot.tickets
                &&& kind == MutationKind::Temporary ==> final(self)@.slot.explicit_epoch == old(
                    self,
                )@.slot.explicit_epoch
                &&& kind == MutationKind::Explicit ==> final(self)@.slot.explicit_epoch == old(
                    self,
                )@.slot.explicit_epoch + 1
                &&& final(self).last_activity == old(self).last_activity
                &&& r.event matches Some(event)
                &&& event.event_type@ == "loading_completed"@
                &&& event.model_id is Some
                &&& event.model_id->0@ == model_id@
                &&& event.model_name == Some(info.name)
                &&& event.error is None
            },
            r.result is Err ==> final(self)@ == old(self)@,
            attempt is EngineFailed ==> {
                &&& r.event matches Some(event)
                &&& event.event_type@ == "loading_failed"@
                &&& event.model_id is Some
                &&& event.model_id->0@ == model_id@
                &&& event.model_name == Some(info.name)
                &&& event.error is Some
                &&& event.error->0@ == r.result->Err_0@
            },
            attempt matches LoadAttempt::EngineFailed(detail) ==> match info.engine_type {
                EngineType::Whisper => r.result->Err_0@ == "Failed to load whisper model "@
                    + model_id@ + ": "@ + detail@,
                EngineType::Parakeet => r.result->Err_0@ == "Failed to load parakeet model "@
                    + model_id@ + ": "@ + detail@,
                EngineType::Moonshine => r.result->Err_0@ == "Failed to load moonshine model "@
                    + model_id@ + ": "@ + detail@,
                EngineType::MoonshineStreaming => r.result->Err_0@
                    == "Failed to load moonshine streaming model "@ + model_id@ + ": "@ + detail@,
                EngineType::SenseVoice => r.result->Err_0@ == "Failed to load SenseVoice model "@
                    + model_id@ + ": "@ + detail@,
                EngineType::InsanelyFastWhisper => r.result->Err_0@
                    == "insanely-fast-whisper is not installed. Install it with: pip install insanely-fast-whisper"@,
            },
    {
        match attempt {
            LoadAttempt::Loaded => {
                self.engine = Some(info.engine_type);
                self.model_slot.set(kind, Some(model_id.to_owned()));
                let event = ModelStateEvent {
                    event_type: "loading_completed".to_owned(),
                    model_id: Some(model_id.to_owned()),
                    model_name: Some(info.name.clone()),
                    error: None,
                };
                LoadReport { event: Some(event), result: Ok(()) }
            },
            LoadAttempt::PathUnavailable(error) => LoadReport { event: None, result: Err(error) },
            LoadAttempt::EngineFailed(detail) => {
                let error: String = engine_load_error_text(info.engine_type, model_id, &detail);
                let event = loading_failed(model_id, &info.name, &error);
                LoadReport { event: Some(event), result: Err(error) }
            },
        }
    }

    /// Claims the background load, unless one is under way or a model is
    /// loaded already.
    pub fn initiate_model_load(&mut self) -> (r: bool)
        ensures
            r == (!old(self).is_loading && old(self).engine is None),
            final(self)@ == (LocalView { is_loading: old(self).is_loading || r, ..old(self)@ }),
            r ==> final(self).is_loading,
            !r ==> final(self)@ == old(self)@,
    {
        if self.is_loading || self.is_model_loaded() {
            return false;
        }
        self.is_loading = true;
        true
    }

    /// Ends the background load.
    pub fn finish_background_load(&mut self)
        ensures
            final(self)@ == (LocalView { is_loading: false, ..old(self)@ }),
    {
        self.is_loading = false;
    }

    /// One look of the idle watcher: a model that has been idle for too long is
    /// unloaded. Returns the events to announce.
    pub fn idle_tick(&mut self, timeout: ModelUnloadTimeout, now_ms: u64) -> (r: Vec<
        ModelStateEvent,
    >)
        requires
            idle_too_long(old(self)@, timeout, now_ms) ==> super::slot::has_room(
                old(self)@.slot,
                MutationKind::Explicit,
            ),
            timeout matches ModelUnloadTimeout::Seconds(limit) ==> limit * 1000 <= u64::MAX,
        ensures
            final(self)@ == (if idle_too_long(old(self)@, timeout, now_ms) {
                after_unload(old(self)@, MutationKind::Explicit)
            } else {
                old(self)@
            }),
            r@.map_values(|e: ModelStateEvent| e@) == (if idle_too_long(
                old(self)@,
                timeout,
                now_ms,
            ) {
                seq![unloaded_event(), unloaded_event()]
            } else {
                Seq::empty()
            }),
            r@.len() > 0 <==> (timeout matches ModelUnloadTimeout::Seconds(limit) && old(
                self,
            ).engine is Some && now_ms - old(self).last_activity > limit * 1000),
            r@.len() == 0 ==> final(self)@ == old(self)@,
            r@.len() > 0 ==> {
                &&& r@.len() == 2
                &&& r@[0].event_type@ == "unloaded"@
                &&& r@[1].event_type@ == "unloaded"@
                &&& final(self).engine is None
                &&& final(self)@.slot.current is None
                &&& final(self)@.slot.explicit_epoch == old(self)@.slot.explicit_epoch + 1
                &&& final(self).last_activity == old(self).last_activity
            },
    {
        let mut events: Vec<ModelStateEvent> = Vec::new();
        if timeout != ModelUnloadTimeout::Immediately {
            match timeout.to_seconds() {
                Some(limit) => {
                    let idle: u64 = if now_ms > self.last_activity {
                        now_ms - self.last_activity
                    } else {
                        0
                    };
                    if idle > limit * 1000 && self.is_model_loaded() {
                        events.push(self.unload_model());
                        events.push(unloaded());
                    }
                },
                None => {},
            }
        }
        proof {
            let seen = events@.map_values(|e: ModelStateEvent| e@);
            if idle_too_long(old(self)@, timeout, now_ms) {
                assert(seen == seq![unloaded_event(), unloaded_event()]);
            } else {
                assert(seen == Seq::<EventView>::empty());
            }
        }
        events
    }

    /// Opens a restore ticket for a temporary switch to `model_id`, with the
    /// current model as its baseline. The flag says whether the model still has
    /// to be loaded.
    pub fn begin_temporary_switch(&mut self, model_id: &str) -> (r: (RestoreTicket, bool))
        requires
            old(self)@.slot.next_ticket < u64::MAX,
        ensures
            r.0@ == super::slot::next_ticket_of(old(self)@.slot, old(self)@.slot.current),
            r.1 == (old(self)@.slot.current != Some(model_id@)),
            r.0@.restore_to == old(self)@.slot.current,
            r.0@.explicit_epoch == old(self)@.slot.explicit_epoch,
            final(self)@.slot.tickets == old(self)@.slot.tickets.push(r.0@.id),
            final(self)@.slot.current == old(self)@.slot.current,
            final(self).engine == old(self).engine,
            final(self)@ == (LocalView {
                slot: super::slot::after_open(old(self)@.slot),
                ..old(self)@
            }),
    {
        let needs_load: bool = !self.is_current(model_id);
        let baseline: Option<String> = self.get_current_model();
        let ticket = self.model_slot.open_ticket(baseline);
        (ticket, needs_load)
    }

    /// Ends a temporary switch whose load was attempted: on failure the ticket
    /// is closed, since there is nothing to restore.
    pub fn finish_temporary_switch(
        &mut self,
        ticket: RestoreTicket,
        loaded: Result<(), String>,
    ) -> (r: Result<RestoreTicket, TranscriptionError>)
        ensures
            match loaded {
                Ok(_) => {
                    &&& r == Ok::<RestoreTicket, TranscriptionError>(ticket)
                    &&& final(self)@ == old(self)@
                },
                Err(_) => {
                    &&& r is Err
                    &&& r->Err_0@ == super::types::ErrorView::InvalidConfiguration(
                        "requested local model could not be loaded"@,
                    )
                    &&& final(self)@ == (LocalView {
                        slot: super::slot::after_close(old(self)@.slot, ticket@.id),
                        ..old(self)@
                    })
                },
            },
            r is Ok <==> loaded is Ok,
            r is Err ==> !final(self)@.slot.tickets.contains(ticket@.id),
            final(self)@.slot.current == old(self)@.slot.current,
            final(self).engine == old(self).engine,
    {
        match loaded {
            Ok(_) => Ok(ticket),
            Err(_) => {
                self.model_slot.abandon_ticket(&ticket);
                Err(invalid_configuration("requested local model could not be loaded"))
            },
        }
    }

    /// One attempt at resolving a ticket; see
    /// [`VersionedModelSlot::restore_ticket`].
    pub fn restore_ticket(&mut self, ticket: &RestoreTicket) -> (r: RestoreStep)
        ensures
            r@ == super::slot::restore_step(old(self)@.slot, ticket@),
            final(self)@ == (LocalView {
                slot: super::slot::after_restore_step(old(self)@.slot, ticket@),
                ..old(self)@
            }),
    {
        self.model_slot.restore_ticket(ticket)
    }

    /// Begins a transcription: decides what to run, and takes the engine out
    /// for the run, so that an engine that panics is never used again.
    pub fn begin_transcription(
        &mut self,
        empty_audio: bool,
        settings: &AppSettings,
        recommended_threads: usize,
        now_ms: u64,
    ) -> (r: TranscribeStep)
        ensures
            r@ == transcribe_step(
                old(self).engine,
                empty_audio,
                *settings,
                recommended_threads,
            ),
            final(self)@ == after_begin_transcription(old(self)@, empty_audio, now_ms),
            final(self).last_activity == now_ms,
            final(self)@.slot == old(self)@.slot,
            final(self).is_loading == old(self).is_loading,
            r is Infer ==> final(self).engine is None,
            r !is Infer ==> final(self).engine == old(self).engine,
            empty_audio ==> (r matches TranscribeStep::Finished(Ok(text)) && text@ == ""@),
            !empty_audio && old(self).engine is None ==> (r matches TranscribeStep::Finished(
                Err(error),
            ) && error@ == "Model is not loaded for transcription."@),
            !empty_audio && old(self).engine == Some(EngineType::InsanelyFastWhisper) ==> {
                &&& r matches TranscribeStep::Subprocess { model, language }
                &&& language@ == settings.selected_language@
                &&& settings.insanely_fast_whisper_model matches Some(chosen) ==> model@ == chosen@
                &&& settings.insanely_fast_whisper_model is None ==> model@
                    == "openai/whisper-large-v3-turbo"@
            },
            !empty_audio && old(self).engine is Some && old(self).engine != Some(
                EngineType::InsanelyFastWhisper,
            ) ==> r is Infer && Some(r->engine) == old(self).engine,
            r matches TranscribeStep::Infer { engine, call } ==> {
                &&& call is Whisper <==> engine == EngineType::Whisper
                &&& call is Parakeet <==> engine == EngineType::Parakeet
                &&& call is Moonshine <==> engine == EngineType::Moonshine
                &&& call is MoonshineStreaming <==> engine == EngineType::MoonshineStreaming
                &&& call is SenseVoice <==> engine == EngineType::SenseVoice
                &&& call matches EngineCall::Whisper { language, translate, threads } ==> {
                    &&& translate == settings.translate_to_english
                    &&& threads == recommended_threads
                    &&& language is None <==> settings.selected_language@ == "auto"@
                    &&& language matches Some(asked) ==> asked@ == (if settings.selected_language@
                        == "zh-Hans"@ || settings.selected_language@ == "zh-Hant"@ {
                        "zh"@
                    } else {
                        settings.selected_language@
                    })
                }
                &&& call matches EngineCall::SenseVoice(language) ==> {
                    &&& language == SenseVoiceLanguage::Chinese <==> settings.selected_language@
                        == "zh"@ || settings.selected_language@ == "zh-Hans"@
                        || settings.selected_language@ == "zh-Hant"@
                    &&& language == SenseVoiceLanguage::English <==> settings.selected_language@
                        == "en"@
                    &&& language == SenseVoiceLanguage::Japanese <==> settings.selected_language@
                        == "ja"@
                    &&& language == SenseVoiceLanguage::Korean <==> settings.selected_language@
                        == "ko"@
                    &&& language == SenseVoiceLanguage::Cantonese <==> settings.selected_language@
                        == "yue"@
                }
            },
    {
        self.last_activity = now_ms;
        if empty_audio {
            return TranscribeStep::Finished(Ok("".to_owned()));
        }
        let engine: EngineType = match self.engine {
            Some(engine) => engine,
            None => {
                return TranscribeStep::Finished(
                    Err("Model is not loaded for transcription.".to_owned()),
                );
            },
        };
        if engine == EngineType::InsanelyFastWhisper {
            let model: String = match &settings.insanely_fast_whisper_model {
                Some(model) => model.clone(),
                None => "openai/whisper-large-v3-turbo".to_owned(),
            };
            return TranscribeStep::Subprocess {
                model,
                language: settings.selected_language.clone(),
            };
        }
        self.engine = None;
        let call = match engine {
            EngineType::Whisper => EngineCall::Whisper {
                language: request_language(settings.selected_language.as_str()),
                translate: settings.translate_to_english,
                threads: recommended_threads,
            },
            EngineType::Moonshine => EngineCall::Moonshine,
            EngineType::MoonshineStreaming => EngineCall::MoonshineStreaming,
            EngineType::SenseVoice => EngineCall::SenseVoice(
                select_sense_voice_language(settings.selected_language.as_str()),
            ),
            _ => EngineCall::Parakeet,
        };
        TranscribeStep::Infer { engine, call }
    }

    /// Ends a run of `engine`. After a text or an ordinary error the engine
    /// goes back; after a panic it is gone and the current model is cleared, so
    /// that the next attempt loads it anew.
    pub fn finish_inference(&mut self, engine: EngineType, outcome: InferenceOutcome) -> (r:
        InferenceReport)
        requires
            outcome is Panicked ==> super::slot::has_room(
                old(self)@.slot,
                MutationKind::Explicit,
            ),
        ensures
            final(self)@ == after_inference(old(self)@, engine, outcome is Panicked),
            match outcome {
                InferenceOutcome::Text(text) => {
                    r.event is None && r.result == Ok::<String, String>(text)
                },
                InferenceOutcome::Failed(detail) => {
                    &&& r.event is None
                    &&& r.result is Err
                    &&& r.result->Err_0@ == inference_error(engine, detail@)
                },
                InferenceOutcome::Panicked(message) => {
                    &&& optional_event(r.event) == Some(
                        EventView {
                            error: Some("Engine panicked: "@ + panic_text(message)),
                            ..unloaded_event()
                        },
                    )
                    &&& r.result is Err
                    &&& r.result->Err_0@ == "Transcription engine panicked: "@ + panic_text(message)
                        + ". The model has been unloaded and will reload on next attempt."@
                },
            },
            r.result is Ok <==> outcome is Text,
            r.event is Some <==> outcome is Panicked,
            outcome !is Panicked ==> final(self).engine == Some(engine) && final(self)@.slot == old(
                self,
            )@.slot,
            outcome is Panicked ==> {
                &&& final(self).engine == old(self).engine
                &&& final(self)@.slot.current is None
                &&& final(self)@.slot.explicit_epoch == old(self)@.slot.explicit_epoch + 1
                &&& r.event matches Some(event) && event.event_type@ == "unloaded"@
                    && event.error is Some
            },
            outcome matches InferenceOutcome::Panicked(Some(message)) ==> r.result->Err_0@
                == "Transcription engine panicked: "@ + message@
                + ". The model has been unloaded and will reload on next attempt."@
                && r.event->0.error->0@ == "Engine panicked: "@ + message@,
            outcome matches InferenceOutcome::Panicked(None) ==> r.result->Err_0@
                == "Transcription engine panicked: "@ + "unknown panic"@
                + ". The model has been unloaded and will reload on next attempt."@
                && r.event->0.error->0@ == "Engine panicked: "@ + "unknown panic"@,
            outcome matches InferenceOutcome::Failed(detail) ==> match engine {
                EngineType::Whisper => r.result->Err_0@ == "Whisper transcription failed: "@
                    + detail@,
                EngineType::Parakeet => r.result->Err_0@ == "Parakeet transcription failed: "@
                    + detail@,
                EngineType::Moonshine => r.result->Err_0@ == "Moonshine transcription failed: "@
                    + detail@,
                EngineType::MoonshineStreaming => r.result->Err_0@
                    == "Moonshine streaming transcription failed: "@ + detail@,
                EngineType::SenseVoice => r.result->Err_0@ == "SenseVoice transcription failed: "@
                    + detail@,
                EngineType::InsanelyFastWhisper => r.result->Err_0@ == detail@,
            },
            final(self).last_activity == old(self).last_activity,
            final(self).is_loading == old(self).is_loading,
    {
        match outcome {
            InferenceOutcome::Text(text) => {
                self.engine = Some(engine);
                InferenceReport { event: None, result: Ok(text) }
            },
            InferenceOutcome::Failed(detail) => {
                self.engine = Some(engine);
                InferenceReport { event: None, result: Err(inference_error_text(engine, detail)) }
            },
            InferenceOutcome::Panicked(message) => {
                let text: String = match message {
                    Some(text) => text,
                    None => "unknown panic".to_owned(),
                };
                self.model_slot.set(MutationKind::Explicit, None);
                let mut announced: String = "Engine panicked: ".to_owned();
                announced.append(text.as_str());
                let mut error: String = "Transcription engine panicked: ".to_owned();
                error.append(text.as_str());
                error.append(". The model has been unloaded and will reload on next attempt.");
                let mut event = unloaded();
                event.error = Some(announced);
                InferenceReport { event: Some(event), result: Err(error) }
            },
        }
    }

    /// Begins a run on the target `model_id`: whether its model still has to be
    /// loaded.
    pub fn target_needs_load(&self, model_id: &str) -> (r: bool)
        ensures
            r == (self@.slot.current != Some(model_id@)),
    {
        !self.is_current(model_id)
    }

    /// Goes on with a run on the target `model_id` after its load, if one was
    /// needed. The requested model must be current and loaded; otherwise the
    /// run ends here.
    pub fn target_loaded(
        &mut self,
        model_id: &str,
        loaded: Result<(), String>,
        timeout: ModelUnloadTimeout,
    ) -> (r: TargetStep)
        requires
            !target_ready(old(self)@, model_id@, loaded) && unloads_immediately(old(self)@, timeout)
                ==> super::slot::has_room(old(self)@.slot, MutationKind::Explicit),
        ensures
            match r {
                TargetStep::Transcribe => {
                    &&& target_ready(old(self)@, model_id@, loaded)
                    &&& final(self)@ == old(self)@
                },
                TargetStep::Done { result, event } => {
                    &&& !target_ready(old(self)@, model_id@, loaded)
                    &&& final(self)@ == after_immediate_unload(old(self)@, timeout)
                    &&& optional_event(event) == immediate_unload_event(old(self)@, timeout)
                    &&& result is Err
                    &&& result->Err_0@ == super::types::ErrorView::InvalidConfiguration(
                        if loaded is Err {
                            "requested local model could not be loaded"@
                        } else {
                            "loaded local model does not match the requested target"@
                        },
                    )
                },
            },
            r is Transcribe <==> loaded is Ok && old(self)@.slot.current == Some(model_id@) && old(
                self,
            ).engine is Some,
            r matches TargetStep::Done { result, event } ==> {
                &&& event is Some <==> timeout == ModelUnloadTimeout::Immediately && old(
                    self,
                ).engine is Some
                &&& event is None ==> final(self)@ == old(self)@
                &&& event is Some ==> final(self).engine is None && final(self)@.slot.current is None
                &&& loaded is Err ==> (result matches Err(
                    TranscriptionError::InvalidConfiguration(text),
                ) && text@ == "requested local model could not be loaded"@)
                &&& loaded is Ok ==> (result matches Err(
                    TranscriptionError::InvalidConfiguration(text),
                ) && text@ == "loaded local model does not match the requested target"@)
            },
    {
        let error = match loaded {
            Err(_) => invalid_configuration("requested local model could not be loaded"),
            Ok(_) => {
                if self.is_current(model_id) && self.is_model_loaded() {
                    return TargetStep::Transcribe;
                }
                invalid_configuration("loaded local model does not match the requested target")
            },
        };
        let event = self.maybe_unload_immediately(timeout);
        TargetStep::Done { result: Err(error), event }
    }

    /// Ends a run on a target after its transcription.
    pub fn target_transcribed(
        &mut self,
        run: Result<String, String>,
        timeout: ModelUnloadTimeout,
    ) -> (r: TargetStep)
        requires
            unloads_immediately(old(self)@, timeout) ==> super::slot::has_room(
                old(self)@.slot,
                MutationKind::Explicit,
            ),
        ensures
            final(self)@ == after_immediate_unload(old(self)@, timeout),
            r matches TargetStep::Done { result, event } && {
                &&& optional_event(event) == immediate_unload_event(old(self)@, timeout)
                &&& match run {
                    Ok(text) => result == Ok::<String, TranscriptionError>(text),
                    Err(_) => result == Err::<String, TranscriptionError>(
                        TranscriptionError::ProviderUnavailable,
                    ),
                }
            },
            r matches TargetStep::Done { result, event } ==> {
                &&& event is Some <==> timeout == ModelUnloadTimeout::Immediately && old(
                    self,
                ).engine is Some
                &&& event is None ==> final(self)@ == old(self)@
                &&& event is Some ==> final(self).engine is None && final(self)@.slot.current is None
            },
    {
        let event = self.maybe_unload_immediately(timeout);
        let result = match run {
            Ok(text) => Ok(text),
            Err(_) => Err(TranscriptionError::ProviderUnavailable),
        };
        TargetStep::Done { result, event }
    }
}

/// An engine that ran without a panic is loaded again as before, and the
/// current model is what it was.
pub proof fn an_engine_comes_back_after_a_run(s: LocalView, engine: EngineType, now_ms: u64)
    requires
        s.engine == Some(engine),
        engine != EngineType::InsanelyFastWhisper,
    ensures
        after_inference(after_begin_transcription(s, false, now_ms), engine, false) == (LocalView {
            last_activity: now_ms,
            ..s
        }),
{
}

/// An engine that panicked is gone, no model is current any more, and every
/// ticket that was open before is superseded, so none of them can bring back a
/// stale model.
pub proof fn a_panic_unloads_the_engine_and_supersedes_every_ticket(
    s: LocalView,
    engine: EngineType,
    now_ms: u64,
    ticket: super::slot::TicketView,
)
    requires
        s.engine == Some(engine),
        engine != EngineType::InsanelyFastWhisper,
        ticket.explicit_epoch <= s.slot.explicit_epoch,
    ensures
        ({
            let after = after_inference(after_begin_transcription(s, false, now_ms), engine, true);
            &&& after.engine is None
            &&& after.slot.current is None
            &&& super::slot::restore_step(after.slot, ticket) == super::slot::StepView::Finished(
                super::slot::OutcomeView::Superseded,
            )
        }),
{
}

/// A temporary switch that loads its model, runs, and restores its ticket
/// leaves the slot as it found it, whichever model it switched to.
pub proof fn a_temporary_load_is_undone_by_its_ticket(
    s: LocalView,
    model_id: Seq<char>,
    engine: EngineType,
)
    requires
        super::slot::slot_wf(s.slot),
        s.slot.next_ticket < u64::MAX,
    ensures
        ({
            let ticket = super::slot::next_ticket_of(s.slot, s.slot.current);
            let opened = LocalView { slot: super::slot::after_open(s.slot), ..s };
            let loaded = after_load(opened, MutationKind::Temporary, model_id, engine);
            super::slot::same_state(super::slot::after_restore(loaded.slot, ticket), s.slot)
        }),
{
    super::slot::one_temporary_operation_unwinds(s.slot, Some(model_id));
}

/// The normalized result of a local transcription.
pub fn local_result(model_id: &str, text: String, elapsed_ms: u64) -> (r: TranscriptionResult)
    ensures
        r@ == (super::types::ResultView {
            text: text@,
            provider_id: "local"@,
            model_id: model_id@,
            detected_language: None,
            total_ms: elapsed_ms,
        }),
        r.text == text,
        r.provider_id@ == "local"@,
        r.model_id@ == model_id@,
        r.detected_language is None,
        r.latency.total_ms == elapsed_ms,
{
    TranscriptionResult {
        text,
        provider_id: "local".to_owned(),
        model_id: model_id.to_owned(),
        detected_language: None,
        latency: TranscriptionLatency { total_ms: elapsed_ms },
    }
}

/// Whether the user's own words have to be corrected in a transcript.
pub fn corrects_words(settings: &AppSettings) -> (r: bool)
    ensures
        r == (settings.custom_words@.len() > 0),
{
    settings.custom_words.len() > 0
}

/// Whether the selected model is loaded at startup.
pub fn preloads_model(settings: &AppSettings) -> (r: bool)
    ensures
        r == (settings.preload_model_on_startup && settings.selected_model@.len() > 0),
{
    settings.preload_model_on_startup && settings.selected_model.as_str().unicode_len() > 0
}

/// A Whisper run translates exactly where the user asked for it, in the
/// language that the user chose, with as many threads as were recommended;
/// nothing of that depends on the recording.
pub proof fn a_whisper_run_follows_the_settings(settings: AppSettings, recommended_threads: usize)
    ensures
        ({
            let step = transcribe_step(
                Some(EngineType::Whisper),
                false,
                settings,
                recommended_threads,
            );
            &&& step matches TranscribeView::Infer { engine, call }
            &&& engine == EngineType::Whisper
            &&& call matches CallView::Whisper { language, translate, threads }
            &&& translate == settings.translate_to_english
            &&& threads == recommended_threads
            &&& language is None <==> settings.selected_language@ == "auto"@
            &&& settings.selected_language@ == "zh-Hans"@ || settings.selected_language@
                == "zh-Hant"@ ==> language == Some("zh"@)
            &&& settings.selected_language@ != "auto"@ && settings.selected_language@ != "zh-Hans"@
                && settings.selected_language@ != "zh-Hant"@ ==> language == Some(
                settings.selected_language@,
            )
        }),
{
    crate::settings::only_auto_asks_for_no_language(settings.selected_language@);
}

/// The run of a loaded engine is a run of that very engine; only the program on
/// the command line is run otherwise, and an empty recording runs nothing.
pub proof fn a_run_uses_the_loaded_engine(
    engine: EngineType,
    settings: AppSettings,
    recommended_threads: usize,
)
    ensures
        transcribe_step(Some(engine), true, settings, recommended_threads)
            == TranscribeView::Finished(Ok(""@)),
        transcribe_step(Some(engine), false, settings, recommended_threads) is Subprocess
            <==> engine == EngineType::InsanelyFastWhisper,
        transcribe_step(Some(engine), false, settings, recommended_threads) matches
            TranscribeView::Infer { engine: run, call } ==> {
            &&& run == engine
            &&& call is Whisper <==> engine == EngineType::Whisper
            &&& call is Parakeet <==> engine == EngineType::Parakeet
            &&& call is Moonshine <==> engine == EngineType::Moonshine
            &&& call is MoonshineStreaming <==> engine == EngineType::MoonshineStreaming
            &&& call is SenseVoice <==> engine == EngineType::SenseVoice
        },
        transcribe_step(None, false, settings, recommended_threads) is Finished,
{
}

/// Each language of SenseVoice has its own selections; every other selection,
/// `auto` among them, leaves the language to the engine.
pub proof fn each_sense_voice_language_has_its_selections(selected: Seq<char>)
    ensures
        sense_voice_language(selected) == SenseVoiceLanguage::Chinese <==> selected == "zh"@
            || selected == "zh-Hans"@ || selected == "zh-Hant"@,
        sense_voice_language(selected) == SenseVoiceLanguage::English <==> selected == "en"@,
        sense_voice_language(selected) == SenseVoiceLanguage::Japanese <==> selected == "ja"@,
        sense_voice_language(selected) == SenseVoiceLanguage::Korean <==> selected == "ko"@,
        sense_voice_language(selected) == SenseVoiceLanguage::Cantonese <==> selected == "yue"@,
{
    reveal_strlit("zh");
    reveal_strlit("zh-Hans");
    reveal_strlit("zh-Hant");
    reveal_strlit("en");
    reveal_strlit("ja");
    reveal_strlit("ko");
    reveal_strlit("yue");
    assert("zh"@[0] == 'z' && "zh-Hans"@[0] == 'z' && "zh-Hant"@[0] == 'z');
    assert("en"@[0] == 'e' && "ja"@[0] == 'j' && "ko"@[0] == 'k' && "yue"@[0] == 'y');
}

/// A run on a target starts exactly where its model is current and its engine
/// loaded, whatever was loaded before.
pub proof fn a_target_runs_only_on_its_own_model(
    s: LocalView,
    model_id: Seq<char>,
    other: Seq<char>,
    loaded: Result<(), String>,
)
    requires
        target_ready(s, model_id, loaded),
    ensures
        loaded is Ok,
        s.engine is Some,
        s.slot.current == Some(model_id),
        other != model_id ==> !target_ready(s, other, loaded),
        !target_ready(LocalView { engine: None, ..s }, model_id, loaded),
{
}

/// A model is idle for too long only where the setting gives seconds, and it
/// stays so as time goes on.
pub proof fn idleness_grows_with_time(
    s: LocalView,
    timeout: ModelUnloadTimeout,
    now_ms: u64,
    later_ms: u64,
)
    requires
        now_ms <= later_ms,
    ensures
        idle_too_long(s, timeout, now_ms) ==> idle_too_long(s, timeout, later_ms),
        idle_too_long(s, timeout, now_ms) ==> timeout is Seconds && s.engine is Some && now_ms
            > s.last_activity,
        timeout matches ModelUnloadTimeout::Seconds(limit) ==> s.engine is Some ==> {
            &&& now_ms - s.last_activity > limit * 1000 ==> idle_too_long(s, timeout, now_ms)
            &&& now_ms - s.last_activity <= limit * 1000 ==> !idle_too_long(s, timeout, now_ms)
        },
{
}

/// A model is unloaded right after its use exactly where the setting says so
/// and one is loaded; then no engine and no current model is left, and every
/// ticket that is open is superseded.
pub proof fn an_immediate_unload_leaves_no_model(
    s: LocalView,
    timeout: ModelUnloadTimeout,
    ticket: super::slot::TicketView,
)
    requires
        ticket.explicit_epoch <= s.slot.explicit_epoch,
    ensures
        s.engine is Some && timeout == ModelUnloadTimeout::Immediately ==> {
            let after = after_immediate_unload(s, timeout);
            &&& after.engine is None
            &&& after.slot.current is None
            &&& super::slot::restore_step(after.slot, ticket) == super::slot::StepView::Finished(
                super::slot::OutcomeView::Superseded,
            )
            &&& immediate_unload_event(s, timeout) matches Some(event) && event.event_type
                == "unloaded"@
        },
        s.engine is None || timeout != ModelUnloadTimeout::Immediately ==> after_immediate_unload(
            s,
            timeout,
        ) == s && immediate_unload_event(s, timeout) is None,
{
}

/// A load makes its model current and its engine the loaded one, and changes
/// nothing else but the counters of the slot.
pub proof fn a_load_makes_its_model_current(
    s: LocalView,
    kind: MutationKind,
    model_id: Seq<char>,
    engine: EngineType,
)
    ensures
        after_load(s, kind, model_id, engine).slot.current == Some(model_id),
        after_load(s, kind, model_id, engine).engine == Some(engine),
        after_load(s, kind, model_id, engine).slot.tickets == s.slot.tickets,
        after_load(s, kind, model_id, engine).last_activity == s.last_activity,
        after_load(s, kind, model_id, engine).is_loading == s.is_loading,
        after_unload(s, kind).slot.current is None,
        after_unload(s, kind).engine is None,
        after_unload(s, kind).slot.tickets == s.slot.tickets,
        after_unload(s, kind).last_activity == s.last_activity,
        after_unload(s, kind).is_loading == s.is_loading,
{
}

/// The local provider never sends anything off this device, and so needs
/// neither a key nor a consent.
pub proof fn the_local_provider_stays_on_the_device(models: Seq<super::types::ModelView>)
    ensures
        local_catalog(models).id == "local"@,
        local_catalog(models).kind == ProviderKind::Local,
        local_catalog(models).models == models,
        local_catalog(models).capabilities.batch,
        !local_catalog(models).capabilities.sends_audio_off_device,
        !local_catalog(models).requires_credential,
        local_catalog(models).consent_version == 0,
{
}

} // verus!
