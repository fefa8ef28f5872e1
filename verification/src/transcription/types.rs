//! Domain types shared by every transcription provider.
//!
//! Nothing here carries an API key or a raw provider response body.

use vstd::prelude::*;

use crate::text::{clone_optional_text, clone_texts};

verus! {

/// Fully qualified identifier of a transcription target: a provider plus one of
/// its models. The local engines use `provider_id = "local"`.
#[derive(Debug, PartialEq, Eq, Hash)]
pub struct TranscriptionTargetId {
    pub provider_id: String,
    pub model_id: String,
}

/// The two names of a [`TranscriptionTargetId`].
pub struct TargetView {
    pub provider_id: Seq<char>,
    pub model_id: Seq<char>,
}

impl View for TranscriptionTargetId {
    type V = TargetView;

    open spec fn view(&self) -> TargetView {
        TargetView { provider_id: self.provider_id@, model_id: self.model_id@ }
    }
}

impl TranscriptionTargetId {
    /// The target `model_id` of `provider_id`.
    pub fn new(provider_id: &str, model_id: &str) -> (r: Self)
        ensures
            r@ == (TargetView { provider_id: provider_id@, model_id: model_id@ }),
            r.provider_id@ == provider_id@,
            r.model_id@ == model_id@,
    {
        TranscriptionTargetId {
            provider_id: provider_id.to_owned(),
            model_id: model_id.to_owned(),
        }
    }
}

impl Clone for TranscriptionTargetId {
    fn clone(&self) -> (r: Self)
        ensures
            r == *self,
    {
        TranscriptionTargetId {
            provider_id: self.provider_id.clone(),
            model_id: self.model_id.clone(),
        }
    }
}

/// The names of an optional target.
pub open spec fn optional_target(target: Option<TranscriptionTargetId>) -> Option<TargetView> {
    match target {
        Some(id) => Some(id@),
        None => None,
    }
}

/// Whether a target runs on this machine or sends audio to a remote service.
#[derive(Debug, Clone, Copy, PartialEq, Eq, Structural)]
pub enum ProviderKind {
    /// Runs entirely on-device.
    Local,
    /// Sends audio off-device to a third-party API.
    Cloud,
}

/// Capabilities a provider advertises, used for display and to reject
/// unsupported requests before any network call.
#[derive(Debug, PartialEq, Eq)]
pub struct ProviderCapabilities {
    /// Supports whole-file transcription.
    pub batch: bool,
    /// Supports streaming transcription.
    pub realtime: bool,
    /// ISO-639-1 codes of the supported languages; empty means any.
    pub supported_languages: Vec<String>,
    /// Returns word-level timestamps.
    pub supports_word_timestamps: bool,
    /// Using this provider transmits audio off this device.
    pub sends_audio_off_device: bool,
}

/// The contents of a [`ProviderCapabilities`].
pub struct CapabilitiesView {
    pub batch: bool,
    pub realtime: bool,
    pub supported_languages: Seq<Seq<char>>,
    pub supports_word_timestamps: bool,
    pub sends_audio_off_device: bool,
}

impl View for ProviderCapabilities {
    type V = CapabilitiesView;

    open spec fn view(&self) -> CapabilitiesView {
        CapabilitiesView {
            batch: self.batch,
            realtime: self.realtime,
            supported_languages: crate::text::texts(self.supported_languages@),
            supports_word_timestamps: self.supports_word_timestamps,
            sends_audio_off_device: self.sends_audio_off_device,
        }
    }
}

impl Clone for ProviderCapabilities {
    fn clone(&self) -> (r: Self)
        ensures
            r@ == self@,
            r.batch == self.batch,
            r.realtime == self.realtime,
            r.supported_languages@ == self.supported_languages@,
            r.supports_word_timestamps == self.supports_word_timestamps,
            r.sends_audio_off_device == self.sends_audio_off_device,
    {
        ProviderCapabilities {
            batch: self.batch,
            realtime: self.realtime,
            supported_languages: clone_texts(&self.supported_languages),
            supports_word_timestamps: self.supports_word_timestamps,
            sends_audio_off_device: self.sends_audio_off_device,
        }
    }
}

/// One selectable model of a provider.
#[derive(Debug, PartialEq, Eq)]
pub struct TranscriptionModelDescriptor {
    pub id: String,
    pub label: String,
}

/// The two names of a [`TranscriptionModelDescriptor`].
pub struct ModelView {
    pub id: Seq<char>,
    pub label: Seq<char>,
}

impl View for TranscriptionModelDescriptor {
    type V = ModelView;

    open spec fn view(&self) -> ModelView {
        ModelView { id: self.id@, label: self.label@ }
    }
}

impl Clone for TranscriptionModelDescriptor {
    fn clone(&self) -> (r: Self)
        ensures
            r == *self,
    {
        TranscriptionModelDescriptor { id: self.id.clone(), label: self.label.clone() }
    }
}

/// The names of each model of a list.
pub open spec fn models_view(models: Seq<TranscriptionModelDescriptor>) -> Seq<ModelView> {
    models.map_values(|m: TranscriptionModelDescriptor| m@)
}

/// A copy of a list of models.
pub fn clone_models(models: &Vec<TranscriptionModelDescriptor>) -> (r: Vec<
    TranscriptionModelDescriptor,
>)
    ensures
        r@ == models@,
{
    let mut out: Vec<TranscriptionModelDescriptor> = Vec::new();
    let mut i: usize = 0;
    while i < models.len()
        invariant
            i <= models@.len(),
            out@ == models@.take(i as int),
        decreases models@.len() - i,
    {
        out.push(models[i].clone());
        i += 1;
    }
    proof {
        assert(models@.take(i as int) == models@);
    }
    out
}

/// Description of a provider for the settings catalog. Carries no secret.
#[derive(Debug)]
pub struct ProviderDescriptor {
    pub id: String,
    pub label: String,
    pub kind: ProviderKind,
    pub models: Vec<TranscriptionModelDescriptor>,
    pub capabilities: ProviderCapabilities,
    /// The provider needs an API key before it can be used.
    pub requires_credential: bool,
    /// Link to the privacy policy (cloud providers only).
    pub privacy_url: Option<String>,
    /// Link to the pricing page (cloud providers only).
    pub pricing_url: Option<String>,
    /// Short cost hint.
    pub cost_text: Option<String>,
    /// Short note on how long the provider keeps what it is sent.
    pub retention_text: Option<String>,
    /// Version of the consent text the user must accept. A higher one
    /// invalidates earlier consent.
    pub consent_version: u32,
    /// Offered as an experimental target.
    pub beta: bool,
}

/// The contents of a [`ProviderDescriptor`].
pub struct DescriptorView {
    pub id: Seq<char>,
    pub label: Seq<char>,
    pub kind: ProviderKind,
    pub models: Seq<ModelView>,
    pub capabilities: CapabilitiesView,
    pub requires_credential: bool,
    pub privacy_url: Option<Seq<char>>,
    pub pricing_url: Option<Seq<char>>,
    pub cost_text: Option<Seq<char>>,
    pub retention_text: Option<Seq<char>>,
    pub consent_version: u32,
    pub beta: bool,
}

impl View for ProviderDescriptor {
    type V = DescriptorView;

    open spec fn view(&self) -> DescriptorView {
        DescriptorView {
            id: self.id@,
            label: self.label@,
            kind: self.kind,
            models: models_view(self.models@),
            capabilities: self.capabilities@,
            requires_credential: self.requires_credential,
            privacy_url: crate::text::optional_text(self.privacy_url),
            pricing_url: crate::text::optional_text(self.pricing_url),
            cost_text: crate::text::optional_text(self.cost_text),
            retention_text: crate::text::optional_text(self.retention_text),
            consent_version: self.consent_version,
            beta: self.beta,
        }
    }
}

impl Clone for ProviderDescriptor {
    fn clone(&self) -> (r: Self)
        ensures
            r@ == self@,
            r.id@ == self.id@,
            r.label@ == self.label@,
            r.kind == self.kind,
            r.models@ == self.models@,
            r.capabilities.batch == self.capabilities.batch,
            r.capabilities.realtime == self.capabilities.realtime,
            r.capabilities.supported_languages@ == self.capabilities.supported_languages@,
            r.capabilities.supports_word_timestamps == self.capabilities.supports_word_timestamps,
            r.capabilities.sends_audio_off_device == self.capabilities.sends_audio_off_device,
            r.requires_credential == self.requires_credential,
            r.privacy_url == self.privacy_url,
            r.pricing_url == self.pricing_url,
            r.cost_text == self.cost_text,
            r.retention_text == self.retention_text,
            r.consent_version == self.consent_version,
            r.beta == self.beta,
    {
        ProviderDescriptor {
            id: self.id.clone(),
            label: self.label.clone(),
            kind: self.kind,
            models: clone_models(&self.models),
            capabilities: self.capabilities.clone(),
            requires_credential: self.requires_credential,
            privacy_url: clone_optional_text(&self.privacy_url),
            pricing_url: clone_optional_text(&self.pricing_url),
            cost_text: clone_optional_text(&self.cost_text),
            retention_text: clone_optional_text(&self.retention_text),
            consent_version: self.consent_version,
            beta: self.beta,
        }
    }
}

/// The contents of each descriptor of a list.
pub open spec fn descriptors_view(list: Seq<ProviderDescriptor>) -> Seq<DescriptorView> {
    list.map_values(|d: ProviderDescriptor| d@)
}

/// A batch transcription request handed to a provider.
#[derive(Debug)]
pub struct TranscriptionRequest {
    /// 16 kHz mono recording as 16-bit samples.
    pub audio_16khz_mono: Vec<i16>,
    /// Explicit language (ISO-639-1) or `None` for auto-detection.
    pub language: Option<String>,
    /// The user's own vocabulary.
    pub custom_words: Vec<String>,
}

/// Timing of a completed transcription. Contains no audio, text, or key.
#[derive(Debug, Clone, Copy, PartialEq, Eq, Structural)]
pub struct TranscriptionLatency {
    /// Milliseconds from request start to normalized result.
    pub total_ms: u64,
}

impl Default for TranscriptionLatency {
    fn default() -> (r: Self)
        ensures
            r.total_ms == 0,
    {
        TranscriptionLatency { total_ms: 0 }
    }
}

/// Normalized successful transcription.
#[derive(Debug)]
pub struct TranscriptionResult {
    pub text: String,
    pub provider_id: String,
    pub model_id: String,
    /// Language the provider reported, if any.
    pub detected_language: Option<String>,
    pub latency: TranscriptionLatency,
}

/// The contents of a [`TranscriptionResult`].
pub struct ResultView {
    pub text: Seq<char>,
    pub provider_id: Seq<char>,
    pub model_id: Seq<char>,
    pub detected_language: Option<Seq<char>>,
    pub total_ms: u64,
}

impl View for TranscriptionResult {
    type V = ResultView;

    open spec fn view(&self) -> ResultView {
        ResultView {
            text: self.text@,
            provider_id: self.provider_id@,
            model_id: self.model_id@,
            detected_language: crate::text::optional_text(self.detected_language),
            total_ms: self.latency.total_ms,
        }
    }
}

/// Stable error categories shared by every provider.
///
/// Variants may carry a sanitized technical detail but never a secret, a raw
/// provider response body, audio, or transcript text.
#[derive(Debug, PartialEq, Eq)]
pub enum TranscriptionError {
    /// No API key configured for the provider.
    MissingCredential,
    /// The current version of the consent notice has not been accepted.
    ConsentRequired,
    /// Request parameters or provider configuration are invalid.
    InvalidConfiguration(String),
    /// Authentication with the provider failed.
    Authentication,
    /// Usage quota exhausted.
    Quota,
    /// Rate or concurrency limit hit.
    RateLimited,
    /// Network transport failure reaching the provider.
    Network,
    /// The request timed out.
    Timeout,
    /// The requested language is not supported by the provider.
    UnsupportedLanguage(String),
    /// The provider returned an unexpected response.
    Protocol,
    /// The operation was cancelled by the user.
    Cancelled,
    /// A bounded audio channel overflowed.
    AudioBackpressure,
    /// The provider is unavailable.
    ProviderUnavailable,
}

/// The contents of a [`TranscriptionError`].
pub enum ErrorView {
    MissingCredential,
    ConsentRequired,
    InvalidConfiguration(Seq<char>),
    Authentication,
    Quota,
    RateLimited,
    Network,
    Timeout,
    UnsupportedLanguage(Seq<char>),
    Protocol,
    Cancelled,
    AudioBackpressure,
    ProviderUnavailable,
}

impl View for TranscriptionError {
    type V = ErrorView;

    open spec fn view(&self) -> ErrorView {
        match self {
            TranscriptionError::MissingCredential => ErrorView::MissingCredential,
            TranscriptionError::ConsentRequired => ErrorView::ConsentRequired,
            TranscriptionError::InvalidConfiguration(s) => ErrorView::InvalidConfiguration(s@),
            TranscriptionError::Authentication => ErrorView::Authentication,
            TranscriptionError::Quota => ErrorView::Quota,
            TranscriptionError::RateLimited => ErrorView::RateLimited,
            TranscriptionError::Network => ErrorView::Network,
            TranscriptionError::Timeout => ErrorView::Timeout,
            TranscriptionError::UnsupportedLanguage(s) => ErrorView::UnsupportedLanguage(s@),
            TranscriptionError::Protocol => ErrorView::Protocol,
            TranscriptionError::Cancelled => ErrorView::Cancelled,
            TranscriptionError::AudioBackpressure => ErrorView::AudioBackpressure,
            TranscriptionError::ProviderUnavailable => ErrorView::ProviderUnavailable,
        }
    }
}

/// The stable slug of an error.
pub open spec fn category_of(error: ErrorView) -> Seq<char> {
    match error {
        ErrorView::MissingCredential => "missing_credential"@,
        ErrorView::ConsentRequired => "consent_required"@,
        ErrorView::InvalidConfiguration(_) => "invalid_configuration"@,
        ErrorView::Authentication => "authentication"@,
        ErrorView::Quota => "quota"@,
        ErrorView::RateLimited => "rate_limited"@,
        ErrorView::Network => "network"@,
        ErrorView::Timeout => "timeout"@,
        ErrorView::UnsupportedLanguage(_) => "unsupported_language"@,
        ErrorView::Protocol => "protocol"@,
        ErrorView::Cancelled => "cancelled"@,
        ErrorView::AudioBackpressure => "audio_backpressure"@,
        ErrorView::ProviderUnavailable => "provider_unavailable"@,
    }
}

/// The text of an error for logs.
pub open spec fn message_of(error: ErrorView) -> Seq<char> {
    match error {
        ErrorView::InvalidConfiguration(detail) => "invalid configuration: "@ + detail,
        ErrorView::UnsupportedLanguage(lang) => "unsupported language: "@ + lang,
        _ => category_of(error),
    }
}

impl TranscriptionError {
    /// Stable, machine-readable category slug. Never contains dynamic detail.
    pub fn category(&self) -> (r: &'static str)
        ensures
            r@ == category_of(self@),
            *self is MissingCredential <==> r@ == "missing_credential"@,
            *self is ConsentRequired <==> r@ == "consent_required"@,
            *self is InvalidConfiguration <==> r@ == "invalid_configuration"@,
            *self is Authentication <==> r@ == "authentication"@,
            *self is Quota <==> r@ == "quota"@,
            *self is RateLimited <==> r@ == "rate_limited"@,
            *self is Network <==> r@ == "network"@,
            *self is Timeout <==> r@ == "timeout"@,
            *self is UnsupportedLanguage <==> r@ == "unsupported_language"@,
            *self is Protocol <==> r@ == "protocol"@,
            *self is Cancelled <==> r@ == "cancelled"@,
            *self is AudioBackpressure <==> r@ == "audio_backpressure"@,
            *self is ProviderUnavailable <==> r@ == "provider_unavailable"@,
    {
        proof {
            each_error_has_its_own_category(self@);
        }
        match self {
            TranscriptionError::MissingCredential => "missing_credential",
            TranscriptionError::ConsentRequired => "consent_required",
            TranscriptionError::InvalidConfiguration(_) => "invalid_configuration",
            TranscriptionError::Authentication => "authentication",
            TranscriptionError::Quota => "quota",
            TranscriptionError::RateLimited => "rate_limited",
            TranscriptionError::Network => "network",
            TranscriptionError::Timeout => "timeout",
            TranscriptionError::UnsupportedLanguage(_) => "unsupported_language",
            TranscriptionError::Protocol => "protocol",
            TranscriptionError::Cancelled => "cancelled",
            TranscriptionError::AudioBackpressure => "audio_backpressure",
            TranscriptionError::ProviderUnavailable => "provider_unavailable",
        }
    }

    /// The text of the error: its category, or its sanitized detail where it
    /// carries one.
    pub fn message(&self) -> (r: String)
        ensures
            r@ == message_of(self@),
            *self matches TranscriptionError::InvalidConfiguration(detail) ==> r@
                == "invalid configuration: "@ + detail@,
            *self matches TranscriptionError::UnsupportedLanguage(lang) ==> r@
                == "unsupported language: "@ + lang@,
            *self !is InvalidConfiguration && *self !is UnsupportedLanguage ==> r@ == category_of(
                self@,
            ),
    {
        match self {
            TranscriptionError::InvalidConfiguration(detail) => {
                let mut out: String = "invalid configuration: ".to_owned();
                out.append(detail.as_str());
                out
            },
            TranscriptionError::UnsupportedLanguage(lang) => {
                let mut out: String = "unsupported language: ".to_owned();
                out.append(lang.as_str());
                out
            },
            _ => self.category().to_owned(),
        }
    }
}

impl Clone for TranscriptionError {
    fn clone(&self) -> (r: Self)
        ensures
            r == *self,
    {
        match self {
            TranscriptionError::MissingCredential => TranscriptionError::MissingCredential,
            TranscriptionError::ConsentRequired => TranscriptionError::ConsentRequired,
            TranscriptionError::InvalidConfiguration(detail) => {
                TranscriptionError::InvalidConfiguration(detail.clone())
            },
            TranscriptionError::Authentication => TranscriptionError::Authentication,
            TranscriptionError::Quota => TranscriptionError::Quota,
            TranscriptionError::RateLimited => TranscriptionError::RateLimited,
            TranscriptionError::Network => TranscriptionError::Network,
            TranscriptionError::Timeout => TranscriptionError::Timeout,
            TranscriptionError::UnsupportedLanguage(lang) => {
                TranscriptionError::UnsupportedLanguage(lang.clone())
            },
            TranscriptionError::Protocol => TranscriptionError::Protocol,
            TranscriptionError::Cancelled => TranscriptionError::Cancelled,
            TranscriptionError::AudioBackpressure => TranscriptionError::AudioBackpressure,
            TranscriptionError::ProviderUnavailable => TranscriptionError::ProviderUnavailable,
        }
    }
}

/// The error that carries the detail `text`.
pub fn invalid_configuration(text: &str) -> (r: TranscriptionError)
    ensures
        r@ == ErrorView::InvalidConfiguration(text@),
        r matches TranscriptionError::InvalidConfiguration(detail) && detail@ == text@,
{
    TranscriptionError::InvalidConfiguration(text.to_owned())
}

/// Each kind of error has a category of its own, by which it can be told from
/// every other, whatever detail it carries.
pub proof fn each_error_has_its_own_category(error: ErrorView)
    ensures
        error is MissingCredential <==> category_of(error) == "missing_credential"@,
        error is ConsentRequired <==> category_of(error) == "consent_required"@,
        error is InvalidConfiguration <==> category_of(error) == "invalid_configuration"@,
        error is Authentication <==> category_of(error) == "authentication"@,
        error is Quota <==> category_of(error) == "quota"@,
        error is RateLimited <==> category_of(error) == "rate_limited"@,
        error is Network <==> category_of(error) == "network"@,
        error is Timeout <==> category_of(error) == "timeout"@,
        error is UnsupportedLanguage <==> category_of(error) == "unsupported_language"@,
        error is Protocol <==> category_of(error) == "protocol"@,
        error is Cancelled <==> category_of(error) == "cancelled"@,
        error is AudioBackpressure <==> category_of(error) == "audio_backpressure"@,
        error is ProviderUnavailable <==> category_of(error) == "provider_unavailable"@,
{
    reveal_strlit("missing_credential");
    reveal_strlit("consent_required");
    reveal_strlit("invalid_configuration");
    reveal_strlit("authentication");
    reveal_strlit("quota");
    reveal_strlit("rate_limited");
    reveal_strlit("network");
    reveal_strlit("timeout");
    reveal_strlit("unsupported_language");
    reveal_strlit("protocol");
    reveal_strlit("cancelled");
    reveal_strlit("audio_backpressure");
    reveal_strlit("provider_unavailable");
    assert("missing_credential"@.len() == 18 && "missing_credential"@[0] == 'm');
    assert("consent_required"@.len() == 16 && "consent_required"@[0] == 'c');
    assert("invalid_configuration"@.len() == 21 && "invalid_configuration"@[0] == 'i');
    assert("authentication"@.len() == 14 && "authentication"@[0] == 'a');
    assert("quota"@.len() == 5 && "quota"@[0] == 'q');
    assert("rate_limited"@.len() == 12 && "rate_limited"@[0] == 'r');
    assert("network"@.len() == 7 && "network"@[0] == 'n');
    assert("timeout"@.len() == 7 && "timeout"@[0] == 't');
    assert("unsupported_language"@.len() == 20 && "unsupported_language"@[0] == 'u');
    assert("protocol"@.len() == 8 && "protocol"@[0] == 'p');
    assert("cancelled"@.len() == 9 && "cancelled"@[0] == 'c');
    assert("audio_backpressure"@.len() == 18 && "audio_backpressure"@[0] == 'a');
    assert("provider_unavailable"@.len() == 20 && "provider_unavailable"@[0] == 'p');
}

/// Only the detail of the two errors that carry one shows in the text of an
/// error; every other text is the category.
pub proof fn a_message_shows_no_more_than_its_detail(detail: Seq<char>, error: ErrorView)
    ensures
        message_of(ErrorView::InvalidConfiguration(detail)) == "invalid configuration: "@ + detail,
        message_of(ErrorView::UnsupportedLanguage(detail)) == "unsupported language: "@ + detail,
        error !is InvalidConfiguration && error !is UnsupportedLanguage ==> message_of(error)
            == category_of(error),
{
}

/// The contents of a value are the value's own: its view forgets and changes
/// nothing.
pub proof fn views_keep_every_field(
    target: TranscriptionTargetId,
    model: TranscriptionModelDescriptor,
    descriptor: ProviderDescriptor,
    result: TranscriptionResult,
)
    ensures
        target@.provider_id == target.provider_id@,
        target@.model_id == target.model_id@,
        optional_target(Some(target)) == Some(target@),
        optional_target(None) is None,
        model@.id == model.id@,
        model@.label == model.label@,
        descriptor@.id == descriptor.id@,
        descriptor@.label == descriptor.label@,
        descriptor@.kind == descriptor.kind,
        descriptor@.models == models_view(descriptor.models@),
        descriptor@.capabilities.batch == descriptor.capabilities.batch,
        descriptor@.capabilities.realtime == descriptor.capabilities.realtime,
        descriptor@.capabilities.supported_languages == crate::text::texts(
            descriptor.capabilities.supported_languages@,
        ),
        descriptor@.capabilities.supports_word_timestamps
            == descriptor.capabilities.supports_word_timestamps,
        descriptor@.capabilities.sends_audio_off_device
            == descriptor.capabilities.sends_audio_off_device,
        descriptor@.requires_credential == descriptor.requires_credential,
        descriptor@.consent_version == descriptor.consent_version,
        descriptor@.beta == descriptor.beta,
        result@.text == result.text@,
        result@.provider_id == result.provider_id@,
        result@.model_id == result.model_id@,
        result@.detected_language == crate::text::optional_text(result.detected_language),
        result@.total_ms == result.latency.total_ms,
{
}

} // verus!
