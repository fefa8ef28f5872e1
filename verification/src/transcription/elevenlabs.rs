//! The ElevenLabs Scribe v2 provider: which request is sent, and what its
//! answer means.
//!
//! A transcription is a `POST` of a multipart form to `/v1/speech-to-text` with
//! the key in the `xi-api-key` header. Neither the audio, nor the transcript,
//! nor the key, nor the body of an error answer ever appears in an error.

use vstd::prelude::*;

use super::http::{classify_send_error, rejected, usable_key, Reply};
use super::types::{
    invalid_configuration, ProviderCapabilities, ProviderDescriptor, ProviderKind,
    TranscriptionError, TranscriptionLatency, TranscriptionModelDescriptor, TranscriptionRequest,
    TranscriptionResult,
};
use super::wav::encode_wav;
use crate::text::{chars_of, count_words, same_text, trim};

verus! {

/// Registry id of this provider.
pub const PROVIDER_ID: &'static str = "elevenlabs";

/// The model id of the batch model.
pub const MODEL_SCRIBE_V2: &'static str = "scribe_v2";

/// The official API.
pub const DEFAULT_BASE_URL: &'static str = "https://api.elevenlabs.io";

/// Most key terms that a request may carry.
pub const MAX_KEYTERMS: usize = 1000;

/// The provider at an API base URL.
#[derive(Debug)]
pub struct ElevenLabsProvider {
    pub base_url: String,
}

/// The contents of the descriptor.
pub open spec fn descriptor_view() -> super::types::DescriptorView {
    super::types::DescriptorView {
        id: "elevenlabs"@,
        label: "ElevenLabs Scribe"@,
        kind: ProviderKind::Cloud,
        models: seq![super::types::ModelView { id: "scribe_v2"@, label: "Scribe v2 (batch)"@ }],
        capabilities: super::types::CapabilitiesView {
            batch: true,
            realtime: false,
            supported_languages: Seq::empty(),
            supports_word_timestamps: true,
            sends_audio_off_device: true,
        },
        requires_credential: true,
        privacy_url: Some("https://elevenlabs.io/privacy-policy"@),
        pricing_url: Some("https://elevenlabs.io/pricing/api"@),
        cost_text: Some("≈ $0.22 / hour of audio"@),
        retention_text: Some(
            "Retention follows your ElevenLabs account and provider policy settings."@,
        ),
        consent_version: 1,
        beta: true,
    }
}

/// The description of the provider for the catalog.
pub fn descriptor() -> (r: ProviderDescriptor)
    ensures
        r@ == descriptor_view(),
        r.id@ == "elevenlabs"@,
        r.label@ == "ElevenLabs Scribe"@,
        r.kind == ProviderKind::Cloud,
        r.models@.len() == 1,
        r.models@[0].id@ == "scribe_v2"@,
        r.models@[0].label@ == "Scribe v2 (batch)"@,
        r.capabilities.batch,
        !r.capabilities.realtime,
        r.capabilities.supported_languages@.len() == 0,
        r.capabilities.supports_word_timestamps,
        r.capabilities.sends_audio_off_device,
        r.requires_credential,
        r.privacy_url matches Some(url) && url@ == "https://elevenlabs.io/privacy-policy"@,
        r.pricing_url matches Some(url) && url@ == "https://elevenlabs.io/pricing/api"@,
        r.cost_text matches Some(text) && text@ == "≈ $0.22 / hour of audio"@,
        r.retention_text matches Some(text) && text@
            == "Retention follows your ElevenLabs account and provider policy settings."@,
        r.consent_version == 1,
        r.beta,
{
    let mut models: Vec<TranscriptionModelDescriptor> = Vec::new();
    models.push(
        TranscriptionModelDescriptor {
            id: "scribe_v2".to_owned(),
            label: "Scribe v2 (batch)".to_owned(),
        },
    );
    let r = ProviderDescriptor {
        id: "elevenlabs".to_owned(),
        label: "ElevenLabs Scribe".to_owned(),
        kind: ProviderKind::Cloud,
        models,
        capabilities: ProviderCapabilities {
            batch: true,
            realtime: false,
            supported_languages: Vec::new(),
            supports_word_timestamps: true,
            sends_audio_off_device: true,
        },
        requires_credential: true,
        privacy_url: Some("https://elevenlabs.io/privacy-policy".to_owned()),
        pricing_url: Some("https://elevenlabs.io/pricing/api".to_owned()),
        cost_text: Some("≈ $0.22 / hour of audio".to_owned()),
        retention_text: Some(
            "Retention follows your ElevenLabs account and provider policy settings.".to_owned(),
        ),
        consent_version: 1,
        beta: true,
    };
    proof {
        assert(r@.models =~= descriptor_view().models);
        assert(r@.capabilities.supported_languages =~= Seq::<Seq<char>>::empty());
    }
    r
}

/// A character that no key term may hold.
pub open spec fn is_bracket(c: char) -> bool {
    c == '<' || c == '>' || c == '{' || c == '}' || c == '[' || c == ']' || c == '\\'
}

/// The text can be sent as a key term: not empty, under 50 characters, at most
/// 5 words, and none of the characters `<>{}[]\`.
pub open spec fn is_keyterm(term: Seq<char>) -> bool {
    &&& 0 < term.len() < 50
    &&& crate::text::word_count(term) <= 5
    &&& forall|i: int| 0 <= i < term.len() ==> !is_bracket(#[trigger] term[i])
}

/// The words that can be sent, trimmed, in order.
pub open spec fn accepted_terms(words: Seq<String>) -> Seq<Seq<char>>
    decreases words.len(),
{
    if words.len() == 0 {
        Seq::empty()
    } else {
        let before = accepted_terms(words.drop_last());
        let term = crate::text::trimmed(words.last()@);
        if is_keyterm(term) {
            before.push(term)
        } else {
            before
        }
    }
}

/// The key terms of a request: the first 1000 words that can be sent.
pub open spec fn keyterms(words: Seq<String>) -> Seq<Seq<char>> {
    let all = accepted_terms(words);
    if all.len() <= MAX_KEYTERMS {
        all
    } else {
        all.take(MAX_KEYTERMS as int)
    }
}

proof fn lemma_accepted_prefix(words: Seq<String>, n: int)
    requires
        0 <= n <= words.len(),
    ensures
        accepted_terms(words.take(n)).len() <= accepted_terms(words).len(),
        accepted_terms(words).take(accepted_terms(words.take(n)).len() as int) == accepted_terms(
            words.take(n),
        ),
    decreases words.len() - n,
{
    let shorter = accepted_terms(words.take(n));
    let all = accepted_terms(words);
    if n == words.len() {
        assert(words.take(n) == words);
        assert(all.take(all.len() as int) == all);
    } else {
        lemma_accepted_prefix(words, n + 1);
        assert(words.take(n + 1).drop_last() == words.take(n));
        let longer = accepted_terms(words.take(n + 1));
        assert(longer.take(shorter.len() as int) == shorter);
        assert(all.take(shorter.len() as int) =~= all.take(longer.len() as int).take(
            shorter.len() as int,
        ));
    }
}

proof fn lemma_accepted_are_keyterms(words: Seq<String>)
    ensures
        forall|i: int|
            0 <= i < accepted_terms(words).len() ==> is_keyterm(#[trigger] accepted_terms(words)[i]),
    decreases words.len(),
{
    if words.len() > 0 {
        let before = accepted_terms(words.drop_last());
        let all = accepted_terms(words);
        lemma_accepted_are_keyterms(words.drop_last());
        assert forall|i: int| 0 <= i < all.len() implies is_keyterm(#[trigger] all[i]) by {
            if i < before.len() {
                assert(all[i] == before[i]);
            }
        }
    }
}

/// Whatever the user's words are, a request holds at most 1000 key terms, and
/// each of them is one that the provider takes.
pub proof fn keyterms_keep_the_limits(words: Seq<String>)
    ensures
        keyterms(words).len() <= 1000,
        forall|i: int|
            0 <= i < keyterms(words).len() ==> is_keyterm(#[trigger] keyterms(words)[i]),
{
    lemma_accepted_are_keyterms(words);
}

/// Whether a text can be sent as a key term.
fn check_keyterm(term: &str) -> (r: bool)
    ensures
        r == is_keyterm(term@),
        r <==> {
            &&& 1 <= term@.len() <= 49
            &&& crate::text::word_count(term@) <= 5
            &&& !term@.contains('<')
            &&& !term@.contains('>')
            &&& !term@.contains('{')
            &&& !term@.contains('}')
            &&& !term@.contains('[')
            &&& !term@.contains(']')
            &&& !term@.contains('\\')
        },
{
    proof {
        which_texts_are_key_terms(term@);
    }
    let chars: Vec<char> = chars_of(term);
    if chars.len() == 0 || chars.len() >= 50 || count_words(term) > 5 {
        return false;
    }
    let mut i: usize = 0;
    while i < chars.len()
        invariant
            chars@ == term@,
            i <= chars@.len(),
            forall|j: int| 0 <= j < i ==> !is_bracket(#[trigger] term@[j]),
        decreases chars@.len() - i,
    {
        let c: char = chars[i];
        if c == '<' || c == '>' || c == '{' || c == '}' || c == '[' || c == ']' || c == '\\' {
            proof {
                assert(is_bracket(term@[i as int]));
            }
            return false;
        }
        i += 1;
    }
    true
}

/// The key terms of a request.
pub fn valid_keyterms(custom_words: &Vec<String>) -> (r: Vec<String>)
    ensures
        crate::text::texts(r@) == keyterms(custom_words@),
        r@.len() <= 1000,
{
    proof {
        keyterms_keep_the_limits(custom_words@);
    }
    let mut terms: Vec<String> = Vec::new();
    let mut i: usize = 0;
    proof {
        assert(crate::text::texts(terms@) =~= Seq::<Seq<char>>::empty());
        assert(custom_words@.take(0) == Seq::<String>::empty());
    }
    while i < custom_words.len() && terms.len() < MAX_KEYTERMS
        invariant
            i <= custom_words@.len(),
            terms@.len() <= MAX_KEYTERMS,
            crate::text::texts(terms@) == accepted_terms(custom_words@.take(i as int)),
        decreases custom_words@.len() - i,
    {
        let term: &str = trim(custom_words[i].as_str());
        proof {
            assert(custom_words@.take(i + 1).drop_last() == custom_words@.take(i as int));
        }
        let ghost had = terms@;
        if check_keyterm(term) {
            terms.push(term.to_owned());
            proof {
                assert(crate::text::texts(terms@) =~= crate::text::texts(had).push(term@));
            }
        }
        i += 1;
    }
    proof {
        lemma_accepted_prefix(custom_words@, i as int);
        if i == custom_words@.len() {
            assert(custom_words@.take(i as int) == custom_words@);
        } else {
            assert(terms@.len() == MAX_KEYTERMS);
            assert(accepted_terms(custom_words@).len() == MAX_KEYTERMS ==> accepted_terms(
                custom_words@,
            ).take(MAX_KEYTERMS as int) =~= accepted_terms(custom_words@));
        }
    }
    terms
}

/// The error of a non-2xx status.
pub open spec fn status_error(status: u16) -> super::types::ErrorView {
    if status == 400 || status == 422 {
        super::types::ErrorView::InvalidConfiguration(super::http::rejection_text(status))
    } else if status == 401 || status == 403 {
        super::types::ErrorView::Authentication
    } else if status == 402 {
        super::types::ErrorView::Quota
    } else if status == 429 {
        super::types::ErrorView::RateLimited
    } else if 500 <= status < 600 {
        super::types::ErrorView::ProviderUnavailable
    } else {
        super::types::ErrorView::Protocol
    }
}

/// The error of a non-2xx status.
pub fn map_status_error(status: u16) -> (r: TranscriptionError)
    ensures
        r@ == status_error(status),
        r is InvalidConfiguration <==> status == 400 || status == 422,
        r matches TranscriptionError::InvalidConfiguration(text) ==> text@
            == "provider rejected request ("@ + crate::text::decimal(status as nat) + ")"@,
        r == TranscriptionError::Authentication <==> status == 401 || status == 403,
        r == TranscriptionError::Quota <==> status == 402,
        r == TranscriptionError::RateLimited <==> status == 429,
        r == TranscriptionError::ProviderUnavailable <==> 500 <= status <= 599,
        r == TranscriptionError::Protocol <==> !(400 <= status <= 403 || status == 422 || status
            == 429 || 500 <= status <= 599),
{
    if status == 400 || status == 422 {
        rejected(status)
    } else if status == 401 || status == 403 {
        TranscriptionError::Authentication
    } else if status == 402 {
        TranscriptionError::Quota
    } else if status == 429 {
        TranscriptionError::RateLimited
    } else if 500 <= status && status < 600 {
        TranscriptionError::ProviderUnavailable
    } else {
        TranscriptionError::Protocol
    }
}

/// A transcription request, ready to be sent. The file part is named
/// `audio.wav` and has the type `audio/wav`.
#[derive(Debug)]
pub struct SpeechRequest {
    pub url: String,
    /// The value of the `xi-api-key` header.
    pub api_key: String,
    /// The form field `model_id`.
    pub model_id: String,
    /// The form file `file`.
    pub wav: Vec<u8>,
    /// The form field `language_code`, absent for auto-detection.
    pub language_code: Option<String>,
    /// The form fields `keyterms`, one each.
    pub keyterms: Vec<String>,
}

/// The language to send: a concrete one, otherwise none.
pub open spec fn sent_language(language: Option<String>) -> Option<Seq<char>> {
    match language {
        Some(lang) => if lang@.len() == 0 || lang@ == "auto"@ {
            None
        } else {
            Some(lang@)
        },
        None => None,
    }
}

/// The body of a success answer; everything else in it is ignored.
#[derive(Debug)]
pub struct SpeechToTextResponse {
    pub text: String,
    pub language_code: Option<String>,
}

/// What a transcription ends with, given the answer.
pub open spec fn transcription_result(
    reply: Reply<SpeechToTextResponse>,
    elapsed_ms: u64,
) -> Result<super::types::ResultView, super::types::ErrorView> {
    match reply {
        Reply::Failed { timed_out } => Err(super::http::send_error(timed_out)),
        Reply::Refused(status) => Err(status_error(status)),
        Reply::Interrupted { timed_out } => Err(super::http::send_error(timed_out)),
        Reply::Answered(None) => Err(super::types::ErrorView::Protocol),
        Reply::Answered(Some(body)) => Ok(
            super::types::ResultView {
                text: crate::text::trimmed(body.text@),
                provider_id: "elevenlabs"@,
                model_id: "scribe_v2"@,
                detected_language: crate::text::optional_text(body.language_code),
                total_ms: elapsed_ms,
            },
        ),
    }
}

/// Why no request can be made, whatever the recording: the model is not one of
/// this provider, or there is no key.
pub open spec fn preparation_error(
    model_id: Seq<char>,
    api_key: Seq<char>,
) -> Option<super::types::ErrorView> {
    if model_id != "scribe_v2"@ {
        Some(super::types::ErrorView::InvalidConfiguration("unsupported ElevenLabs model"@))
    } else if crate::text::is_blank(api_key) {
        Some(super::types::ErrorView::MissingCredential)
    } else {
        None
    }
}

/// The request asks for the transcript of the WAV file.
pub open spec fn asks_for_speech(
    sent: SpeechRequest,
    base_url: Seq<char>,
    request: TranscriptionRequest,
    api_key: Seq<char>,
    wav: Seq<u8>,
) -> bool {
    &&& sent.url@ == base_url + "/v1/speech-to-text"@
    &&& sent.api_key@ == crate::text::trimmed(api_key)
    &&& sent.model_id@ == "scribe_v2"@
    &&& sent.wav@ == wav
    &&& crate::text::optional_text(sent.language_code) == sent_language(request.language)
    &&& crate::text::texts(sent.keyterms@) == keyterms(request.custom_words@)
}

impl ElevenLabsProvider {
    /// The provider at the official API.
    pub fn new() -> (r: Self)
        ensures
            r.base_url@ == "https://api.elevenlabs.io"@,
    {
        ElevenLabsProvider { base_url: DEFAULT_BASE_URL.to_owned() }
    }

    /// The provider at another base URL.
    pub fn with_base_url(base_url: &str) -> (r: Self)
        ensures
            r.base_url@ == base_url@,
    {
        ElevenLabsProvider { base_url: base_url.to_owned() }
    }

    /// The request of a transcription.
    pub fn prepare_transcription(
        &self,
        model_id: &str,
        request: &TranscriptionRequest,
        api_key: &str,
    ) -> (r: Result<SpeechRequest, TranscriptionError>)
        requires
            preparation_error(model_id@, api_key@) is None ==> super::wav::fits_wav(
                request.audio_16khz_mono@.len(),
            ),
        ensures
            preparation_error(model_id@, api_key@) matches Some(error) ==> r is Err && r->Err_0@
                == error,
            preparation_error(model_id@, api_key@) is None ==> r is Ok && asks_for_speech(
                r->Ok_0,
                self.base_url@,
                *request,
                api_key@,
                super::wav::wav_file(request.audio_16khz_mono@),
            ),
            r is Ok <==> model_id@ == "scribe_v2"@ && !crate::text::is_blank(api_key@),
            r matches Ok(sent) ==> {
                &&& sent.language_code is None <==> request.language is None
                    || request.language->0@.len() == 0 || request.language->0@ == "auto"@
                &&& sent.language_code matches Some(code) ==> request.language is Some && code@
                    == request.language->0@
                &&& sent.url@ == self.base_url@ + "/v1/speech-to-text"@
                &&& sent.api_key@ == crate::text::trimmed(api_key@)
                &&& sent.model_id@ == "scribe_v2"@
            },
            r matches Err(error) ==> model_id@ != "scribe_v2"@ ==> (error matches
                TranscriptionError::InvalidConfiguration(text) && text@
                == "unsupported ElevenLabs model"@),
            model_id@ == "scribe_v2"@ && crate::text::is_blank(api_key@) ==> r == Err::<
                SpeechRequest,
                TranscriptionError,
            >(TranscriptionError::MissingCredential),
    {
        if !same_text(model_id, MODEL_SCRIBE_V2) {
            return Err(invalid_configuration("unsupported ElevenLabs model"));
        }
        match usable_key(api_key) {
            Ok(_) => {},
            Err(error) => {
                return Err(error);
            },
        }
        let wav = encode_wav(request.audio_16khz_mono.as_slice());
        self.prepare_encoded(model_id, request, api_key, wav)
    }

    /// The request of a transcription, given what encoding its recording came
    /// to.
    pub fn prepare_encoded(
        &self,
        model_id: &str,
        request: &TranscriptionRequest,
        api_key: &str,
        wav: Result<Vec<u8>, TranscriptionError>,
    ) -> (r: Result<SpeechRequest, TranscriptionError>)
        ensures
            preparation_error(model_id@, api_key@) matches Some(error) ==> r is Err && r->Err_0@
                == error,
            preparation_error(model_id@, api_key@) is None ==> match wav {
                Ok(file) => r is Ok && asks_for_speech(
                    r->Ok_0,
                    self.base_url@,
                    *request,
                    api_key@,
                    file@,
                ),
                Err(error) => r == Err::<SpeechRequest, TranscriptionError>(error),
            },
            r is Ok <==> model_id@ == "scribe_v2"@ && !crate::text::is_blank(api_key@) && wav is Ok,
            r matches Ok(sent) ==> sent.wav == wav->Ok_0,
            r matches Ok(sent) ==> {
                &&& sent.language_code is None <==> request.language is None
                    || request.language->0@.len() == 0 || request.language->0@ == "auto"@
                &&& sent.language_code matches Some(code) ==> request.language is Some && code@
                    == request.language->0@
                &&& sent.url@ == self.base_url@ + "/v1/speech-to-text"@
                &&& sent.api_key@ == crate::text::trimmed(api_key@)
                &&& sent.model_id@ == "scribe_v2"@
            },
            r matches Err(error) ==> model_id@ != "scribe_v2"@ ==> (error matches
                TranscriptionError::InvalidConfiguration(text) && text@
                == "unsupported ElevenLabs model"@),
            model_id@ == "scribe_v2"@ && crate::text::is_blank(api_key@) ==> r == Err::<
                SpeechRequest,
                TranscriptionError,
            >(TranscriptionError::MissingCredential),
    {
        if !same_text(model_id, MODEL_SCRIBE_V2) {
            return Err(invalid_configuration("unsupported ElevenLabs model"));
        }
        let api_key: String = match usable_key(api_key) {
            Ok(key) => key,
            Err(error) => {
                return Err(error);
            },
        };
        let wav: Vec<u8> = match wav {
            Ok(wav) => wav,
            Err(error) => {
                return Err(error);
            },
        };
        let language_code: Option<String> = match &request.language {
            Some(language) => {
                if language.as_str().unicode_len() == 0 || same_text(language.as_str(), "auto") {
                    None
                } else {
                    Some(language.clone())
                }
            },
            None => None,
        };
        let mut url: String = self.base_url.clone();
        url.append("/v1/speech-to-text");
        Ok(
            SpeechRequest {
                url,
                api_key,
                model_id: model_id.to_owned(),
                wav,
                language_code,
                keyterms: valid_keyterms(&request.custom_words),
            },
        )
    }

    /// The result of a transcription, given the answer to its request.
    pub fn finish_transcription(
        &self,
        reply: Reply<SpeechToTextResponse>,
        elapsed_ms: u64,
    ) -> (r: Result<TranscriptionResult, TranscriptionError>)
        ensures
            (match r {
                Ok(result) => Ok::<super::types::ResultView, super::types::ErrorView>(result@),
                Err(error) => Err(error@),
            }) == transcription_result(reply, elapsed_ms),
            r is Ok <==> (reply matches Reply::Answered(body) && body is Some),
            r matches Ok(result) ==> {
                let body = reply->Answered_0->0;
                &&& result.text@ == crate::text::trimmed(body.text@)
                &&& result.provider_id@ == "elevenlabs"@
                &&& result.model_id@ == "scribe_v2"@
                &&& result.detected_language == body.language_code
                &&& result.latency.total_ms == elapsed_ms
            },
            reply matches Reply::Failed { timed_out } ==> r == Err::<
                TranscriptionResult,
                TranscriptionError,
            >(
                if timed_out {
                    TranscriptionError::Timeout
                } else {
                    TranscriptionError::Network
                },
            ),
            reply matches Reply::Interrupted { timed_out } ==> r == Err::<
                TranscriptionResult,
                TranscriptionError,
            >(
                if timed_out {
                    TranscriptionError::Timeout
                } else {
                    TranscriptionError::Network
                },
            ),
            reply matches Reply::Refused(status) ==> r is Err && r->Err_0@ == status_error(status),
            reply matches Reply::Answered(None) ==> r == Err::<
                TranscriptionResult,
                TranscriptionError,
            >(TranscriptionError::Protocol),
    {
        match reply {
            Reply::Failed { timed_out } => Err(classify_send_error(timed_out)),
            Reply::Refused(status) => Err(map_status_error(status)),
            Reply::Interrupted { timed_out } => Err(classify_send_error(timed_out)),
            Reply::Answered(None) => Err(TranscriptionError::Protocol),
            Reply::Answered(Some(body)) => Ok(
                TranscriptionResult {
                    text: trim(body.text.as_str()).to_owned(),
                    provider_id: PROVIDER_ID.to_owned(),
                    model_id: MODEL_SCRIBE_V2.to_owned(),
                    detected_language: body.language_code,
                    latency: TranscriptionLatency { total_ms: elapsed_ms },
                },
            ),
        }
    }

    /// The request of a connection test: the URL to `GET`, and the key to send.
    /// It carries no audio.
    pub fn prepare_test(&self, api_key: &str) -> (r: Result<(String, String), TranscriptionError>)
        ensures
            r is Ok == !crate::text::is_blank(api_key@),
            r matches Ok(sent) ==> sent.0@ == self.base_url@ + "/v1/user"@ && sent.1@
                == crate::text::trimmed(api_key@),
            r matches Err(error) ==> error == TranscriptionError::MissingCredential,
    {
        match usable_key(api_key) {
            Ok(key) => {
                let mut url: String = self.base_url.clone();
                url.append("/v1/user");
                Ok((url, key))
            },
            Err(error) => Err(error),
        }
    }

    /// The result of a connection test, given the answer to its request.
    pub fn finish_test(&self, reply: Reply<()>) -> (r: Result<(), TranscriptionError>)
        ensures
            match reply {
                Reply::Failed { timed_out } => r is Err && r->Err_0@ == super::http::send_error(
                    timed_out,
                ),
                Reply::Refused(status) => r is Err && r->Err_0@ == status_error(status),
                Reply::Interrupted { timed_out } => r is Err && r->Err_0@
                    == super::http::send_error(timed_out),
                Reply::Answered(_) => r is Ok,
            },
    {
        match reply {
            Reply::Failed { timed_out } => Err(classify_send_error(timed_out)),
            Reply::Refused(status) => Err(map_status_error(status)),
            Reply::Interrupted { timed_out } => Err(classify_send_error(timed_out)),
            Reply::Answered(_) => Ok(()),
        }
    }
}

/// The language of a request is sent as it is, whichever it is; only an absent
/// one, an empty one and `auto` are left to the provider.
pub proof fn a_concrete_language_is_sent_as_it_is(language: Option<String>)
    ensures
        sent_language(language) is None <==> language is None || language->0@ == ""@
            || language->0@ == "auto"@,
        language matches Some(lang) ==> lang@ != ""@ && lang@ != "auto"@ ==> sent_language(language)
            == Some(lang@),
{
    reveal_strlit("");
    if language is Some && language->0@.len() == 0 {
        assert(language->0@ == ""@);
    }
}

/// The language code of a request is the very language that was asked for, and
/// absent exactly for none, an empty one and `auto`.
pub proof fn a_request_sends_the_language_it_was_given(
    sent: SpeechRequest,
    base_url: Seq<char>,
    request: TranscriptionRequest,
    api_key: Seq<char>,
    wav: Seq<u8>,
)
    requires
        asks_for_speech(sent, base_url, request, api_key, wav),
    ensures
        sent.language_code is None <==> request.language is None || request.language->0@ == ""@
            || request.language->0@ == "auto"@,
        sent.language_code matches Some(code) ==> request.language is Some && code@
            == request.language->0@,
        sent.wav@ == wav,
        sent.model_id@ == "scribe_v2"@,
        sent.url@ == base_url + "/v1/speech-to-text"@,
        crate::text::texts(sent.keyterms@) == keyterms(request.custom_words@),
        sent.api_key@ == crate::text::trimmed(api_key),
{
    a_concrete_language_is_sent_as_it_is(request.language);
}

/// A text is a key term exactly where it has 1 to 49 characters, at most 5
/// words, and none of the characters that the provider refuses.
pub proof fn which_texts_are_key_terms(term: Seq<char>)
    ensures
        is_keyterm(term) <==> {
            &&& 1 <= term.len() <= 49
            &&& crate::text::word_count(term) <= 5
            &&& !term.contains('<')
            &&& !term.contains('>')
            &&& !term.contains('{')
            &&& !term.contains('}')
            &&& !term.contains('[')
            &&& !term.contains(']')
            &&& !term.contains('\\')
        },
{
    if exists|i: int| 0 <= i < term.len() && is_bracket(#[trigger] term[i]) {
        let i = choose|i: int| 0 <= i < term.len() && is_bracket(#[trigger] term[i]);
        assert(term.contains(term[i]));
    }
}

/// The user's words are taken one by one, in order: those of two lists, one
/// behind the other, are those of the first followed by those of the second.
pub proof fn key_terms_are_taken_one_by_one(first: Seq<String>, second: Seq<String>)
    ensures
        accepted_terms(first + second) == accepted_terms(first) + accepted_terms(second),
    decreases second.len(),
{
    if second.len() == 0 {
        assert(first + second == first);
    } else {
        let whole = first + second;
        key_terms_are_taken_one_by_one(first, second.drop_last());
        assert(whole.drop_last() == first + second.drop_last());
        assert(whole.last() == second.last());
    }
}

/// A single word is taken, trimmed, exactly where its trimmed form is a key
/// term.
pub proof fn which_word_is_taken(word: String)
    ensures
        is_keyterm(crate::text::trimmed(word@)) ==> accepted_terms(seq![word]) == seq![
            crate::text::trimmed(word@),
        ],
        !is_keyterm(crate::text::trimmed(word@)) ==> accepted_terms(seq![word]).len() == 0,
{
    let one = seq![word];
    assert(one.drop_last().len() == 0);
    assert(one.last() == word);
    assert(accepted_terms(one.drop_last()) == Seq::<Seq<char>>::empty());
}

/// The key terms of a request are the accepted words themselves, cut off after
/// the first thousand.
pub proof fn the_first_thousand_words_are_sent(words: Seq<String>)
    ensures
        accepted_terms(words).len() <= 1000 ==> keyterms(words) == accepted_terms(words),
        accepted_terms(words).len() > 1000 ==> keyterms(words).len() == 1000 && keyterms(words)
            == accepted_terms(words).take(1000),
{
}

/// Each kind of refusal has its statuses.
pub proof fn each_refusal_has_its_statuses(status: u16)
    ensures
        status_error(status) is InvalidConfiguration <==> status == 400 || status == 422,
        status_error(status) matches super::types::ErrorView::InvalidConfiguration(text) ==> text
            == "provider rejected request ("@ + crate::text::decimal(status as nat) + ")"@,
        status_error(status) is Authentication <==> status == 401 || status == 403,
        status_error(status) is Quota <==> status == 402,
        status_error(status) is RateLimited <==> status == 429,
        status_error(status) is ProviderUnavailable <==> 500 <= status <= 599,
        status_error(status) is Protocol <==> !(400 <= status <= 403 || status == 422 || status
            == 429 || 500 <= status <= 599),
{
}

/// A request can be made exactly for the one model and with a key that is not
/// blank; a wrong model goes before a missing key.
pub proof fn when_a_request_can_be_made(model_id: Seq<char>, api_key: Seq<char>)
    ensures
        preparation_error(model_id, api_key) is None <==> model_id == "scribe_v2"@
            && !crate::text::is_blank(api_key),
        model_id != "scribe_v2"@ ==> preparation_error(model_id, api_key) == Some(
            super::types::ErrorView::InvalidConfiguration("unsupported ElevenLabs model"@),
        ),
        model_id == "scribe_v2"@ && crate::text::is_blank(api_key) ==> preparation_error(
            model_id,
            api_key,
        ) == Some(super::types::ErrorView::MissingCredential),
{
}

/// A transcription succeeds exactly where the answer can be decoded, and then
/// with its trimmed text and its language under this provider's names.
pub proof fn when_a_transcription_succeeds(reply: Reply<SpeechToTextResponse>, elapsed_ms: u64)
    ensures
        transcription_result(reply, elapsed_ms) is Ok <==> (reply matches Reply::Answered(body)
            && body is Some),
        reply matches Reply::Answered(Some(body)) ==> {
            let result = transcription_result(reply, elapsed_ms)->Ok_0;
            &&& result.text == crate::text::trimmed(body.text@)
            &&& result.provider_id == "elevenlabs"@
            &&& result.model_id == "scribe_v2"@
            &&& result.detected_language == crate::text::optional_text(body.language_code)
            &&& result.total_ms == elapsed_ms
        },
        reply matches Reply::Answered(None) ==> transcription_result(reply, elapsed_ms)->Err_0
            is Protocol,
        reply matches Reply::Failed { timed_out } ==> {
            &&& timed_out ==> transcription_result(reply, elapsed_ms)->Err_0 is Timeout
            &&& !timed_out ==> transcription_result(reply, elapsed_ms)->Err_0 is Network
        },
        reply matches Reply::Interrupted { timed_out } ==> {
            &&& timed_out ==> transcription_result(reply, elapsed_ms)->Err_0 is Timeout
            &&& !timed_out ==> transcription_result(reply, elapsed_ms)->Err_0 is Network
        },
        reply matches Reply::Refused(status) ==> transcription_result(reply, elapsed_ms)->Err_0
            == status_error(status),
{
}

} // verus!
