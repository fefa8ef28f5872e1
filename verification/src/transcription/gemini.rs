//! The Gemini provider: which request is sent, and what its answer means.
//!
//! A transcription is a `POST` of a JSON body to
//! `/models/<model>:generateContent` with the key in the `x-goog-api-key`
//! header.

use base64::Engine;
use vstd::prelude::*;

use super::http::{classify_send_error, rejected, usable_key, Reply};
use super::types::{
    invalid_configuration, ProviderCapabilities, ProviderDescriptor, ProviderKind,
    TranscriptionError, TranscriptionLatency, TranscriptionModelDescriptor, TranscriptionRequest,
    TranscriptionResult,
};
use super::wav::encode_wav;
use crate::text::{same_text, trim};

verus! {

/// Registry id of this provider.
pub const PROVIDER_ID: &'static str = "gemini";

/// The model where none is configured.
pub const DEFAULT_MODEL: &'static str = "gemini-2.5-flash";

/// The official API.
pub const DEFAULT_BASE_URL: &'static str = "https://generativelanguage.googleapis.com/v1beta";

/// What the model is asked to do with the audio.
pub const TRANSCRIBE_PROMPT: &'static str =
    "Transcribe this audio. Return only the transcript text, nothing else.";

/// The provider at an API base URL, for one model.
#[derive(Debug)]
pub struct GeminiProvider {
    pub base_url: String,
    pub model: String,
}

/// The contents of the descriptor with the model `id`.
pub open spec fn descriptor_view(id: Seq<char>, label: Seq<char>) -> super::types::DescriptorView {
    super::types::DescriptorView {
        id: "gemini"@,
        label: "Gemini"@,
        kind: ProviderKind::Cloud,
        models: seq![super::types::ModelView { id, label }],
        capabilities: super::types::CapabilitiesView {
            batch: true,
            realtime: false,
            supported_languages: Seq::empty(),
            supports_word_timestamps: false,
            sends_audio_off_device: true,
        },
        requires_credential: true,
        privacy_url: Some("https://ai.google.dev/gemini-api/terms"@),
        pricing_url: Some("https://ai.google.dev/pricing"@),
        cost_text: None,
        retention_text: Some("Retention follows your Google account and provider policy."@),
        consent_version: 1,
        beta: false,
    }
}

fn descriptor_for(id: &str, label: &str) -> (r: ProviderDescriptor)
    ensures
        r@ == descriptor_view(id@, label@),
        r.id@ == "gemini"@,
        r.label@ == "Gemini"@,
        r.kind == ProviderKind::Cloud,
        r.models@.len() == 1,
        r.models@[0].id@ == id@,
        r.models@[0].label@ == label@,
        r.capabilities.batch,
        !r.capabilities.realtime,
        r.capabilities.supported_languages@.len() == 0,
        !r.capabilities.supports_word_timestamps,
        r.capabilities.sends_audio_off_device,
        r.requires_credential,
        r.privacy_url matches Some(url) && url@ == "https://ai.google.dev/gemini-api/terms"@,
        r.pricing_url matches Some(url) && url@ == "https://ai.google.dev/pricing"@,
        r.cost_text is None,
        r.retention_text matches Some(text) && text@
            == "Retention follows your Google account and provider policy."@,
        r.consent_version == 1,
        !r.beta,
{
    let mut models: Vec<TranscriptionModelDescriptor> = Vec::new();
    models.push(TranscriptionModelDescriptor { id: id.to_owned(), label: label.to_owned() });
    let r = ProviderDescriptor {
        id: "gemini".to_owned(),
        label: "Gemini".to_owned(),
        kind: ProviderKind::Cloud,
        models,
        capabilities: ProviderCapabilities {
            batch: true,
            realtime: false,
            supported_languages: Vec::new(),
            supports_word_timestamps: false,
            sends_audio_off_device: true,
        },
        requires_credential: true,
        privacy_url: Some("https://ai.google.dev/gemini-api/terms".to_owned()),
        pricing_url: Some("https://ai.google.dev/pricing".to_owned()),
        cost_text: None,
        retention_text: Some(
            "Retention follows your Google account and provider policy.".to_owned(),
        ),
        consent_version: 1,
        beta: false,
    };
    proof {
        assert(r@.models =~= descriptor_view(id@, label@).models);
        assert(r@.capabilities.supported_languages =~= Seq::<Seq<char>>::empty());
    }
    r
}

/// The description of the provider with its default model.
pub fn descriptor() -> (r: ProviderDescriptor)
    ensures
        r@ == descriptor_view("gemini-2.5-flash"@, "Gemini 2.5 Flash"@),
{
    descriptor_for(DEFAULT_MODEL, "Gemini 2.5 Flash")
}

/// Data inside a request.
#[derive(Debug)]
pub struct InlineData {
    pub mime_type: String,
    pub data: String,
}

/// One part of a request: a text or data.
#[derive(Debug)]
pub struct Part {
    pub text: Option<String>,
    pub inline_data: Option<InlineData>,
}

/// The parts of one message.
#[derive(Debug)]
pub struct Content {
    pub parts: Vec<Part>,
}

/// The body of a request.
#[derive(Debug)]
pub struct GenerateContentRequest {
    pub contents: Vec<Content>,
}

/// One part of an answer.
#[derive(Debug)]
pub struct ResponsePart {
    pub text: Option<String>,
}

/// The parts of one candidate.
#[derive(Debug)]
pub struct CandidateContent {
    pub parts: Option<Vec<ResponsePart>>,
}

/// One candidate of an answer.
#[derive(Debug)]
pub struct Candidate {
    pub content: Option<CandidateContent>,
}

/// The body of an answer; everything else in it is ignored.
#[derive(Debug)]
pub struct GenerateContentResponse {
    pub candidates: Option<Vec<Candidate>>,
}

/// The Base64 character of a number under 64.
pub open spec fn base64_char(n: int) -> char {
    "ABCDEFGHIJKLMNOPQRSTUVWXYZabcdefghijklmnopqrstuvwxyz0123456789+/"@[n]
}

/// The Base64 notation of the bytes, with padding: every three bytes become
/// four characters of six bits each.
pub open spec fn base64_text(bytes: Seq<u8>) -> Seq<char>
    decreases bytes.len(),
{
    if bytes.len() == 0 {
        Seq::empty()
    } else {
        let n = bytes.len();
        let b0 = bytes[0] as int;
        let b1 = if n > 1 {
            bytes[1] as int
        } else {
            0
        };
        let b2 = if n > 2 {
            bytes[2] as int
        } else {
            0
        };
        let c2 = if n > 1 {
            base64_char((b1 % 16) * 4 + b2 / 64)
        } else {
            '='
        };
        let c3 = if n > 2 {
            base64_char(b2 % 64)
        } else {
            '='
        };
        seq![base64_char(b0 / 4), base64_char((b0 % 4) * 16 + b1 / 16), c2, c3] + base64_text(
            bytes.skip(
                if n > 3 {
                    3
                } else {
                    n as int
                },
            ),
        )
    }
}

/// The Base64 notation of `n` bytes fits into memory.
pub open spec fn fits_base64(n: nat) -> bool {
    (n + 2) / 3 * 4 <= isize::MAX
}

/// The Base64 notation of the bytes.
///
/// Calls `base64::engine::general_purpose::STANDARD.encode`. Trusted: the result
/// is the notation with the standard alphabet and padding.
#[verifier::external_body]
fn encode_base64(bytes: &Vec<u8>) -> (r: String)
    requires
        fits_base64(bytes@.len()),
    ensures
        r@ == base64_text(bytes@),
{
    base64::engine::general_purpose::STANDARD.encode(bytes)
}

/// The body asks for a transcript of the audio: first the audio as inline data,
/// then the prompt.
pub open spec fn asks_for_transcript(
    request: GenerateContentRequest,
    audio_base64: Seq<char>,
) -> bool {
    &&& request.contents@.len() == 1
    &&& request.contents@[0].parts@.len() == 2
    &&& request.contents@[0].parts@[0].text is None
    &&& request.contents@[0].parts@[0].inline_data matches Some(audio) && audio.mime_type@
        == "audio/wav"@ && audio.data@ == audio_base64
    &&& crate::text::optional_text(request.contents@[0].parts@[1].text) == Some(
        "Transcribe this audio. Return only the transcript text, nothing else."@,
    )
    &&& request.contents@[0].parts@[1].inline_data is None
}

/// The body of a transcription request.
pub fn build_request(audio_base64: String) -> (r: GenerateContentRequest)
    ensures
        asks_for_transcript(r, audio_base64@),
        r.contents@.len() == 1,
        r.contents@[0].parts@.len() == 2,
        r.contents@[0].parts@[0].inline_data matches Some(audio) && audio.data == audio_base64
            && audio.mime_type@ == "audio/wav"@,
        r.contents@[0].parts@[0].text is None,
        r.contents@[0].parts@[1].text matches Some(prompt) && prompt@
            == "Transcribe this audio. Return only the transcript text, nothing else."@,
        r.contents@[0].parts@[1].inline_data is None,
{
    let audio = Part {
        text: None,
        inline_data: Some(InlineData { mime_type: "audio/wav".to_owned(), data: audio_base64 }),
    };
    let prompt = Part { text: Some(TRANSCRIBE_PROMPT.to_owned()), inline_data: None };
    let mut parts: Vec<Part> = Vec::new();
    parts.push(audio);
    parts.push(prompt);
    let mut contents: Vec<Content> = Vec::new();
    contents.push(Content { parts });
    GenerateContentRequest { contents }
}

/// The error of a non-2xx status.
pub open spec fn status_error(status: u16) -> super::types::ErrorView {
    if status == 400 {
        super::types::ErrorView::InvalidConfiguration(super::http::rejection_text(status))
    } else if status == 401 || status == 403 {
        super::types::ErrorView::Authentication
    } else if status == 429 {
        super::types::ErrorView::RateLimited
    } else if 500 <= status < 600 {
        super::types::ErrorView::ProviderUnavailable
    } else {
        super::types::ErrorView::Protocol
    }
}

/// The error of a non-2xx status.
pub fn map_status_error(status: u16) -> (r: TranscriptionError)
    ensures
        r@ == status_error(status),
        r is InvalidConfiguration <==> status == 400,
        r matches TranscriptionError::InvalidConfiguration(text) ==> text@
            == "provider rejected request ("@ + crate::text::decimal(status as nat) + ")"@,
        r == TranscriptionError::Authentication <==> status == 401 || status == 403,
        r == TranscriptionError::RateLimited <==> status == 429,
        r == TranscriptionError::ProviderUnavailable <==> 500 <= status <= 599,
        r == TranscriptionError::Protocol <==> !(status == 400 || status == 401 || status == 403
            || status == 429 || 500 <= status <= 599),
{
    if status == 400 {
        rejected(status)
    } else if status == 401 || status == 403 {
        TranscriptionError::Authentication
    } else if status == 429 {
        TranscriptionError::RateLimited
    } else if 500 <= status && status < 600 {
        TranscriptionError::ProviderUnavailable
    } else {
        TranscriptionError::Protocol
    }
}

/// The text of the first part of the first candidate, or nothing where any of
/// them is missing.
pub open spec fn first_text(response: GenerateContentResponse) -> Seq<char> {
    match response.candidates {
        Some(candidates) => if candidates@.len() == 0 {
            ""@
        } else {
            match candidates@[0].content {
                Some(content) => match content.parts {
                    Some(parts) => if parts@.len() == 0 {
                        ""@
                    } else {
                        match parts@[0].text {
                            Some(text) => text@,
                            None => ""@,
                        }
                    },
                    None => ""@,
                },
                None => ""@,
            }
        },
        None => ""@,
    }
}

/// The trimmed text of an answer.
pub fn response_text(response: &GenerateContentResponse) -> (r: String)
    ensures
        r@ == crate::text::trimmed(first_text(*response)),
        response.candidates is Some && response.candidates->0@.len() > 0
            && response.candidates->0@[0].content is Some
            && response.candidates->0@[0].content->0.parts is Some
            && response.candidates->0@[0].content->0.parts->0@.len() > 0
            && response.candidates->0@[0].content->0.parts->0@[0].text is Some ==> r@
            == crate::text::trimmed(
            response.candidates->0@[0].content->0.parts->0@[0].text->0@,
        ),
        response.candidates is None || response.candidates->0@.len() == 0 ==> r@.len() == 0,
{
    proof {
        reveal_strlit("");
        crate::text::trimmed_is_empty_exactly_for_blank(""@);
    }
    let text: &str = match &response.candidates {
        Some(candidates) => {
            if candidates.len() == 0 {
                ""
            } else {
                match &candidates[0].content {
                    Some(content) => match &content.parts {
                        Some(parts) => {
                            if parts.len() == 0 {
                                ""
                            } else {
                                match &parts[0].text {
                                    Some(text) => text.as_str(),
                                    None => "",
                                }
                            }
                        },
                        None => "",
                    },
                    None => "",
                }
            }
        },
        None => "",
    };
    trim(text).to_owned()
}

/// A transcription request, ready to be sent.
#[derive(Debug)]
pub struct GeminiRequest {
    pub url: String,
    /// The value of the `x-goog-api-key` header.
    pub api_key: String,
    pub body: GenerateContentRequest,
}

/// What a transcription ends with, given the answer.
pub open spec fn transcription_result(
    model: Seq<char>,
    reply: Reply<GenerateContentResponse>,
    elapsed_ms: u64,
) -> Result<super::types::ResultView, super::types::ErrorView> {
    match reply {
        Reply::Failed { timed_out } => Err(super::http::send_error(timed_out)),
        Reply::Refused(status) => Err(status_error(status)),
        Reply::Interrupted { timed_out } => Err(super::http::send_error(timed_out)),
        Reply::Answered(None) => Err(super::types::ErrorView::Protocol),
        Reply::Answered(Some(body)) => Ok(
            super::types::ResultView {
                text: crate::text::trimmed(first_text(body)),
                provider_id: "gemini"@,
                model_id: model,
                detected_language: None,
                total_ms: elapsed_ms,
            },
        ),
    }
}

/// Why no request can be made, whatever the recording: the model is not the
/// configured one, or there is no key.
pub open spec fn preparation_error(
    configured: Seq<char>,
    model_id: Seq<char>,
    api_key: Seq<char>,
) -> Option<super::types::ErrorView> {
    if model_id != configured {
        Some(
            super::types::ErrorView::InvalidConfiguration(
                "Gemini model does not match the registered target"@,
            ),
        )
    } else if crate::text::is_blank(api_key) {
        Some(super::types::ErrorView::MissingCredential)
    } else {
        None
    }
}

/// The request asks the provider for the transcript of the WAV file.
pub open spec fn asks_gemini(
    sent: GeminiRequest,
    provider: GeminiProvider,
    api_key: Seq<char>,
    wav: Seq<u8>,
) -> bool {
    &&& sent.url@ == provider.base_url@ + "/models/"@ + provider.model@ + ":generateContent"@
    &&& sent.api_key@ == crate::text::trimmed(api_key)
    &&& asks_for_transcript(sent.body, base64_text(wav))
}

impl GeminiProvider {
    /// The provider at the official API with its default model.
    pub fn new() -> (r: Self)
        ensures
            r.base_url@ == "https://generativelanguage.googleapis.com/v1beta"@,
            r.model@ == "gemini-2.5-flash"@,
    {
        GeminiProvider { base_url: DEFAULT_BASE_URL.to_owned(), model: DEFAULT_MODEL.to_owned() }
    }

    /// The provider at the official API for the configured model.
    pub fn with_model(model: &str) -> (r: Self)
        ensures
            r.base_url@ == "https://generativelanguage.googleapis.com/v1beta"@,
            r.model@ == model@,
    {
        GeminiProvider { base_url: DEFAULT_BASE_URL.to_owned(), model: model.to_owned() }
    }

    /// The provider at another base URL with its default model.
    pub fn with_base_url(base_url: &str) -> (r: Self)
        ensures
            r.base_url@ == base_url@,
            r.model@ == "gemini-2.5-flash"@,
    {
        GeminiProvider { base_url: base_url.to_owned(), model: DEFAULT_MODEL.to_owned() }
    }

    /// The description of the provider with its configured model.
    pub fn descriptor(&self) -> (r: ProviderDescriptor)
        ensures
            r@ == descriptor_view(self.model@, self.model@),
    {
        descriptor_for(self.model.as_str(), self.model.as_str())
    }

    /// The request of a transcription.
    pub fn prepare_transcription(
        &self,
        model_id: &str,
        request: &TranscriptionRequest,
        api_key: &str,
    ) -> (r: Result<GeminiRequest, TranscriptionError>)
        requires
            preparation_error(self.model@, model_id@, api_key@) is None ==> super::wav::fits_wav(
                request.audio_16khz_mono@.len(),
            ) && fits_base64(44 + 2 * request.audio_16khz_mono@.len()),
        ensures
            preparation_error(self.model@, model_id@, api_key@) matches Some(error) ==> r is Err
                && r->Err_0@ == error,
            preparation_error(self.model@, model_id@, api_key@) is None ==> r is Ok && asks_gemini(
                r->Ok_0,
                *self,
                api_key@,
                super::wav::wav_file(request.audio_16khz_mono@),
            ),
            r is Ok <==> model_id@ == self.model@ && !crate::text::is_blank(api_key@),
            r is Ok ==> r->Ok_0.body.contents@[0].parts@[0].inline_data->0.data@ == base64_text(
                super::wav::wav_file(request.audio_16khz_mono@),
            ),
            r matches Ok(sent) ==> {
                &&& sent.url@ == self.base_url@ + "/models/"@ + self.model@ + ":generateContent"@
                &&& sent.api_key@ == crate::text::trimmed(api_key@)
                &&& sent.body.contents@.len() == 1
                &&& sent.body.contents@[0].parts@.len() == 2
                &&& sent.body.contents@[0].parts@[1].text matches Some(prompt)
                &&& prompt@
                    == "Transcribe this audio. Return only the transcript text, nothing else."@
                &&& sent.body.contents@[0].parts@[0].inline_data matches Some(audio)
                &&& audio.mime_type@ == "audio/wav"@
            },
            model_id@ != self.model@ ==> (r matches Err(
                TranscriptionError::InvalidConfiguration(text),
            ) && text@ == "Gemini model does not match the registered target"@),
            model_id@ == self.model@ && crate::text::is_blank(api_key@) ==> r == Err::<
                GeminiRequest,
                TranscriptionError,
            >(TranscriptionError::MissingCredential),
    {
        if !same_text(model_id, self.model.as_str()) {
            return Err(invalid_configuration("Gemini model does not match the registered target"));
        }
        match usable_key(api_key) {
            Ok(_) => {},
            Err(error) => {
                return Err(error);
            },
        }
        let wav = encode_wav(request.audio_16khz_mono.as_slice());
        proof {
            super::wav::lemma_file_length(request.audio_16khz_mono@);
        }
        self.prepare_encoded(model_id, api_key, wav)
    }

    /// The request of a transcription, given what encoding its recording came
    /// to.
    pub fn prepare_encoded(
        &self,
        model_id: &str,
        api_key: &str,
        wav: Result<Vec<u8>, TranscriptionError>,
    ) -> (r: Result<GeminiRequest, TranscriptionError>)
        requires
            wav matches Ok(file) ==> fits_base64(file@.len()),
        ensures
            preparation_error(self.model@, model_id@, api_key@) matches Some(error) ==> r is Err
                && r->Err_0@ == error,
            preparation_error(self.model@, model_id@, api_key@) is None ==> match wav {
                Ok(file) => r is Ok && asks_gemini(r->Ok_0, *self, api_key@, file@),
                Err(error) => r == Err::<GeminiRequest, TranscriptionError>(error),
            },
            r is Ok <==> model_id@ == self.model@ && !crate::text::is_blank(api_key@) && wav is Ok,
            r is Ok ==> r->Ok_0.body.contents@[0].parts@[0].inline_data->0.data@ == base64_text(
                wav->Ok_0@,
            ),
            r matches Ok(sent) ==> {
                &&& sent.url@ == self.base_url@ + "/models/"@ + self.model@ + ":generateContent"@
                &&& sent.api_key@ == crate::text::trimmed(api_key@)
                &&& sent.body.contents@.len() == 1
                &&& sent.body.contents@[0].parts@.len() == 2
                &&& sent.body.contents@[0].parts@[1].text matches Some(prompt)
                &&& prompt@
                    == "Transcribe this audio. Return only the transcript text, nothing else."@
                &&& sent.body.contents@[0].parts@[0].inline_data matches Some(audio)
                &&& audio.mime_type@ == "audio/wav"@
            },
            model_id@ != self.model@ ==> (r matches Err(
                TranscriptionError::InvalidConfiguration(text),
            ) && text@ == "Gemini model does not match the registered target"@),
            model_id@ == self.model@ && crate::text::is_blank(api_key@) ==> r == Err::<
                GeminiRequest,
                TranscriptionError,
            >(TranscriptionError::MissingCredential),
    {
        if !same_text(model_id, self.model.as_str()) {
            return Err(invalid_configuration("Gemini model does not match the registered target"));
        }
        let api_key: String = match usable_key(api_key) {
            Ok(key) => key,
            Err(error) => {
                return Err(error);
            },
        };
        let wav: Vec<u8> = match wav {
            Ok(wav) => wav,
            Err(error) => {
                return Err(error);
            },
        };
        let mut url: String = self.base_url.clone();
        url.append("/models/");
        url.append(model_id);
        url.append(":generateContent");
        Ok(GeminiRequest { url, api_key, body: build_request(encode_base64(&wav)) })
    }

    /// The result of a transcription, given the answer to its request.
    pub fn finish_transcription(
        &self,
        reply: Reply<GenerateContentResponse>,
        elapsed_ms: u64,
    ) -> (r: Result<TranscriptionResult, TranscriptionError>)
        ensures
            (match r {
                Ok(result) => Ok::<super::types::ResultView, super::types::ErrorView>(result@),
                Err(error) => Err(error@),
            }) == transcription_result(self.model@, reply, elapsed_ms),
            r is Ok <==> (reply matches Reply::Answered(body) && body is Some),
            r matches Ok(result) ==> {
                &&& result.text@ == crate::text::trimmed(first_text(reply->Answered_0->0))
                &&& result.provider_id@ == "gemini"@
                &&& result.model_id@ == self.model@
                &&& result.detected_language is None
                &&& result.latency.total_ms == elapsed_ms
            },
            reply matches Reply::Failed { timed_out } ==> r == Err::<
                TranscriptionResult,
                TranscriptionError,
            >(
                if timed_out {
                    TranscriptionError::Timeout
                } else {
                    TranscriptionError::Network
                },
            ),
            reply matches Reply::Interrupted { timed_out } ==> r == Err::<
                TranscriptionResult,
                TranscriptionError,
            >(
                if timed_out {
                    TranscriptionError::Timeout
                } else {
                    TranscriptionError::Network
                },
            ),
            reply matches Reply::Refused(status) ==> r is Err && r->Err_0@ == status_error(status),
            reply matches Reply::Answered(None) ==> r == Err::<
                TranscriptionResult,
                TranscriptionError,
            >(TranscriptionError::Protocol),
    {
        match reply {
            Reply::Failed { timed_out } => Err(classify_send_error(timed_out)),
            Reply::Refused(status) => Err(map_status_error(status)),
            Reply::Interrupted { timed_out } => Err(classify_send_error(timed_out)),
            Reply::Answered(None) => Err(TranscriptionError::Protocol),
            Reply::Answered(Some(body)) => Ok(
                TranscriptionResult {
                    text: response_text(&body),
                    provider_id: PROVIDER_ID.to_owned(),
                    model_id: self.model.clone(),
                    detected_language: None,
                    latency: TranscriptionLatency { total_ms: elapsed_ms },
                },
            ),
        }
    }

    /// The request of a connection test: the URL to `GET`, and the key to send.
    pub fn prepare_test(&self, api_key: &str) -> (r: Result<(String, String), TranscriptionError>)
        ensures
            r is Ok == !crate::text::is_blank(api_key@),
            r matches Ok(sent) ==> sent.0@ == self.base_url@ + "/models/"@ + self.model@
                && sent.1@ == crate::text::trimmed(api_key@),
            r matches Err(error) ==> error == TranscriptionError::MissingCredential,
    {
        match usable_key(api_key) {
            Ok(key) => {
                let mut url: String = self.base_url.clone();
                url.append("/models/");
                url.append(self.model.as_str());
                Ok((url, key))
            },
            Err(error) => Err(error),
        }
    }

    /// The result of a connection test, given the answer to its request.
    pub fn finish_test(&self, reply: Reply<()>) -> (r: Result<(), TranscriptionError>)
        ensures
            match reply {
                Reply::Failed { timed_out } => r is Err && r->Err_0@ == super::http::send_error(
                    timed_out,
                ),
                Reply::Refused(status) => r is Err && r->Err_0@ == status_error(status),
                Reply::Interrupted { timed_out } => r is Err && r->Err_0@
                    == super::http::send_error(timed_out),
                Reply::Answered(_) => r is Ok,
            },
    {
        match reply {
            Reply::Failed { timed_out } => Err(classify_send_error(timed_out)),
            Reply::Refused(status) => Err(map_status_error(status)),
            Reply::Interrupted { timed_out } => Err(classify_send_error(timed_out)),
            Reply::Answered(_) => Ok(()),
        }
    }
}

/// Each kind of refusal has its statuses.
pub proof fn each_refusal_has_its_statuses(status: u16)
    ensures
        status_error(status) is InvalidConfiguration <==> status == 400,
        status_error(status) matches super::types::ErrorView::InvalidConfiguration(text) ==> text
            == "provider rejected request ("@ + crate::text::decimal(status as nat) + ")"@,
        status_error(status) is Authentication <==> status == 401 || status == 403,
        status_error(status) is RateLimited <==> status == 429,
        status_error(status) is ProviderUnavailable <==> 500 <= status <= 599,
        status_error(status) is Protocol <==> !(status == 400 || status == 401 || status == 403
            || status == 429 || 500 <= status <= 599),
{
}

/// A request can be made exactly for the configured model and with a key that
/// is not blank; a wrong model goes before a missing key.
pub proof fn when_a_request_can_be_made(
    configured: Seq<char>,
    model_id: Seq<char>,
    api_key: Seq<char>,
)
    ensures
        preparation_error(configured, model_id, api_key) is None <==> model_id == configured
            && !crate::text::is_blank(api_key),
        model_id != configured ==> preparation_error(configured, model_id, api_key) == Some(
            super::types::ErrorView::InvalidConfiguration(
                "Gemini model does not match the registered target"@,
            ),
        ),
        model_id == configured && crate::text::is_blank(api_key) ==> preparation_error(
            configured,
            model_id,
            api_key,
        ) == Some(super::types::ErrorView::MissingCredential),
{
}

/// The text of an answer is the text of the first part of its first candidate;
/// nothing behind them has a say, and where one of them is missing there is no
/// text.
pub proof fn the_first_part_of_the_first_candidate_counts(
    response: GenerateContentResponse,
    other: GenerateContentResponse,
)
    ensures
        response.candidates is Some && response.candidates->0@.len() > 0
            && response.candidates->0@[0].content is Some
            && response.candidates->0@[0].content->0.parts is Some
            && response.candidates->0@[0].content->0.parts->0@.len() > 0
            && response.candidates->0@[0].content->0.parts->0@[0].text is Some ==> first_text(
            response,
        ) == response.candidates->0@[0].content->0.parts->0@[0].text->0@,
        response.candidates is None || response.candidates->0@.len() == 0
            || response.candidates->0@[0].content is None
            || response.candidates->0@[0].content->0.parts is None
            || response.candidates->0@[0].content->0.parts->0@.len() == 0
            || response.candidates->0@[0].content->0.parts->0@[0].text is None ==> first_text(
            response,
        ).len() == 0,
        response.candidates is Some && other.candidates is Some
            && response.candidates->0@.len() > 0 && other.candidates->0@.len() > 0
            && response.candidates->0@[0] == other.candidates->0@[0] ==> first_text(response)
            == first_text(other),
{
    reveal_strlit("");
}

/// A transcription succeeds exactly where the answer can be decoded, and then
/// with its text under the names of the provider and its model.
pub proof fn when_a_transcription_succeeds(
    model: Seq<char>,
    reply: Reply<GenerateContentResponse>,
    elapsed_ms: u64,
)
    ensures
        transcription_result(model, reply, elapsed_ms) is Ok <==> (reply matches Reply::Answered(
            body,
        ) && body is Some),
        reply matches Reply::Answered(Some(body)) ==> {
            let result = transcription_result(model, reply, elapsed_ms)->Ok_0;
            &&& result.text == crate::text::trimmed(first_text(body))
            &&& result.provider_id == "gemini"@
            &&& result.model_id == model
            &&& result.detected_language is None
            &&& result.total_ms == elapsed_ms
        },
        reply matches Reply::Answered(None) ==> transcription_result(
            model,
            reply,
            elapsed_ms,
        )->Err_0 is Protocol,
        reply matches Reply::Refused(status) ==> transcription_result(
            model,
            reply,
            elapsed_ms,
        )->Err_0 == status_error(status),
{
}

/// A request carries the audio and the prompt, each once and in its own part,
/// the audio first; it goes to the configured model with the trimmed key.
pub proof fn a_request_carries_the_audio_and_the_prompt(
    sent: GeminiRequest,
    provider: GeminiProvider,
    api_key: Seq<char>,
    wav: Seq<u8>,
)
    requires
        asks_gemini(sent, provider, api_key, wav),
    ensures
        sent.url@ == provider.base_url@ + "/models/"@ + provider.model@ + ":generateContent"@,
        sent.api_key@ == crate::text::trimmed(api_key),
        sent.body.contents@.len() == 1,
        sent.body.contents@[0].parts@.len() == 2,
        sent.body.contents@[0].parts@[0].inline_data is Some,
        sent.body.contents@[0].parts@[0].inline_data->0.mime_type@ == "audio/wav"@,
        sent.body.contents@[0].parts@[0].inline_data->0.data@ == base64_text(wav),
        sent.body.contents@[0].parts@[0].text is None,
        sent.body.contents@[0].parts@[1].inline_data is None,
        sent.body.contents@[0].parts@[1].text is Some,
        sent.body.contents@[0].parts@[1].text->0@
            == "Transcribe this audio. Return only the transcript text, nothing else."@,
{
}

} // verus!
