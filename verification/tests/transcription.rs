//! Targets, providers, the model slot and the local provider.

use std::io::Cursor;

use base64::Engine;
use parler::managers::model::{EngineType, ModelInfo};
use parler::managers::transcription::{
    initiates_model_load, temporary_switch_answer, ResolveStep, TicketGuard,
};
use parler::secrets::memory_store::MemorySecretStore;
use parler::secrets::{SecretStore, SecretStoreError};
use parler::settings::{get_default_settings, ModelUnloadTimeout};
use parler::transcription::elevenlabs::{
    self, valid_keyterms, ElevenLabsProvider, SpeechToTextResponse, MODEL_SCRIBE_V2,
};
use parler::transcription::gemini::{
    self, response_text, Candidate, CandidateContent, GeminiProvider, GenerateContentResponse,
    ResponsePart, DEFAULT_MODEL, TRANSCRIBE_PROMPT,
};
use parler::transcription::http::{reads_body, Reply};
use parler::transcription::local::{
    self, corrects_words, local_result, loading_started, needs_model_path, plan_load,
    preloads_model, EngineCall, InferenceOutcome, LoadAttempt, LocalProviderState,
    SenseVoiceLanguage, TargetStep, TranscribeStep,
};
use parler::transcription::registry::TranscriptionRegistry;
use parler::transcription::service::{credential_of, TranscriptionService};
use parler::transcription::slot::{
    MutationKind, RestoreOutcome, RestoreStep, RestoreTicket, VersionedModelSlot,
};
use parler::transcription::types::{
    ProviderCapabilities, ProviderDescriptor, ProviderKind, TranscriptionError,
    TranscriptionModelDescriptor, TranscriptionRequest, TranscriptionTargetId,
};
use parler::transcription::wav::encode_wav;

fn pcm(samples: &[f32]) -> Vec<i16> {
    samples
        .iter()
        .map(|sample| (sample.clamp(-1.0, 1.0) * i16::MAX as f32) as i16)
        .collect()
}

fn eleven_request() -> TranscriptionRequest {
    TranscriptionRequest {
        audio_16khz_mono: pcm(&[0.0, 0.05, -0.05, 0.1, 0.0]),
        language: Some("fr".to_string()),
        custom_words: vec![],
    }
}

fn gemini_request() -> TranscriptionRequest {
    TranscriptionRequest {
        audio_16khz_mono: pcm(&[0.0, 0.05, -0.05, 0.1]),
        language: None,
        custom_words: vec![],
    }
}

fn decode_speech(body: &str) -> Option<SpeechToTextResponse> {
    let value: serde_json::Value = serde_json::from_str(body).ok()?;
    let text = value.get("text")?.as_str()?.to_string();
    let language_code = value
        .get("language_code")
        .and_then(|code| code.as_str())
        .map(|code| code.to_string());
    Some(SpeechToTextResponse {
        text,
        language_code,
    })
}

fn decode_generated(body: &str) -> Option<GenerateContentResponse> {
    let value: serde_json::Value = serde_json::from_str(body).ok()?;
    let part = |part: &serde_json::Value| ResponsePart {
        text: part
            .get("text")
            .and_then(|text| text.as_str())
            .map(|text| text.to_string()),
    };
    let candidate = |candidate: &serde_json::Value| Candidate {
        content: candidate.get("content").map(|content| CandidateContent {
            parts: content
                .get("parts")
                .and_then(|parts| parts.as_array())
                .map(|parts| parts.iter().map(part).collect()),
        }),
    };
    let candidates = value
        .get("candidates")
        .and_then(|list| list.as_array())
        .map(|list| list.iter().map(candidate).collect());
    Some(GenerateContentResponse { candidates })
}

fn speak(
    reply: Reply<SpeechToTextResponse>,
) -> Result<parler::transcription::types::TranscriptionResult, TranscriptionError> {
    ElevenLabsProvider::new().finish_transcription(reply, 12)
}

const SUCCESS_FR: &str =
    r#"{"text":"Bonjour, ceci est une dictée de test.","language_code":"fr"}"#;

#[test]
fn encodes_wav_with_riff_header() {
    let wav = encode_wav(&pcm(&[0.0, 0.1, -0.1, 0.5])).unwrap();
    assert!(wav.len() > 44, "wav should have header + data");
    assert_eq!(&wav[0..4], b"RIFF");
    assert_eq!(&wav[8..12], b"WAVE");
}

#[test]
fn a_wav_file_holds_its_samples_behind_the_header() {
    let samples: Vec<i16> = vec![1, -2, 300, i16::MIN, i16::MAX];
    let wav = encode_wav(&samples).unwrap();
    assert_eq!(wav.len(), 44 + 2 * samples.len());
    assert_eq!(&wav[44..46], &[1, 0]);
    assert_eq!(&wav[46..48], &[0xfe, 0xff]);
    let mut reader = hound::WavReader::new(Cursor::new(wav)).unwrap();
    let spec = reader.spec();
    assert_eq!(spec.channels, 1);
    assert_eq!(spec.sample_rate, 16_000);
    assert_eq!(spec.bits_per_sample, 16);
    let read: Vec<i16> = reader.samples::<i16>().map(|s| s.unwrap()).collect();
    assert_eq!(read, samples);
    assert_eq!(encode_wav(&[]).unwrap().len(), 44);
}

#[test]
fn status_mapping_matches_adr() {
    assert_eq!(elevenlabs::map_status_error(400).category(), "invalid_configuration");
    assert_eq!(elevenlabs::map_status_error(422).category(), "invalid_configuration");
    assert_eq!(elevenlabs::map_status_error(401).category(), "authentication");
    assert_eq!(elevenlabs::map_status_error(403).category(), "authentication");
    assert_eq!(elevenlabs::map_status_error(402).category(), "quota");
    assert_eq!(elevenlabs::map_status_error(429).category(), "rate_limited");
    assert_eq!(elevenlabs::map_status_error(500).category(), "provider_unavailable");
    assert_eq!(elevenlabs::map_status_error(503).category(), "provider_unavailable");
    assert_eq!(elevenlabs::map_status_error(418).category(), "protocol");
}

#[test]
fn parses_success_fixture() {
    let parsed = speak(Reply::Answered(decode_speech(SUCCESS_FR))).unwrap();
    assert_eq!(parsed.text, "Bonjour, ceci est une dictée de test.");
    assert_eq!(parsed.detected_language.as_deref(), Some("fr"));
}

#[test]
fn elevenlabs_invalid_json_is_protocol_error() {
    let error = speak(Reply::Answered(decode_speech("not json")))
        .err()
        .expect("invalid JSON must fail");
    assert_eq!(error, TranscriptionError::Protocol);
}

#[test]
fn empty_transcript_is_not_treated_as_a_protocol_error() {
    let body = r#"{"text":"   ","language_code":"fr"}"#;
    let parsed = speak(Reply::Answered(decode_speech(body))).unwrap();
    assert!(parsed.text.is_empty());
}

#[test]
fn missing_text_field_is_protocol_error() {
    let error = speak(Reply::Answered(decode_speech(r#"{"language_code":"fr"}"#)))
        .err()
        .expect("a response without text must fail");
    assert_eq!(error, TranscriptionError::Protocol);
}

#[test]
fn descriptor_declares_cloud_and_off_device() {
    let d = elevenlabs::descriptor();
    assert_eq!(d.id, "elevenlabs");
    assert_eq!(d.kind, ProviderKind::Cloud);
    assert!(d.capabilities.sends_audio_off_device);
    assert!(d.requires_credential);
    assert!(d.capabilities.batch);
    assert!(!d.capabilities.realtime);
    assert!(d.models.iter().any(|m| m.id == "scribe_v2"));
    assert!(d.privacy_url.is_some());
}

#[test]
fn empty_api_key_is_missing_credential_without_network() {
    let provider = ElevenLabsProvider::with_base_url("http://127.0.0.1:1");
    let err = provider
        .prepare_transcription(MODEL_SCRIBE_V2, &eleven_request(), "")
        .unwrap_err();
    assert_eq!(err, TranscriptionError::MissingCredential);
}

#[test]
fn whitespace_only_api_key_is_missing_credential_without_network() {
    let provider = ElevenLabsProvider::with_base_url("http://127.0.0.1:1");
    let err = provider
        .prepare_transcription(MODEL_SCRIBE_V2, &eleven_request(), "   \t  ")
        .unwrap_err();
    assert_eq!(err, TranscriptionError::MissingCredential);
    assert_eq!(
        provider.prepare_test("   \t  ").unwrap_err(),
        TranscriptionError::MissingCredential
    );
}

#[test]
fn connection_test_uses_user_endpoint_without_audio() {
    let provider = ElevenLabsProvider::with_base_url("http://127.0.0.1:1");
    let (url, key) = provider.prepare_test("test-key").unwrap();
    assert_eq!(url, "http://127.0.0.1:1/v1/user");
    assert_eq!(key, "test-key");
    assert_eq!(provider.finish_test(Reply::Answered(Some(()))), Ok(()));
}

#[test]
fn success_returns_text_and_sends_auth_header() {
    let provider = ElevenLabsProvider::with_base_url("http://127.0.0.1:1");
    let mut request = eleven_request();
    request.custom_words = vec!["ParlerUniqueTerm".to_string()];

    let sent = provider
        .prepare_transcription(MODEL_SCRIBE_V2, &request, "test-key")
        .unwrap();
    assert_eq!(sent.url, "http://127.0.0.1:1/v1/speech-to-text");
    assert_eq!(sent.api_key, "test-key");
    assert_eq!(sent.model_id, "scribe_v2");
    assert_eq!(sent.language_code.as_deref(), Some("fr"));
    assert_eq!(sent.keyterms, vec!["ParlerUniqueTerm".to_string()]);
    let reader = hound::WavReader::new(Cursor::new(&sent.wav[..])).unwrap();
    let spec = reader.spec();
    assert_eq!(spec.channels, 1);
    assert_eq!(spec.sample_rate, 16_000);
    assert_eq!(spec.bits_per_sample, 16);
    assert_eq!(spec.sample_format, hound::SampleFormat::Int);

    let result = provider
        .finish_transcription(Reply::Answered(decode_speech(SUCCESS_FR)), 12)
        .unwrap();
    assert_eq!(result.text, "Bonjour, ceci est une dictée de test.");
    assert_eq!(result.provider_id, "elevenlabs");
    assert_eq!(result.model_id, "scribe_v2");
    assert_eq!(result.detected_language.as_deref(), Some("fr"));
    assert_eq!(result.latency.total_ms, 12);
    assert!(!result.text.contains("test-key"));
}

#[test]
fn a_request_follows_from_its_encoding() {
    let eleven = ElevenLabsProvider::with_base_url("http://127.0.0.1:1");
    let sent = eleven
        .prepare_encoded(MODEL_SCRIBE_V2, &eleven_request(), " k ", Ok(vec![1, 2]))
        .unwrap();
    assert_eq!(sent.wav, vec![1, 2]);
    assert_eq!(sent.api_key, "k");
    let refused = || Err(TranscriptionError::InvalidConfiguration("wav header".into()));
    assert_eq!(
        eleven
            .prepare_encoded(MODEL_SCRIBE_V2, &eleven_request(), "k", refused())
            .unwrap_err(),
        TranscriptionError::InvalidConfiguration("wav header".into())
    );
    assert_eq!(
        eleven
            .prepare_encoded("scribe_v1", &eleven_request(), "k", Ok(vec![]))
            .unwrap_err(),
        TranscriptionError::InvalidConfiguration("unsupported ElevenLabs model".into())
    );
    let gemini = GeminiProvider::with_base_url("http://127.0.0.1:1");
    let sent = gemini
        .prepare_encoded(DEFAULT_MODEL, " k ", Ok(vec![0xff, 0x00, 0x7f, 0x80]))
        .unwrap();
    let inline = sent.body.contents[0].parts[0].inline_data.as_ref().unwrap();
    assert_eq!(inline.data, "/wB/gA==");
    assert_eq!(
        sent.url,
        "http://127.0.0.1:1/models/gemini-2.5-flash:generateContent"
    );
    assert_eq!(
        gemini
            .prepare_encoded("gemini-9", "k", Ok(vec![]))
            .unwrap_err()
            .category(),
        "invalid_configuration"
    );
}

#[test]
fn elevenlabs_api_key_with_surrounding_whitespace_is_sent_trimmed() {
    let provider = ElevenLabsProvider::with_base_url("http://127.0.0.1:1");
    let sent = provider
        .prepare_transcription(MODEL_SCRIBE_V2, &eleven_request(), "  test-key  ")
        .unwrap();
    assert_eq!(sent.api_key, "test-key");
}

#[test]
fn invalid_json_from_http_is_protocol_error() {
    let err = speak(Reply::Answered(decode_speech("not-json"))).unwrap_err();
    assert_eq!(err, TranscriptionError::Protocol);
}

#[test]
fn unsupported_keyterms_are_filtered_before_multipart_encoding() {
    let terms = vec![
        " valid term ".to_string(),
        "contains [ bracket".to_string(),
        "one two three four five six".to_string(),
        "x".repeat(50),
        String::new(),
    ];
    assert_eq!(valid_keyterms(&terms), vec!["valid term"]);
}

#[test]
fn keyterms_are_bounded_in_number_and_length() {
    let many: Vec<String> = (0..1001).map(|i| format!("term{i}")).collect();
    assert_eq!(valid_keyterms(&many).len(), 1000);
    let edge = vec!["x".repeat(49), "one two three four five".to_string()];
    assert_eq!(valid_keyterms(&edge), edge);
}

#[test]
fn elevenlabs_unauthorized_maps_to_authentication() {
    assert_eq!(
        speak(Reply::Refused(401)).unwrap_err(),
        TranscriptionError::Authentication
    );
}

#[test]
fn elevenlabs_rate_limited_maps_to_rate_limited() {
    assert_eq!(
        speak(Reply::Refused(429)).unwrap_err(),
        TranscriptionError::RateLimited
    );
}

#[test]
fn elevenlabs_server_error_maps_to_provider_unavailable() {
    assert_eq!(
        speak(Reply::Refused(503)).unwrap_err(),
        TranscriptionError::ProviderUnavailable
    );
}

#[test]
fn elevenlabs_slow_server_times_out() {
    assert_eq!(
        speak(Reply::Failed { timed_out: true }).unwrap_err(),
        TranscriptionError::Timeout
    );
    assert_eq!(
        speak(Reply::Failed { timed_out: false }).unwrap_err(),
        TranscriptionError::Network
    );
}

#[test]
fn elevenlabs_error_with_undelivered_body_does_not_block_transcribe() {
    assert!(!reads_body(500));
    assert_eq!(
        speak(Reply::Refused(500)).unwrap_err(),
        TranscriptionError::ProviderUnavailable
    );
}

#[test]
fn elevenlabs_error_with_undelivered_body_does_not_block_test_connection() {
    let err = ElevenLabsProvider::new()
        .finish_test(Reply::Refused(500))
        .unwrap_err();
    assert_eq!(err, TranscriptionError::ProviderUnavailable);
}

const SUCCESS_BODY: &str =
    r#"{"candidates":[{"content":{"parts":[{"text":"Bonjour le monde."}]}}]}"#;

fn generate(
    reply: Reply<GenerateContentResponse>,
) -> Result<parler::transcription::types::TranscriptionResult, TranscriptionError> {
    GeminiProvider::new().finish_transcription(reply, 34)
}

#[test]
fn parses_transcript_text() {
    assert_eq!(
        generate(Reply::Answered(decode_generated(SUCCESS_BODY)))
            .unwrap()
            .text,
        "Bonjour le monde."
    );
}

#[test]
fn empty_response_yields_empty_transcript() {
    let text = |body: &str| response_text(&decode_generated(body).unwrap());
    assert_eq!(text(r#"{"candidates":[]}"#), "");
    assert_eq!(text(r#"{}"#), "");
}

#[test]
fn gemini_invalid_json_is_protocol_error() {
    assert_eq!(
        generate(Reply::Answered(decode_generated("nonsense"))).unwrap_err(),
        TranscriptionError::Protocol
    );
}

#[test]
fn status_mapping() {
    assert_eq!(gemini::map_status_error(400).category(), "invalid_configuration");
    assert_eq!(gemini::map_status_error(401).category(), "authentication");
    assert_eq!(gemini::map_status_error(429).category(), "rate_limited");
    assert_eq!(gemini::map_status_error(500).category(), "provider_unavailable");
}

#[test]
fn descriptor_is_cloud_off_device() {
    let d = gemini::descriptor();
    assert_eq!(d.id, "gemini");
    assert_eq!(d.kind, ProviderKind::Cloud);
    assert!(d.capabilities.sends_audio_off_device);
    assert!(d.requires_credential);
}

#[test]
fn configured_model_is_preserved_in_descriptor() {
    let provider = GeminiProvider::with_model("gemini-custom-preview");
    assert_eq!(provider.descriptor().models[0].id, "gemini-custom-preview");
}

#[test]
fn empty_api_key_is_missing_credential() {
    let provider = GeminiProvider::with_base_url("http://127.0.0.1:1");
    let err = provider
        .prepare_transcription(DEFAULT_MODEL, &gemini_request(), "")
        .unwrap_err();
    assert_eq!(err, TranscriptionError::MissingCredential);
}

#[test]
fn whitespace_only_api_key_is_missing_credential() {
    let provider = GeminiProvider::with_base_url("http://127.0.0.1:1");
    let err = provider
        .prepare_transcription(DEFAULT_MODEL, &gemini_request(), "   \t  ")
        .unwrap_err();
    assert_eq!(err, TranscriptionError::MissingCredential);
}

#[test]
fn success_returns_text_and_sends_api_key_header() {
    let provider = GeminiProvider::with_base_url("http://127.0.0.1:1");
    let sent = provider
        .prepare_transcription(DEFAULT_MODEL, &gemini_request(), "gem-key")
        .unwrap();
    assert_eq!(sent.api_key, "gem-key");
    let result = provider
        .finish_transcription(Reply::Answered(decode_generated(SUCCESS_BODY)), 34)
        .unwrap();
    assert_eq!(result.text, "Bonjour le monde.");
    assert_eq!(result.provider_id, "gemini");
    assert_eq!(result.latency.total_ms, 34);
}

#[test]
fn a_gemini_request_carries_the_audio_in_base64() {
    let provider = GeminiProvider::with_base_url("http://127.0.0.1:1");
    for length in 0..4usize {
        let samples: Vec<i16> = (0..length as i16).map(|i| i * 1000 - 7).collect();
        let request = TranscriptionRequest {
            audio_16khz_mono: samples.clone(),
            language: None,
            custom_words: vec![],
        };
        let sent = provider
            .prepare_transcription(DEFAULT_MODEL, &request, "gem-key")
            .unwrap();
        let parts = &sent.body.contents[0].parts;
        let inline = parts
            .iter()
            .find_map(|part| part.inline_data.as_ref())
            .unwrap();
        assert_eq!(inline.mime_type, "audio/wav");
        let bytes = base64::engine::general_purpose::STANDARD
            .decode(&inline.data)
            .unwrap();
        assert_eq!(bytes, encode_wav(&samples).unwrap());
        assert!(parts
            .iter()
            .any(|part| part.text.as_deref() == Some(TRANSCRIBE_PROMPT)));
        assert!(sent.url.contains(DEFAULT_MODEL));
    }
}

#[test]
fn gemini_api_key_with_surrounding_whitespace_is_sent_trimmed() {
    let provider = GeminiProvider::with_base_url("http://127.0.0.1:1");
    let sent = provider
        .prepare_transcription(DEFAULT_MODEL, &gemini_request(), "  gem-key  ")
        .unwrap();
    assert_eq!(sent.api_key, "gem-key");
    let (_, key) = provider.prepare_test("  gem-key  ").unwrap();
    assert_eq!(key, "gem-key");
}

#[test]
fn gemini_unauthorized_maps_to_authentication() {
    assert_eq!(
        generate(Reply::Refused(401)).unwrap_err(),
        TranscriptionError::Authentication
    );
}

#[test]
fn gemini_rate_limited_maps_to_rate_limited() {
    assert_eq!(
        generate(Reply::Refused(429)).unwrap_err(),
        TranscriptionError::RateLimited
    );
}

#[test]
fn gemini_server_error_maps_to_provider_unavailable() {
    assert_eq!(
        generate(Reply::Refused(500)).unwrap_err(),
        TranscriptionError::ProviderUnavailable
    );
}

#[test]
fn gemini_slow_server_times_out() {
    assert_eq!(
        generate(Reply::Failed { timed_out: true }).unwrap_err(),
        TranscriptionError::Timeout
    );
}

#[test]
fn gemini_error_with_undelivered_body_does_not_block_transcribe() {
    assert!(!reads_body(500));
    assert!(reads_body(204));
    assert_eq!(
        generate(Reply::Refused(500)).unwrap_err(),
        TranscriptionError::ProviderUnavailable
    );
}

#[test]
fn gemini_error_with_undelivered_body_does_not_block_test_connection() {
    let err = GeminiProvider::new()
        .finish_test(Reply::Refused(500))
        .unwrap_err();
    assert_eq!(err, TranscriptionError::ProviderUnavailable);
}

#[test]
fn a_transport_failure_is_a_network_error_for_every_request() {
    for timed_out in [false, true] {
        let expected = if timed_out {
            TranscriptionError::Timeout
        } else {
            TranscriptionError::Network
        };
        let gemini = GeminiProvider::new();
        let elevenlabs = ElevenLabsProvider::new();
        assert_eq!(
            gemini.finish_test(Reply::Failed { timed_out }).unwrap_err(),
            expected
        );
        assert_eq!(
            elevenlabs
                .finish_test(Reply::Failed { timed_out })
                .unwrap_err(),
            expected
        );
        assert_eq!(
            gemini
                .finish_test(Reply::Interrupted { timed_out })
                .unwrap_err(),
            expected
        );
        assert_eq!(
            elevenlabs
                .finish_test(Reply::Interrupted { timed_out })
                .unwrap_err(),
            expected
        );
        assert_eq!(
            speak(Reply::Interrupted { timed_out }).unwrap_err(),
            expected
        );
        assert_eq!(
            generate(Reply::Interrupted { timed_out }).unwrap_err(),
            expected
        );
    }
}

#[test]
fn a_recording_that_was_not_encoded_is_told_after_the_model_and_the_key() {
    let provider = ElevenLabsProvider::new();
    let request = eleven_request();
    let too_long = || Err(TranscriptionError::InvalidConfiguration("wav sample".into()));
    assert_eq!(
        provider
            .prepare_encoded(MODEL_SCRIBE_V2, &request, " ", too_long())
            .unwrap_err(),
        TranscriptionError::MissingCredential
    );
    assert_eq!(
        provider
            .prepare_encoded(MODEL_SCRIBE_V2, &request, "key", too_long())
            .unwrap_err(),
        TranscriptionError::InvalidConfiguration("wav sample".into())
    );
    let gemini = GeminiProvider::new();
    assert_eq!(
        gemini
            .prepare_encoded("gemini-2.5-flash", " ", too_long())
            .unwrap_err(),
        TranscriptionError::MissingCredential
    );
    assert_eq!(
        gemini
            .prepare_encoded("gemini-2.5-flash", "key", too_long())
            .unwrap_err(),
        TranscriptionError::InvalidConfiguration("wav sample".into())
    );
}

fn explicit_switch(slot: &mut VersionedModelSlot, model_id: &str) {
    slot.set(MutationKind::Explicit, Some(model_id.to_string()));
}

fn begin_temporary(slot: &mut VersionedModelSlot, model_id: &str) -> RestoreTicket {
    let baseline = slot.current();
    let ticket = slot.open_ticket(baseline);
    slot.set(MutationKind::Temporary, Some(model_id.to_string()));
    ticket
}

fn restore(slot: &mut VersionedModelSlot, ticket: RestoreTicket) -> RestoreOutcome {
    match slot.restore_ticket(&ticket) {
        RestoreStep::Finished(outcome) => outcome,
        RestoreStep::Apply(target) => {
            slot.set(MutationKind::Temporary, target);
            slot.finish_restore(ticket, Ok(()))
        }
        RestoreStep::Wait => panic!("the ticket must be on top"),
    }
}

#[test]
fn reprocess_restore_does_not_clobber_a_concurrent_set_active_model() {
    let mut slot = VersionedModelSlot::new();
    explicit_switch(&mut slot, "M0");

    let ticket = begin_temporary(&mut slot, "X");
    explicit_switch(&mut slot, "C");

    assert_eq!(
        slot.restore_ticket(&ticket),
        RestoreStep::Finished(RestoreOutcome::Superseded)
    );
    assert_eq!(slot.current(), Some("C".to_string()));
}

#[test]
fn fallback_restore_does_not_clobber_a_concurrent_set_active_model() {
    let mut slot = VersionedModelSlot::new();
    explicit_switch(&mut slot, "small");

    let ticket = begin_temporary(&mut slot, "large");
    explicit_switch(&mut slot, "cloud-selected-model");

    assert_eq!(
        slot.restore_ticket(&ticket),
        RestoreStep::Finished(RestoreOutcome::Superseded)
    );
    assert_eq!(slot.current(), Some("cloud-selected-model".to_string()));
}

#[test]
fn two_concurrent_reprocesses_unwind_in_lifo_order_back_to_the_true_baseline() {
    let mut slot = VersionedModelSlot::new();
    explicit_switch(&mut slot, "M0");

    let ticket_a = begin_temporary(&mut slot, "X");
    let ticket_b = begin_temporary(&mut slot, "Y");
    assert_eq!(slot.current(), Some("Y".to_string()));

    assert!(!slot.is_ticket_top(&ticket_a));
    assert_eq!(slot.restore_ticket(&ticket_a), RestoreStep::Wait);
    let outcome_b = restore(&mut slot, ticket_b);
    let outcome_a = restore(&mut slot, ticket_a);

    assert_eq!(outcome_b, RestoreOutcome::Restored);
    assert_eq!(outcome_a, RestoreOutcome::Restored);
    assert_eq!(slot.current(), Some("M0".to_string()));
}

#[test]
fn tickets_asked_for_in_any_order_unwind_from_the_last() {
    let orders: [[usize; 3]; 6] = [
        [0, 1, 2],
        [0, 2, 1],
        [1, 0, 2],
        [1, 2, 0],
        [2, 0, 1],
        [2, 1, 0],
    ];
    for order in orders {
        let mut slot = VersionedModelSlot::new();
        explicit_switch(&mut slot, "M0");
        let mut tickets: Vec<Option<RestoreTicket>> = ["X", "Y", "Z"]
            .iter()
            .map(|model| Some(begin_temporary(&mut slot, model)))
            .collect();
        let mut closed = Vec::new();
        for _round in 0..3 {
            for i in order {
                let step = match &tickets[i] {
                    Some(ticket) => slot.restore_ticket(ticket),
                    None => continue,
                };
                match step {
                    RestoreStep::Wait => {}
                    RestoreStep::Apply(target) => {
                        slot.set(MutationKind::Temporary, target);
                        let ticket = tickets[i].take().unwrap();
                        assert_eq!(
                            slot.finish_restore(ticket, Ok(())),
                            RestoreOutcome::Restored
                        );
                        closed.push(i);
                    }
                    RestoreStep::Finished(outcome) => {
                        assert_eq!(outcome, RestoreOutcome::Restored);
                        tickets[i] = None;
                        closed.push(i);
                    }
                }
            }
        }
        assert_eq!(closed, vec![2, 1, 0]);
        assert_eq!(slot.current(), Some("M0".to_string()));
    }
}

#[test]
fn a_waiting_restore_is_superseded_if_an_explicit_selection_lands_while_it_waits() {
    let mut slot = VersionedModelSlot::new();
    explicit_switch(&mut slot, "M0");
    let ticket_a = begin_temporary(&mut slot, "X");
    let ticket_b = begin_temporary(&mut slot, "Y");

    assert_eq!(slot.restore_ticket(&ticket_a), RestoreStep::Wait);
    explicit_switch(&mut slot, "C");

    let outcome_b = restore(&mut slot, ticket_b);
    let outcome_a = restore(&mut slot, ticket_a);

    assert_eq!(outcome_b, RestoreOutcome::Superseded);
    assert_eq!(outcome_a, RestoreOutcome::Superseded);
    assert_eq!(slot.current(), Some("C".to_string()));
}

#[test]
fn restore_is_a_no_op_when_nothing_changed() {
    let mut slot = VersionedModelSlot::new();
    explicit_switch(&mut slot, "M0");
    let ticket = begin_temporary(&mut slot, "M0");
    assert_eq!(
        slot.restore_ticket(&ticket),
        RestoreStep::Finished(RestoreOutcome::Restored)
    );
}

#[test]
fn restore_failure_is_reported_not_silently_dropped() {
    let mut slot = VersionedModelSlot::new();
    explicit_switch(&mut slot, "M0");
    let ticket = begin_temporary(&mut slot, "X");
    assert_eq!(
        slot.restore_ticket(&ticket),
        RestoreStep::Apply(Some("M0".to_string()))
    );
    let outcome = slot.finish_restore(ticket, Err("load failed".to_string()));
    assert_eq!(outcome, RestoreOutcome::Failed("load failed".to_string()));
    assert_eq!(slot.current(), Some("X".to_string()));
}

#[test]
fn abandoning_a_ticket_lets_the_one_beneath_it_proceed() {
    let mut slot = VersionedModelSlot::new();
    explicit_switch(&mut slot, "M0");
    let ticket_a = begin_temporary(&mut slot, "X");
    let ticket_b = {
        let baseline = slot.current();
        slot.open_ticket(baseline)
    };
    slot.abandon_ticket(&ticket_b);

    let outcome = restore(&mut slot, ticket_a);
    assert_eq!(outcome, RestoreOutcome::Restored);
    assert_eq!(slot.current(), Some("M0".to_string()));
}

fn fake_cloud(id: &str, model: &str, languages: Vec<String>, batch: bool) -> ProviderDescriptor {
    ProviderDescriptor {
        id: id.into(),
        label: id.into(),
        kind: ProviderKind::Cloud,
        models: vec![TranscriptionModelDescriptor {
            id: model.into(),
            label: model.into(),
        }],
        capabilities: ProviderCapabilities {
            batch,
            realtime: false,
            supported_languages: languages,
            supports_word_timestamps: false,
            sends_audio_off_device: true,
        },
        requires_credential: true,
        privacy_url: None,
        pricing_url: None,
        cost_text: None,
        retention_text: None,
        consent_version: 1,
        beta: false,
    }
}

fn registry_with_elevenlabs() -> TranscriptionRegistry {
    let mut registry = TranscriptionRegistry::new();
    registry.register(fake_cloud(
        "elevenlabs",
        "scribe_v2",
        vec!["fr".into(), "en".into()],
        true,
    ));
    registry
}

#[test]
fn resolves_a_known_target() {
    let registry = registry_with_elevenlabs();
    let target = TranscriptionTargetId::new("elevenlabs", "scribe_v2");
    let provider = registry.resolve(&target).unwrap();
    assert_eq!(provider.id, "elevenlabs");
}

#[test]
fn unknown_provider_is_an_error_not_a_fallback() {
    let registry = registry_with_elevenlabs();
    let target = TranscriptionTargetId::new("does-not-exist", "scribe_v2");
    let err = registry.resolve(&target).unwrap_err();
    assert_eq!(err.category(), "invalid_configuration");
}

#[test]
fn unknown_model_is_rejected() {
    let registry = registry_with_elevenlabs();
    let target = TranscriptionTargetId::new("elevenlabs", "scribe_v99");
    let err = registry.resolve(&target).unwrap_err();
    assert_eq!(err.category(), "invalid_configuration");
}

#[test]
fn batch_unsupported_capability_is_rejected() {
    let mut registry = TranscriptionRegistry::new();
    registry.register(fake_cloud("stream-only", "m", vec![], false));
    let target = TranscriptionTargetId::new("stream-only", "m");
    let err = registry.resolve_for_batch(&target, None).unwrap_err();
    assert_eq!(err.category(), "invalid_configuration");
}

#[test]
fn unsupported_language_is_rejected() {
    let registry = registry_with_elevenlabs();
    let target = TranscriptionTargetId::new("elevenlabs", "scribe_v2");
    let err = registry.resolve_for_batch(&target, Some("zz")).unwrap_err();
    assert_eq!(err.category(), "unsupported_language");
}

#[test]
fn supported_language_and_auto_are_accepted() {
    let registry = registry_with_elevenlabs();
    let target = TranscriptionTargetId::new("elevenlabs", "scribe_v2");
    assert!(registry.resolve_for_batch(&target, Some("fr")).is_ok());
    assert!(registry.resolve_for_batch(&target, Some("auto")).is_ok());
    assert!(registry.resolve_for_batch(&target, None).is_ok());
}

#[test]
fn empty_registry_resolves_nothing() {
    let registry = TranscriptionRegistry::new();
    let target = TranscriptionTargetId::new("elevenlabs", "scribe_v2");
    assert!(registry.resolve(&target).is_err());
    assert!(registry.descriptors().is_empty());
}

#[test]
fn every_registered_provider_is_listed_once() {
    let mut registry = TranscriptionRegistry::new();
    registry.register(fake_cloud("a", "model", vec![], true));
    registry.register(fake_cloud("b", "model", vec![], true));
    registry.register(fake_cloud("a", "other", vec![], true));
    let listed: Vec<(String, String)> = registry
        .descriptors()
        .into_iter()
        .map(|descriptor| (descriptor.id, descriptor.models[0].id.clone()))
        .collect();
    assert_eq!(
        listed,
        vec![
            ("a".to_string(), "other".to_string()),
            ("b".to_string(), "model".to_string())
        ]
    );
}

fn setup(with_secret: bool) -> TranscriptionService<MemorySecretStore> {
    let mut registry = TranscriptionRegistry::new();
    let mut cloud = fake_cloud("cloud", "model", vec![], true);
    cloud.consent_version = 2;
    registry.register(cloud);
    let mut secrets = MemorySecretStore::new();
    if with_secret {
        secrets.set_secret("cloud", "credential").unwrap();
    }
    TranscriptionService::new(registry, secrets)
}

#[test]
fn invokes_exact_provider_once_when_consent_and_credential_are_valid() {
    let service = setup(true);
    let call = service
        .transcribe_batch(&TranscriptionTargetId::new("cloud", "model"), 2, Some("fr"))
        .unwrap();
    assert_eq!(call.provider_id, "cloud");
    assert_eq!(call.model_id, "model");
    assert_eq!(call.credential, "credential");
    assert_eq!(service.test_connection("cloud"), Ok("credential".to_string()));
}

#[test]
fn stale_consent_fails_before_provider_call() {
    let service = setup(true);
    let error = service
        .transcribe_batch(&TranscriptionTargetId::new("cloud", "model"), 1, Some("fr"))
        .err()
        .expect("stale consent must fail");
    assert_eq!(error, TranscriptionError::ConsentRequired);
}

#[test]
fn missing_credential_fails_without_fallback_or_provider_call() {
    let service = setup(false);
    let error = service
        .transcribe_batch(&TranscriptionTargetId::new("cloud", "model"), 2, Some("fr"))
        .err()
        .expect("missing credential must fail");
    assert_eq!(error, TranscriptionError::MissingCredential);
}

#[test]
fn whitespace_credential_fails_without_provider_call() {
    let mut service = setup(false);
    service.secrets.seed_raw("cloud", "   \t  ");
    let error = service
        .transcribe_batch(&TranscriptionTargetId::new("cloud", "model"), 2, Some("fr"))
        .err()
        .expect("whitespace credential must fail");
    assert_eq!(error, TranscriptionError::MissingCredential);
}

#[test]
fn a_credential_lookup_says_what_is_wrong() {
    assert_eq!(credential_of(Ok("key".into())), Ok("key".to_string()));
    assert_eq!(
        credential_of(Err(SecretStoreError::NotFound)),
        Err(TranscriptionError::MissingCredential)
    );
}

#[test]
fn category_is_stable_for_every_variant() {
    assert_eq!(
        TranscriptionError::MissingCredential.category(),
        "missing_credential"
    );
    assert_eq!(
        TranscriptionError::Authentication.category(),
        "authentication"
    );
    assert_eq!(TranscriptionError::RateLimited.category(), "rate_limited");
    assert_eq!(TranscriptionError::Timeout.category(), "timeout");
    assert_eq!(
        TranscriptionError::ProviderUnavailable.category(),
        "provider_unavailable"
    );
}

#[test]
fn display_never_leaks_a_response_body_or_secret() {
    let err = TranscriptionError::Authentication;
    assert_eq!(err.message(), "authentication");
    let err = TranscriptionError::UnsupportedLanguage("xx".into());
    assert_eq!(err.message(), "unsupported language: xx");
}

fn whisper() -> ModelInfo {
    ModelInfo {
        id: "small".into(),
        name: "Small".into(),
        engine_type: EngineType::Whisper,
        is_downloaded: true,
        is_downloading: false,
    }
}

fn loaded(now_ms: u64) -> LocalProviderState {
    let mut state = LocalProviderState::new(now_ms);
    let report = state.finish_load(
        "small",
        &whisper(),
        MutationKind::Explicit,
        LoadAttempt::Loaded,
    );
    assert_eq!(report.result, Ok(()));
    assert_eq!(
        report.event.map(|event| event.event_type),
        Some("loading_completed".to_string())
    );
    state
}

#[test]
fn a_load_needs_a_downloaded_model() {
    assert!(plan_load("small", &None).is_err());
    let mut info = whisper();
    info.is_downloaded = false;
    let failure = plan_load("small", &Some(info)).unwrap_err();
    assert_eq!(
        failure.event.map(|event| event.event_type),
        Some("loading_failed".to_string())
    );
    assert!(matches!(
        plan_load("small", &Some(whisper())),
        Ok(EngineType::Whisper)
    ));
    assert!(needs_model_path(EngineType::Whisper));
    assert!(!needs_model_path(EngineType::InsanelyFastWhisper));
    assert_eq!(loading_started("small").event_type, "loading_started");
}

#[test]
fn a_failed_load_leaves_the_slot_alone() {
    let mut state = loaded(0);
    let mut other = whisper();
    other.id = "large".into();
    let report = state.finish_load(
        "large",
        &other,
        MutationKind::Explicit,
        LoadAttempt::EngineFailed("bad file".into()),
    );
    assert!(report.result.unwrap_err().contains("bad file"));
    assert_eq!(state.get_current_model(), Some("small".to_string()));
    assert!(state.is_current("small"));
}

#[test]
fn a_run_puts_the_engine_back_and_a_panic_does_not() {
    let mut settings = get_default_settings();
    settings.selected_language = "fr".into();
    settings.translate_to_english = true;
    let mut state = loaded(0);
    match state.begin_transcription(false, &settings, 6, 5) {
        TranscribeStep::Infer {
            engine: EngineType::Whisper,
            call: EngineCall::Whisper {
                language,
                translate,
                threads,
            },
        } => {
            assert_eq!(language, Some("fr".to_string()));
            assert!(translate);
            assert_eq!(threads, 6);
        }
        step => panic!("unexpected step: {step:?}"),
    }
    assert!(!state.is_model_loaded());
    let report = state.finish_inference(
        EngineType::Whisper,
        InferenceOutcome::Text("hello".into()),
    );
    assert_eq!(report.result, Ok("hello".to_string()));
    assert!(state.is_model_loaded());

    let _ = state.begin_transcription(false, &settings, 6, 6);
    let report = state.finish_inference(
        EngineType::Whisper,
        InferenceOutcome::Panicked(Some("boom".into())),
    );
    assert!(report.result.unwrap_err().contains("boom"));
    assert!(report.event.is_some());
    assert!(!state.is_model_loaded());
    assert_eq!(state.get_current_model(), None);
}

#[test]
fn sense_voice_knows_its_languages() {
    let mut info = whisper();
    info.engine_type = EngineType::SenseVoice;
    let languages = [
        ("zh-Hans", SenseVoiceLanguage::Chinese),
        ("en", SenseVoiceLanguage::English),
        ("ja", SenseVoiceLanguage::Japanese),
        ("ko", SenseVoiceLanguage::Korean),
        ("yue", SenseVoiceLanguage::Cantonese),
        ("fr", SenseVoiceLanguage::Auto),
    ];
    for (code, expected) in languages {
        let mut state = LocalProviderState::new(0);
        state.finish_load(
            "sense",
            &info,
            MutationKind::Explicit,
            LoadAttempt::Loaded,
        );
        let mut settings = get_default_settings();
        settings.selected_language = code.into();
        match state.begin_transcription(false, &settings, 6, 1) {
            TranscribeStep::Infer {
                call: EngineCall::SenseVoice(language),
                ..
            } => assert_eq!(language, expected),
            step => panic!("unexpected step: {step:?}"),
        }
    }
}

#[test]
fn no_audio_is_no_text_and_no_model_is_an_error() {
    let settings = get_default_settings();
    let mut state = LocalProviderState::new(0);
    match state.begin_transcription(true, &settings, 6, 1) {
        TranscribeStep::Finished(result) => assert_eq!(result, Ok(String::new())),
        step => panic!("unexpected step: {step:?}"),
    }
    match state.begin_transcription(false, &settings, 6, 1) {
        TranscribeStep::Finished(result) => assert!(result.is_err()),
        step => panic!("unexpected step: {step:?}"),
    }
}

#[test]
fn an_idle_model_is_unloaded_after_its_time() {
    let mut state = loaded(1_000);
    let limit = ModelUnloadTimeout::Seconds(5);
    state.last_activity = 1_000;
    assert!(state.idle_tick(limit, 6_000).is_empty());
    assert!(!state.idle_tick(limit, 6_001).is_empty());
    assert_eq!(state.get_current_model(), None);
    let mut state = loaded(0);
    assert!(state.idle_tick(ModelUnloadTimeout::Never, u64::MAX).is_empty());
    assert!(state
        .maybe_unload_immediately(ModelUnloadTimeout::Immediately)
        .is_some());
    assert_eq!(state.get_current_model(), None);
    assert_eq!(ModelUnloadTimeout::Seconds(5).to_seconds(), Some(5));
}

#[test]
fn a_temporary_switch_is_undone_by_its_ticket() {
    let mut state = loaded(0);
    let (ticket, load) = state.begin_temporary_switch("large");
    assert!(load);
    let mut large = whisper();
    large.id = "large".into();
    state.finish_load(
        "large",
        &large,
        MutationKind::Temporary,
        LoadAttempt::Loaded,
    );
    let ticket = temporary_switch_answer(state.finish_temporary_switch(ticket, Ok(()))).unwrap();
    let mut guard = TicketGuard::new(ticket);
    match guard.resolve() {
        ResolveStep::Restore(ticket) => assert_eq!(
            state.restore_ticket(&ticket),
            RestoreStep::Apply(Some("small".to_string()))
        ),
        step => panic!("unexpected step: {step:?}"),
    }
    assert!(matches!(
        guard.resolve(),
        ResolveStep::Done(RestoreOutcome::Restored)
    ));
    assert!(guard.give_up().is_none());
}

#[test]
fn a_guard_that_was_never_resolved_gives_its_ticket_up() {
    let mut slot = VersionedModelSlot::new();
    explicit_switch(&mut slot, "M0");
    let ticket = begin_temporary(&mut slot, "X");
    let mut guard = TicketGuard::new(ticket);
    let left = guard.give_up().expect("the ticket is left");
    assert_eq!(restore(&mut slot, left), RestoreOutcome::Restored);
    assert_eq!(slot.current(), Some("M0".to_string()));
    assert!(guard.give_up().is_none());
}

#[test]
fn a_failed_temporary_switch_is_answered_with_its_category() {
    let mut state = loaded(0);
    let (ticket, _) = state.begin_temporary_switch("large");
    let answer = state.finish_temporary_switch(ticket, Err("bad file".into()));
    let category = answer.as_ref().err().unwrap().category().to_string();
    assert_eq!(temporary_switch_answer(answer).err(), Some(category));
    let (again, load) = state.begin_temporary_switch("small");
    assert!(!load);
    assert!(state.model_slot.is_ticket_top(&again));
}

#[test]
fn a_target_is_loaded_run_and_answered() {
    let mut state = loaded(0);
    assert!(!state.target_needs_load("small"));
    assert!(state.target_needs_load("large"));
    assert!(matches!(
        state.target_loaded("small", Ok(()), ModelUnloadTimeout::Never),
        TargetStep::Transcribe
    ));
    match state.target_transcribed(Ok("hello".into()), ModelUnloadTimeout::Immediately) {
        TargetStep::Done { result, event } => {
            assert_eq!(result, Ok("hello".to_string()));
            assert!(event.is_some());
        }
        TargetStep::Transcribe => panic!("the run is over"),
    }
    assert_eq!(state.get_current_model(), None);
    let result = local_result("small", "hello".into(), 7);
    assert_eq!(result.provider_id, "local");
    assert_eq!(result.model_id, "small");
    assert_eq!(result.latency.total_ms, 7);
}

#[test]
fn a_background_load_is_started_once() {
    let mut state = LocalProviderState::new(0);
    assert!(state.initiate_model_load());
    assert!(!state.initiate_model_load());
    state.finish_background_load();
    assert!(state.initiate_model_load());
    assert!(!loaded(0).initiate_model_load());
}

#[test]
fn the_settings_say_what_is_loaded_and_corrected() {
    let mut settings = get_default_settings();
    assert!(settings.preload_model_on_startup);
    assert_eq!(
        settings.model_unload_timeout,
        ModelUnloadTimeout::Seconds(300)
    );
    assert!(!corrects_words(&settings));
    settings.custom_words = vec!["Parler".into()];
    assert!(corrects_words(&settings));
    settings.preload_model_on_startup = true;
    settings.selected_model = "small".into();
    assert!(preloads_model(&settings));
    settings.preload_model_on_startup = false;
    assert!(!preloads_model(&settings));
    let target = TranscriptionTargetId::new("local", "small");
    assert!(initiates_model_load(Some(&target)));
    assert!(!initiates_model_load(None));
    assert_eq!(local::descriptor(&vec![whisper()]).models[0].label, "Small");
}
