//! The language model clients, the subprocess client and the crash report.

use parler::crash_logging::{extract_panic_payload, panic_report, PanicLocation, PanicPayload};
use parler::gemini_client::{finish_text, prepare_text};
use parler::insanely_fast_whisper_client::{command_arguments, finish_run, RunOutcome};
use parler::json::JsonValue;
use parler::llm_client::{
    build_headers, finish_chat, finish_fetch_models, finish_gemini_chat, prepare_chat,
    prepare_fetch_models, read_gemini_models, read_models, sanitized_status_error,
    status_error_from, ChatChoice, ChatCompletionResponse, ChatPlan, Exchange,
};
use parler::settings::PostProcessProvider;
use parler::transcription::gemini::{
    Candidate, CandidateContent, GenerateContentResponse, ResponsePart,
};

const SENTINEL: &str = "super-secret-transcription-sentinel-should-never-leak";

fn provider(id: &str, base_url: &str) -> PostProcessProvider {
    PostProcessProvider {
        id: id.into(),
        label: "Test".into(),
        base_url: base_url.into(),
        allow_base_url_edit: true,
        models_endpoint: None,
        supports_structured_output: false,
    }
}

fn text(value: &str) -> JsonValue {
    JsonValue::Text(value.to_string())
}

fn object(members: Vec<(&str, JsonValue)>) -> JsonValue {
    JsonValue::Object(
        members
            .into_iter()
            .map(|(name, value)| (name.to_string(), value))
            .collect(),
    )
}

#[test]
fn sanitized_status_error_never_reads_the_body() {
    let message = sanitized_status_error(429, "request failed");

    assert!(!message.contains(SENTINEL), "leaked remote body: {message}");
    assert!(message.contains("429"));
    assert_eq!(message, "request failed (status 429 Too Many Requests)");
}

#[test]
fn sanitized_status_error_does_not_block_on_an_unbounded_body() {
    let message = sanitized_status_error(500, "request failed");
    assert!(message.contains("500"));
    assert_eq!(status_error_from("a", "b"), "a (status b)");
}

#[test]
fn chat_completion_error_never_leaks_the_remote_body() {
    let err = finish_chat(Exchange::Refused(401)).unwrap_err();

    assert!(!err.contains(SENTINEL), "error leaked remote body: {err}");
    assert!(err.contains("401"));
}

#[test]
fn fetch_models_error_never_leaks_the_remote_body() {
    let provider = provider("test-provider", "http://127.0.0.1:1");
    let err = finish_fetch_models(&provider, Exchange::Refused(500)).unwrap_err();

    assert!(!err.contains(SENTINEL), "error leaked remote body: {err}");
    assert_eq!(
        err,
        "Model list request failed (status 500 Internal Server Error)"
    );
}

#[test]
fn keys_go_into_the_header_of_the_provider() {
    let named = |headers: &Vec<parler::llm_client::Header>, name: &str| {
        headers
            .iter()
            .find(|header| header.name == name)
            .map(|header| header.value.clone())
    };
    let openai = build_headers(&provider("openai", "https://x"), "sk-1").unwrap();
    assert_eq!(named(&openai, "authorization"), Some("Bearer sk-1".into()));
    assert_eq!(named(&openai, "x-api-key"), None);
    let anthropic = build_headers(&provider("anthropic", "https://x"), "sk-2").unwrap();
    assert_eq!(named(&anthropic, "x-api-key"), Some("sk-2".into()));
    assert_eq!(
        named(&anthropic, "anthropic-version"),
        Some("2023-06-01".into())
    );
    assert_eq!(named(&anthropic, "authorization"), None);
    let open = build_headers(&provider("openai", "https://x"), "").unwrap();
    assert_eq!(open.len(), 4);
    assert_eq!(
        build_headers(&provider("openai", "https://x"), "a\nb"),
        Err("Invalid authorization header value: failed to parse header value".to_string())
    );
    assert!(build_headers(&provider("anthropic", "https://x"), "a\u{7f}").is_err());
    assert!(build_headers(&provider("anthropic", "https://x"), "a\tb").is_ok());
}

#[test]
fn a_chat_is_planned_for_its_provider() {
    let plan = prepare_chat(
        &provider("openai", "https://x/v1//"),
        "sk-1",
        "gpt",
        "hello".into(),
        Some("be brief".into()),
        Some(7u8),
    )
    .unwrap();
    match plan {
        ChatPlan::Http(request) => {
            assert_eq!(request.url, "https://x/v1/chat/completions");
            assert_eq!(request.body.model, "gpt");
            let roles: Vec<&str> = request
                .body
                .messages
                .iter()
                .map(|message| message.role.as_str())
                .collect();
            assert_eq!(roles, vec!["system", "user"]);
            let format = request.body.response_format.unwrap();
            assert_eq!(format.format_type, "json_schema");
            assert_eq!(format.json_schema.name, "transcription_output");
            assert!(format.json_schema.strict);
            assert_eq!(format.json_schema.schema, 7);
        }
        ChatPlan::Gemini(_) => panic!("not a Gemini provider"),
    }
    let plan: ChatPlan<u8> = prepare_chat(
        &provider("gemini", "https://x"),
        "k",
        "flash",
        "hello".into(),
        None,
        None,
    )
    .unwrap();
    match plan {
        ChatPlan::Gemini(request) => {
            assert_eq!(
                request.url,
                "https://generativelanguage.googleapis.com/v1beta/models/flash:generateContent"
            );
            assert_eq!(request.api_key, "k");
            assert_eq!(request.system_instruction, "");
            assert_eq!(request.user_text, "hello");
        }
        ChatPlan::Http(_) => panic!("a Gemini provider"),
    }
    let refused = prepare_chat::<u8>(
        &provider("gemini", "https://x"),
        "a\nb",
        "flash",
        "hello".into(),
        None,
        None,
    );
    assert_eq!(
        refused.unwrap_err(),
        "Gemini API error: Invalid API key: failed to parse header value"
    );
}

#[test]
fn a_chat_answer_is_its_first_choice() {
    let answer = finish_chat(Exchange::Body(ChatCompletionResponse {
        choices: vec![
            ChatChoice {
                content: Some("one".into()),
            },
            ChatChoice {
                content: Some("two".into()),
            },
        ],
    }));
    assert_eq!(answer, Ok(Some("one".to_string())));
    assert_eq!(
        finish_chat(Exchange::Body(ChatCompletionResponse { choices: vec![] })),
        Ok(None)
    );
    assert_eq!(
        finish_chat(Exchange::NotSent("refused".into())),
        Err("HTTP request failed: refused".to_string())
    );
    assert_eq!(
        finish_chat(Exchange::Unreadable("eof".into())),
        Err("Failed to parse API response: eof".to_string())
    );
    assert_eq!(finish_gemini_chat(Ok(String::new())), Ok(None));
    assert_eq!(finish_gemini_chat(Ok("x".into())), Ok(Some("x".into())));
    assert_eq!(
        finish_gemini_chat(Err("down".into())),
        Err("Gemini API error: down".to_string())
    );
}

#[test]
fn model_lists_are_read_in_every_shape() {
    let request = prepare_fetch_models(&provider("openai", "https://x/v1/"), "k").unwrap();
    assert_eq!(request.url, "https://x/v1/models");
    let list = object(vec![(
        "data",
        JsonValue::Array(vec![
            object(vec![("id", text("a")), ("name", text("ignored"))]),
            object(vec![("id", JsonValue::Other), ("name", text("b"))]),
            JsonValue::Other,
        ]),
    )]);
    assert_eq!(read_models(&list), vec!["a", "b"]);
    let plain = JsonValue::Array(vec![text("c"), JsonValue::Other, text("d")]);
    assert_eq!(read_models(&plain), vec!["c", "d"]);
    assert!(read_models(&JsonValue::Other).is_empty());
    let gemini = object(vec![(
        "models",
        JsonValue::Array(vec![
            object(vec![("name", text("models/gemini-2.5-flash"))]),
            object(vec![("name", text("models/embedding"))]),
            object(vec![("name", text("gemini-raw"))]),
        ]),
    )]);
    assert_eq!(
        read_gemini_models(&gemini),
        vec!["gemini-2.5-flash", "gemini-raw"]
    );
    assert_eq!(
        finish_fetch_models(&provider("gemini", ""), Exchange::Body(gemini)),
        Ok(vec!["gemini-2.5-flash".into(), "gemini-raw".into()])
    );
}

#[test]
fn text_generation_is_sent_to_the_model() {
    let request = prepare_text("k", "flash", "be brief", "hello").unwrap();
    assert_eq!(
        request.url,
        "https://generativelanguage.googleapis.com/v1beta/models/flash:generateContent"
    );
    assert_eq!(request.api_key, "k");
    assert_eq!(request.system_instruction, "be brief");
    assert_eq!(request.user_text, "hello");
    assert_eq!(
        prepare_text("a\nb", "flash", "", "").unwrap_err(),
        "Invalid API key: failed to parse header value"
    );
    let body = GenerateContentResponse {
        candidates: Some(vec![Candidate {
            content: Some(CandidateContent {
                parts: Some(vec![ResponsePart {
                    text: Some("  done\n".into()),
                }]),
            }),
        }]),
    };
    assert_eq!(finish_text(Exchange::Body(body)), Ok("done".to_string()));
    assert_eq!(
        finish_text(Exchange::Refused(404)),
        Err("Gemini API error (404 Not Found)".to_string())
    );
    assert_eq!(
        finish_text(Exchange::Unreadable("eof".into())),
        Err("Failed to parse Gemini response: eof".to_string())
    );
}

#[test]
fn the_subprocess_gets_its_arguments() {
    let arguments = |language: &str| command_arguments("a.wav", "large", "a.json", language);
    assert_eq!(
        arguments("auto"),
        vec![
            "--file-name",
            "a.wav",
            "--model-name",
            "large",
            "--transcript-path",
            "a.json"
        ]
    );
    assert_eq!(arguments("zh-Hans")[6..], ["--language", "zh"]);
    assert_eq!(arguments("zh-Hant")[6..], ["--language", "zh"]);
    assert_eq!(arguments("fr")[6..], ["--language", "fr"]);
}

#[test]
fn the_subprocess_is_read_out() {
    assert_eq!(
        finish_run(RunOutcome::Transcript(Some(" hi ".into()))),
        Ok("hi".to_string())
    );
    assert_eq!(finish_run(RunOutcome::Transcript(None)), Ok(String::new()));
    assert_eq!(
        finish_run(RunOutcome::Failed("  no gpu\n".into())),
        Err("insanely-fast-whisper failed: no gpu".to_string())
    );
    assert!(finish_run(RunOutcome::NotStarted("not found".into()))
        .unwrap_err()
        .contains("pip install insanely-fast-whisper"));
    assert_eq!(
        finish_run(RunOutcome::OutputMissing("gone".into())),
        Err("Failed to read insanely-fast-whisper output: gone".to_string())
    );
    assert_eq!(
        finish_run(RunOutcome::OutputUnreadable("eof".into(), "{".into())),
        Err("Failed to parse insanely-fast-whisper output: eof. Raw: {".to_string())
    );
}

#[test]
fn a_panic_is_reported_in_full() {
    assert_eq!(
        extract_panic_payload(PanicPayload::Other),
        "non-string panic payload"
    );
    let report = panic_report(
        "2024-01-02T03:04:05+00:00",
        None,
        Some(PanicLocation {
            file: "src/a.rs".into(),
            line: 120,
        }),
        PanicPayload::Text("boom".into()),
        "0: main",
    );
    assert_eq!(
        report,
        "[2024-01-02T03:04:05+00:00] panic on thread 'unnamed' at src/a.rs:120\n\
         message: boom\nbacktrace:\n0: main\n\n"
    );
    let bare = panic_report("t", Some("worker".into()), None, PanicPayload::Other, "");
    assert!(bare.contains("thread 'worker' at unknown"));
}
