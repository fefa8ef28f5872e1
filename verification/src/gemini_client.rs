//! The Gemini text client of post-processing: which request is sent, and what
//! its answer means.

use vstd::prelude::*;

use crate::llm_client::{header_value_error, status_text, Exchange};
use crate::transcription::gemini::{response_text, GenerateContentResponse};

verus! {

/// A text generation request, ready to be sent: one user message and a system
/// instruction.
#[derive(Debug)]
pub struct TextRequest {
    pub url: String,
    /// The value of the `x-goog-api-key` header.
    pub api_key: String,
    pub system_instruction: String,
    pub user_text: String,
}

/// Where texts are generated with `model`.
pub open spec fn text_url(model: Seq<char>) -> Seq<char> {
    "https://generativelanguage.googleapis.com/v1beta/models"@ + "/"@ + model
        + ":generateContent"@
}

/// The request asks for a text, with this key and from these texts.
pub open spec fn asks_for_text(
    sent: TextRequest,
    api_key: Seq<char>,
    model: Seq<char>,
    system_prompt: Seq<char>,
    user_text: Seq<char>,
) -> bool {
    &&& sent.url@ == text_url(model)
    &&& sent.api_key@ == api_key
    &&& sent.system_instruction@ == system_prompt
    &&& sent.user_text@ == user_text
}

/// The error of a key that cannot be sent.
pub open spec fn key_error_text() -> Seq<char> {
    "Invalid API key: "@ + "failed to parse header value"@
}

/// The request of a text generation.
pub fn prepare_text(api_key: &str, model: &str, system_prompt: &str, user_text: &str) -> (r: Result<
    TextRequest,
    String,
>)
    ensures
        r is Ok == crate::llm_client::is_header_text(api_key@),
        r matches Err(error) ==> error@ == key_error_text(),
        r matches Ok(sent) ==> asks_for_text(sent, api_key@, model@, system_prompt@, user_text@),
        r matches Err(error) ==> error@ == "Invalid API key: "@ + "failed to parse header value"@,
        r matches Ok(sent) ==> {
            &&& sent.url@ == "https://generativelanguage.googleapis.com/v1beta/models"@ + "/"@
                + model@ + ":generateContent"@
            &&& sent.api_key@ == api_key@
            &&& sent.system_instruction@ == system_prompt@
            &&& sent.user_text@ == user_text@
        },
{
    match header_value_error(api_key) {
        Some(error) => {
            let mut text: String = "Invalid API key: ".to_owned();
            text.append(error.as_str());
            return Err(text);
        },
        None => {},
    }
    let mut url: String = "https://generativelanguage.googleapis.com/v1beta/models".to_owned();
    url.append("/");
    url.append(model);
    url.append(":generateContent");
    Ok(
        TextRequest {
            url,
            api_key: api_key.to_owned(),
            system_instruction: system_prompt.to_owned(),
            user_text: user_text.to_owned(),
        },
    )
}

/// The result of a text generation: the trimmed text of the first candidate.
pub fn finish_text(exchange: Exchange<GenerateContentResponse>) -> (r: Result<String, String>)
    requires
        crate::llm_client::has_valid_status(exchange),
    ensures
        match exchange {
            Exchange::NotSent(e) => r is Err && r->Err_0@
                == "Gemini text generation request failed: "@ + e@,
            Exchange::Refused(status) => r is Err && r->Err_0@ == "Gemini API error ("@
                + crate::llm_client::status_line(status) + ")"@,
            Exchange::Unreadable(e) => r is Err && r->Err_0@
                == "Failed to parse Gemini response: "@ + e@,
            Exchange::Body(body) => r is Ok && r->Ok_0@ == crate::text::trimmed(
                crate::transcription::gemini::first_text(body),
            ),
        },
{
    match exchange {
        Exchange::NotSent(e) => {
            let mut text: String = "Gemini text generation request failed: ".to_owned();
            text.append(e.as_str());
            Err(text)
        },
        Exchange::Refused(status) => {
            let mut text: String = "Gemini API error (".to_owned();
            text.append(status_text(status).as_str());
            text.append(")");
            Err(text)
        },
        Exchange::Unreadable(e) => {
            let mut text: String = "Failed to parse Gemini response: ".to_owned();
            text.append(e.as_str());
            Err(text)
        },
        Exchange::Body(body) => Ok(response_text(&body)),
    }
}

/// A request carries each text in its own place: the prompt as the system
/// instruction, the text as the user's, the key as the key, and the model in
/// the URL alone.
pub proof fn a_text_request_carries_what_it_was_given(
    sent: TextRequest,
    api_key: Seq<char>,
    model: Seq<char>,
    system_prompt: Seq<char>,
    user_text: Seq<char>,
)
    requires
        asks_for_text(sent, api_key, model, system_prompt, user_text),
    ensures
        sent.system_instruction@ == system_prompt,
        sent.user_text@ == user_text,
        sent.api_key@ == api_key,
        sent.url@ == "https://generativelanguage.googleapis.com/v1beta/models"@ + "/"@ + model
            + ":generateContent"@,
{
}

} // verus!
