//! The client of OpenAI-compatible post-processing providers: which requests
//! are sent, and what their answers mean.
//!
//! The body of an error answer is never read: it may echo what was sent.

use vstd::prelude::*;

use crate::gemini_client::{prepare_text, TextRequest};
use crate::json::JsonValue;
use crate::settings::PostProcessProvider;
use crate::text::{after_prefix, has_text, same_text, trim_trailing};

verus! {

/// A header of a request.
#[derive(Debug, PartialEq, Eq)]
pub struct Header {
    pub name: String,
    pub value: String,
}

/// The two texts of a [`Header`].
pub struct HeaderView {
    pub name: Seq<char>,
    pub value: Seq<char>,
}

impl View for Header {
    type V = HeaderView;

    open spec fn view(&self) -> HeaderView {
        HeaderView { name: self.name@, value: self.value@ }
    }
}

/// The texts of each header of a list.
pub open spec fn headers_view(list: Seq<Header>) -> Seq<HeaderView> {
    list.map_values(|h: Header| h@)
}

/// A character that a header value may hold: everything but the ASCII control
/// characters, and the tab.
pub open spec fn is_header_char(c: char) -> bool {
    (c as u32 >= 32 && c as u32 != 127) || c == '\t'
}

/// The text can be sent as a header value.
pub open spec fn is_header_text(value: Seq<char>) -> bool {
    forall|i: int| 0 <= i < value.len() ==> is_header_char(#[trigger] value[i])
}

/// Whether a text can be sent as a header value: nothing, or the error.
///
/// Calls `reqwest::header::HeaderValue::from_str` and gives the text of its
/// error. Trusted: it refuses exactly the texts with an ASCII control character
/// other than the tab, always with the same error text.
#[verifier::external_body]
pub(crate) fn header_value_error(value: &str) -> (r: Option<String>)
    ensures
        r is None == is_header_text(value@),
        r matches Some(error) ==> error@ == "failed to parse header value"@,
{
    reqwest::header::HeaderValue::from_str(value).err().map(|error| error.to_string())
}

/// What a status code and its standard reason read as.
pub uninterp spec fn status_line(status: u16) -> Seq<char>;

/// A status code with its standard reason.
///
/// Calls `reqwest::StatusCode::from_u16` and its `to_string`. Trusted: the text
/// depends on the code alone and starts with the code in decimal and a space.
/// Which reason follows is not stated.
#[verifier::external_body]
pub(crate) fn status_text(status: u16) -> (r: String)
    requires
        100 <= status < 1000,
    ensures
        r@ == status_line(status),
        crate::text::starts_with(r@, crate::text::decimal(status as nat) + " "@),
{
    reqwest::StatusCode::from_u16(status).map(|code| code.to_string()).unwrap_or_default()
}

/// The headers of every request.
pub open spec fn common_headers() -> Seq<HeaderView> {
    seq![
        HeaderView { name: "content-type"@, value: "application/json"@ },
        HeaderView { name: "referer"@, value: "https://github.com/cjpais/Handy"@ },
        HeaderView {
            name: "user-agent"@,
            value: "Handy/1.0 (+https://github.com/cjpais/Handy)"@,
        },
        HeaderView { name: "x-title"@, value: "Handy"@ },
    ]
}

/// The headers that carry the key, in the way that the provider expects it; none
/// without a key.
pub open spec fn auth_headers(provider_id: Seq<char>, api_key: Seq<char>) -> Seq<HeaderView> {
    if api_key.len() == 0 {
        Seq::empty()
    } else if provider_id == "anthropic"@ {
        seq![
            HeaderView { name: "x-api-key"@, value: api_key },
            HeaderView { name: "anthropic-version"@, value: "2023-06-01"@ },
        ]
    } else {
        seq![HeaderView { name: "authorization"@, value: "Bearer "@ + api_key }]
    }
}

/// The error of a key that cannot be sent.
pub open spec fn header_error_text(provider_id: Seq<char>) -> Seq<char> {
    if provider_id == "anthropic"@ {
        "Invalid API key header value: "@ + "failed to parse header value"@
    } else {
        "Invalid authorization header value: "@ + "failed to parse header value"@
    }
}

fn push_header(headers: &mut Vec<Header>, name: &str, value: &str)
    ensures
        headers_view(final(headers)@) == headers_view(old(headers)@).push(
            HeaderView { name: name@, value: value@ },
        ),
        final(headers)@.len() == old(headers)@.len() + 1,
        final(headers)@.drop_last() == old(headers)@,
        final(headers)@.last().name@ == name@,
        final(headers)@.last().value@ == value@,
{
    headers.push(Header { name: name.to_owned(), value: value.to_owned() });
    proof {
        assert(headers_view(headers@) =~= headers_view(old(headers)@).push(
            HeaderView { name: name@, value: value@ },
        ));
    }
}

proof fn lemma_bearer(api_key: Seq<char>)
    ensures
        is_header_text("Bearer "@ + api_key) == is_header_text(api_key),
{
    reveal_strlit("Bearer ");
    let whole = "Bearer "@ + api_key;
    if is_header_text(api_key) {
        assert forall|i: int| 0 <= i < whole.len() implies is_header_char(#[trigger] whole[i]) by {
            if i >= 7 {
                assert(whole[i] == api_key[i - 7]);
            }
        }
    }
    if is_header_text(whole) {
        assert forall|i: int| 0 <= i < api_key.len() implies is_header_char(
            #[trigger] api_key[i],
        ) by {
            assert(whole[i + 7] == api_key[i]);
        }
    }
}

/// The headers of a request to a provider.
pub fn build_headers(provider: &PostProcessProvider, api_key: &str) -> (r: Result<
    Vec<Header>,
    String,
>)
    ensures
        r is Ok == is_header_text(api_key@),
        r matches Ok(headers) ==> headers_view(headers@) == common_headers() + auth_headers(
            provider.id@,
            api_key@,
        ),
        r matches Err(error) ==> error@ == header_error_text(provider.id@),
        r matches Err(error) ==> error@ == (if provider.id@ == "anthropic"@ {
            "Invalid API key header value: "@
        } else {
            "Invalid authorization header value: "@
        }) + "failed to parse header value"@,
        r matches Ok(headers) ==> {
            &&& headers@.len() >= 4
            &&& headers@[0].name@ == "content-type"@
            &&& headers@[0].value@ == "application/json"@
            &&& headers@[1].name@ == "referer"@
            &&& headers@[1].value@ == "https://github.com/cjpais/Handy"@
            &&& headers@[2].name@ == "user-agent"@
            &&& headers@[2].value@ == "Handy/1.0 (+https://github.com/cjpais/Handy)"@
            &&& headers@[3].name@ == "x-title"@
            &&& headers@[3].value@ == "Handy"@
            &&& api_key@.len() == 0 ==> headers@.len() == 4
            &&& api_key@.len() > 0 && provider.id@ == "anthropic"@ ==> {
                &&& headers@.len() == 6
                &&& headers@[4].name@ == "x-api-key"@
                &&& headers@[4].value@ == api_key@
                &&& headers@[5].name@ == "anthropic-version"@
                &&& headers@[5].value@ == "2023-06-01"@
            }
            &&& api_key@.len() > 0 && provider.id@ != "anthropic"@ ==> {
                &&& headers@.len() == 5
                &&& headers@[4].name@ == "authorization"@
                &&& headers@[4].value@ == "Bearer "@ + api_key@
            }
        },
{
    let mut headers: Vec<Header> = Vec::new();
    proof {
        assert(headers_view(headers@) =~= Seq::<HeaderView>::empty());
    }
    push_header(&mut headers, "content-type", "application/json");
    push_header(&mut headers, "referer", "https://github.com/cjpais/Handy");
    push_header(&mut headers, "user-agent", "Handy/1.0 (+https://github.com/cjpais/Handy)");
    push_header(&mut headers, "x-title", "Handy");
    proof {
        assert(headers_view(headers@) =~= common_headers());
        assert(common_headers() + Seq::<HeaderView>::empty() =~= common_headers());
        lemma_bearer(api_key@);
    }
    if api_key.unicode_len() == 0 {
        return Ok(headers);
    }
    if same_text(provider.id.as_str(), "anthropic") {
        match header_value_error(api_key) {
            Some(error) => {
                let mut text: String = "Invalid API key header value: ".to_owned();
                text.append(error.as_str());
                return Err(text);
            },
            None => {},
        }
        push_header(&mut headers, "x-api-key", api_key);
        push_header(&mut headers, "anthropic-version", "2023-06-01");
    } else {
        let mut value: String = "Bearer ".to_owned();
        value.append(api_key);
        match header_value_error(value.as_str()) {
            Some(error) => {
                let mut text: String = "Invalid authorization header value: ".to_owned();
                text.append(error.as_str());
                return Err(text);
            },
            None => {},
        }
        push_header(&mut headers, "authorization", value.as_str());
    }
    proof {
        assert(headers_view(headers@) =~= common_headers() + auth_headers(provider.id@, api_key@));
    }
    Ok(headers)
}

/// The error of a non-success status: the status alone, nothing of the body.
pub open spec fn status_error_text(prefix: Seq<char>, status: u16) -> Seq<char> {
    prefix + " (status "@ + status_line(status) + ")"@
}

/// The error of a non-success status, given what the status reads as.
pub fn status_error_from(prefix: &str, line: &str) -> (r: String)
    ensures
        r@ == prefix@ + " (status "@ + line@ + ")"@,
{
    let mut text: String = prefix.to_owned();
    text.append(" (status ");
    text.append(line);
    text.append(")");
    text
}

/// The error of a non-success status.
pub fn sanitized_status_error(status: u16, prefix: &str) -> (r: String)
    requires
        100 <= status < 1000,
    ensures
        r@ == status_error_text(prefix@, status),
        r@ == prefix@ + " (status "@ + status_line(status) + ")"@,
{
    status_error_from(prefix, status_text(status).as_str())
}

/// One message of a conversation.
#[derive(Debug)]
pub struct ChatMessage {
    pub role: String,
    pub content: String,
}

/// The two texts of a [`ChatMessage`].
pub struct MessageView {
    pub role: Seq<char>,
    pub content: Seq<char>,
}

impl View for ChatMessage {
    type V = MessageView;

    open spec fn view(&self) -> MessageView {
        MessageView { role: self.role@, content: self.content@ }
    }
}

/// The schema of a structured output.
#[derive(Debug)]
pub struct JsonSchema<T> {
    pub name: String,
    pub strict: bool,
    pub schema: T,
}

/// The form that the answer must have.
#[derive(Debug)]
pub struct ResponseFormat<T> {
    /// Sent as `type`.
    pub format_type: String,
    pub json_schema: JsonSchema<T>,
}

/// The body of a chat request.
#[derive(Debug)]
pub struct ChatCompletionRequest<T> {
    pub model: String,
    pub messages: Vec<ChatMessage>,
    pub response_format: Option<ResponseFormat<T>>,
}

/// A chat request, ready to be sent.
#[derive(Debug)]
pub struct ChatRequest<T> {
    pub url: String,
    pub headers: Vec<Header>,
    pub body: ChatCompletionRequest<T>,
}

/// Where a chat request goes.
#[derive(Debug)]
pub enum ChatPlan<T> {
    /// To Gemini; the text that comes back goes to [`finish_gemini_chat`].
    Gemini(TextRequest),
    /// To an OpenAI-compatible API.
    Http(ChatRequest<T>),
}

/// The conversation of a request: the system prompt, where there is one, then
/// the user's text.
pub open spec fn conversation(system_prompt: Option<Seq<char>>, user: Seq<char>) -> Seq<
    MessageView,
> {
    let question = MessageView { role: "user"@, content: user };
    match system_prompt {
        Some(system) => seq![MessageView { role: "system"@, content: system }, question],
        None => seq![question],
    }
}

/// The format asks for a strict output of the given schema.
pub open spec fn asks_for_schema<T>(format: Option<ResponseFormat<T>>, schema: Option<T>) -> bool {
    match schema {
        None => format is None,
        Some(wanted) => format matches Some(f) && f.format_type@ == "json_schema"@
            && f.json_schema.name@ == "transcription_output"@ && f.json_schema.strict
            && f.json_schema.schema == wanted,
    }
}

/// The URL of `path` under a base URL that may end in slashes.
pub open spec fn endpoint(base_url: Seq<char>, path: Seq<char>) -> Seq<char> {
    crate::text::without_trailing(base_url, '/') + path
}

fn endpoint_url(base_url: &str, path: &str) -> (r: String)
    ensures
        r@ == endpoint(base_url@, path@),
        exists|n: int|
            {
                &&& 0 <= n <= base_url@.len()
                &&& r@ == #[trigger] base_url@.take(n) + path@
                &&& n > 0 ==> base_url@[n - 1] != '/'
                &&& forall|i: int| n <= i < base_url@.len() ==> #[trigger] base_url@[i] == '/'
            },
{
    let base: &str = trim_trailing(base_url, '/');
    let mut url: String = base.to_owned();
    url.append(path);
    proof {
        assert(url@ == base_url@.take(base@.len() as int) + path@);
    }
    url
}

/// Decides where a chat request goes, and builds it.
pub fn prepare_chat<T>(
    provider: &PostProcessProvider,
    api_key: &str,
    model: &str,
    user_content: String,
    system_prompt: Option<String>,
    json_schema: Option<T>,
) -> (r: Result<ChatPlan<T>, String>)
    ensures
        provider.id@ == "gemini"@ ==> {
            &&& r is Ok == is_header_text(api_key@)
            &&& r matches Err(error) ==> error@ == "Gemini API error: "@
                + crate::gemini_client::key_error_text()
            &&& r matches Ok(plan) ==> plan is Gemini && crate::gemini_client::asks_for_text(
                plan->Gemini_0,
                api_key@,
                model@,
                match system_prompt {
                    Some(system) => system@,
                    None => ""@,
                },
                user_content@,
            )
        },
        provider.id@ != "gemini"@ ==> {
            &&& r is Ok == is_header_text(api_key@)
            &&& r matches Err(error) ==> error@ == header_error_text(provider.id@)
            &&& r matches Ok(plan) ==> {
                &&& plan is Http
                &&& plan->Http_0.url@ == endpoint(provider.base_url@, "/chat/completions"@)
                &&& headers_view(plan->Http_0.headers@) == common_headers() + auth_headers(
                    provider.id@,
                    api_key@,
                )
                &&& plan->Http_0.body.model@ == model@
                &&& plan->Http_0.body.messages@.map_values(|m: ChatMessage| m@) == conversation(
                    crate::text::optional_text(system_prompt),
                    user_content@,
                )
                &&& asks_for_schema(plan->Http_0.body.response_format, json_schema)
            }
        },
        r matches Ok(ChatPlan::Gemini(sent)) ==> {
            &&& provider.id@ == "gemini"@
            &&& sent.user_text@ == user_content@
            &&& system_prompt matches Some(system) ==> sent.system_instruction@ == system@
            &&& system_prompt is None ==> sent.system_instruction@ == ""@
            &&& sent.api_key@ == api_key@
        },
        r matches Ok(ChatPlan::Http(sent)) ==> {
            let messages = sent.body.messages@;
            &&& provider.id@ != "gemini"@
            &&& messages.len() > 0
            &&& messages[messages.len() - 1].role@ == "user"@
            &&& messages[messages.len() - 1].content@ == user_content@
            &&& system_prompt is None ==> messages.len() == 1
            &&& system_prompt matches Some(system) ==> {
                &&& messages.len() == 2
                &&& messages[0].role@ == "system"@
                &&& messages[0].content@ == system@
            }
            &&& sent.body.model@ == model@
            &&& json_schema is None <==> sent.body.response_format is None
            &&& sent.body.response_format matches Some(format) ==> {
                &&& format.format_type@ == "json_schema"@
                &&& format.json_schema.name@ == "transcription_output"@
                &&& format.json_schema.strict
                &&& json_schema == Some(format.json_schema.schema)
            }
            &&& exists|n: int|
                {
                    &&& 0 <= n <= provider.base_url@.len()
                    &&& sent.url@ == #[trigger] provider.base_url@.take(n) + "/chat/completions"@
                    &&& n > 0 ==> provider.base_url@[n - 1] != '/'
                    &&& forall|i: int|
                        n <= i < provider.base_url@.len() ==> #[trigger] provider.base_url@[i]
                            == '/'
                }
        },
{
    if same_text(provider.id.as_str(), "gemini") {
        let system_prompt: String = match system_prompt {
            Some(system) => system,
            None => "".to_owned(),
        };
        return match prepare_text(
            api_key,
            model,
            system_prompt.as_str(),
            user_content.as_str(),
        ) {
            Ok(request) => Ok(ChatPlan::Gemini(request)),
            Err(error) => Err(described("Gemini API error: ", error)),
        };
    }
    let url: String = endpoint_url(provider.base_url.as_str(), "/chat/completions");
    let headers: Vec<Header> = match build_headers(provider, api_key) {
        Ok(headers) => headers,
        Err(error) => {
            return Err(error);
        },
    };
    let ghost wanted = conversation(crate::text::optional_text(system_prompt), user_content@);
    let mut messages: Vec<ChatMessage> = Vec::new();
    match system_prompt {
        Some(system) => {
            messages.push(ChatMessage { role: "system".to_owned(), content: system });
        },
        None => {},
    }
    messages.push(ChatMessage { role: "user".to_owned(), content: user_content });
    proof {
        assert(messages@.map_values(|m: ChatMessage| m@) =~= wanted);
    }
    let response_format: Option<ResponseFormat<T>> = match json_schema {
        Some(schema) => Some(
            ResponseFormat {
                format_type: "json_schema".to_owned(),
                json_schema: JsonSchema {
                    name: "transcription_output".to_owned(),
                    strict: true,
                    schema,
                },
            },
        ),
        None => None,
    };
    Ok(
        ChatPlan::Http(
            ChatRequest {
                url,
                headers,
                body: ChatCompletionRequest { model: model.to_owned(), messages, response_format },
            },
        ),
    )
}

/// The answer to a request, as far as it got.
#[derive(Debug)]
pub enum Exchange<T> {
    /// The request could not be sent; the reason.
    NotSent(String),
    /// An answer outside the success range.
    Refused(u16),
    /// A success answer whose body cannot be read; the reason.
    Unreadable(String),
    Body(T),
}

/// The status of a refusal is a status code.
pub open spec fn has_valid_status<T>(exchange: Exchange<T>) -> bool {
    exchange matches Exchange::Refused(status) ==> 100 <= status < 1000
}

/// One choice of an answer.
#[derive(Debug)]
pub struct ChatChoice {
    pub content: Option<String>,
}

/// The body of a chat answer; everything else in it is ignored.
#[derive(Debug)]
pub struct ChatCompletionResponse {
    pub choices: Vec<ChatChoice>,
}

fn described(prefix: &str, detail: String) -> (r: String)
    ensures
        r@ == prefix@ + detail@,
{
    let mut text: String = prefix.to_owned();
    text.append(detail.as_str());
    text
}

/// The result of a chat request: the content of the first choice, or nothing
/// where there is none.
pub fn finish_chat(exchange: Exchange<ChatCompletionResponse>) -> (r: Result<
    Option<String>,
    String,
>)
    requires
        has_valid_status(exchange),
    ensures
        match exchange {
            Exchange::NotSent(e) => r is Err && r->Err_0@ == "HTTP request failed: "@ + e@,
            Exchange::Refused(status) => r is Err && r->Err_0@ == status_error_text(
                "API request failed"@,
                status,
            ),
            Exchange::Unreadable(e) => r is Err && r->Err_0@ == "Failed to parse API response: "@
                + e@,
            Exchange::Body(body) => r == Ok::<Option<String>, String>(
                if body.choices@.len() == 0 {
                    None
                } else {
                    body.choices@[0].content
                },
            ),
        },
{
    match exchange {
        Exchange::NotSent(e) => Err(described("HTTP request failed: ", e)),
        Exchange::Refused(status) => Err(sanitized_status_error(status, "API request failed")),
        Exchange::Unreadable(e) => Err(described("Failed to parse API response: ", e)),
        Exchange::Body(body) => {
            if body.choices.len() == 0 {
                Ok(None)
            } else {
                Ok(crate::text::clone_optional_text(&body.choices[0].content))
            }
        },
    }
}

/// The result of a chat request that went to the Gemini text client: an empty
/// text counts as no content.
pub fn finish_gemini_chat(generated: Result<String, String>) -> (r: Result<Option<String>, String>)
    ensures
        match generated {
            Ok(text) => r == Ok::<Option<String>, String>(
                if text@.len() > 0 {
                    Some(text)
                } else {
                    None
                },
            ),
            Err(error) => r is Err && r->Err_0@ == "Gemini API error: "@ + error@,
        },
{
    match generated {
        Ok(text) => {
            if text.as_str().unicode_len() > 0 {
                Ok(Some(text))
            } else {
                Ok(None)
            }
        },
        Err(error) => Err(described("Gemini API error: ", error)),
    }
}

/// A request for the list of models.
#[derive(Debug)]
pub struct ModelListRequest {
    pub url: String,
    pub headers: Vec<Header>,
}

/// The request for the list of a provider's models. Gemini lists its models at
/// its own API, with the key in the `x-goog-api-key` header.
pub fn prepare_fetch_models(provider: &PostProcessProvider, api_key: &str) -> (r: Result<
    ModelListRequest,
    String,
>)
    ensures
        provider.id@ == "gemini"@ ==> {
            &&& r is Ok
            &&& r->Ok_0.url@ == "https://generativelanguage.googleapis.com/v1beta/models"@
            &&& headers_view(r->Ok_0.headers@) == seq![
                HeaderView { name: "x-goog-api-key"@, value: api_key@ },
            ]
        },
        provider.id@ != "gemini"@ ==> {
            &&& r is Ok == is_header_text(api_key@)
            &&& r matches Err(error) ==> error@ == header_error_text(provider.id@)
            &&& r matches Ok(sent) ==> sent.url@ == endpoint(provider.base_url@, "/models"@)
                && headers_view(sent.headers@) == common_headers() + auth_headers(
                provider.id@,
                api_key@,
            )
        },
{
    if same_text(provider.id.as_str(), "gemini") {
        let mut headers: Vec<Header> = Vec::new();
        proof {
            assert(headers_view(headers@) =~= Seq::<HeaderView>::empty());
        }
        push_header(&mut headers, "x-goog-api-key", api_key);
        proof {
            assert(headers_view(headers@) =~= seq![
                HeaderView { name: "x-goog-api-key"@, value: api_key@ },
            ]);
        }
        return Ok(
            ModelListRequest {
                url: "https://generativelanguage.googleapis.com/v1beta/models".to_owned(),
                headers,
            },
        );
    }
    let url: String = endpoint_url(provider.base_url.as_str(), "/models");
    match build_headers(provider, api_key) {
        Ok(headers) => Ok(ModelListRequest { url, headers }),
        Err(error) => Err(error),
    }
}

/// The model that an entry of the list names: by its id, else by its name.
pub open spec fn entry_model(entry: JsonValue) -> Option<Seq<char>> {
    match crate::json::as_text(crate::json::field(entry, "id"@)) {
        Some(id) => Some(id),
        None => crate::json::as_text(crate::json::field(entry, "name"@)),
    }
}

/// The models that the entries name, in order.
pub open spec fn entry_models(entries: Seq<JsonValue>) -> Seq<Seq<char>>
    decreases entries.len(),
{
    if entries.len() == 0 {
        Seq::empty()
    } else {
        let before = entry_models(entries.drop_last());
        match entry_model(entries.last()) {
            Some(model) => before.push(model),
            None => before,
        }
    }
}

/// The texts among the entries, in order.
pub open spec fn entry_texts(entries: Seq<JsonValue>) -> Seq<Seq<char>>
    decreases entries.len(),
{
    if entries.len() == 0 {
        Seq::empty()
    } else {
        let before = entry_texts(entries.drop_last());
        match crate::json::as_text(Some(entries.last())) {
            Some(model) => before.push(model),
            None => before,
        }
    }
}

/// The models of a list: the entries of the `data` member, or the texts of a
/// plain array.
pub open spec fn listed_models(list: JsonValue) -> Seq<Seq<char>> {
    match crate::json::as_items(crate::json::field(list, "data"@)) {
        Some(entries) => entry_models(entries),
        None => match crate::json::as_items(Some(list)) {
            Some(entries) => entry_texts(entries),
            None => Seq::empty(),
        },
    }
}

/// The model that an entry of Gemini's list names, without the `models/` in
/// front; entries of other families name none.
pub open spec fn gemini_entry_model(entry: JsonValue) -> Option<Seq<char>> {
    match crate::json::as_text(crate::json::field(entry, "name"@)) {
        Some(name) => {
            let model = if crate::text::starts_with(name, "models/"@) {
                name.skip("models/"@.len() as int)
            } else {
                name
            };
            if crate::text::contains_text(model, "gemini"@) {
                Some(model)
            } else {
                None
            }
        },
        None => None,
    }
}

/// The models that the entries of Gemini's list name, in order.
pub open spec fn gemini_entry_models(entries: Seq<JsonValue>) -> Seq<Seq<char>>
    decreases entries.len(),
{
    if entries.len() == 0 {
        Seq::empty()
    } else {
        let before = gemini_entry_models(entries.drop_last());
        match gemini_entry_model(entries.last()) {
            Some(model) => before.push(model),
            None => before,
        }
    }
}

/// The models of Gemini's list.
pub open spec fn gemini_listed_models(list: JsonValue) -> Seq<Seq<char>> {
    match crate::json::as_items(crate::json::field(list, "models"@)) {
        Some(entries) => gemini_entry_models(entries),
        None => Seq::empty(),
    }
}

fn push_text(list: &mut Vec<String>, text: &str)
    ensures
        crate::text::texts(final(list)@) == crate::text::texts(old(list)@).push(text@),
{
    list.push(text.to_owned());
    proof {
        assert(crate::text::texts(list@) =~= crate::text::texts(old(list)@).push(text@));
    }
}

fn member_text<'a>(entry: &'a JsonValue, name: &str) -> (r: Option<&'a str>)
    ensures
        (match r {
            Some(text) => Some(text@),
            None => None,
        }) == crate::json::as_text(crate::json::field(*entry, name@)),
{
    match entry.get(name) {
        Some(value) => value.as_str(),
        None => None,
    }
}

/// The models of a list.
pub fn read_models(list: &JsonValue) -> (r: Vec<String>)
    ensures
        crate::text::texts(r@) == listed_models(*list),
{
    let mut models: Vec<String> = Vec::new();
    proof {
        assert(crate::text::texts(models@) =~= Seq::<Seq<char>>::empty());
    }
    let data: Option<&Vec<JsonValue>> = match list.get("data") {
        Some(value) => value.as_array(),
        None => None,
    };
    match data {
        Some(entries) => {
            let mut i: usize = 0;
            while i < entries.len()
                invariant
                    i <= entries@.len(),
                    crate::text::texts(models@) == entry_models(entries@.take(i as int)),
                decreases entries@.len() - i,
            {
                proof {
                    assert(entries@.take(i + 1).drop_last() == entries@.take(i as int));
                }
                match member_text(&entries[i], "id") {
                    Some(id) => push_text(&mut models, id),
                    None => match member_text(&entries[i], "name") {
                        Some(name) => push_text(&mut models, name),
                        None => {},
                    },
                }
                i += 1;
            }
            proof {
                assert(entries@.take(i as int) == entries@);
            }
        },
        None => match list.as_array() {
            Some(entries) => {
                let mut i: usize = 0;
                while i < entries.len()
                    invariant
                        i <= entries@.len(),
                        crate::text::texts(models@) == entry_texts(entries@.take(i as int)),
                    decreases entries@.len() - i,
                {
                    proof {
                        assert(entries@.take(i + 1).drop_last() == entries@.take(i as int));
                    }
                    match entries[i].as_str() {
                        Some(model) => push_text(&mut models, model),
                        None => {},
                    }
                    i += 1;
                }
                proof {
                    assert(entries@.take(i as int) == entries@);
                }
            },
            None => {},
        },
    }
    models
}

/// The models of Gemini's list.
pub fn read_gemini_models(list: &JsonValue) -> (r: Vec<String>)
    ensures
        crate::text::texts(r@) == gemini_listed_models(*list),
{
    let mut models: Vec<String> = Vec::new();
    proof {
        assert(crate::text::texts(models@) =~= Seq::<Seq<char>>::empty());
    }
    let data: Option<&Vec<JsonValue>> = match list.get("models") {
        Some(value) => value.as_array(),
        None => None,
    };
    match data {
        Some(entries) => {
            let mut i: usize = 0;
            while i < entries.len()
                invariant
                    i <= entries@.len(),
                    crate::text::texts(models@) == gemini_entry_models(entries@.take(i as int)),
                decreases entries@.len() - i,
            {
                proof {
                    assert(entries@.take(i + 1).drop_last() == entries@.take(i as int));
                }
                match member_text(&entries[i], "name") {
                    Some(name) => {
                        let model: &str = match after_prefix(name, "models/") {
                            Some(rest) => rest,
                            None => name,
                        };
                        if has_text(model, "gemini") {
                            push_text(&mut models, model);
                        }
                    },
                    None => {},
                }
                i += 1;
            }
            proof {
                assert(entries@.take(i as int) == entries@);
            }
        },
        None => {},
    }
    models
}

/// The result of a request for the list of a provider's models.
pub fn finish_fetch_models(provider: &PostProcessProvider, exchange: Exchange<JsonValue>) -> (r:
    Result<Vec<String>, String>)
    requires
        has_valid_status(exchange),
    ensures
        r is Ok <==> exchange is Body,
        ({
            let gemini = provider.id@ == "gemini"@;
            match exchange {
                Exchange::NotSent(e) => r is Err && r->Err_0@ == (if gemini {
                    "Failed to fetch Gemini models: "@
                } else {
                    "Failed to fetch models: "@
                }) + e@,
                Exchange::Refused(status) => r is Err && r->Err_0@ == status_error_text(
                    if gemini {
                        "Gemini model list request failed"@
                    } else {
                        "Model list request failed"@
                    },
                    status,
                ),
                Exchange::Unreadable(e) => r is Err && r->Err_0@ == (if gemini {
                    "Failed to parse Gemini response: "@
                } else {
                    "Failed to parse response: "@
                }) + e@,
                Exchange::Body(list) => r is Ok && crate::text::texts(r->Ok_0@) == (if gemini {
                    gemini_listed_models(list)
                } else {
                    listed_models(list)
                }),
            }
        }),
{
    let gemini: bool = same_text(provider.id.as_str(), "gemini");
    match exchange {
        Exchange::NotSent(e) => Err(
            described(
                if gemini {
                    "Failed to fetch Gemini models: "
                } else {
                    "Failed to fetch models: "
                },
                e,
            ),
        ),
        Exchange::Refused(status) => Err(
            sanitized_status_error(
                status,
                if gemini {
                    "Gemini model list request failed"
                } else {
                    "Model list request failed"
                },
            ),
        ),
        Exchange::Unreadable(e) => Err(
            described(
                if gemini {
                    "Failed to parse Gemini response: "
                } else {
                    "Failed to parse response: "
                },
                e,
            ),
        ),
        Exchange::Body(list) => {
            if gemini {
                Ok(read_gemini_models(&list))
            } else {
                Ok(read_models(&list))
            }
        },
    }
}

/// A conversation ends with the user's own text in the role of the user. A
/// system prompt, where there is one, stands before it in the role of the
/// system, and nothing else is said.
pub proof fn a_conversation_ends_with_the_user(
    system_prompt: Option<Seq<char>>,
    user: Seq<char>,
    i: int,
)
    ensures
        conversation(system_prompt, user).last().role == "user"@,
        conversation(system_prompt, user).last().content == user,
        system_prompt is None ==> conversation(system_prompt, user).len() == 1,
        system_prompt matches Some(system) ==> {
            &&& conversation(system_prompt, user).len() == 2
            &&& conversation(system_prompt, user).first().role == "system"@
            &&& conversation(system_prompt, user).first().content == system
        },
        0 <= i < conversation(system_prompt, user).len() ==> (conversation(
            system_prompt,
            user,
        )[i].role == "user"@ <==> i == conversation(system_prompt, user).len() - 1),
{
    reveal_strlit("user");
    reveal_strlit("system");
    assert("user"@.len() == 4 && "system"@.len() == 6);
}

/// A structured output is asked for exactly where a schema is given, with that
/// very schema, strictly.
pub proof fn a_schema_is_asked_for_as_it_is<T>(format: ResponseFormat<T>, schema: T)
    ensures
        asks_for_schema(Some(format), Some(schema)) <==> format.format_type@ == "json_schema"@
            && format.json_schema.name@ == "transcription_output"@ && format.json_schema.strict
            && format.json_schema.schema == schema,
        !asks_for_schema(None, Some(schema)),
        !asks_for_schema(Some(format), None),
        asks_for_schema::<T>(None, None),
{
}

/// Slashes at the end of a base URL make no difference, and exactly one part of
/// the URL, the path, follows what is left of it.
pub proof fn trailing_slashes_make_no_difference(base_url: Seq<char>, path: Seq<char>)
    ensures
        endpoint(base_url.push('/'), path) == endpoint(base_url, path),
        base_url.len() == 0 || base_url.last() != '/' ==> endpoint(base_url, path) == base_url
            + path,
{
    assert(base_url.push('/').drop_last() == base_url);
}

/// The key goes out in exactly one header, the one that the provider reads, and
/// in none where there is no key.
pub proof fn the_key_goes_out_in_one_header(provider_id: Seq<char>, api_key: Seq<char>)
    ensures
        api_key.len() == 0 ==> auth_headers(provider_id, api_key).len() == 0,
        api_key.len() > 0 && provider_id == "anthropic"@ ==> auth_headers(provider_id, api_key)
            == seq![
            HeaderView { name: "x-api-key"@, value: api_key },
            HeaderView { name: "anthropic-version"@, value: "2023-06-01"@ },
        ],
        api_key.len() > 0 && provider_id != "anthropic"@ ==> auth_headers(provider_id, api_key)
            == seq![HeaderView { name: "authorization"@, value: "Bearer "@ + api_key }],
{
}

/// Every request says what it sends and who sends it.
pub proof fn every_request_names_its_sender()
    ensures
        common_headers().len() == 4,
        common_headers()[0] == (HeaderView { name: "content-type"@, value: "application/json"@ }),
        common_headers()[1] == (HeaderView {
            name: "referer"@,
            value: "https://github.com/cjpais/Handy"@,
        }),
        common_headers()[2] == (HeaderView {
            name: "user-agent"@,
            value: "Handy/1.0 (+https://github.com/cjpais/Handy)"@,
        }),
        common_headers()[3] == (HeaderView { name: "x-title"@, value: "Handy"@ }),
{
}

/// A text can be sent as a header value exactly where each of its parts can, and
/// a single character exactly where it is the tab or no control character.
pub proof fn a_header_text_has_no_control_character(a: Seq<char>, b: Seq<char>, c: char)
    ensures
        is_header_text(a + b) <==> is_header_text(a) && is_header_text(b),
        is_header_text(seq![c]) <==> c == '\t' || (c >= ' ' && c != '\u{7F}'),
        is_header_text(Seq::<char>::empty()),
{
    let whole = a + b;
    if is_header_text(whole) {
        assert forall|i: int| 0 <= i < a.len() implies is_header_char(#[trigger] a[i]) by {
            assert(whole[i] == a[i]);
        }
        assert forall|i: int| 0 <= i < b.len() implies is_header_char(#[trigger] b[i]) by {
            assert(whole[a.len() + i] == b[i]);
        }
    }
    if is_header_text(a) && is_header_text(b) {
        assert forall|i: int| 0 <= i < whole.len() implies is_header_char(#[trigger] whole[i]) by {
            if i >= a.len() {
                assert(whole[i] == b[i - a.len()]);
            }
        }
    }
    if is_header_text(seq![c]) {
        assert(is_header_char(seq![c][0]));
    }
}

/// The models of a list are read one by one, in order: those of two runs of
/// entries, one behind the other, are those of the first followed by those of
/// the second.
pub proof fn models_are_read_one_by_one(first: Seq<JsonValue>, second: Seq<JsonValue>)
    ensures
        entry_models(first + second) == entry_models(first) + entry_models(second),
        entry_texts(first + second) == entry_texts(first) + entry_texts(second),
        gemini_entry_models(first + second) == gemini_entry_models(first) + gemini_entry_models(
            second,
        ),
    decreases second.len(),
{
    if second.len() == 0 {
        assert(first + second == first);
    } else {
        let whole = first + second;
        models_are_read_one_by_one(first, second.drop_last());
        assert(whole.drop_last() == first + second.drop_last());
        assert(whole.last() == second.last());
    }
}

/// What a single entry gives: its id, else its name, where that is a text; in a
/// plain array, the entry itself; and in Gemini's list its name, without a
/// `models/` in front, where it speaks of a Gemini model.
pub proof fn what_an_entry_gives(entry: JsonValue)
    ensures
        ({
            let id = crate::json::as_text(crate::json::field(entry, "id"@));
            let name = crate::json::as_text(crate::json::field(entry, "name"@));
            let text = crate::json::as_text(Some(entry));
            &&& id matches Some(model) ==> entry_models(seq![entry]) == seq![model]
            &&& id is None && name is Some ==> entry_models(seq![entry]) == seq![name->0]
            &&& id is None && name is None ==> entry_models(seq![entry]).len() == 0
            &&& text matches Some(model) ==> entry_texts(seq![entry]) == seq![model]
            &&& text is None ==> entry_texts(seq![entry]).len() == 0
            &&& name is None ==> gemini_entry_models(seq![entry]).len() == 0
        }),
{
    let one = seq![entry];
    assert(one.drop_last().len() == 0);
    assert(one.last() == entry);
    assert(entry_models(one.drop_last()) == Seq::<Seq<char>>::empty());
    assert(entry_texts(one.drop_last()) == Seq::<Seq<char>>::empty());
    assert(gemini_entry_models(one.drop_last()) == Seq::<Seq<char>>::empty());
}

/// Which name of Gemini's list is a model: with or without `models/` in front,
/// the rest is the model, and it counts exactly where it holds `gemini`.
pub proof fn which_gemini_names_are_models(entry: JsonValue, name: Seq<char>, rest: Seq<char>)
    requires
        crate::json::as_text(crate::json::field(entry, "name"@)) == Some(name),
        name == "models/"@ + rest || (name == rest && !crate::text::starts_with(
            name,
            "models/"@,
        )),
    ensures
        crate::text::contains_text(rest, "gemini"@) ==> gemini_entry_models(seq![entry])
            == seq![rest],
        !crate::text::contains_text(rest, "gemini"@) ==> gemini_entry_models(seq![entry]).len()
            == 0,
{
    let one = seq![entry];
    assert(one.drop_last().len() == 0);
    assert(one.last() == entry);
    assert(gemini_entry_models(one.drop_last()) == Seq::<Seq<char>>::empty());
    if name == "models/"@ + rest {
        crate::text::a_text_holds_what_stands_between(Seq::empty(), "models/"@, rest);
        assert(name.skip("models/"@.len() as int) == rest);
    }
}

/// A list is read from its `data` member where that is an array, else as a plain
/// array of texts; Gemini's list from its `models` member alone.
pub proof fn where_a_list_is_read_from(list: JsonValue)
    ensures
        ({
            let data = crate::json::as_items(crate::json::field(list, "data"@));
            let plain = crate::json::as_items(Some(list));
            let models = crate::json::as_items(crate::json::field(list, "models"@));
            &&& data matches Some(entries) ==> listed_models(list) == entry_models(entries)
            &&& data is None && plain is Some ==> listed_models(list) == entry_texts(plain->0)
            &&& data is None && plain is None ==> listed_models(list).len() == 0
            &&& models matches Some(entries) ==> gemini_listed_models(list) == gemini_entry_models(
                entries,
            )
            &&& models is None ==> gemini_listed_models(list).len() == 0
        }),
{
}

/// The error of a status shows the prefix and the status, and nothing of the
/// answer's body.
pub proof fn a_status_error_shows_the_status_alone(prefix: Seq<char>, status: u16)
    ensures
        status_error_text(prefix, status) == prefix + " (status "@ + status_line(status) + ")"@,
{
}

} // verus!
