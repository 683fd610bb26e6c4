//! The decisions around one exchange with the text-generation service: what
//! is asked of it, whether its answer counts as a success, and how a failure
//! is reported. Sending the request and reading the answer are left to the
//! caller, which hands in plain values and gets plain values back.

use vstd::prelude::*;

verus! {

/// A message of the chat protocol: who speaks, and what is said.
#[derive(Debug, Clone)]
pub struct ChoiceMessage {
    pub role: String,
    pub content: String,
}

/// The mathematical model of a [`ChoiceMessage`].
pub ghost struct MessageText {
    pub role: Seq<char>,
    pub content: Seq<char>,
}

impl View for ChoiceMessage {
    type V = MessageText;

    open spec fn view(&self) -> MessageText {
        MessageText { role: self.role@, content: self.content@ }
    }
}

/// Everything the caller needs to put one question to the service.
#[derive(Debug, Clone)]
pub struct ChatRequest {
    /// The address the request is posted to.
    pub url: String,
    /// The value of the `Authorization` header.
    pub authorization: String,
    /// The value of the `Content-Type` header.
    pub content_type: String,
    /// The conversation so far, oldest message first.
    pub messages: Vec<ChoiceMessage>,
    /// The identifier of the model that is to answer.
    pub model: String,
}

/// The mathematical model of a [`ChatRequest`].
pub ghost struct ChatRequestText {
    pub url: Seq<char>,
    pub authorization: Seq<char>,
    pub content_type: Seq<char>,
    pub messages: Seq<MessageText>,
    pub model: Seq<char>,
}

impl View for ChatRequest {
    type V = ChatRequestText;

    open spec fn view(&self) -> ChatRequestText {
        ChatRequestText {
            url: self.url@,
            authorization: self.authorization@,
            content_type: self.content_type@,
            messages: self.messages@.map_values(|message: ChoiceMessage| message@),
            model: self.model@,
        }
    }
}

/// The request that carries `input` as the user's only message,
/// authenticated by `api_key`.
pub open spec fn request_for(input: Seq<char>, api_key: Seq<char>) -> ChatRequestText {
    ChatRequestText {
        url: "https://api.groq.com/openai/v1/chat/completions"@,
        authorization: "Bearer "@ + api_key,
        content_type: "application/json"@,
        messages: seq![MessageText { role: "user"@, content: input }],
        model: "llama3-8b-8192"@,
    }
}

/// Builds the request that puts `input` to the service as a single user
/// message.
pub fn build_request(input: &str, api_key: &str) -> (request: ChatRequest)
    ensures
        request@ == request_for(input@, api_key@),
{
    let message = ChoiceMessage { role: "user".to_owned(), content: input.to_owned() };
    let mut messages: Vec<ChoiceMessage> = Vec::new();
    messages.push(message);
    let request = ChatRequest {
        url: "https://api.groq.com/openai/v1/chat/completions".to_owned(),
        authorization: "Bearer ".to_owned().concat(api_key),
        content_type: "application/json".to_owned(),
        messages,
        model: "llama3-8b-8192".to_owned(),
    };
    assert(request@.messages =~= request_for(input@, api_key@).messages);
    request
}

/// The status code of an HTTP response: a number of three decimal digits.
#[derive(Debug, Clone, Copy)]
pub struct HttpStatus {
    code: u16,
}

impl View for HttpStatus {
    type V = u16;

    closed spec fn view(&self) -> u16 {
        self.code
    }
}

impl HttpStatus {
    #[verifier::type_invariant]
    spec fn three_digits(self) -> bool {
        100 <= self.code <= 999
    }

    /// Whether a code of this value tells of success.
    pub open spec fn code_is_success(code: u16) -> bool {
        200 <= code < 300
    }

    /// Accepts `code` as a status code if it has three decimal digits.
    pub fn new(code: u16) -> (result: Option<HttpStatus>)
        ensures
            result is Some <==> 100 <= code <= 999,
            result matches Some(status) ==> status@ == code,
    {
        if 100 <= code && code <= 999 {
            Some(HttpStatus { code })
        } else {
            None
        }
    }

    /// The numeric value of the status code.
    pub fn code(&self) -> (code: u16)
        ensures
            code == self@,
            100 <= code <= 999,
    {
        proof {
            use_type_invariant(self);
        }
        self.code
    }

    /// Whether the status tells of success, that is, lies in 200..=299.
    pub fn is_success(&self) -> (success: bool)
        ensures
            success == Self::code_is_success(self@),
    {
        200 <= self.code && self.code < 300
    }
}

/// The line that `reqwest::StatusCode` displays for the status `code`: the
/// number, a space, and the reason phrase that the crate has on record for
/// the number, or a placeholder where it has none.
pub uninterp spec fn status_display(code: u16) -> Seq<char>;

/// Formats a status code by way of `reqwest::StatusCode`, whose `from_u16`
/// accepts exactly the codes from 100 to 999 and whose `Display` impl yields
/// the line named [`status_display`].
#[verifier::external_body]
fn display_status(code: u16) -> (line: Option<String>)
    ensures
        line is Some <==> 100 <= code <= 999,
        line matches Some(text) ==> text@ == status_display(code),
{
    match reqwest::StatusCode::from_u16(code) {
        Ok(status) => Some(status.to_string()),
        Err(_) => None,
    }
}

/// The report of a request that the service did not answer with success:
/// the status line and whatever text the response body held. A body that
/// could not be read is reported as such.
pub open spec fn failure_text(status_line: Seq<char>, body: Option<Seq<char>>) -> Seq<char> {
    "Request failed with status: "@ + status_line + " - "@ + match body {
        Some(text) => text,
        None => "Failed to read error message"@,
    }
}

/// The view of an optional string.
pub open spec fn text_of(body: Option<String>) -> Option<Seq<char>> {
    match body {
        Some(text) => Some(text@),
        None => None,
    }
}

/// Words the report of a failed request from the displayed status line and
/// the response body, where `None` stands for a body that could not be read.
pub fn describe_failure(status_line: &str, body: Option<String>) -> (message: String)
    ensures
        message@ == failure_text(status_line@, text_of(body)),
{
    let head = "Request failed with status: ".to_owned().concat(status_line).concat(" - ");
    match body {
        Some(text) => head.concat(text.as_str()),
        None => head.concat("Failed to read error message"),
    }
}

/// Words the report of a request answered with `status`, which carries the
/// status as `reqwest` displays it and the text of the response body.
pub fn failure_message(status: &HttpStatus, body: Option<String>) -> (message: String)
    ensures
        message@ == failure_text(status_display(status@), text_of(body)),
{
    let code = status.code();
    match display_status(code) {
        Some(line) => describe_failure(line.as_str(), body),
        None => unreached(),
    }
}

} // verus!
