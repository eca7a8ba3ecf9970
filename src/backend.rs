//! The two wire protocols: building a request for one image and reading the
//! reply down to a single response value.
use vstd::prelude::*;
use vstd::string::*;
use crate::config::PromptConfig;
use crate::format::ImageFormat;
use crate::image::ValidatedImage;

verus! {

#[verifier::external_type_specification]
#[verifier::external_body]
pub struct ExJsonValue(serde_json::Value);

#[verifier::external_type_specification]
#[verifier::external_body]
pub struct ExJsonError(serde_json::Error);

/// The standard, padded base64 text of a byte sequence.
pub uninterp spec fn base64_of(b: Seq<u8>) -> Seq<char>;

/// Whether a text is one JSON document.
pub uninterp spec fn json_valid(s: Seq<char>) -> bool;

/// Relies on base64's `STANDARD` engine `encode`: the padded base64 text of
/// the bytes, which depends on the bytes alone. Its only panic, a buffer size
/// that overflows `usize`, needs a slice longer than any that memory holds.
#[verifier::external_body]
fn encode_base64(b: &[u8]) -> (r: String)
    ensures
        r@ == base64_of(b@),
{
    base64::Engine::encode(&base64::engine::general_purpose::STANDARD, b)
}

/// Relies on `serde_json::from_str::<Value>`: it succeeds exactly on the
/// texts that hold one JSON document.
#[verifier::external_body]
fn parse_json(s: &str) -> (r: Result<serde_json::Value, serde_json::Error>)
    ensures
        r is Ok == json_valid(s@),
{
    serde_json::from_str::<serde_json::Value>(s)
}

/// The model's reply: parsed JSON where the text is JSON, else the text.
#[derive(Debug)]
pub enum ResponseValue {
    Text(String),
    Json(serde_json::Value),
}

/// Why the call for one image failed; the batch goes on.
#[derive(Debug)]
pub enum CallError {
    /// The request could not be sent or no reply came.
    Transport(String),
    /// A status outside 200 to 299: its code, its text and the reply body.
    Status(u16, String, String),
    /// The reply body is not of the expected envelope shape.
    Envelope(String),
}

impl CallError {
    pub open spec fn spec_message(&self) -> Seq<char> {
        match self {
            CallError::Transport(d) => "Request failed: "@ + d@,
            CallError::Status(_, s, b) => "Server returned "@ + s@ + ": "@ + b@,
            CallError::Envelope(d) => "Failed to parse response: "@ + d@,
        }
    }

    /// The diagnostic text of the error.
    pub fn message(&self) -> (r: String)
        ensures
            r@ == self.spec_message(),
    {
        match self {
            CallError::Transport(d) => String::from_str("Request failed: ").concat(d.as_str()),
            CallError::Status(_, s, b) => String::from_str("Server returned ").concat(
                s.as_str(),
            ).concat(": ").concat(b.as_str()),
            CallError::Envelope(d) => String::from_str("Failed to parse response: ").concat(
                d.as_str(),
            ),
        }
    }
}

/// One part of an OpenAI-style user message.
#[derive(Debug)]
pub enum ContentPart {
    /// An `image_url` part holding a data URL.
    ImageUrl(String),
    /// A `text` part.
    Text(String),
}

/// The content of an OpenAI-style message: plain text or a list of parts.
#[derive(Debug)]
pub enum MessageContent {
    Plain(String),
    Parts(Vec<ContentPart>),
}

#[derive(Debug)]
pub struct OpenAiMessage {
    pub role: String,
    pub content: MessageContent,
}

/// The body posted to `/v1/chat/completions`; the temperature is the
/// decimal literal of the configuration.
#[derive(Debug)]
pub struct OpenAiRequest {
    pub messages: Vec<OpenAiMessage>,
    pub temperature: String,
}

#[derive(Debug)]
pub struct NativeMessage {
    pub role: String,
    pub content: String,
    pub images: Option<Vec<String>>,
}

/// The body posted to `/api/chat`; the temperature goes in its options.
#[derive(Debug)]
pub struct NativeRequest {
    pub model: String,
    pub messages: Vec<NativeMessage>,
    pub stream: bool,
    pub temperature: String,
}

#[derive(Debug)]
pub enum ModelRequest {
    OpenAi(OpenAiRequest),
    Native(NativeRequest),
}

/// The reply envelope as read from the body: the message contents of an
/// OpenAI-style choice list, or the single message content of the native
/// protocol.
#[derive(Debug)]
pub enum ReplyEnvelope {
    Choices(Vec<String>),
    Message(String),
}

/// The protocol spoken to the server, chosen once per run.
#[derive(Debug)]
pub enum Backend {
    /// An OpenAI-compatible chat-completions server; no model name is sent.
    OpenAiCompatible,
    /// A native-chat server, with the model name to send.
    NativeChat { model: String },
}

/// `data:image/<format>;base64,<payload>`.
pub open spec fn data_url(format: ImageFormat, payload: Seq<char>) -> Seq<char> {
    "data:image/"@ + format.spec_name() + ";base64,"@ + payload
}

/// The text without the `/` characters at its end.
pub open spec fn without_trailing_slashes(s: Seq<char>) -> Seq<char>
    decreases s.len(),
{
    if s.len() > 0 && s.last() == '/' {
        without_trailing_slashes(s.drop_last())
    } else {
        s
    }
}

/// The OpenAI-style body for a system text, a prompt, a data URL and a
/// temperature: a system message of plain text, then a user message whose
/// parts are the image before the prompt.
pub open spec fn is_openai_request(
    r: OpenAiRequest,
    system: Seq<char>,
    prompt: Seq<char>,
    url: Seq<char>,
    temperature: Seq<char>,
) -> bool {
    &&& r.temperature@ == temperature
    &&& r.messages@.len() == 2
    &&& r.messages@[0].role@ == "system"@
    &&& r.messages@[0].content matches MessageContent::Plain(t) && t@ == system
    &&& r.messages@[1].role@ == "user"@
    &&& r.messages@[1].content matches MessageContent::Parts(ps) && ps@.len() == 2 && (
    ps@[0] matches ContentPart::ImageUrl(u) && u@ == url) && (ps@[1] matches ContentPart::Text(
        t,
    ) && t@ == prompt)
}

/// The native body: the model, a system message of plain text without
/// images, a user message with the prompt and the one base64 payload, no
/// streaming, and the temperature.
pub open spec fn is_native_request(
    r: NativeRequest,
    model: Seq<char>,
    system: Seq<char>,
    prompt: Seq<char>,
    payload: Seq<char>,
    temperature: Seq<char>,
) -> bool {
    &&& r.model@ == model
    &&& !r.stream
    &&& r.temperature@ == temperature
    &&& r.messages@.len() == 2
    &&& r.messages@[0].role@ == "system"@
    &&& r.messages@[0].content@ == system
    &&& r.messages@[0].images is None
    &&& r.messages@[1].role@ == "user"@
    &&& r.messages@[1].content@ == prompt
    &&& r.messages@[1].images matches Some(v) && v@.len() == 1 && v@[0]@ == payload
}

/// Whether an HTTP status counts as success.
pub open spec fn is_success_status(status: u16) -> bool {
    200 <= status && status <= 299
}

/// The base64 data URL of an image.
pub fn image_data_url(image: &ValidatedImage) -> (r: String)
    ensures
        r@ == data_url(image.spec_format(), base64_of(image.bytes())),
{
    let payload = encode_base64(image.data().as_slice());
    String::from_str("data:image/").concat(image.format().name()).concat(";base64,").concat(
        payload.as_str(),
    )
}

/// The server address without its trailing slashes.
pub fn trim_base_url(base: &str) -> (r: String)
    ensures
        r@ == without_trailing_slashes(base@),
{
    let mut k = base.unicode_len();
    assert(base@.subrange(0, k as int) =~= base@);
    while k > 0 && base.get_char(k - 1) == '/'
        invariant
            k <= base@.len(),
            without_trailing_slashes(base@.subrange(0, k as int)) == without_trailing_slashes(
                base@,
            ),
        decreases k,
    {
        assert(base@.subrange(0, k as int).drop_last() =~= base@.subrange(0, k - 1));
        k = k - 1;
    }
    let r = String::from_str(base.substring_char(0, k));
    r
}

/// Decides the fate of a reply by its status: a success status hands the
/// body on, any other is a call error that carries the code, its text and
/// the body.
pub fn check_status(status: u16, status_text: String, body: String) -> (r: Result<
    String,
    CallError,
>)
    ensures
        is_success_status(status) <==> r is Ok,
        r matches Ok(b) ==> b@ == body@,
        r matches Err(e) ==> (e matches CallError::Status(c, s, b) && c == status && s@
            == status_text@ && b@ == body@),
{
    if 200 <= status && status <= 299 {
        Ok(body)
    } else {
        Err(CallError::Status(status, status_text, body))
    }
}

/// The response value for a reply text and the outcome of parsing it as
/// JSON: the parsed value where parsing succeeded, else the text itself.
pub fn normalize_parsed(content: String, parsed: Result<serde_json::Value, serde_json::Error>) -> (r:
    ResponseValue)
    ensures
        parsed is Ok <==> r is Json,
        parsed matches Ok(v) ==> r == ResponseValue::Json(v),
        r matches ResponseValue::Text(t) ==> t@ == content@,
{
    match parsed {
        Ok(v) => ResponseValue::Json(v),
        Err(_) => ResponseValue::Text(content),
    }
}

/// Reads a reply text as JSON where it is JSON, and keeps it as text where
/// it is not.
pub fn normalize(content: String) -> (r: ResponseValue)
    ensures
        json_valid(content@) <==> r is Json,
        r matches ResponseValue::Text(t) ==> t@ == content@,
{
    let parsed = parse_json(content.as_str());
    normalize_parsed(content, parsed)
}

impl Backend {
    /// The address that requests are posted to.
    pub fn endpoint(&self, base_url: &str) -> (r: String)
        ensures
            self is OpenAiCompatible ==> r@ == without_trailing_slashes(base_url@)
                + "/v1/chat/completions"@,
            self is NativeChat ==> r@ == without_trailing_slashes(base_url@) + "/api/chat"@,
    {
        let base = trim_base_url(base_url);
        match self {
            Backend::OpenAiCompatible => base.concat("/v1/chat/completions"),
            Backend::NativeChat { .. } => base.concat("/api/chat"),
        }
    }

    /// Builds the one request for an image in this backend's protocol.
    pub fn build_request(&self, config: &PromptConfig, image: &ValidatedImage) -> (r: ModelRequest)
        ensures
            self is OpenAiCompatible ==> (r matches ModelRequest::OpenAi(q) && is_openai_request(
                q,
                config.system@,
                config.prompt@,
                data_url(image.spec_format(), base64_of(image.bytes())),
                config.temperature@,
            )),
            self matches Backend::NativeChat { model } ==> (r matches ModelRequest::Native(q)
                && is_native_request(
                q,
                model@,
                config.system@,
                config.prompt@,
                base64_of(image.bytes()),
                config.temperature@,
            )),
    {
        let temperature = String::from_str(config.temperature.as_str());
        match self {
            Backend::OpenAiCompatible => {
                let url = image_data_url(image);
                let parts = vec![ContentPart::ImageUrl(url), ContentPart::Text(config.prompt.clone())];
                let system = OpenAiMessage {
                    role: String::from_str("system"),
                    content: MessageContent::Plain(config.system.clone()),
                };
                let user = OpenAiMessage {
                    role: String::from_str("user"),
                    content: MessageContent::Parts(parts),
                };
                ModelRequest::OpenAi(OpenAiRequest { messages: vec![system, user], temperature })
            },
            Backend::NativeChat { model } => {
                let payload = encode_base64(image.data().as_slice());
                let system = NativeMessage {
                    role: String::from_str("system"),
                    content: config.system.clone(),
                    images: None,
                };
                let user = NativeMessage {
                    role: String::from_str("user"),
                    content: config.prompt.clone(),
                    images: Some(vec![payload]),
                };
                ModelRequest::Native(
                    NativeRequest {
                        model: model.clone(),
                        messages: vec![system, user],
                        stream: false,
                        temperature,
                    },
                )
            },
        }
    }

    /// The reply text in this backend's envelope: the first choice's
    /// content, or the empty text where there is no choice, for the
    /// OpenAI-style protocol; the message content for the native one. An
    /// envelope of the other protocol is an envelope error.
    pub fn reply_text(&self, envelope: ReplyEnvelope) -> (r: Result<String, CallError>)
        ensures
            self is OpenAiCompatible ==> match envelope {
                ReplyEnvelope::Choices(cs) => r matches Ok(t) && (if cs@.len() > 0 {
                    t@ == cs@[0]@
                } else {
                    t@.len() == 0
                }),
                ReplyEnvelope::Message(_) => r matches Err(CallError::Envelope(_)),
            },
            self is NativeChat ==> match envelope {
                ReplyEnvelope::Message(m) => r matches Ok(t) && t@ == m@,
                ReplyEnvelope::Choices(_) => r matches Err(CallError::Envelope(_)),
            },
    {
        match self {
            Backend::OpenAiCompatible => match envelope {
                ReplyEnvelope::Choices(cs) => {
                    if cs.len() > 0 {
                        Ok(cs[0].clone())
                    } else {
                        Ok(String::new())
                    }
                },
                ReplyEnvelope::Message(_) => Err(
                    CallError::Envelope(String::from_str("expected a list of choices")),
                ),
            },
            Backend::NativeChat { .. } => match envelope {
                ReplyEnvelope::Message(m) => Ok(m),
                ReplyEnvelope::Choices(_) => Err(
                    CallError::Envelope(String::from_str("expected a single message")),
                ),
            },
        }
    }
}

} // verus!
