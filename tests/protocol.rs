use base64::Engine;
use ladies::backend::{
    check_status, image_data_url, normalize, trim_base_url, Backend, CallError, ContentPart,
    MessageContent, ModelRequest, ReplyEnvelope, ResponseValue,
};
use ladies::config::{PromptConfig, RawPromptConfig};
use ladies::image::{validate_image, ReadOutcome, ValidatedImage};

fn red_png() -> Vec<u8> {
    vec![
        0x89, 0x50, 0x4E, 0x47, 0x0D, 0x0A, 0x1A, 0x0A, 0x00, 0x00, 0x00, 0x0D, 0x49, 0x48, 0x44,
        0x52, 0x00, 0x00, 0x00, 0x01, 0x00, 0x00, 0x00, 0x01, 0x08, 0x02, 0x00, 0x00, 0x00,
    ]
}

fn config() -> PromptConfig {
    PromptConfig::validate(RawPromptConfig {
        system: "You are helpful.".to_string(),
        prompt: "Describe this.".to_string(),
        temperature: "0.7".to_string(),
        model: None,
    })
    .unwrap()
}

fn image() -> ValidatedImage {
    validate_image("red.png", ReadOutcome::Bytes(red_png())).unwrap()
}

#[test]
fn native_request_shape() {
    let backend = Backend::NativeChat { model: "qwen2.5vl:32b".to_string() };
    let request = backend.build_request(&config(), &image());
    let ModelRequest::Native(r) = request else { panic!("expected a native request") };
    assert_eq!(r.model, "qwen2.5vl:32b");
    assert!(!r.stream);
    assert_eq!(r.temperature, "0.7");
    assert_eq!(r.messages.len(), 2);
    assert_eq!(r.messages[0].role, "system");
    assert_eq!(r.messages[0].content, "You are helpful.");
    assert!(r.messages[0].images.is_none());
    assert_eq!(r.messages[1].role, "user");
    assert_eq!(r.messages[1].content, "Describe this.");
    let images = r.messages[1].images.as_ref().unwrap();
    assert_eq!(images.len(), 1);
    assert_eq!(images[0], base64::engine::general_purpose::STANDARD.encode(red_png()));
    assert!(!images[0].starts_with("data:"));
}

#[test]
fn openai_request_shape() {
    let request = Backend::OpenAiCompatible.build_request(&config(), &image());
    let ModelRequest::OpenAi(r) = request else { panic!("expected an OpenAI-style request") };
    assert_eq!(r.temperature, "0.7");
    assert_eq!(r.messages.len(), 2);
    assert_eq!(r.messages[0].role, "system");
    assert!(matches!(&r.messages[0].content, MessageContent::Plain(t) if t == "You are helpful."));
    assert_eq!(r.messages[1].role, "user");
    let MessageContent::Parts(parts) = &r.messages[1].content else { panic!("expected parts") };
    assert_eq!(parts.len(), 2);
    let expected = format!(
        "data:image/png;base64,{}",
        base64::engine::general_purpose::STANDARD.encode(red_png())
    );
    assert!(matches!(&parts[0], ContentPart::ImageUrl(u) if *u == expected));
    assert!(matches!(&parts[1], ContentPart::Text(t) if t == "Describe this."));
}

#[test]
fn base64_round_trip() {
    let url = image_data_url(&image());
    let payload = url.strip_prefix("data:image/png;base64,").unwrap();
    assert_ne!(payload.as_bytes(), red_png().as_slice());
    let decoded = base64::engine::general_purpose::STANDARD.decode(payload).unwrap();
    assert_eq!(decoded, red_png());
}

#[test]
fn endpoints_drop_trailing_slashes() {
    assert_eq!(Backend::OpenAiCompatible.endpoint("http://localhost:8080/"), "http://localhost:8080/v1/chat/completions");
    let native = Backend::NativeChat { model: "llava:13b".to_string() };
    assert_eq!(native.endpoint("http://localhost:11434"), "http://localhost:11434/api/chat");
    assert_eq!(native.endpoint("http://localhost:11434//"), "http://localhost:11434/api/chat");
    assert_eq!(trim_base_url("///"), "");
    assert_eq!(trim_base_url("http://h/x"), "http://h/x");
}

#[test]
fn json_content_becomes_json() {
    let native = Backend::NativeChat { model: "m".to_string() };
    let text = native.reply_text(ReplyEnvelope::Message("{\"ok\":true}".to_string())).unwrap();
    match normalize(text) {
        ResponseValue::Json(v) => {
            let mut expected = serde_json::Map::new();
            expected.insert("ok".to_string(), serde_json::Value::Bool(true));
            assert_eq!(v, serde_json::Value::Object(expected));
        }
        other => panic!("expected JSON, got {:?}", other),
    }
}

#[test]
fn free_text_stays_text() {
    let native = Backend::NativeChat { model: "m".to_string() };
    let text = native.reply_text(ReplyEnvelope::Message("a red circle".to_string())).unwrap();
    match normalize(text) {
        ResponseValue::Text(t) => assert_eq!(t, "a red circle"),
        other => panic!("expected text, got {:?}", other),
    }
}

#[test]
fn empty_choice_list_gives_empty_text() {
    let r = Backend::OpenAiCompatible.reply_text(ReplyEnvelope::Choices(vec![])).unwrap();
    assert_eq!(r, "");
    let first = Backend::OpenAiCompatible
        .reply_text(ReplyEnvelope::Choices(vec!["first".to_string(), "second".to_string()]))
        .unwrap();
    assert_eq!(first, "first");
}

#[test]
fn envelope_of_the_other_protocol_is_rejected() {
    let e = Backend::OpenAiCompatible.reply_text(ReplyEnvelope::Message("x".to_string())).unwrap_err();
    assert!(matches!(e, CallError::Envelope(_)));
    let native = Backend::NativeChat { model: "m".to_string() };
    let e = native.reply_text(ReplyEnvelope::Choices(vec![])).unwrap_err();
    assert!(e.message().starts_with("Failed to parse response"));
}

#[test]
fn non_success_status_is_a_call_error() {
    let e = check_status(500, "500 Internal Server Error".to_string(), "boom".to_string()).unwrap_err();
    assert!(matches!(e, CallError::Status(500, _, _)));
    assert_eq!(e.message(), "Server returned 500 Internal Server Error: boom");
    assert!(check_status(404, "404 Not Found".to_string(), String::new()).is_err());
    assert!(check_status(199, "199".to_string(), String::new()).is_err());
    assert!(check_status(300, "300 Multiple Choices".to_string(), String::new()).is_err());
    assert_eq!(check_status(200, "200 OK".to_string(), "body".to_string()).unwrap(), "body");
    assert!(check_status(299, "299".to_string(), String::new()).is_ok());
}

#[test]
fn transport_error_message() {
    let e = CallError::Transport("connection refused".to_string());
    assert_eq!(e.message(), "Request failed: connection refused");
}
