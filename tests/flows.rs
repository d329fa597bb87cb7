use base64::Engine;
use image_describer::encoding::{data_url, encode_image};
use image_describer::error::{decimal_string, FlowError};
use image_describer::flows::{
    bearer, endpoint, finish_image_flow, finish_text_flow, start_image_flow, start_text_flow,
    text_request,
};
use image_describer::models::{ApiError, Choice, CompletionResponse, Content, MessageContent};
use image_describer::outbound::{after_transport_failure, Attempts, interpret_response, is_success, RetryStep, MAX_ATTEMPTS};
use image_describer::upload::{image_format, FieldKind, ImageFormat, ImageUpload, UploadForm, MAX_IMAGE_BYTES};

fn completion(texts: &[&str]) -> CompletionResponse {
    CompletionResponse {
        choices: texts
            .iter()
            .map(|t| Choice { message: MessageContent { content: t.to_string() } })
            .collect(),
    }
}

fn parse_api_error(body: &str) -> Option<ApiError> {
    let value: serde_json::Value = serde_json::from_str(body).ok()?;
    let text = value.get("error")?.as_str()?;
    Some(ApiError { error: text.to_string() })
}

fn small_jpeg() -> Vec<u8> {
    vec![0xFF, 0xD8, 0xFF, 0xE0, 0x00, 0x10, 0x4A, 0x46, 0x49, 0x46, 0x00, 0xFF, 0xD9]
}

fn form_with(image: &[u8], content_type: &str, prompt: &str) -> Result<ImageUpload, FlowError> {
    let mut form = UploadForm::new();
    assert_eq!(form.accept_field("image", Some(content_type))?, FieldKind::Image);
    form.add_image_bytes(image);
    assert_eq!(form.accept_field("prompt", None)?, FieldKind::Prompt);
    form.set_prompt(prompt.to_string());
    form.finish()
}

#[test]
fn empty_prompt_is_client_error_before_any_call() {
    let r = start_text_flow("", Some("key".to_string()));
    let e = r.err().unwrap();
    assert!(matches!(e, FlowError::NoPrompt));
    assert_eq!(e.status(), 400);
    assert_eq!(e.message(), "No prompt provided");
}

#[test]
fn oversized_image_is_client_error() {
    let big = vec![0u8; MAX_IMAGE_BYTES + 1];
    let e = form_with(&big, "image/jpeg", "describe").err().unwrap();
    assert!(matches!(e, FlowError::ImageTooLarge));
    assert_eq!(e.status(), 400);
    assert_eq!(e.message(), "Image size exceeds 5MB limit");
}

#[test]
fn image_at_limit_is_accepted() {
    let big = vec![7u8; MAX_IMAGE_BYTES];
    let upload = form_with(&big, "image/png", "describe").ok().unwrap();
    assert_eq!(upload.bytes.len(), 5 * 1024 * 1024);
    assert_eq!(upload.format, ImageFormat::Png);
}

#[test]
fn unsupported_content_type_is_client_error() {
    let mut form = UploadForm::new();
    let e = form.accept_field("image", Some("image/gif")).err().unwrap();
    assert!(matches!(e, FlowError::UnsupportedImageType));
    assert_eq!(e.status(), 400);
    let e = form.accept_field("image", None).err().unwrap();
    assert!(matches!(e, FlowError::MissingContentType));
    assert_eq!(e.message(), "Missing content type");
}

#[test]
fn unexpected_field_is_named() {
    let mut form = UploadForm::new();
    let e = form.accept_field("avatar", Some("image/png")).err().unwrap();
    assert_eq!(e.status(), 400);
    assert_eq!(e.message(), "Unexpected field: avatar");
}

#[test]
fn missing_image_or_prompt() {
    let mut form = UploadForm::new();
    form.accept_field("prompt", None).ok().unwrap();
    form.set_prompt("hi".to_string());
    assert!(matches!(form.finish(), Err(FlowError::NoFile)));
    let e = form_with(&small_jpeg(), "image/jpeg", "").err().unwrap();
    assert!(matches!(e, FlowError::NoPrompt));
}

#[test]
fn content_type_prefixes() {
    assert_eq!(image_format("image/jpeg"), Some(ImageFormat::Jpeg));
    assert_eq!(image_format("image/png; q=1"), Some(ImageFormat::Png));
    assert_eq!(image_format("image/jpg"), None);
    assert_eq!(image_format("text/plain"), None);
}

#[test]
fn base64_round_trip() {
    for len in [0usize, 1, 2, 3, 4, 255, 1000] {
        let bytes: Vec<u8> = (0..len).map(|i| (i * 37 % 256) as u8).collect();
        let text = encode_image(&bytes).ok().unwrap();
        assert_eq!(text.len(), 4 * ((len + 2) / 3));
        let back = base64::engine::general_purpose::STANDARD.decode(&text).unwrap();
        assert_eq!(back, bytes);
    }
    assert_eq!(encode_image(&b"hello".to_vec()).ok().unwrap(), "aGVsbG8=");
}

#[test]
fn data_url_names_subtype() {
    assert_eq!(data_url(ImageFormat::Jpeg, "QUJD"), "data:image/jpeg;base64,QUJD");
    assert_eq!(data_url(ImageFormat::Png, ""), "data:image/png;base64,");
}

#[test]
fn upstream_json_error_is_gateway_error() {
    let body = r#"{"error":"boom"}"#;
    let r = finish_text_flow(500, body.to_string(), parse_api_error(body), Err("not a completion".to_string()));
    let e = r.err().unwrap();
    assert_eq!(e.status(), 502);
    assert!(e.message().contains("boom"));
    assert_eq!(e.message(), "API error: status 500, body: boom");
}

#[test]
fn upstream_raw_body_is_used_when_not_json() {
    let body = "oops";
    let r = finish_image_flow(500, body.to_string(), parse_api_error(body), Err("expected value".to_string()));
    let e = r.err().unwrap();
    assert_eq!(e.status(), 502);
    assert!(e.message().contains("oops"));
}

#[test]
fn transport_failures_back_off_then_give_up() {
    let mut waited = 0u64;
    let mut attempts = 0u32;
    loop {
        let step = after_transport_failure(attempts);
        attempts += 1;
        match step {
            RetryStep::Retry { delay_secs } => waited += delay_secs,
            RetryStep::GiveUp => break,
        }
    }
    assert_eq!(attempts, MAX_ATTEMPTS);
    assert_eq!(attempts, 4);
    assert_eq!(waited, 7);
    assert_eq!(after_transport_failure(0), RetryStep::Retry { delay_secs: 1 });
    assert_eq!(after_transport_failure(1), RetryStep::Retry { delay_secs: 2 });
    assert_eq!(after_transport_failure(2), RetryStep::Retry { delay_secs: 4 });
    assert_eq!(after_transport_failure(9), RetryStep::GiveUp);
    let e = FlowError::RetriesExhausted { detail: "connection refused".to_string() };
    assert_eq!(e.status(), 500);
    assert!(e.message().starts_with("Request failed after retries"));
}

#[test]
fn attempts_count_failures_until_giving_up() {
    let mut attempts = Attempts::new();
    let mut delays = Vec::new();
    while let RetryStep::Retry { delay_secs } = attempts.record_failure() {
        delays.push(delay_secs);
    }
    assert_eq!(delays, vec![1, 2, 4]);
    assert_eq!(attempts.failed, 3);
    assert_eq!(attempts.record_failure(), RetryStep::GiveUp);
    assert_eq!(attempts.failed, 3);
}

#[test]
fn missing_api_key_is_server_error_in_both_flows() {
    let e = start_text_flow("print hello", None).err().unwrap();
    assert!(matches!(e, FlowError::MissingApiKey));
    assert_eq!(e.status(), 500);
    let upload = form_with(&small_jpeg(), "image/jpeg", "what is this").ok().unwrap();
    let e = start_image_flow(&upload, None).err().unwrap();
    assert!(matches!(e, FlowError::MissingApiKey));
    assert_eq!(e.status(), 500);
}

#[test]
fn empty_choices_give_fallback_text() {
    let r = finish_text_flow(200, "{}".to_string(), None, Ok(completion(&[])));
    assert_eq!(r.ok().unwrap(), "No script generated");
    let r = finish_image_flow(200, "{}".to_string(), None, Ok(completion(&[])));
    assert_eq!(r.ok().unwrap(), "No description available");
}

#[test]
fn first_choice_is_the_answer() {
    let r = interpret_response(201, String::new(), None, Ok(completion(&["a", "b"])), "none");
    assert_eq!(r.ok().unwrap(), "a");
    let e = interpret_response(200, String::new(), None, Err("bad".to_string()), "none").err().unwrap();
    assert_eq!(e.status(), 500);
    assert_eq!(e.message(), "JSON parse error: bad");
}

#[test]
fn image_flow_succeeds_with_small_jpeg() {
    let upload = form_with(&small_jpeg(), "image/jpeg", "what is this").ok().unwrap();
    let job = start_image_flow(&upload, Some("k".to_string())).ok().unwrap();
    assert!(job.image_url.starts_with("data:image/jpeg;base64,"));
    assert_eq!(job.prepared.authorization, "Bearer k");
    assert_eq!(job.prepared.request.model, "grok-2-vision-latest");
    let content = &job.prepared.request.messages[0].content;
    assert_eq!(content.len(), 2);
    match &content[0] {
        Content::ImageUrl { image_url } => {
            assert_eq!(image_url.url, job.image_url);
            assert_eq!(image_url.detail, "high");
        }
        Content::Text { .. } => panic!("image part expected first"),
    }
    let description = finish_image_flow(200, String::new(), None, Ok(completion(&["a cat"]))).ok().unwrap();
    assert_eq!(description, "a cat");
}

#[test]
fn text_request_wraps_prompt() {
    let r = text_request("sort a list");
    assert_eq!(r.model, "grok-3");
    assert_eq!(r.messages.len(), 1);
    assert_eq!(r.messages[0].role, "user");
    match &r.messages[0].content[0] {
        Content::Text { text } => {
            assert_eq!(text, "Generate a Python script for the following task: sort a list")
        }
        Content::ImageUrl { .. } => panic!("text part expected"),
    }
}

#[test]
fn small_helpers() {
    assert_eq!(decimal_string(0), "0");
    assert_eq!(decimal_string(502), "502");
    assert_eq!(decimal_string(65535), "65535");
    assert_eq!(bearer("abc"), "Bearer abc");
    assert_eq!(endpoint(), "https://api.x.ai/v1/chat/completions");
    assert!(is_success(200) && is_success(299));
    assert!(!is_success(199) && !is_success(300) && !is_success(500));
}
