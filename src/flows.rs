//! The two request flows: a text prompt that asks for a Python script, and an
//! image upload that asks for a description. Each is validated, turned into
//! a completion request, and its answer shaped into the reply.
use vstd::prelude::*;
use crate::encoding::{base64_of, data_url, data_url_of, encode_image};
use crate::error::{FlowError, status_of, BAD_REQUEST, INTERNAL_SERVER_ERROR};
use crate::models::{ApiError, ChatRequest, CompletionResponse, Content, ImageUrl, Message};
use crate::outbound::{interpret_response, interprets};
use crate::upload::ImageUpload;

verus! {

/// The model asked for scripts.
pub open spec fn text_model_spec() -> Seq<char> {
    "grok-3"@
}

/// The vision model asked for image descriptions.
pub open spec fn vision_model_spec() -> Seq<char> {
    "grok-2-vision-latest"@
}

/// The completion endpoint.
pub open spec fn endpoint_spec() -> Seq<char> {
    "https://api.x.ai/v1/chat/completions"@
}

/// The instruction that precedes the user's prompt in the text flow.
pub open spec fn script_instruction_of(prompt: Seq<char>) -> Seq<char> {
    "Generate a Python script for the following task: "@ + prompt
}

/// The answer of the text flow when the model gave no choice.
pub open spec fn script_fallback_spec() -> Seq<char> {
    "No script generated"@
}

/// The answer of the image flow when the model gave no choice.
pub open spec fn description_fallback_spec() -> Seq<char> {
    "No description available"@
}

/// The URL to which completion requests are posted.
pub fn endpoint() -> (r: &'static str)
    ensures
        r@ == endpoint_spec(),
{
    "https://api.x.ai/v1/chat/completions"
}

/// The value of the `Authorization` header for `api_key`.
pub fn bearer(api_key: &str) -> (r: String)
    ensures
        r@ == "Bearer "@ + api_key@,
{
    String::from_str("Bearer ").concat(api_key)
}

/// `m` is sent in the role of the user.
pub open spec fn is_user_message(m: Message) -> bool {
    m.role@ == "user"@
}

/// `r` asks `model` with one user message holding only the text `text`.
pub open spec fn is_text_request(r: ChatRequest, model: Seq<char>, text: Seq<char>) -> bool {
    &&& r.model@ == model
    &&& r.messages@.len() == 1
    &&& is_user_message(r.messages@[0])
    &&& r.messages@[0].content@.len() == 1
    &&& r.messages@[0].content@[0] matches Content::Text { text: t } && t@ == text
}

/// `r` asks `model` with one user message holding the image at `url`, in
/// high detail, followed by the text `text`.
pub open spec fn is_image_request(r: ChatRequest, model: Seq<char>, url: Seq<char>, text: Seq<char>) -> bool {
    &&& r.model@ == model
    &&& r.messages@.len() == 1
    &&& is_user_message(r.messages@[0])
    &&& r.messages@[0].content@.len() == 2
    &&& r.messages@[0].content@[0] matches Content::ImageUrl { image_url: iu } && iu.url@ == url
        && iu.detail@ == "high"@
    &&& r.messages@[0].content@[1] matches Content::Text { text: t } && t@ == text
}

fn user_message(content: Vec<Content>) -> (r: Message)
    ensures
        is_user_message(r),
        r.content@ == content@,
{
    Message { role: String::from_str("user"), content }
}

/// The completion request of the text flow for `prompt`.
pub fn text_request(prompt: &str) -> (r: ChatRequest)
    ensures
        is_text_request(r, text_model_spec(), script_instruction_of(prompt@)),
{
    let text = String::from_str("Generate a Python script for the following task: ").concat(prompt);
    let mut content: Vec<Content> = Vec::new();
    content.push(Content::Text { text });
    let mut messages: Vec<Message> = Vec::new();
    messages.push(user_message(content));
    ChatRequest { model: String::from_str("grok-3"), messages }
}

/// The completion request of the image flow for the image at `url` and
/// `prompt`.
pub fn image_request(url: String, prompt: String) -> (r: ChatRequest)
    ensures
        is_image_request(r, vision_model_spec(), url@, prompt@),
{
    let image_url = ImageUrl { url, detail: String::from_str("high") };
    let mut content: Vec<Content> = Vec::new();
    content.push(Content::ImageUrl { image_url });
    content.push(Content::Text { text: prompt });
    let mut messages: Vec<Message> = Vec::new();
    messages.push(user_message(content));
    ChatRequest { model: String::from_str("grok-2-vision-latest"), messages }
}

/// A request ready to be sent, with the value of its `Authorization` header.
pub struct Prepared {
    pub request: ChatRequest,
    pub authorization: String,
}

/// Starts the text flow: an empty prompt is the caller's error and a missing
/// API key a configuration error; in either case nothing is sent. Otherwise
/// the result is the request to send.
pub fn start_text_flow(prompt: &str, api_key: Option<String>) -> (r: Result<Prepared, FlowError>)
    ensures
        prompt@.len() == 0 ==> r == Err::<Prepared, FlowError>(FlowError::NoPrompt),
        prompt@.len() == 0 ==> (r is Err && status_of(r->Err_0) == BAD_REQUEST),
        prompt@.len() > 0 && api_key is None ==> r == Err::<Prepared, FlowError>(
            FlowError::MissingApiKey,
        ),
        api_key is None ==> r is Err,
        r is Ok <==> prompt@.len() > 0 && api_key is Some,
        r matches Ok(p) ==> is_text_request(p.request, text_model_spec(), script_instruction_of(prompt@))
            && p.authorization@ == "Bearer "@ + api_key->0@,
{
    if prompt.is_empty() {
        return Err(FlowError::NoPrompt);
    }
    let key = match api_key {
        Some(k) => k,
        None => return Err(FlowError::MissingApiKey),
    };
    let request = text_request(prompt);
    Ok(Prepared { request, authorization: bearer(key.as_str()) })
}

/// The image flow's request together with the data URL of the image, which
/// the reply repeats.
pub struct ImageJob {
    pub prepared: Prepared,
    pub image_url: String,
}

/// Starts the image flow for a validated upload: the image is encoded into a
/// data URL, then a missing API key is a configuration error and nothing is
/// sent. Otherwise the result is the request to send.
pub fn start_image_flow(upload: &ImageUpload, api_key: Option<String>) -> (r: Result<ImageJob, FlowError>)
    requires
        upload.wf(),
    ensures
        api_key is None ==> r == Err::<ImageJob, FlowError>(FlowError::MissingApiKey),
        api_key is None ==> (r is Err && status_of(r->Err_0) == INTERNAL_SERVER_ERROR),
        r is Ok <==> api_key is Some,
        r matches Ok(job) ==> {
            &&& job.image_url@ == data_url_of(upload.format, base64_of(upload.bytes@))
            &&& is_image_request(job.prepared.request, vision_model_spec(), job.image_url@, upload.prompt@)
            &&& job.prepared.authorization@ == "Bearer "@ + api_key->0@
        },
{
    let encoded = match encode_image(&upload.bytes) {
        Ok(text) => text,
        Err(e) => return Err(e),
    };
    let key = match api_key {
        Some(k) => k,
        None => return Err(FlowError::MissingApiKey),
    };
    let image_url = data_url(upload.format, encoded.as_str());
    let request = image_request(image_url.clone(), upload.prompt.clone());
    Ok(ImageJob { prepared: Prepared { request, authorization: bearer(key.as_str()) }, image_url })
}

/// Shapes the API's answer in the text flow into the script, with the
/// fallback text where the model gave no choice.
pub fn finish_text_flow(
    status: u16,
    body: String,
    parsed_error: Option<ApiError>,
    parsed_reply: Result<CompletionResponse, String>,
) -> (r: Result<String, FlowError>)
    ensures
        interprets(r, status, body@, parsed_error, parsed_reply, script_fallback_spec()),
{
    proof {
        reveal_strlit("No script generated");
    }
    interpret_response(status, body, parsed_error, parsed_reply, "No script generated")
}

/// Shapes the API's answer in the image flow into the description, with the
/// fallback text where the model gave no choice.
pub fn finish_image_flow(
    status: u16,
    body: String,
    parsed_error: Option<ApiError>,
    parsed_reply: Result<CompletionResponse, String>,
) -> (r: Result<String, FlowError>)
    ensures
        interprets(r, status, body@, parsed_error, parsed_reply, description_fallback_spec()),
{
    proof {
        reveal_strlit("No description available");
    }
    interpret_response(status, body, parsed_error, parsed_reply, "No description available")
}

} // verus!
