//! The errors a flow can end in, each with its HTTP status and message.
use vstd::prelude::*;

verus! {

/// Every way in which handling a request can fail.
pub enum FlowError {
    /// The prompt is empty or missing.
    NoPrompt,
    /// An image field came without a content type.
    MissingContentType,
    /// An image field's content type is neither JPEG nor PNG.
    UnsupportedImageType,
    /// A form field other than `image` or `prompt`.
    UnexpectedField { name: String },
    /// The multipart stream could not be read.
    MultipartRead { detail: String },
    /// The body of an image field could not be read.
    FileRead { detail: String },
    /// The body of a prompt field could not be read.
    PromptRead { detail: String },
    /// No image bytes were uploaded.
    NoFile,
    /// The uploaded image is larger than the limit.
    ImageTooLarge,
    /// The encoded image failed its own decoding check.
    ImageCheck { detail: String },
    /// The API key is not configured.
    MissingApiKey,
    /// The HTTP client could not be built.
    ClientSetup { detail: String },
    /// The outbound request could not be serialised.
    Serialize { detail: String },
    /// Every attempt failed at the transport level.
    RetriesExhausted { detail: String },
    /// The body of the API's response could not be read.
    ResponseRead { detail: String },
    /// The API answered with a status outside the 2xx range.
    Upstream { status: u16, message: String },
    /// A 2xx answer of the API did not have the expected shape.
    ResponseParse { detail: String },
}

pub const BAD_REQUEST: u16 = 400;
pub const INTERNAL_SERVER_ERROR: u16 = 500;
pub const BAD_GATEWAY: u16 = 502;

/// The HTTP status with which an error is answered.
pub open spec fn status_of(e: FlowError) -> u16 {
    match e {
        FlowError::NoPrompt
        | FlowError::MissingContentType
        | FlowError::UnsupportedImageType
        | FlowError::UnexpectedField { .. }
        | FlowError::MultipartRead { .. }
        | FlowError::FileRead { .. }
        | FlowError::PromptRead { .. }
        | FlowError::NoFile
        | FlowError::ImageTooLarge => BAD_REQUEST,
        FlowError::Upstream { .. } => BAD_GATEWAY,
        _ => INTERNAL_SERVER_ERROR,
    }
}

/// Whether an error is the caller's fault.
pub open spec fn is_client_error(e: FlowError) -> bool {
    status_of(e) == BAD_REQUEST
}

pub open spec fn digit_char(d: nat) -> char {
    if d == 0 { '0' }
    else if d == 1 { '1' }
    else if d == 2 { '2' }
    else if d == 3 { '3' }
    else if d == 4 { '4' }
    else if d == 5 { '5' }
    else if d == 6 { '6' }
    else if d == 7 { '7' }
    else if d == 8 { '8' }
    else { '9' }
}

/// The decimal digits of `n`, most significant first.
pub open spec fn decimal(n: nat) -> Seq<char>
    decreases n,
{
    if n < 10 {
        seq![digit_char(n)]
    } else {
        decimal(n / 10) + seq![digit_char(n % 10)]
    }
}

/// The text of the `error` field with which an error is answered.
pub open spec fn message_of(e: FlowError) -> Seq<char> {
    match e {
        FlowError::NoPrompt => "No prompt provided"@,
        FlowError::MissingContentType => "Missing content type"@,
        FlowError::UnsupportedImageType => "Only JPEG and PNG images are supported"@,
        FlowError::UnexpectedField { name } => "Unexpected field: "@ + name@,
        FlowError::MultipartRead { detail } => "Failed to read multipart field: "@ + detail@,
        FlowError::FileRead { detail } => "Failed to read file data: "@ + detail@,
        FlowError::PromptRead { detail } => "Failed to read prompt text: "@ + detail@,
        FlowError::NoFile => "No file uploaded"@,
        FlowError::ImageTooLarge => "Image size exceeds 5MB limit"@,
        FlowError::ImageCheck { detail } => "Invalid image data: "@ + detail@,
        FlowError::MissingApiKey => "Missing API key"@,
        FlowError::ClientSetup { detail } => "Failed to create HTTP client: "@ + detail@,
        FlowError::Serialize { detail } => "Failed to serialize request: "@ + detail@,
        FlowError::RetriesExhausted { detail } => "Request failed after retries: "@ + detail@,
        FlowError::ResponseRead { detail } => "Failed to read response body: "@ + detail@,
        FlowError::Upstream { status, message } =>
            "API error: status "@ + decimal(status as nat) + ", body: "@ + message@,
        FlowError::ResponseParse { detail } => "JSON parse error: "@ + detail@,
    }
}

fn digit_str(d: u16) -> (r: &'static str)
    requires
        d < 10,
    ensures
        r@ == seq![digit_char(d as nat)],
{
    proof {
        reveal_strlit("0");
        reveal_strlit("1");
        reveal_strlit("2");
        reveal_strlit("3");
        reveal_strlit("4");
        reveal_strlit("5");
        reveal_strlit("6");
        reveal_strlit("7");
        reveal_strlit("8");
        reveal_strlit("9");
    }
    if d == 0 { "0" }
    else if d == 1 { "1" }
    else if d == 2 { "2" }
    else if d == 3 { "3" }
    else if d == 4 { "4" }
    else if d == 5 { "5" }
    else if d == 6 { "6" }
    else if d == 7 { "7" }
    else if d == 8 { "8" }
    else { "9" }
}

/// Writes `n` in decimal.
pub fn decimal_string(n: u16) -> (r: String)
    ensures
        r@ == decimal(n as nat),
{
    let mut out = String::from_str(digit_str(n % 10));
    let mut rest: u16 = n / 10;
    assert(n < 10 ==> decimal(n as nat) == out@);
    while rest > 0
        invariant
            rest == 0 ==> decimal(n as nat) == out@,
            rest > 0 ==> decimal(n as nat) == decimal(rest as nat) + out@,
        decreases rest,
    {
        let d = digit_str(rest % 10);
        proof {
            if rest >= 10 {
                assert(decimal(rest as nat) == decimal((rest / 10) as nat) + seq![digit_char((rest % 10) as nat)]);
                assert(decimal(rest as nat) + out@ == decimal((rest / 10) as nat) + (d@ + out@));
            } else {
                assert(decimal(rest as nat) == d@);
            }
        }
        out = String::from_str(d).concat(out.as_str());
        rest = rest / 10;
    }
    out
}

fn joined(prefix: &str, tail: &String) -> (r: String)
    ensures
        r@ == prefix@ + tail@,
{
    String::from_str(prefix).concat(tail.as_str())
}

impl FlowError {
    /// The HTTP status with which this error is answered.
    pub fn status(&self) -> (r: u16)
        ensures
            r == status_of(*self),
    {
        match self {
            FlowError::NoPrompt
            | FlowError::MissingContentType
            | FlowError::UnsupportedImageType
            | FlowError::UnexpectedField { .. }
            | FlowError::MultipartRead { .. }
            | FlowError::FileRead { .. }
            | FlowError::PromptRead { .. }
            | FlowError::NoFile
            | FlowError::ImageTooLarge => BAD_REQUEST,
            FlowError::Upstream { .. } => BAD_GATEWAY,
            _ => INTERNAL_SERVER_ERROR,
        }
    }

    /// The text of the `error` field with which this error is answered.
    pub fn message(&self) -> (r: String)
        ensures
            r@ == message_of(*self),
    {
        match self {
            FlowError::NoPrompt => String::from_str("No prompt provided"),
            FlowError::MissingContentType => String::from_str("Missing content type"),
            FlowError::UnsupportedImageType => String::from_str(
                "Only JPEG and PNG images are supported",
            ),
            FlowError::UnexpectedField { name } => joined("Unexpected field: ", name),
            FlowError::MultipartRead { detail } => joined("Failed to read multipart field: ", detail),
            FlowError::FileRead { detail } => joined("Failed to read file data: ", detail),
            FlowError::PromptRead { detail } => joined("Failed to read prompt text: ", detail),
            FlowError::NoFile => String::from_str("No file uploaded"),
            FlowError::ImageTooLarge => String::from_str("Image size exceeds 5MB limit"),
            FlowError::ImageCheck { detail } => joined("Invalid image data: ", detail),
            FlowError::MissingApiKey => String::from_str("Missing API key"),
            FlowError::ClientSetup { detail } => joined("Failed to create HTTP client: ", detail),
            FlowError::Serialize { detail } => joined("Failed to serialize request: ", detail),
            FlowError::RetriesExhausted { detail } => joined("Request failed after retries: ", detail),
            FlowError::ResponseRead { detail } => joined("Failed to read response body: ", detail),
            FlowError::Upstream { status, message } => {
                let code = decimal_string(*status);
                let head = joined("API error: status ", &code);
                let tail = joined(", body: ", message);
                head.concat(tail.as_str())
            },
            FlowError::ResponseParse { detail } => joined("JSON parse error: ", detail),
        }
    }
}

} // verus!
