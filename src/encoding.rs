//! Standard, padded base64 for image bytes, and the data URL that carries them.
use vstd::prelude::*;
use crate::error::FlowError;
use crate::upload::ImageFormat;
use base64::Engine;

verus! {

/// base64's decoding error, carried through unopened.
#[verifier::external_type_specification]
#[verifier::external_body]
pub struct ExDecodeError(base64::DecodeError);

/// The standard, padded base64 text of `bytes`.
pub uninterp spec fn base64_of(bytes: Seq<u8>) -> Seq<char>;

/// The length of padded base64 text for `n` bytes: four characters for each
/// started group of three bytes.
pub open spec fn base64_len(n: nat) -> nat {
    4 * ((n + 2) / 3)
}

/// Relies on base64's `STANDARD.encode`: the padded standard encoding, whose
/// length `encoded_len` gives. It panics only where that length does not fit
/// in `usize`, far above the bound required here.
#[verifier::external_body]
fn encode_standard(bytes: &[u8]) -> (r: String)
    requires
        bytes@.len() <= usize::MAX / 2,
    ensures
        r@ == base64_of(bytes@),
        r@.len() == base64_len(bytes@.len()),
{
    base64::engine::general_purpose::STANDARD.encode(bytes)
}

/// Relies on base64's `STANDARD.decode`: text that `STANDARD.encode` produced
/// decodes to the bytes it was produced from.
#[verifier::external_body]
fn decode_standard(text: &str) -> (r: Result<Vec<u8>, base64::DecodeError>)
    ensures
        forall|b: Seq<u8>| #[trigger] base64_of(b) == text@ ==> (r is Ok && r->Ok_0@ == b),
{
    base64::engine::general_purpose::STANDARD.decode(text)
}

/// Relies on the `Display` text of base64's `DecodeError`.
#[verifier::external_body]
fn decode_error_text(e: &base64::DecodeError) -> (r: String) {
    e.to_string()
}

/// Encodes image bytes to base64 and checks the text by decoding it again;
/// a text that does not decode is an internal fault. Encoding then decoding gives back the
/// bytes, so the check always passes and the text is the encoding of the
/// bytes.
pub fn encode_image(bytes: &Vec<u8>) -> (r: Result<String, FlowError>)
    requires
        bytes@.len() <= usize::MAX / 2,
    ensures
        r is Ok,
        r matches Ok(text) ==> text@ == base64_of(bytes@) && text@.len() == base64_len(bytes@.len()),
{
    let text = encode_standard(bytes.as_slice());
    match decode_standard(text.as_str()) {
        Ok(_) => Ok(text),
        Err(e) => Err(FlowError::ImageCheck { detail: decode_error_text(&e) }),
    }
}

/// The MIME subtype of a format.
pub open spec fn subtype_of(format: ImageFormat) -> Seq<char> {
    match format {
        ImageFormat::Jpeg => "jpeg"@,
        ImageFormat::Png => "png"@,
    }
}

/// `data:image/<subtype>;base64,<payload>`.
pub open spec fn data_url_of(format: ImageFormat, payload: Seq<char>) -> Seq<char> {
    "data:image/"@ + subtype_of(format) + ";base64,"@ + payload
}

/// Builds the data URL that embeds base64 `payload` as an image of `format`.
pub fn data_url(format: ImageFormat, payload: &str) -> (r: String)
    ensures
        r@ == data_url_of(format, payload@),
{
    let subtype = match format {
        ImageFormat::Jpeg => "jpeg",
        ImageFormat::Png => "png",
    };
    proof {
        reveal_strlit("jpeg");
        reveal_strlit("png");
    }
    String::from_str("data:image/").concat(subtype).concat(";base64,").concat(payload)
}

} // verus!
