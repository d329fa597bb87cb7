//! Validation of an image upload form, field by field in the order the fields
//! arrive.
use vstd::prelude::*;
use crate::error::{FlowError, status_of, BAD_REQUEST};

verus! {

/// The largest accepted image, in bytes.
pub const MAX_IMAGE_BYTES: usize = 5 * 1024 * 1024;

/// The two accepted image formats.
#[derive(PartialEq, Eq, Structural, Clone, Copy, Debug)]
pub enum ImageFormat {
    Jpeg,
    Png,
}

/// What a form field will be read as, once its header has been accepted.
#[derive(PartialEq, Eq, Structural, Clone, Copy, Debug)]
pub enum FieldKind {
    Image,
    Prompt,
}

/// Relies on str::starts_with: true exactly when `p` is a prefix of `s`.
#[verifier::external_body]
fn starts_with(s: &str, p: &str) -> (r: bool)
    ensures
        r == p@.is_prefix_of(s@),
{
    s.starts_with(p)
}

/// Relies on the equality of `str`: true exactly when both hold the same
/// characters.
#[verifier::external_body]
fn same_text(a: &str, b: &str) -> (r: bool)
    ensures
        r == (a@ == b@),
{
    a == b
}

/// The format that a content type names, if it names an accepted one.
pub open spec fn format_of(content_type: Seq<char>) -> Option<ImageFormat> {
    if "image/jpeg"@.is_prefix_of(content_type) {
        Some(ImageFormat::Jpeg)
    } else if "image/png"@.is_prefix_of(content_type) {
        Some(ImageFormat::Png)
    } else {
        None
    }
}

/// Reads the image format from a content type such as `image/jpeg` or
/// `image/png; q=1`.
pub fn image_format(content_type: &str) -> (r: Option<ImageFormat>)
    ensures
        r == format_of(content_type@),
{
    if starts_with(content_type, "image/jpeg") {
        Some(ImageFormat::Jpeg)
    } else if starts_with(content_type, "image/png") {
        Some(ImageFormat::Png)
    } else {
        None
    }
}

/// A validated upload: a non-empty image of at most the size limit, its
/// format, and a non-empty prompt.
pub struct ImageUpload {
    pub bytes: Vec<u8>,
    pub format: ImageFormat,
    pub prompt: String,
}

impl ImageUpload {
    pub open spec fn wf(&self) -> bool {
        &&& 0 < self.bytes@.len() <= MAX_IMAGE_BYTES
        &&& self.prompt@.len() > 0
    }
}

/// A form being read: the image bytes gathered so far, the format named by
/// the latest image field, and the latest prompt.
pub struct UploadForm {
    pub image: Vec<u8>,
    pub format: Option<ImageFormat>,
    pub prompt: String,
}

impl UploadForm {
    /// Image bytes are only ever gathered under an accepted format.
    pub open spec fn wf(&self) -> bool {
        self.image@.len() > 0 ==> self.format is Some
    }

    /// An empty form.
    pub fn new() -> (r: UploadForm)
        ensures
            r.wf(),
            r.image@.len() == 0,
            r.format is None,
            r.prompt@.len() == 0,
    {
        UploadForm { image: Vec::new(), format: None, prompt: String::new() }
    }

    /// Decides on a field from its name and content type, before its body is
    /// read. An image field must name JPEG or PNG; its format is then the one
    /// that later image bytes are taken as. Any name but `image` and
    /// `prompt` is refused.
    pub fn accept_field(&mut self, name: &str, content_type: Option<&str>) -> (r: Result<FieldKind, FlowError>)
        requires
            old(self).wf(),
        ensures
            final(self).wf(),
            name@ == "image"@ && content_type is None ==> r == Err::<FieldKind, FlowError>(
                FlowError::MissingContentType,
            ),
            name@ == "image"@ && content_type is Some && format_of(content_type->0@) is None ==> r
                == Err::<FieldKind, FlowError>(FlowError::UnsupportedImageType),
            name@ == "image"@ && content_type is Some && format_of(content_type->0@) is Some ==> r
                == Ok::<FieldKind, FlowError>(FieldKind::Image) && final(self).format == format_of(content_type->0@),
            name@ == "prompt"@ ==> r == Ok::<FieldKind, FlowError>(FieldKind::Prompt),
            name@ != "image"@ && name@ != "prompt"@ ==> (r matches Err(
                FlowError::UnexpectedField { name: n },
            ) && n@ == name@),
            final(self).image == old(self).image,
            final(self).prompt == old(self).prompt,
            r != Ok::<FieldKind, FlowError>(FieldKind::Image) ==> final(self).format == old(self).format,
    {
        proof {
            reveal_strlit("image");
            reveal_strlit("prompt");
            assert("image"@[0] != "prompt"@[0]);
        }
        if same_text(name, "image") {
            match content_type {
                None => Err(FlowError::MissingContentType),
                Some(ct) => match image_format(ct) {
                    Some(f) => {
                        self.format = Some(f);
                        Ok(FieldKind::Image)
                    },
                    None => Err(FlowError::UnsupportedImageType),
                },
            }
        } else if same_text(name, "prompt") {
            Ok(FieldKind::Prompt)
        } else {
            Err(FlowError::UnexpectedField { name: String::from_str(name) })
        }
    }

    /// Appends the body of an accepted image field.
    pub fn add_image_bytes(&mut self, data: &[u8])
        requires
            old(self).wf(),
            old(self).format is Some,
        ensures
            final(self).wf(),
            final(self).image@ == old(self).image@ + data@,
            final(self).format == old(self).format,
            final(self).prompt == old(self).prompt,
    {
        self.image.extend_from_slice(data);
        assert(self.image@ =~= old(self).image@ + data@);
    }

    /// Stores the text of a prompt field; a later prompt replaces an earlier one.
    pub fn set_prompt(&mut self, text: String)
        requires
            old(self).wf(),
        ensures
            final(self).wf(),
            final(self).prompt@ == text@,
            final(self).image == old(self).image,
            final(self).format == old(self).format,
    {
        self.prompt = text;
    }

    /// Checks the complete form: an image must have been uploaded, the
    /// prompt must not be empty, and the image must not exceed the size
    /// limit, in that order.
    pub fn finish(self) -> (r: Result<ImageUpload, FlowError>)
        requires
            self.wf(),
        ensures
            self.image@.len() == 0 ==> r == Err::<ImageUpload, FlowError>(FlowError::NoFile),
            self.image@.len() > 0 && self.prompt@.len() == 0 ==> r == Err::<ImageUpload, FlowError>(
                FlowError::NoPrompt,
            ),
            self.image@.len() > 0 && self.prompt@.len() > 0 && self.image@.len() > MAX_IMAGE_BYTES
                ==> r == Err::<ImageUpload, FlowError>(FlowError::ImageTooLarge),
            self.image@.len() > MAX_IMAGE_BYTES ==> (r is Err && status_of(r->Err_0) == BAD_REQUEST),
            r is Ok <==> 0 < self.image@.len() <= MAX_IMAGE_BYTES && self.prompt@.len() > 0,
            r matches Ok(u) ==> u.wf() && u.bytes@ == self.image@ && u.prompt@ == self.prompt@
                && self.format == Some(u.format),
    {
        if self.image.len() == 0 {
            return Err(FlowError::NoFile);
        }
        if self.prompt.as_str().is_empty() {
            return Err(FlowError::NoPrompt);
        }
        if self.image.len() > MAX_IMAGE_BYTES {
            return Err(FlowError::ImageTooLarge);
        }
        let format = self.format.unwrap();
        Ok(ImageUpload { bytes: self.image, format, prompt: self.prompt })
    }
}

} // verus!
