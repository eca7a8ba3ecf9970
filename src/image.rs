//! Turning what was read at a path into a validated image.
use vstd::prelude::*;
use vstd::string::*;
use crate::format::{ImageFormat, detect, detected_format};

verus! {

/// What reading a path gave.
#[derive(Debug)]
pub enum ReadOutcome {
    /// Nothing exists at the path.
    Missing,
    /// The path exists but could not be read; holds the reason.
    Unreadable(String),
    /// The file's bytes.
    Bytes(Vec<u8>),
}

/// Why one input path was rejected; the path is kept for the report.
#[derive(Debug)]
pub enum ValidationError {
    NotFound(String),
    ReadError(String, String),
    UnrecognizedFormat(String),
}

impl ValidationError {
    pub open spec fn spec_message(&self) -> Seq<char> {
        match self {
            ValidationError::NotFound(p) => "File not found: "@ + p@,
            ValidationError::ReadError(p, d) => "Cannot read file '"@ + p@ + "': "@ + d@,
            ValidationError::UnrecognizedFormat(p) => "Not a valid image format (expected JPEG, PNG, WebP, or GIF): "@
                + p@,
        }
    }

    /// The diagnostic text of the error.
    pub fn message(&self) -> (r: String)
        ensures
            r@ == self.spec_message(),
    {
        match self {
            ValidationError::NotFound(p) => String::from_str("File not found: ").concat(p.as_str()),
            ValidationError::ReadError(p, d) => String::from_str("Cannot read file '").concat(
                p.as_str(),
            ).concat("': ").concat(d.as_str()),
            ValidationError::UnrecognizedFormat(p) => String::from_str(
                "Not a valid image format (expected JPEG, PNG, WebP, or GIF): ",
            ).concat(p.as_str()),
        }
    }
}

/// Image bytes together with the format that sniffing found in them.
#[derive(Debug)]
pub struct ValidatedImage {
    data: Vec<u8>,
    format: ImageFormat,
}

impl ValidatedImage {
    pub closed spec fn bytes(&self) -> Seq<u8> {
        self.data@
    }

    pub closed spec fn spec_format(&self) -> ImageFormat {
        self.format
    }

    /// The format is the one that the bytes show.
    pub open spec fn wf(&self) -> bool {
        detected_format(self.bytes()) == Some(self.spec_format())
    }

    pub fn data(&self) -> (r: &Vec<u8>)
        ensures
            r@ == self.bytes(),
    {
        &self.data
    }

    pub fn format(&self) -> (r: ImageFormat)
        ensures
            r == self.spec_format(),
    {
        self.format
    }

    pub fn len(&self) -> (r: usize)
        ensures
            r == self.bytes().len(),
    {
        self.data.len()
    }
}

/// Validates what was read at `path`: a missing file, an unreadable one and
/// bytes of no known image format each give their own error; otherwise the
/// bytes are kept with their format.
pub fn validate_image(path: &str, read: ReadOutcome) -> (r: Result<ValidatedImage, ValidationError>)
    ensures
        read is Missing ==> (r matches Err(ValidationError::NotFound(p)) && p@ == path@),
        read matches ReadOutcome::Unreadable(e) ==> (r matches Err(
            ValidationError::ReadError(p, d),
        ) && p@ == path@ && d@ == e@),
        read matches ReadOutcome::Bytes(b) ==> (detected_format(b@) is None ==> (r matches Err(
            ValidationError::UnrecognizedFormat(p),
        ) && p@ == path@)),
        read matches ReadOutcome::Bytes(b) ==> (detected_format(b@) is Some ==> (r matches Ok(img)
            && img.wf() && img.bytes() == b@)),
{
    match read {
        ReadOutcome::Missing => Err(ValidationError::NotFound(String::from_str(path))),
        ReadOutcome::Unreadable(e) => Err(ValidationError::ReadError(String::from_str(path), e)),
        ReadOutcome::Bytes(b) => match detect(b.as_slice()) {
            Some(f) => Ok(ValidatedImage { data: b, format: f }),
            None => Err(ValidationError::UnrecognizedFormat(String::from_str(path))),
        },
    }
}

/// Validating is a function of the bytes read: two validations of the same
/// bytes agree on the format and on the length, and the bytes of a validated
/// image show its format again when sniffed anew.
pub proof fn lemma_validation_idempotent(b: Seq<u8>, first: ValidatedImage, second: ValidatedImage)
    requires
        first.wf(),
        second.wf(),
        first.bytes() == b,
        second.bytes() == b,
    ensures
        first.spec_format() == second.spec_format(),
        first.bytes().len() == second.bytes().len(),
        detected_format(first.bytes()) == Some(first.spec_format()),
{
}

} // verus!
