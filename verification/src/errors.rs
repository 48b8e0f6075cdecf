//! Error taxonomy of the upload pipeline.
//!
//! Protocol errors (a content type other than `multipart/form-data`, or a
//! missing boundary parameter) are the client's fault and map to HTTP 400.
//! A request whose registered files all fail conversion, or that registers
//! no file at all, ends with `NoArtifact` and maps to HTTP 500.

use vstd::prelude::*;
use vstd::string::StringExecFns;

verus! {

/// A failure that ends the request as a whole. Per-part spool failures and
/// per-file conversion failures are recorded as outcomes instead (see
/// `parts::SpoolOutcome` and `convert::ConversionOutcome`) and never abort
/// their siblings.
#[derive(Clone, Copy, Debug, PartialEq, Eq, Structural)]
pub enum UploadError {
    /// The request's content type is not `multipart/form-data`.
    UnsupportedMediaType,
    /// The content type carries no non-empty `boundary` parameter.
    MissingBoundary,
    /// No registered file was converted successfully.
    NoArtifact,
}

impl UploadError {
    /// Whether the error is the client's fault: reported before any part is
    /// spooled.
    pub open spec fn is_protocol_error(self) -> bool {
        self is UnsupportedMediaType || self is MissingBoundary
    }

    /// The HTTP status this error maps to.
    pub open spec fn status_spec(self) -> int {
        if self.is_protocol_error() {
            400
        } else {
            500
        }
    }

    /// HTTP status code: 400 for protocol errors, 500 otherwise.
    pub fn status_code(&self) -> (c: u16)
        ensures
            c as int == self.status_spec(),
    {
        match self {
            UploadError::UnsupportedMediaType => 400,
            UploadError::MissingBoundary => 400,
            UploadError::NoArtifact => 500,
        }
    }

    /// The text of the error as the response body carries it.
    pub open spec fn message_spec(self) -> Seq<char> {
        match self {
            UploadError::UnsupportedMediaType => "Content-Type not multipart/form-data"@,
            UploadError::MissingBoundary => "`Content-Type: multipart/form-data` boundary param not provided"@,
            UploadError::NoArtifact => "No files were converted."@,
        }
    }

    /// Renders the error's message.
    pub fn message(&self) -> (m: String)
        ensures
            m@ == self.message_spec(),
    {
        match self {
            UploadError::UnsupportedMediaType => String::from_str(
                "Content-Type not multipart/form-data",
            ),
            UploadError::MissingBoundary => String::from_str(
                "`Content-Type: multipart/form-data` boundary param not provided",
            ),
            UploadError::NoArtifact => String::from_str("No files were converted."),
        }
    }
}

} // verus!
