//! The failures that a navigation call can report.

use vstd::prelude::*;

verus! {

/// `std::io::Error`, carried through as an opaque value.
#[verifier::external_type_specification]
#[verifier::external_body]
pub struct ExIoError(std::io::Error);

/// `zip::result::ZipError`, carried through as an opaque value.
#[verifier::external_type_specification]
#[verifier::external_body]
pub struct ExZipError(zip::result::ZipError);

/// Why a call failed.
#[derive(Debug)]
pub enum Error {
    /// A file or directory could not be listed or read.
    Io(std::io::Error),
    /// A file that was taken for an archive is none, or the archive is
    /// damaged.
    Zip(zip::result::ZipError),
    /// A response was handed in that answers no outstanding request.
    Unexpected,
}

/// Renders a `std::io::Error` through its `Display` implementation. Nothing
/// is claimed of the text.
#[verifier::external_body]
fn io_error_text(e: &std::io::Error) -> String {
    format!("{}", e)
}

/// Renders a `zip::result::ZipError` through its `Display` implementation.
/// Nothing is claimed of the text.
#[verifier::external_body]
fn zip_error_text(e: &zip::result::ZipError) -> String {
    format!("{}", e)
}

impl Error {
    /// The text shown to the user when a response answers no request.
    pub open spec fn unexpected_text() -> Seq<char> {
        "response does not answer a pending request"@
    }

    /// A description of the failure for display. For a failure of the
    /// file system or of the archive reader it is the text that the
    /// underlying error prints.
    pub fn message(&self) -> (text: String)
        ensures
            self is Unexpected ==> text@ == Error::unexpected_text(),
    {
        match self {
            Error::Io(e) => io_error_text(e),
            Error::Zip(e) => zip_error_text(e),
            Error::Unexpected => "response does not answer a pending request".to_owned(),
        }
    }
}

} // verus!
