//! The error type shared by every dialog operation.

use vstd::prelude::*;

verus! {

/// The abstract shape of an [`Error`], used in contracts.
///
/// An I/O error and a UTF-8 error carry opaque payloads from the standard
/// library, so the model only records which kind of failure occurred; a
/// general failure keeps its message.
pub enum ErrorSpec {
    /// A general failure with its message.
    Failure(Seq<char>),
    /// An input or output failure.
    Io,
    /// Invalid UTF-8 in a tool's output.
    Utf8,
}

#[verifier::external_type_specification]
#[verifier::external_body]
pub struct ExIoError(std::io::Error);

#[verifier::external_type_specification]
#[verifier::external_body]
pub struct ExUtf8Error(std::str::Utf8Error);

/// An error returned by a dialog operation.
#[derive(Debug)]
pub enum Error {
    /// A general error with an error message.
    Error(String),
    /// An input or output error.
    IoError(std::io::Error),
    /// An UTF-8 error.
    Utf8Error(std::str::Utf8Error),
}

impl View for Error {
    type V = ErrorSpec;

    open spec fn view(&self) -> ErrorSpec {
        match self {
            Error::Error(msg) => ErrorSpec::Failure(msg@),
            Error::IoError(_) => ErrorSpec::Io,
            Error::Utf8Error(_) => ErrorSpec::Utf8,
        }
    }
}

impl DeepView for Error {
    type V = ErrorSpec;

    open spec fn deep_view(&self) -> ErrorSpec {
        self.view()
    }
}

} // verus!
