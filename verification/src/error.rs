//! The failures that the scanner distinguishes.

use crate::text::{decimal_string, join2, join3};
use vstd::prelude::*;
use vstd::string::StringExecFns;

verus! {

/// Everything that can go wrong, by category.
#[derive(Debug, PartialEq, Eq)]
pub enum ScannerError {
    /// The remote service answered with a status outside 200..=299.
    ApiError { status: u16, body: String },
    /// The request did not reach the remote service, or no answer came back.
    NetworkError(String),
    /// A JSON text could not be read.
    DecodeError(String),
    /// An answer was well-formed but made no sense.
    InvalidResponse(String),
    /// A storage backend failed.
    StorageError(String),
    /// The configuration is unusable, or a backend could not be set up.
    ConfigError(String),
}

/// Mathematical value of a [`ScannerError`].
pub enum ScannerErrorView {
    ApiError { status: u16, body: Seq<char> },
    NetworkError(Seq<char>),
    DecodeError(Seq<char>),
    InvalidResponse(Seq<char>),
    StorageError(Seq<char>),
    ConfigError(Seq<char>),
}

impl View for ScannerError {
    type V = ScannerErrorView;

    open spec fn view(&self) -> ScannerErrorView {
        match self {
            ScannerError::ApiError { status, body } => ScannerErrorView::ApiError {
                status: *status,
                body: body@,
            },
            ScannerError::NetworkError(m) => ScannerErrorView::NetworkError(m@),
            ScannerError::DecodeError(m) => ScannerErrorView::DecodeError(m@),
            ScannerError::InvalidResponse(m) => ScannerErrorView::InvalidResponse(m@),
            ScannerError::StorageError(m) => ScannerErrorView::StorageError(m@),
            ScannerError::ConfigError(m) => ScannerErrorView::ConfigError(m@),
        }
    }
}

/// The line that describes an error to a reader.
pub open spec fn error_text(e: ScannerErrorView) -> Seq<char> {
    match e {
        ScannerErrorView::ApiError { status, body } => "API request failed: HTTP "@
            + crate::text::decimal_text(status as nat) + ": "@ + body,
        ScannerErrorView::NetworkError(m) => "network error: "@ + m,
        ScannerErrorView::DecodeError(m) => "JSON decode error: "@ + m,
        ScannerErrorView::InvalidResponse(m) => "invalid response: "@ + m,
        ScannerErrorView::StorageError(m) => "storage error: "@ + m,
        ScannerErrorView::ConfigError(m) => "configuration error: "@ + m,
    }
}

impl ScannerError {
    /// The line that describes this error to a reader.
    pub fn message(&self) -> (r: String)
        ensures
            r@ == error_text(self@),
    {
        match self {
            ScannerError::ApiError { status, body } => {
                let code = decimal_string(*status as u64);
                let mut s = join3("API request failed: HTTP ", code.as_str(), ": ");
                s.append(body.as_str());
                s
            },
            ScannerError::NetworkError(m) => join2("network error: ", m.as_str()),
            ScannerError::DecodeError(m) => join2("JSON decode error: ", m.as_str()),
            ScannerError::InvalidResponse(m) => join2("invalid response: ", m.as_str()),
            ScannerError::StorageError(m) => join2("storage error: ", m.as_str()),
            ScannerError::ConfigError(m) => join2("configuration error: ", m.as_str()),
        }
    }
}

} // verus!
