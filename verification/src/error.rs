//! The ways a call can fail.

use crate::google::error::{ErrorResponse, ErrorResponseView};
use crate::urls::{Url, UrlView};
use vstd::prelude::*;

verus! {

/// `url::ParseError`, carried as it came.
#[verifier::external_type_specification]
#[verifier::external_body]
pub struct ExParseError(url::ParseError);

/// Why a call did not yield a typed response.
#[derive(Debug)]
#[allow(inconsistent_fields)]
pub enum Error {
    /// The service answered with a failure status and a structured error body.
    Google { source: ErrorResponse },
    /// The service answered with a failure status and no readable error body.
    HttpStatus { status: u16 },
    /// The credential provider could not supply headers.
    Auth { message: String },
    /// No response was obtained.
    Transport { message: String },
    /// A request body could not be encoded, or a response body could not be decoded.
    Serialization { message: String },
    /// A URL or a reference to one could not be parsed.
    Url { source: url::ParseError },
    /// The URL cannot take path segments.
    InvalidRequestUrl { url: Url },
    /// Anything else, in words.
    Other { source: String },
}

/// An `Error` as contracts see it. Which parse error came is not modelled.
pub enum ErrorView {
    Google(ErrorResponseView),
    HttpStatus(u16),
    Auth(Seq<char>),
    Transport(Seq<char>),
    Serialization(Seq<char>),
    Url,
    InvalidRequestUrl(UrlView),
    Other(Seq<char>),
}

impl View for Error {
    type V = ErrorView;

    open spec fn view(&self) -> ErrorView {
        match *self {
            Error::Google { source } => ErrorView::Google(source@),
            Error::HttpStatus { status } => ErrorView::HttpStatus(status),
            Error::Auth { message } => ErrorView::Auth(message@),
            Error::Transport { message } => ErrorView::Transport(message@),
            Error::Serialization { message } => ErrorView::Serialization(message@),
            Error::Url { source } => ErrorView::Url,
            Error::InvalidRequestUrl { url } => ErrorView::InvalidRequestUrl(url@),
            Error::Other { source } => ErrorView::Other(source@),
        }
    }
}

} // verus!
