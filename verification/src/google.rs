//! Message types of the service and the classification of its responses.

pub mod error;
pub mod iam;
pub mod protobuf;
pub mod storage;

use crate::error::{Error, ErrorView};
use crate::google::error::{envelope_spec, ErrorResponse, ErrorResponseView};
use crate::json::{json_document, parse_json};
use vstd::prelude::*;

verus! {

/// What came back from the service: the status and the body.
#[derive(Clone, Debug, Default, PartialEq, Eq)]
pub struct Response {
    pub status: u16,
    pub body: Vec<u8>,
}

/// Whether `status` reports success.
pub open spec fn is_success(status: u16) -> bool {
    200 <= status <= 299
}

/// The error body that `body` holds, if it holds one.
pub open spec fn error_body(body: Seq<u8>) -> Option<ErrorResponseView> {
    match json_document(body) {
        Some(json) => envelope_spec(json),
        None => None,
    }
}

/// The failure that a response with a failure status stands for: the error body
/// where one was read, the bare status where none was.
pub open spec fn failure_spec(status: u16, decoded: Option<ErrorResponseView>) -> ErrorView {
    match decoded {
        Some(body) => ErrorView::Google(body),
        None => ErrorView::HttpStatus(status),
    }
}

/// Reads the error body of a response.
pub fn decode_error(body: &[u8]) -> (decoded: Option<ErrorResponse>)
    ensures
        match decoded {
            Some(found) => error_body(body@) == Some(found@),
            None => error_body(body@) is None,
        },
{
    match parse_json(body) {
        Some(json) => ErrorResponse::from_json(&json),
        None => None,
    }
}

/// The failure that a failure status and what was read of the body stand for.
/// That the body could not be read never hides the failure.
pub fn failure(status: u16, decoded: Option<ErrorResponse>) -> (error: Error)
    ensures
        error@ == failure_spec(
            status,
            match decoded {
                Some(body) => Some(body@),
                None => None,
            },
        ),
{
    match decoded {
        Some(source) => Error::Google { source },
        None => Error::HttpStatus { status },
    }
}

/// Tells a successful response from a failed one.
pub fn into_google_response(response: Response) -> (result: Result<Response, Error>)
    ensures
        match result {
            Ok(passed) => is_success(response.status) && passed == response,
            Err(error) => !is_success(response.status) && error@ == failure_spec(
                response.status,
                error_body(response.body@),
            ),
        },
{
    if 200 <= response.status && response.status <= 299 {
        Ok(response)
    } else {
        let decoded = decode_error(response.body.as_slice());
        Err(failure(response.status, decoded))
    }
}

} // verus!
