//! The complete responses with which the relay answers a failed request.

use vstd::prelude::*;
use vstd::string::*;
use vstd::utf8::encode_utf8;
use crate::error::RelayError;
use crate::message::{HeaderField, HeaderModel, HeadModel, ResponseHead};

verus! {

/// A response that is sent whole: head and body at once.
#[derive(Debug, Clone, PartialEq, Eq)]
pub struct ErrorResponse {
    pub head: ResponseHead,
    pub body: Vec<u8>,
}

/// What an [`ErrorResponse`] stands for in contracts.
pub struct ErrorResponseModel {
    pub head: HeadModel,
    pub body: Seq<u8>,
}

impl View for ErrorResponse {
    type V = ErrorResponseModel;

    open spec fn view(&self) -> ErrorResponseModel {
        ErrorResponseModel { head: self.head@, body: self.body@ }
    }
}

/// The header line `content-type: text/plain`.
pub open spec fn plain_text_header() -> HeaderModel {
    HeaderModel { name: "content-type"@, value: "text/plain".spec_bytes() }
}

/// The plain-text response with the given status whose body is `message` in UTF-8.
pub open spec fn error_response(status: u16, message: Seq<char>) -> ErrorResponseModel {
    ErrorResponseModel {
        head: HeadModel { status, headers: seq![plain_text_header()] },
        body: encode_utf8(message),
    }
}

/// The response that a client is shown for `error`, where it is shown one.
pub open spec fn client_response_model(error: RelayError) -> Option<ErrorResponseModel> {
    match error {
        RelayError::MissingDestination => Some(
            error_response(400, "Missing destination query parameter"@),
        ),
        RelayError::InvalidDestination => Some(error_response(400, "Invalid destination URL"@)),
        RelayError::UpstreamUnreachable => Some(
            error_response(500, "Failed to fetch the destination URL"@),
        ),
        RelayError::RelayInterrupted => None,
    }
}

/// Builds the plain-text response that carries `message` under `status`.
pub fn create_error_response(status: u16, message: &str) -> (response: ErrorResponse)
    ensures
        response@ == error_response(status, message@),
{
    let content_type = HeaderField::new("content-type", "text/plain".as_bytes());
    let mut headers: Vec<HeaderField> = Vec::new();
    headers.push(content_type);
    let response = ErrorResponse {
        head: ResponseHead { status, headers },
        body: message.as_bytes_vec(),
    };
    assert(response@.head.headers =~= seq![plain_text_header()]);
    response
}

impl RelayError {
    /// The response that tells the client of this error.
    ///
    /// An interrupted relay has none: by then the head of another response is
    /// already on the wire.
    pub fn client_response(self) -> (response: Option<ErrorResponse>)
        ensures
            match response {
                Some(r) => client_response_model(self) == Some(r@),
                None => client_response_model(self) is None,
            },
    {
        match self {
            RelayError::MissingDestination => Some(
                create_error_response(400, "Missing destination query parameter"),
            ),
            RelayError::InvalidDestination => Some(
                create_error_response(400, "Invalid destination URL"),
            ),
            RelayError::UpstreamUnreachable => Some(
                create_error_response(500, "Failed to fetch the destination URL"),
            ),
            RelayError::RelayInterrupted => None,
        }
    }
}

} // verus!
