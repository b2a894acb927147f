//! Failures of an API call.

use vstd::prelude::*;

verus! {

/// Why an API call did not yield a response value.
#[derive(Debug, Clone, PartialEq, Eq)]
pub enum ApiClientError {
    /// The request body could not be written in the wire format.
    SerializationError,
    /// No token could be obtained for the scopes of the call.
    AuthenticationFailure,
    /// The request could not be formed or the exchange did not complete.
    FailedToSendRequest,
    /// The remote end answered with a status outside the success range.
    /// `body` is the answer's body where it is UTF-8 text.
    RemoteError { status: u16, body: Option<String> },
    /// The answer reported success but its body is not the expected value.
    ResponseDecodeError,
}

/// An [`ApiClientError`] as plain values.
pub enum ApiClientErrorView {
    SerializationError,
    AuthenticationFailure,
    FailedToSendRequest,
    RemoteError { status: u16, body: Option<Seq<char>> },
    ResponseDecodeError,
}

impl View for ApiClientError {
    type V = ApiClientErrorView;

    open spec fn view(&self) -> ApiClientErrorView {
        match *self {
            ApiClientError::SerializationError => ApiClientErrorView::SerializationError,
            ApiClientError::AuthenticationFailure => ApiClientErrorView::AuthenticationFailure,
            ApiClientError::FailedToSendRequest => ApiClientErrorView::FailedToSendRequest,
            ApiClientError::RemoteError { status, body } => ApiClientErrorView::RemoteError {
                status,
                body: match body {
                    Some(text) => Some(text@),
                    None => None,
                },
            },
            ApiClientError::ResponseDecodeError => ApiClientErrorView::ResponseDecodeError,
        }
    }
}

impl ApiClientError {
    /// The status that the remote end answered with, for a remote error.
    pub fn status(&self) -> (status: Option<u16>)
        ensures
            status == match self@ {
                ApiClientErrorView::RemoteError { status, .. } => Some(status),
                _ => None,
            },
    {
        match self {
            ApiClientError::RemoteError { status, .. } => Some(*status),
            _ => None,
        }
    }

    /// Human-readable description of the error.
    pub fn message(&self) -> (text: &'static str)
        ensures
            text@ == match self@ {
                ApiClientErrorView::SerializationError => "Failed to serialize the request"@,
                ApiClientErrorView::AuthenticationFailure => "Failed to obtain an access token"@,
                ApiClientErrorView::FailedToSendRequest => "Failed to send the request"@,
                ApiClientErrorView::RemoteError { .. } => "The server answered with an error"@,
                ApiClientErrorView::ResponseDecodeError => "Failed to decode the response"@,
            },
    {
        match self {
            ApiClientError::SerializationError => "Failed to serialize the request",
            ApiClientError::AuthenticationFailure => "Failed to obtain an access token",
            ApiClientError::FailedToSendRequest => "Failed to send the request",
            ApiClientError::RemoteError { .. } => "The server answered with an error",
            ApiClientError::ResponseDecodeError => "Failed to decode the response",
        }
    }
}

} // verus!
