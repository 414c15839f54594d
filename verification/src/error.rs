//! The failures of the shuffle manager, and the response that each one
//! becomes when it reaches a remote peer.

use vstd::prelude::*;
use vstd::string::StringExecFns;
use vstd::string::StrSliceExecFns;
use vstd::utf8::encode_utf8;
use crate::response::empty_response;
use crate::response::HttpResponse;
use crate::response::ResponseView;
use crate::response::STATUS_BAD_REQUEST;
use crate::response::STATUS_INTERNAL_SERVER_ERROR;
use crate::response::STATUS_NOT_FOUND;

verus! {

/// Everything that can go wrong while the manager is set up or a request
/// is served.
#[derive(Debug, PartialEq, Eq)]
pub enum ShuffleManagerError {
    /// Every candidate name for the working directory was taken.
    CouldNotCreateShuffleDir,
    /// The request's URI, given here, names no endpoint of the service.
    FailedToParseUri(String),
    /// The server did not come up.
    FailedToStart,
    /// No port could be bound; the port given is the last one tried.
    FreePortNotFound(u16),
    /// The cache holds nothing under the requested coordinate.
    RequestedCacheNotFound,
    /// The endpoint is none that the service offers.
    NotValidEndpoint,
}

/// An error as contracts speak of it: the text it carries is a sequence of
/// characters.
pub enum ErrorView {
    CouldNotCreateShuffleDir,
    FailedToParseUri(Seq<char>),
    FailedToStart,
    FreePortNotFound(u16),
    RequestedCacheNotFound,
    NotValidEndpoint,
}

impl View for ShuffleManagerError {
    type V = ErrorView;

    open spec fn view(&self) -> ErrorView {
        match self {
            ShuffleManagerError::CouldNotCreateShuffleDir => ErrorView::CouldNotCreateShuffleDir,
            ShuffleManagerError::FailedToParseUri(uri) => ErrorView::FailedToParseUri(uri@),
            ShuffleManagerError::FailedToStart => ErrorView::FailedToStart,
            ShuffleManagerError::FreePortNotFound(port) => ErrorView::FreePortNotFound(*port),
            ShuffleManagerError::RequestedCacheNotFound => ErrorView::RequestedCacheNotFound,
            ShuffleManagerError::NotValidEndpoint => ErrorView::NotValidEndpoint,
        }
    }
}

/// The body of the response to a request whose URI was not understood.
pub open spec fn parse_failure_body(uri: Seq<char>) -> Seq<u8> {
    encode_utf8("Failed to parse: "@ + uri)
}

/// The response that tells a peer of `error`.
pub open spec fn error_response(error: ErrorView) -> ResponseView {
    match error {
        ErrorView::FailedToStart => empty_response(STATUS_NOT_FOUND),
        ErrorView::FailedToParseUri(uri) => ResponseView {
            status: STATUS_BAD_REQUEST,
            body: parse_failure_body(uri),
        },
        ErrorView::RequestedCacheNotFound => empty_response(STATUS_NOT_FOUND),
        _ => empty_response(STATUS_INTERNAL_SERVER_ERROR),
    }
}

impl ShuffleManagerError {
    /// Turns the error into the response that is sent for it: 400 with a
    /// diagnostic text for a URI that was not understood, 404 for a block
    /// that is not cached and for a server that did not start, 500 for
    /// everything else.
    pub fn into_response(self) -> (response: HttpResponse)
        ensures
            response@ == error_response(self@),
    {
        match self {
            ShuffleManagerError::FailedToStart => HttpResponse::empty(STATUS_NOT_FOUND),
            ShuffleManagerError::FailedToParseUri(uri) => {
                let mut text = String::from_str("Failed to parse: ");
                text.append(uri.as_str());
                HttpResponse::new(STATUS_BAD_REQUEST, text.as_str().as_bytes_vec())
            },
            ShuffleManagerError::RequestedCacheNotFound => HttpResponse::empty(STATUS_NOT_FOUND),
            _ => HttpResponse::empty(STATUS_INTERNAL_SERVER_ERROR),
        }
    }
}

} // verus!
