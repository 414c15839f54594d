//! What the service sends back: a status code and a body.

use vstd::prelude::*;

verus! {

/// Status of a request that was served.
pub const STATUS_OK: u16 = 200;

/// Status of a request whose URI could not be understood.
pub const STATUS_BAD_REQUEST: u16 = 400;

/// Status of a request for something that is not there.
pub const STATUS_NOT_FOUND: u16 = 404;

/// Status of a failure that has no status of its own.
pub const STATUS_INTERNAL_SERVER_ERROR: u16 = 500;

/// A response as contracts speak of it.
pub struct ResponseView {
    pub status: u16,
    pub body: Seq<u8>,
}

/// A response of the service, ready to be put on the wire.
#[derive(Debug, PartialEq, Eq)]
pub struct HttpResponse {
    pub status: u16,
    pub body: Vec<u8>,
}

impl View for HttpResponse {
    type V = ResponseView;

    open spec fn view(&self) -> ResponseView {
        ResponseView { status: self.status, body: self.body@ }
    }
}

/// The response with `status` and nothing in its body.
pub open spec fn empty_response(status: u16) -> ResponseView {
    ResponseView { status, body: Seq::<u8>::empty() }
}

impl HttpResponse {
    /// A response with the given status and body.
    pub fn new(status: u16, body: Vec<u8>) -> (response: Self)
        ensures
            response@ == (ResponseView { status, body: body@ }),
    {
        HttpResponse { status, body }
    }

    /// A response with the given status and an empty body.
    pub fn empty(status: u16) -> (response: Self)
        ensures
            response@ == empty_response(status),
    {
        HttpResponse { status, body: Vec::new() }
    }
}

} // verus!
