//! The response value that every handler produces.

use vstd::prelude::*;

verus! {

/// Status code of a successful response.
pub const STATUS_OK: u16 = 200;

/// Status code of the answer to a request that no route takes.
pub const STATUS_NOT_FOUND: u16 = 404;

/// An HTTP response reduced to what this server ever sets: a status code and
/// a body. No handler adds headers of its own.
#[derive(Debug, PartialEq, Eq)]
pub struct Response {
    pub status: u16,
    pub body: Vec<u8>,
}

/// The mathematical value of a [`Response`].
pub struct ResponseView {
    pub status: int,
    pub body: Seq<u8>,
}

impl View for Response {
    type V = ResponseView;

    open spec fn view(&self) -> ResponseView {
        ResponseView { status: self.status as int, body: self.body@ }
    }
}

/// The `200 OK` response that carries `body`.
pub open spec fn ok_with(body: Seq<u8>) -> ResponseView {
    ResponseView { status: STATUS_OK as int, body }
}

/// The `404 Not Found` response, which has an empty body.
pub open spec fn not_found_view() -> ResponseView {
    ResponseView { status: STATUS_NOT_FOUND as int, body: Seq::empty() }
}

impl Clone for Response {
    /// A copy with the same status and the same body.
    fn clone(&self) -> (res: Response)
        ensures
            res@ == self@,
    {
        Response { status: self.status, body: self.body.clone() }
    }
}

impl Response {
    /// A `200 OK` response with the given body, byte for byte.
    pub fn ok(body: Vec<u8>) -> (res: Response)
        ensures
            res@ == ok_with(body@),
    {
        Response { status: STATUS_OK, body }
    }

    /// The `404 Not Found` response.
    pub fn not_found() -> (res: Response)
        ensures
            res@ == not_found_view(),
    {
        Response { status: STATUS_NOT_FOUND, body: Vec::new() }
    }
}

} // verus!
