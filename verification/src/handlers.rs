//! The three handlers. Each maps one request to one response and touches
//! nothing else.

use vstd::prelude::*;
use vstd::string::*;
use crate::response::{ok_with, Response};

verus! {

/// Body of the greeting at `/`.
pub open spec fn hello_body() -> Seq<u8> {
    "Hello world!".spec_bytes()
}

/// Body of the greeting at `/hey`.
pub open spec fn hey_body() -> Seq<u8> {
    "Hey there!".spec_bytes()
}

/// Greets: `200 OK` with the text `Hello world!`.
pub fn hello() -> (res: Response)
    ensures
        res@ == ok_with(hello_body()),
{
    Response::ok("Hello world!".as_bytes_vec())
}

/// Echoes: `200 OK` with the request body handed back unchanged, whatever
/// bytes it holds and however many.
pub fn echo(req_body: Vec<u8>) -> (res: Response)
    ensures
        res@ == ok_with(req_body@),
{
    Response::ok(req_body)
}

/// Greets again: `200 OK` with the text `Hey there!`.
pub fn manual_hello() -> (res: Response)
    ensures
        res@ == ok_with(hey_body()),
{
    Response::ok("Hey there!".as_bytes_vec())
}

} // verus!
