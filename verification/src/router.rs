//! The route table, and the dispatch of a request to its handler.
//!
//! A request is matched on its method and its path together, both compared
//! exactly. Three pairs are routed; every other request is answered with
//! `404 Not Found`.

use vstd::prelude::*;
use crate::handlers::{echo, hello, hello_body, hey_body, manual_hello};
use crate::response::{not_found_view, ok_with, Response, ResponseView};
use crate::text::str_eq;

verus! {

/// A row of the route table.
#[derive(Clone, Copy, Debug, PartialEq, Eq, Structural)]
pub enum Route {
    /// `GET /`
    Hello,
    /// `POST /echo`
    Echo,
    /// `GET /hey`
    Hey,
}

/// The route table: the row that takes `method` and `path`, if there is one.
pub open spec fn route_for(method: Seq<char>, path: Seq<char>) -> Option<Route> {
    if method == "GET"@ && path == "/"@ {
        Some(Route::Hello)
    } else if method == "POST"@ && path == "/echo"@ {
        Some(Route::Echo)
    } else if method == "GET"@ && path == "/hey"@ {
        Some(Route::Hey)
    } else {
        None
    }
}

/// What the server answers to a request with this method, path and body.
pub open spec fn response_for(method: Seq<char>, path: Seq<char>, body: Seq<u8>) -> ResponseView {
    match route_for(method, path) {
        Some(Route::Hello) => ok_with(hello_body()),
        Some(Route::Echo) => ok_with(body),
        Some(Route::Hey) => ok_with(hey_body()),
        None => not_found_view(),
    }
}

/// Looks a request up in the route table.
pub fn route(method: &str, path: &str) -> (found: Option<Route>)
    ensures
        found == route_for(method@, path@),
{
    if str_eq(method, "GET") && str_eq(path, "/") {
        Some(Route::Hello)
    } else if str_eq(method, "POST") && str_eq(path, "/echo") {
        Some(Route::Echo)
    } else if str_eq(method, "GET") && str_eq(path, "/hey") {
        Some(Route::Hey)
    } else {
        None
    }
}

/// Answers a request: runs the handler of the route it falls on, or answers
/// `404 Not Found` where it falls on none. The body is read by the echo route
/// only.
pub fn respond(method: &str, path: &str, body: Vec<u8>) -> (res: Response)
    ensures
        res@ == response_for(method@, path@, body@),
{
    match route(method, path) {
        Some(Route::Hello) => hello(),
        Some(Route::Echo) => echo(body),
        Some(Route::Hey) => manual_hello(),
        None => Response::not_found(),
    }
}

/// The three rows of the table do not shadow one another: each routed pair
/// reaches its own row.
pub proof fn lemma_table_rows()
    ensures
        route_for("GET"@, "/"@) == Some(Route::Hello),
        route_for("POST"@, "/echo"@) == Some(Route::Echo),
        route_for("GET"@, "/hey"@) == Some(Route::Hey),
{
    reveal_strlit("GET");
    reveal_strlit("POST");
    reveal_strlit("/");
    reveal_strlit("/echo");
    reveal_strlit("/hey");
    assert("GET"@.len() != "POST"@.len());
    assert("/"@.len() != "/hey"@.len());
}

/// Echo is the identity on bodies: a `POST` to `/echo` is answered `200 OK`
/// with exactly the bytes that were sent, for every sequence of bytes, the
/// empty one included.
pub proof fn lemma_echo_returns_body(body: Seq<u8>)
    ensures
        response_for("POST"@, "/echo"@, body) == ok_with(body),
        response_for("POST"@, "/echo"@, body).status == 200,
        response_for("POST"@, "/echo"@, body).body == body,
{
    lemma_table_rows();
}

/// A request that is none of the three routed pairs is answered
/// `404 Not Found`, and only such a request is.
pub proof fn lemma_not_found_iff_unrouted(method: Seq<char>, path: Seq<char>, body: Seq<u8>)
    ensures
        response_for(method, path, body).status == 404 <==> !({
            ||| method == "GET"@ && path == "/"@
            ||| method == "POST"@ && path == "/echo"@
            ||| method == "GET"@ && path == "/hey"@
        }),
        response_for(method, path, body).status != 404 ==> response_for(method, path, body).status
            == 200,
{
}

} // verus!
