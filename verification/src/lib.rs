//! The request-handling core of a small HTTP greeting and echo server.
//!
//! Everything the server decides lives here as plain functions on plain
//! values: which route a request falls on, what each route answers, and which
//! origin may read the answers from a browser. The listener that feeds
//! requests in and sends responses out is left to the binary built on top.

use vstd::prelude::*;

pub mod cors;
pub mod handlers;
pub mod response;
pub mod router;
pub mod text;

pub use cors::{allowed_headers, allowed_methods, origin_allowed, ALLOWED_ORIGIN, MAX_AGE_SECS};
pub use handlers::{echo, hello, manual_hello};
pub use response::{Response, STATUS_NOT_FOUND, STATUS_OK};
pub use router::{respond, route, Route};

verus! {

/// Address on which the server listens: the loopback interface only.
pub const BIND_HOST: &'static str = "127.0.0.1";

/// Port on which the server listens.
pub const BIND_PORT: u16 = 8080;

} // verus!
