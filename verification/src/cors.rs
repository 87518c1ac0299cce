//! The cross-origin policy: who may read this server's responses from a
//! browser, with which methods and request headers, and for how long a
//! browser may remember the answer.
//!
//! The policy is enforced by the `actix-cors` middleware. What is decided
//! here, and proved, is the policy itself: the one origin that is let in, and
//! the lists that the middleware is built with. What each builder call of
//! actix-cors does with what it is handed is taken on trust, as stated above
//! each call.

use actix_cors::Cors;
use vstd::prelude::*;
use vstd::string::*;
use vstd::utf8::encode_utf8;
use crate::text::{bytes_eq, lemma_same_bytes_same_text};

verus! {

/// The one origin whose pages may read the responses.
pub const ALLOWED_ORIGIN: &'static str = "http://localhost:3000";

/// Seconds for which a browser may cache the answer to a preflight request.
pub const MAX_AGE_SECS: usize = 3600;

/// `Cors` of actix-cors, the builder of the middleware. Its fields are
/// private to actix-cors: what the contracts of this module say of a builder,
/// they say through the four names that follow, and none of it is proved.
#[verifier::external_type_specification]
#[verifier::external_body]
pub struct ExCors(Cors);

/// The methods on the builder's list of allowed methods, each by its name as
/// `Method::as_str` of the http crate spells it.
pub uninterp spec fn allowed_method_names(cors: Cors) -> Set<Seq<char>>;

/// The request headers on the builder's list of allowed headers, each by its
/// name in lower case, as `HeaderName::as_str` spells it. The list is empty
/// while the builder allows no header, and also while it allows any header,
/// which no function of this module asks of it.
pub uninterp spec fn allowed_header_names(cors: Cors) -> Set<Seq<char>>;

/// The builder's maximum age in seconds, if it has one.
pub uninterp spec fn max_age_of(cors: Cors) -> Option<usize>;

/// Whether the builder still takes settings: none given so far was refused,
/// and no middleware made from it holds on to its lists. A builder that
/// refused a setting ignores every later one and yields no middleware.
pub uninterp spec fn takes_settings(cors: Cors) -> bool;

/// The nine methods that the http crate knows by name.
pub open spec fn standard_method(name: Seq<char>) -> bool {
    ||| name == "GET"@
    ||| name == "POST"@
    ||| name == "PUT"@
    ||| name == "DELETE"@
    ||| name == "HEAD"@
    ||| name == "OPTIONS"@
    ||| name == "CONNECT"@
    ||| name == "PATCH"@
    ||| name == "TRACE"@
}

/// A letter, a digit or a hyphen.
pub open spec fn header_letter(c: char) -> bool {
    ('a' <= c && c <= 'z') || ('A' <= c && c <= 'Z') || ('0' <= c && c <= '9') || c == '-'
}

/// A header name of at most 64 letters, digits and hyphens. Every such name
/// is a valid header name.
pub open spec fn plain_header_name(name: Seq<char>) -> bool {
    &&& 1 <= name.len() <= 64
    &&& forall|i: int| 0 <= i < name.len() ==> header_letter(#[trigger] name[i])
}

/// `c` with a capital letter of `A` to `Z` replaced by its small letter.
pub open spec fn lower(c: char) -> char {
    if 'A' <= c && c <= 'Z' {
        ((c as u8) + 32) as char
    } else {
        c
    }
}

/// `name` in lower case.
pub open spec fn ascii_lower(name: Seq<char>) -> Seq<char> {
    Seq::new(name.len(), |i: int| lower(name[i]))
}

/// The names in `list`, as a set.
pub open spec fn names_of(list: Seq<&'static str>) -> Set<Seq<char>> {
    Set::new(|name: Seq<char>| exists|i: int| 0 <= i < list.len() && (#[trigger] list[i])@ == name)
}

/// The names in `list` in lower case, as a set.
pub open spec fn lowered_names_of(list: Seq<&'static str>) -> Set<Seq<char>> {
    Set::new(
        |name: Seq<char>|
            exists|i: int| 0 <= i < list.len() && ascii_lower((#[trigger] list[i])@) == name,
    )
}

/// The policy on origins: `origin`, the bytes of a request's `Origin` header,
/// is let in exactly when it spells the allowed origin.
pub open spec fn origin_permitted(origin: Seq<u8>) -> bool {
    origin == ALLOWED_ORIGIN.spec_bytes()
}

/// Decides whether a request's `Origin` header names the allowed origin. The
/// comparison is exact, byte for byte: case matters, and so do a trailing
/// slash, a different port and a different scheme.
pub fn origin_allowed(origin: &[u8]) -> (allowed: bool)
    ensures
        allowed == origin_permitted(origin@),
{
    bytes_eq(origin, ALLOWED_ORIGIN.as_bytes())
}

/// The methods that a cross-origin request may use: `GET` and `POST`.
pub fn allowed_methods() -> (methods: Vec<&'static str>)
    ensures
        methods@.len() == 2,
        methods@[0]@ == "GET"@,
        methods@[1]@ == "POST"@,
{
    vec!["GET", "POST"]
}

/// The request headers that a cross-origin request may carry: `Content-Type`.
pub fn allowed_headers() -> (headers: Vec<&'static str>)
    ensures
        headers@.len() == 1,
        headers@[0]@ == "Content-Type"@,
{
    vec!["Content-Type"]
}

/// `Cors::default()` of actix-cors: a fresh builder that takes settings and
/// as yet lists no method and no request header, has no maximum age, and
/// allows no origin.
#[verifier::external_body]
fn restrictive() -> (out: Cors)
    ensures
        takes_settings(out),
        allowed_method_names(out) == Set::<Seq<char>>::empty(),
        allowed_header_names(out) == Set::<Seq<char>>::empty(),
        max_age_of(out) == None::<usize>,
{
    Cors::default()
}

/// `Cors::allowed_origin_fn` of actix-cors, with [`origin_allowed`] as the
/// function. The middleware calls it with the `Origin` header of each request
/// whose origin is not in its own list, which stays empty here, and echoes the
/// origin in `Access-Control-Allow-Origin` only where it returned `true`.
/// The contract claims only that the call leaves the builder's lists, its
/// maximum age and its readiness as they were.
#[verifier::external_body]
fn decide_origins_by_policy(cors: Cors) -> (out: Cors)
    ensures
        takes_settings(out) == takes_settings(cors),
        allowed_method_names(out) == allowed_method_names(cors),
        allowed_header_names(out) == allowed_header_names(cors),
        max_age_of(out) == max_age_of(cors),
{
    cors.allowed_origin_fn(|origin, _head| origin_allowed(origin.as_bytes()))
}

/// `Cors::allowed_methods` of actix-cors. The contract claims: a builder that
/// takes settings and is given standard method names adds exactly these to
/// its list of methods and goes on taking settings; the headers and the
/// maximum age are never touched. A name that is no method is not a panic:
/// the builder refuses it and takes no more settings, of which the contract
/// says nothing.
#[verifier::external_body]
fn allow_methods(cors: Cors, methods: Vec<&'static str>) -> (out: Cors)
    ensures
        takes_settings(cors) && (forall|i: int|
            0 <= i < methods@.len() ==> standard_method((#[trigger] methods@[i])@)) ==> {
            &&& takes_settings(out)
            &&& allowed_method_names(out) == allowed_method_names(cors).union(names_of(methods@))
        },
        allowed_header_names(out) == allowed_header_names(cors),
        max_age_of(out) == max_age_of(cors),
{
    cors.allowed_methods(methods)
}

/// `Cors::allowed_headers` of actix-cors. The contract claims: a builder that
/// takes settings and is given plain header names adds exactly these, in
/// lower case, to its list of request headers and goes on taking settings;
/// the methods and the maximum age are never touched. An invalid name is
/// refused as an invalid method is.
#[verifier::external_body]
fn allow_headers(cors: Cors, headers: Vec<&'static str>) -> (out: Cors)
    ensures
        takes_settings(cors) && (forall|i: int|
            0 <= i < headers@.len() ==> plain_header_name((#[trigger] headers@[i])@)) ==> {
            &&& takes_settings(out)
            &&& allowed_header_names(out) == allowed_header_names(cors).union(
                lowered_names_of(headers@),
            )
        },
        allowed_method_names(out) == allowed_method_names(cors),
        max_age_of(out) == max_age_of(cors),
{
    cors.allowed_headers(headers)
}

/// `Cors::max_age` of actix-cors. The contract claims: a builder that takes
/// settings has `seconds` as its maximum age afterwards and goes on taking
/// settings; the lists are never touched.
#[verifier::external_body]
fn cache_preflight_for(cors: Cors, seconds: usize) -> (out: Cors)
    ensures
        takes_settings(cors) ==> takes_settings(out) && max_age_of(out) == Some(seconds),
        allowed_method_names(out) == allowed_method_names(cors),
        allowed_header_names(out) == allowed_header_names(cors),
{
    cors.max_age(seconds)
}

/// `Content-Type` is a plain header name, and `content-type` in lower case.
pub proof fn lemma_content_type_name()
    ensures
        plain_header_name("Content-Type"@),
        ascii_lower("Content-Type"@) == "content-type"@,
{
    reveal_strlit("Content-Type");
    reveal_strlit("content-type");
    assert(ascii_lower("Content-Type"@) =~= "content-type"@);
}

/// Builds the middleware that enforces the policy. Origins are decided by
/// [`origin_allowed`]. Every setting is taken: the builder that comes back
/// lists the methods `GET` and `POST` and no other, the request header
/// `content-type` and no other, and lets a preflight answer be cached for
/// [`MAX_AGE_SECS`] seconds.
pub fn middleware() -> (cors: Cors)
    ensures
        takes_settings(cors),
        allowed_method_names(cors) == set!["GET"@, "POST"@],
        allowed_header_names(cors) == set!["content-type"@],
        max_age_of(cors) == Some(MAX_AGE_SECS),
{
    let cors = restrictive();
    let cors = decide_origins_by_policy(cors);
    let methods = allowed_methods();
    let headers = allowed_headers();
    proof {
        lemma_content_type_name();
        assert(names_of(methods@) =~= set!["GET"@, "POST"@]) by {
            assert(methods@[0]@ == "GET"@);
            assert(methods@[1]@ == "POST"@);
        }
        assert(lowered_names_of(headers@) =~= set!["content-type"@]) by {
            assert(ascii_lower(headers@[0]@) == "content-type"@);
        }
    }
    let cors = allow_methods(cors, methods);
    let cors = allow_headers(cors, headers);
    let cors = cache_preflight_for(cors, MAX_AGE_SECS);
    proof {
        assert(allowed_method_names(cors) =~= set!["GET"@, "POST"@]);
        assert(allowed_header_names(cors) =~= set!["content-type"@]);
    }
    cors
}

/// Only the configured origin is let in. An origin given as text is
/// permitted exactly when it is `http://localhost:3000`, character for
/// character; so a request from any other origin is never told that its
/// origin is allowed.
pub proof fn lemma_only_configured_origin(origin: Seq<char>)
    ensures
        origin_permitted(encode_utf8(origin)) <==> origin == ALLOWED_ORIGIN@,
{
    lemma_same_bytes_same_text(origin, ALLOWED_ORIGIN@);
}

} // verus!
