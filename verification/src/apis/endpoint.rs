//! What the endpoints of the APIs have in common: how their requests are
//! built, and how a resource that is not there is told from a failure.
use vstd::prelude::*;
use vstd::string::StringExecFns;
use vstd::string::StringSliceAdditionalSpecFns;
use vstd::utf8::{decode_utf8, encode_utf8};
use crate::common::IDEMPOTENCY_KEY_HEADER;
use crate::error::Error;
use crate::middlewares::retry_idempotent::spec_is_idempotent;
use crate::request::{
    copy_bytes, is_valid_value, lemma_first_line_push, lookup, Body, HeaderView, Headers, Method,
    Request,
};

verus! {

/// The status by which the server says that a resource does not exist.
pub const NOT_FOUND: u16 = 404;

/// A byte that stands for itself in a path: a letter, a digit, `-`, `.`,
/// `_` or `~`.
pub open spec fn is_unreserved(b: u8) -> bool {
    (0x30 <= b <= 0x39) || (0x41 <= b <= 0x5a) || (0x61 <= b <= 0x7a) || b == 0x2d || b == 0x2e
        || b == 0x5f || b == 0x7e
}

/// The upper case hexadecimal digit of a number below sixteen.
pub open spec fn hex_digit(d: u8) -> u8 {
    if d < 10 {
        (0x30 + d) as u8
    } else {
        (0x41 - 10 + d) as u8
    }
}

/// A byte as it stands in a path: itself if it is unreserved, else `%` and
/// its two hexadecimal digits.
pub open spec fn escaped(b: u8) -> Seq<u8> {
    if is_unreserved(b) {
        seq![b]
    } else {
        seq![0x25u8, hex_digit(b / 16), hex_digit(b % 16)]
    }
}

/// Bytes as they stand in a path, each escaped where it has to be.
pub open spec fn percent_encoded(data: Seq<u8>) -> Seq<u8>
    decreases data.len(),
{
    if data.len() == 0 {
        Seq::empty()
    } else {
        percent_encoded(data.drop_last()) + escaped(data.last())
    }
}

/// A text as it stands in a path.
pub open spec fn encoded_text(text: Seq<char>) -> Seq<char> {
    decode_utf8(percent_encoded(encode_utf8(text)))
}

/// A text as it stands in a path.
///
/// Trusted: `urlencoding::encode` percent-encodes every byte of the text
/// except alphanumerics and `-`, `_`, `.`, `~`, with upper case
/// hexadecimal digits.
#[verifier::external_body]
pub(crate) fn encode(text: &str) -> (r: String)
    ensures
        r@ == encoded_text(text@),
{
    urlencoding::encode(text).into_owned()
}

/// The path that holds an identifier between two fixed parts, the
/// identifier as it stands in a path.
pub fn path_with_id(before: &str, id: &str, after: &str) -> (r: String)
    ensures
        r@ == before@ + encoded_text(id@) + after@,
{
    let mut path = before.to_owned();
    path.append(encode(id).as_str());
    path.append(after);
    path
}

/// The path that ends in an identifier, the identifier as it stands in a
/// path.
pub fn path_to_id(before: &str, id: &str) -> (r: String)
    ensures
        r@ == before@ + encoded_text(id@),
{
    let mut path = before.to_owned();
    path.append(encode(id).as_str());
    path
}

/// The path that holds a text between two fixed parts, the text as it is.
pub fn path_with_raw(before: &str, text: &str, after: &str) -> (r: String)
    ensures
        r@ == before@ + text@ + after@,
{
    let mut path = before.to_owned();
    path.append(text);
    path.append(after);
    path
}

/// A byte of the text of a random identifier: a lower case hexadecimal
/// digit or a hyphen.
pub open spec fn is_key_byte(b: u8) -> bool {
    (0x30 <= b <= 0x39) || (0x61 <= b <= 0x66) || b == 0x2d
}

/// The bytes are those of the text of a random identifier: 36 lower case
/// hexadecimal digits and hyphens.
pub open spec fn is_key(key: Seq<u8>) -> bool {
    key.len() == 36 && forall|i: int| 0 <= i < key.len() ==> is_key_byte(#[trigger] key[i])
}

/// Draws a new idempotency key.
///
/// Trusted: `uuid::Uuid::new_v4` draws a random identifier, whose text is
/// hyphenated and in lower case: 36 characters. Nothing is said of which
/// identifier is drawn.
#[verifier::external_body]
fn new_uuid() -> (r: String)
    ensures
        is_key(encode_utf8(r@)),
{
    uuid::Uuid::new_v4().to_string()
}

/// The headers of a request that carries nothing but an idempotency key.
pub open spec fn key_headers(key: Seq<u8>) -> Seq<HeaderView> {
    seq![HeaderView { name: IDEMPOTENCY_KEY_HEADER.spec_bytes(), value: key, sensitive: false }]
}

/// A request that reads: `GET` on the given path, without headers and
/// without a body.
pub fn get(path: String) -> (r: Request)
    ensures
        r.method == Method::Get,
        r.path == path,
        r.query@.len() == 0,
        r.headers@.len() == 0,
        r.body == Body::Empty,
{
    Request { method: Method::Get, path, query: Vec::new(), headers: Headers::new(), body: Body::Empty }
}

/// A request that changes state under the given idempotency key.
pub fn with_key(method: Method, path: String, key: &str, body: Body) -> (r: Request)
    ensures
        r.method == method,
        r.path == path,
        r.query@.len() == 0,
        r.headers@ == key_headers(key.spec_bytes()),
        r.body == body,
{
    let mut headers = Headers::new();
    headers.insert(IDEMPOTENCY_KEY_HEADER, copy_bytes(key.as_bytes()), false);
    Request { method, path, query: Vec::new(), headers, body }
}

/// A request that creates or changes something: `POST` on the given path
/// with the given body, under an idempotency key of its own.
pub fn post(path: String, body: Vec<u8>) -> (r: Request)
    ensures
        r.method == Method::Post,
        r.path == path,
        r.query@.len() == 0,
        exists|key: Seq<u8>| is_key(key) && r.headers@ == #[trigger] key_headers(key),
        r.body == Body::Bytes(body),
{
    let key = new_uuid();
    with_key(Method::Post, path, key.as_str(), Body::Bytes(body))
}

/// A request that removes something: `DELETE` on the given path, without a
/// body, under an idempotency key of its own.
pub fn delete(path: String) -> (r: Request)
    ensures
        r.method == Method::Delete,
        r.path == path,
        r.query@.len() == 0,
        exists|key: Seq<u8>| is_key(key) && r.headers@ == #[trigger] key_headers(key),
        r.body == Body::Empty,
{
    let key = new_uuid();
    with_key(Method::Delete, path, key.as_str(), Body::Empty)
}

/// The request is a `POST` on `path` with `body`, under an idempotency key
/// of its own and nothing else.
pub open spec fn is_post(r: Request, path: Seq<char>, body: Vec<u8>) -> bool {
    &&& r.method == Method::Post
    &&& r.path@ == path
    &&& r.query@.len() == 0
    &&& exists|key: Seq<u8>| is_key(key) && r.headers@ == #[trigger] key_headers(key)
    &&& r.body == Body::Bytes(body)
}

/// The request is a `GET` on `path`, without query, headers or body.
pub open spec fn is_get(r: Request, path: Seq<char>) -> bool {
    &&& r.method == Method::Get
    &&& r.path@ == path
    &&& r.query@.len() == 0
    &&& r.headers@.len() == 0
    &&& r.body == Body::Empty
}

/// The request is a `DELETE` on `path`, under an idempotency key of its
/// own and nothing else.
pub open spec fn is_delete(r: Request, path: Seq<char>) -> bool {
    &&& r.method == Method::Delete
    &&& r.path@ == path
    &&& r.query@.len() == 0
    &&& exists|key: Seq<u8>| is_key(key) && r.headers@ == #[trigger] key_headers(key)
    &&& r.body == Body::Empty
}

/// The parameters of a query as plain values.
pub open spec fn query_of(query: Vec<(String, String)>) -> Seq<(Seq<char>, Seq<char>)> {
    Seq::new(query@.len(), |i: int| (query@[i].0@, query@[i].1@))
}

/// The request is a `GET` on `path` with the given query, without headers
/// or body.
pub open spec fn is_query(r: Request, path: Seq<char>, query: Seq<(Seq<char>, Seq<char>)>) -> bool {
    &&& r.method == Method::Get
    &&& r.path@ == path
    &&& query_of(r.query) == query
    &&& r.headers@.len() == 0
    &&& r.body == Body::Empty
}

/// A request that reads with parameters: `GET` on the given path with the
/// given query, without headers and without a body.
pub fn get_with_query(path: String, query: Vec<(String, String)>) -> (r: Request)
    ensures
        is_query(r, path@, query_of(query)),
{
    Request { method: Method::Get, path, query, headers: Headers::new(), body: Body::Empty }
}

/// A request under a drawn idempotency key carries the key as a value that
/// can go on the wire and is not empty, so that the request counts as
/// idempotent, whatever its method among `POST`, `PATCH`, `PUT` and
/// `DELETE`.
pub proof fn lemma_keyed_request_is_idempotent(method: Method, key: Seq<u8>)
    requires
        is_key(key),
        method.is_mutating(),
    ensures
        lookup(key_headers(key), IDEMPOTENCY_KEY_HEADER.spec_bytes()) == Some(key),
        is_valid_value(key),
        spec_is_idempotent(method, key_headers(key)),
{
    let name = IDEMPOTENCY_KEY_HEADER.spec_bytes();
    let line = HeaderView { name, value: key, sensitive: false };
    crate::request::lemma_same_name_equivalence(name, name, name);
    lemma_first_line_push(Seq::empty(), line, name);
}

/// What a lookup makes of the server's answer: a resource that the server
/// reports as not found is no resource, and no failure either. `status` is
/// the status of the response where the failure is an error response.
pub open spec fn spec_none_if_not_found<T, E>(outcome: Result<T, E>, status: Option<u16>) -> Result<
    Option<T>,
    E,
> {
    match outcome {
        Ok(found) => Ok(Some(found)),
        Err(e) => if status == Some(NOT_FOUND) {
            Ok(None)
        } else {
            Err(e)
        },
    }
}

/// Turns the answer "not found" into `None`, and leaves every other
/// outcome of a lookup as it is. `status` is the status of the response
/// where the failure is an error response of the server, and `None` for
/// any other failure.
pub fn none_if_not_found<T, E>(outcome: Result<T, E>, status: Option<u16>) -> (r: Result<
    Option<T>,
    E,
>)
    ensures
        r == spec_none_if_not_found(outcome, status),
{
    match outcome {
        Ok(found) => Ok(Some(found)),
        Err(e) => match status {
            Some(code) => if code == NOT_FOUND {
                Ok(None)
            } else {
                Err(e)
            },
            None => Err(e),
        },
    }
}

/// The status of the response that a failure stands for, if the failure
/// is an error response of the server.
pub fn status_of(error: &Error) -> (r: Option<u16>)
    ensures
        r == match *error {
            Error::ApiError(e) => Some(e.status),
            _ => None,
        },
{
    match error {
        Error::ApiError(e) => Some(e.status),
        _ => None,
    }
}

/// What a poller gets to see of a lookup: a resource that is polled has to
/// exist, so that its absence is an error, reported in the given words.
pub fn found_or_error<T>(found: Option<T>, missing: &str) -> (r: Result<T, Error>)
    ensures
        match found {
            Some(resource) => r == Ok::<T, Error>(resource),
            None => r matches Err(Error::Other(why)) && why@ == missing@,
        },
{
    match found {
        Some(resource) => Ok(resource),
        None => Err(Error::Other(missing.to_owned())),
    }
}

} // verus!
