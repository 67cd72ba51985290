//! Turns a response that reports a failure into a typed error.
use vstd::prelude::*;
use vstd::utf8::{decode_utf8, valid_utf8};
use vstd::utf8::partial_valid_utf8_extend_ascii_block;
use vstd::string::StringSliceAdditionalSpecFns;
use crate::common::TL_CORRELATION_ID_HEADER;
use crate::error::{field_errors_of, has_distinct_names, ApiError, ApiErrorView, Error};
use crate::text::text_of;
use crate::request::{lookup, HeaderView, Headers};

verus! {

/// The link of the chain that translates error responses returned from
/// TrueLayer APIs into [`Error::ApiError`]s.
#[derive(Debug, Clone, Copy, PartialEq, Eq, Structural)]
pub struct ErrorHandlingMiddleware;

/// Body of an error response from TrueLayer APIs, in one of the two shapes
/// that the APIs use.
#[derive(Debug, Clone, PartialEq, Eq)]
pub enum ErrorResponse {
    /// The shape of the current APIs.
    V3ErrorResponse {
        error_type: String,
        title: String,
        trace_id: String,
        detail: String,
        errors: Option<Vec<(String, Vec<String>)>>,
    },
    /// The legacy shape, which the authentication server uses to this day.
    V1ErrorResponse {
        error: String,
        error_description: Option<String>,
        error_details: Option<Vec<(String, String)>>,
    },
}

/// Title of an error whose status has no reason phrase.
pub const UNKNOWN_ERROR: &'static str = "Unknown Error";

/// The reason phrase that goes with a status code, where it has one.
pub uninterp spec fn canonical_reason(status: u16) -> Option<Seq<char>>;

/// The reason phrase that goes with a status code.
///
/// Trusted: `reqwest::StatusCode::canonical_reason` is a fixed table from
/// status codes to phrases, and `from_u16` refuses what is no status code.
#[verifier::external_body]
fn reason_phrase(status: u16) -> (r: Option<&'static str>)
    ensures
        match r {
            Some(phrase) => canonical_reason(status) == Some(phrase@),
            None => canonical_reason(status) is None,
        },
{
    reqwest::StatusCode::from_u16(status).ok().and_then(|code| code.canonical_reason())
}

/// Reads bytes as text.
///
/// Trusted: `core::str::from_utf8` accepts exactly the valid UTF-8 byte
/// sequences and yields the characters that they encode.
#[verifier::external_body]
fn str_from_utf8(bytes: &[u8]) -> (r: Option<&str>)
    ensures
        match r {
            Some(text) => valid_utf8(bytes@) && text@ == decode_utf8(bytes@),
            None => !valid_utf8(bytes@),
        },
{
    core::str::from_utf8(bytes).ok()
}

/// The status reports success: it lies between 200 and 299.
pub open spec fn spec_is_success(status: u16) -> bool {
    200 <= status < 300
}

/// Whether the status reports success.
pub fn is_success(status: u16) -> (r: bool)
    ensures
        r == spec_is_success(status),
{
    200 <= status && status < 300
}

/// A byte that is a visible ASCII character, a space or a tab.
pub open spec fn is_text_byte(b: u8) -> bool {
    (32 <= b < 127) || b == 9
}

/// The text of a header value: its characters if it is made of visible
/// ASCII characters, spaces and tabs only.
pub open spec fn value_text(value: Seq<u8>) -> Option<Seq<char>> {
    if forall|i: int| 0 <= i < value.len() ==> is_text_byte(#[trigger] value[i]) {
        Some(decode_utf8(value))
    } else {
        None
    }
}

/// The correlation id that a response carries: the text of the first
/// correlation header, if there is one and it is text.
pub open spec fn spec_correlation_id(headers: Seq<HeaderView>) -> Option<Seq<char>> {
    match lookup(headers, TL_CORRELATION_ID_HEADER.spec_bytes()) {
        Some(value) => value_text(value),
        None => None,
    }
}

/// Bytes below 128 are valid UTF-8.
proof fn lemma_text_bytes_are_utf8(value: Seq<u8>)
    requires
        forall|i: int| 0 <= i < value.len() ==> is_text_byte(#[trigger] value[i]),
    ensures
        valid_utf8(value),
{
    partial_valid_utf8_extend_ascii_block(value, 0, value.len() as int);
    assert(value.subrange(0, value.len() as int) =~= value);
}

/// The text of a header value, if it is made of visible ASCII characters,
/// spaces and tabs only.
pub fn header_text(value: &[u8]) -> (r: Option<String>)
    ensures
        text_of(r) == value_text(value@),
{
    let mut i: usize = 0;
    while i < value.len()
        invariant
            0 <= i <= value.len(),
            forall|j: int| 0 <= j < i ==> is_text_byte(#[trigger] value@[j]),
        decreases value.len() - i,
    {
        let b = value[i];
        if !((32 <= b && b < 127) || b == 9) {
            return None;
        }
        i = i + 1;
    }
    proof {
        lemma_text_bytes_are_utf8(value@);
    }
    match str_from_utf8(value) {
        Some(text) => Some(text.to_owned()),
        None => None,
    }
}

/// The correlation id that a response carries.
pub fn correlation_id(headers: &Headers) -> (r: Option<String>)
    ensures
        text_of(r) == spec_correlation_id(headers@),
{
    match headers.get(TL_CORRELATION_ID_HEADER) {
        Some(value) => header_text(value.as_slice()),
        None => None,
    }
}

/// The messages of single-valued details, each as a list of one message.
pub open spec fn wrapped(details: Vec<(String, String)>) -> Seq<(Seq<char>, Seq<Seq<char>>)> {
    Seq::new(details@.len(), |i: int| (details@[i].0@, seq![details@[i].1@]))
}

/// Wraps each single message of `details` into a list of one message.
pub fn wrap_details(details: &Vec<(String, String)>) -> (r: Vec<(String, Vec<String>)>)
    ensures
        field_errors_of(r) == wrapped(*details),
{
    let mut out: Vec<(String, Vec<String>)> = Vec::new();
    let mut i: usize = 0;
    while i < details.len()
        invariant
            0 <= i <= details.len(),
            out@.len() == i,
            forall|j: int|
                0 <= j < i ==> (#[trigger] out@[j]).0@ == details@[j].0@ && out@[j].1@.len() == 1
                    && out@[j].1@[0]@ == details@[j].1@,
        decreases details.len() - i,
    {
        let mut messages: Vec<String> = Vec::new();
        messages.push(details[i].1.clone());
        out.push((details[i].0.clone(), messages));
        i = i + 1;
    }
    assert(field_errors_of(out) =~= wrapped(*details)) by {
        assert forall|j: int| 0 <= j < out@.len() implies field_errors_of(out)[j] == wrapped(
            *details,
        )[j] by {}
    }
    out
}

impl ErrorResponse {
    /// The body is well formed: it names every field at most once, as a
    /// JSON object does.
    pub open spec fn wf(self) -> bool {
        match self {
            ErrorResponse::V3ErrorResponse { errors, .. } => errors matches Some(listed)
                ==> has_distinct_names(field_errors_of(listed)),
            ErrorResponse::V1ErrorResponse { error_details, .. } => error_details matches Some(
                details,
            ) ==> has_distinct_names(wrapped(details)),
        }
    }

    /// The error that this body stands for, as plain values: a body of the
    /// current shape gives its own type, title, trace id, detail and field
    /// errors; a body of the legacy shape gives its error as the title, its
    /// description as the detail, each of its details as a list of one
    /// message, and takes the trace id from the response's correlation id.
    pub open spec fn normalized(
        self,
        http_status: u16,
        correlation_id: Option<Seq<char>>,
    ) -> ApiErrorView {
        match self {
            ErrorResponse::V3ErrorResponse { error_type, title, trace_id, detail, errors } => {
                ApiErrorView {
                    error_type: Some(error_type@),
                    title: title@,
                    status: http_status,
                    trace_id: Some(trace_id@),
                    detail: Some(detail@),
                    errors: match errors {
                        Some(listed) => field_errors_of(listed),
                        None => Seq::empty(),
                    },
                }
            },
            ErrorResponse::V1ErrorResponse { error, error_description, error_details } => {
                ApiErrorView {
                    error_type: None,
                    title: error@,
                    status: http_status,
                    trace_id: correlation_id,
                    detail: text_of(error_description),
                    errors: match error_details {
                        Some(details) => wrapped(details),
                        None => Seq::empty(),
                    },
                }
            },
        }
    }

    /// Turns the body of an error response into the error it stands for.
    pub fn into_api_error(self, http_status: u16, correlation_id: Option<String>) -> (r: ApiError)
        ensures
            r@ == self.normalized(http_status, text_of(correlation_id)),
            self.wf() ==> r@.wf(),
    {
        match self {
            ErrorResponse::V3ErrorResponse { error_type, title, trace_id, detail, errors } => {
                let errors = match errors {
                    Some(listed) => listed,
                    None => {
                        let none: Vec<(String, Vec<String>)> = Vec::new();
                        assert(field_errors_of(none) =~= Seq::empty());
                        none
                    },
                };
                ApiError {
                    error_type: Some(error_type),
                    title,
                    status: http_status,
                    trace_id: Some(trace_id),
                    detail: Some(detail),
                    errors,
                }
            },
            ErrorResponse::V1ErrorResponse { error, error_description, error_details } => {
                let errors = match error_details {
                    Some(details) => wrap_details(&details),
                    None => {
                        let none: Vec<(String, Vec<String>)> = Vec::new();
                        assert(field_errors_of(none) =~= Seq::empty());
                        none
                    },
                };
                ApiError {
                    error_type: None,
                    title: error,
                    status: http_status,
                    trace_id: correlation_id,
                    detail: error_description,
                    errors,
                }
            },
        }
    }
}

/// The error for a response whose body has neither shape: its title is the
/// reason phrase of the status, its trace id the correlation id.
pub open spec fn spec_fallback(
    status: u16,
    reason: Option<Seq<char>>,
    correlation_id: Option<Seq<char>>,
) -> ApiErrorView {
    ApiErrorView {
        error_type: None,
        title: match reason {
            Some(phrase) => phrase,
            None => UNKNOWN_ERROR@,
        },
        status,
        trace_id: correlation_id,
        detail: None,
        errors: Seq::empty(),
    }
}

/// The error that a response stands for, given the reason phrase of its
/// status, its correlation id and what its body was read as.
pub open spec fn spec_api_error(
    status: u16,
    reason: Option<Seq<char>>,
    correlation_id: Option<Seq<char>>,
    parsed: Option<ErrorResponse>,
) -> ApiErrorView {
    match parsed {
        Some(body) => body.normalized(status, correlation_id),
        None => spec_fallback(status, reason, correlation_id),
    }
}

/// Whatever the body of a response was read as, the error that the
/// response stands for carries the status of the response, and is well
/// formed if the body was; and a body of the current shape keeps its own
/// type, title, trace id and detail.
pub proof fn lemma_status_preserved(
    status: u16,
    reason: Option<Seq<char>>,
    correlation_id: Option<Seq<char>>,
    parsed: Option<ErrorResponse>,
)
    ensures
        spec_api_error(status, reason, correlation_id, parsed).status == status,
        (parsed matches Some(body) ==> body.wf()) ==> spec_api_error(
            status,
            reason,
            correlation_id,
            parsed,
        ).wf(),
        parsed matches Some(ErrorResponse::V3ErrorResponse { error_type, title, trace_id, detail, .. })
            ==> {
            let e = spec_api_error(status, reason, correlation_id, parsed);
            &&& e.error_type == Some(error_type@)
            &&& e.title == title@
            &&& e.trace_id == Some(trace_id@)
            &&& e.detail == Some(detail@)
        },
{
}

/// The generic error for a response whose body has neither of the two shapes.
pub fn fallback_api_error(
    status: u16,
    reason: Option<&str>,
    correlation_id: Option<String>,
) -> (r: ApiError)
    ensures
        r@ == spec_fallback(
            status,
            match reason {
                Some(phrase) => Some(phrase@),
                None => None,
            },
            text_of(correlation_id),
        ),
{
    let title = match reason {
        Some(phrase) => phrase.to_owned(),
        None => UNKNOWN_ERROR.to_owned(),
    };
    let errors: Vec<(String, Vec<String>)> = Vec::new();
    assert(field_errors_of(errors) =~= Seq::empty());
    ApiError { error_type: None, title, status, trace_id: correlation_id, detail: None, errors }
}

/// The error that a response stands for, from the reason phrase of its
/// status, its correlation id and what its body was read as: `None` where
/// the body has neither of the two shapes.
pub fn normalize(
    status: u16,
    reason: Option<&str>,
    correlation_id: Option<String>,
    parsed: Option<ErrorResponse>,
) -> (r: ApiError)
    ensures
        r@ == spec_api_error(
            status,
            match reason {
                Some(phrase) => Some(phrase@),
                None => None,
            },
            text_of(correlation_id),
            parsed,
        ),
        r.status == status,
{
    match parsed {
        Some(body) => body.into_api_error(status, correlation_id),
        None => fallback_api_error(status, reason, correlation_id),
    }
}

/// The error that a response stands for, from its status, its headers and
/// what its body was read as: `None` where the body has neither of the two
/// shapes.
pub fn api_error_from_response(
    status: u16,
    headers: &Headers,
    parsed: Option<ErrorResponse>,
) -> (r: ApiError)
    ensures
        r@ == spec_api_error(
            status,
            canonical_reason(status),
            spec_correlation_id(headers@),
            parsed,
        ),
        r.status == status,
{
    let reason = reason_phrase(status);
    let id = correlation_id(headers);
    normalize(status, reason, id, parsed)
}

impl ErrorHandlingMiddleware {
    /// Lets a response that reports success pass, and turns any other into
    /// the error it stands for. `parsed` is what the body of the response
    /// was read as; it is not looked at where the status reports success.
    pub fn handle(&self, status: u16, headers: &Headers, parsed: Option<ErrorResponse>) -> (r:
        Result<(), Error>)
        ensures
            spec_is_success(status) ==> r is Ok,
            !spec_is_success(status) ==> (r matches Err(Error::ApiError(e)) && e@
                == spec_api_error(
                status,
                canonical_reason(status),
                spec_correlation_id(headers@),
                parsed,
            )),
    {
        if is_success(status) {
            Ok(())
        } else {
            Err(Error::ApiError(api_error_from_response(status, headers, parsed)))
        }
    }
}

} // verus!
