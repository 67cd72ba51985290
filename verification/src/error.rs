//! Standard errors used by all functions in the crate.
use vstd::prelude::*;
use vstd::string::StringExecFns;
use crate::text::{decimal, decimal_digits, join, joined, text_of};

verus! {

/// Error collecting all possible failures of the TrueLayer client.
#[derive(Debug, Clone, PartialEq, Eq)]
pub enum Error {
    /// The request could not be sent or the response could not be read.
    HttpError(TransportError),
    /// Error returned by a TrueLayer API endpoint.
    ApiError(ApiError),
    /// Error building request signature.
    SigningError(SigningError),
    /// Catch-all variant for unexpected errors, with what went wrong.
    Other(String),
}

/// A failure of the connection to the server.
#[derive(Debug, Clone, PartialEq, Eq)]
pub struct TransportError {
    /// What kind of failure it was.
    pub kind: TransportErrorKind,
    /// The failure in words.
    pub message: String,
}

/// The kinds of failure of the connection to the server.
#[derive(Debug, Clone, Copy, PartialEq, Eq, Structural)]
pub enum TransportErrorKind {
    /// No answer came in time.
    Timeout,
    /// No connection could be made.
    Connect,
    /// The request could not be sent, or the answer broke off.
    Request,
    /// The body of the request or of the response could not be read.
    Body,
    /// The body of the response is not what was expected.
    Decode,
    /// The request could not be built.
    Builder,
    /// A redirect could not be followed.
    Redirect,
    /// Any other failure.
    Unknown,
}

/// Why a request could not be signed.
#[derive(Debug, Clone, PartialEq, Eq)]
pub enum SigningError {
    /// The body of the request is not held in memory in full, so there are
    /// no bytes to sign.
    StreamingBody,
    /// The path of the request does not start with `/`.
    RelativePath,
    /// Key data is invalid.
    InvalidKey(String),
    /// The signature could not be generated.
    JwsError(String),
    /// Any other failure of the signer.
    Other(String),
}

/// TrueLayer HTTP APIs error.
#[derive(Debug, Clone, PartialEq, Eq)]
pub struct ApiError {
    /// A unique identifier for this class of error.
    ///
    /// It's typically a URL pointing to a webpage with more information on the error.
    pub error_type: Option<String>,
    /// Concise description of the error.
    pub title: String,
    /// HTTP status returned by the server.
    pub status: u16,
    /// The TrueLayer trace identifier for the request.
    pub trace_id: Option<String>,
    /// A human readable explanation specific to this occurrence of the problem.
    pub detail: Option<String>,
    /// Optional additional details depending on the specific error.
    ///
    /// In the case of validation errors, this holds, for each field that
    /// failed validation, its name and what is wrong with it. A well-formed
    /// error names every field at most once.
    pub errors: Vec<(String, Vec<String>)>,
}

/// A failure of the connection as plain values.
pub struct TransportErrorView {
    pub kind: TransportErrorKind,
    pub message: Seq<char>,
}

impl View for TransportError {
    type V = TransportErrorView;

    open spec fn view(&self) -> TransportErrorView {
        TransportErrorView { kind: self.kind, message: self.message@ }
    }
}

/// A failure to sign as plain values.
pub enum SigningErrorView {
    StreamingBody,
    RelativePath,
    InvalidKey(Seq<char>),
    JwsError(Seq<char>),
    Other(Seq<char>),
}

impl View for SigningError {
    type V = SigningErrorView;

    open spec fn view(&self) -> SigningErrorView {
        match self {
            SigningError::StreamingBody => SigningErrorView::StreamingBody,
            SigningError::RelativePath => SigningErrorView::RelativePath,
            SigningError::InvalidKey(why) => SigningErrorView::InvalidKey(why@),
            SigningError::JwsError(why) => SigningErrorView::JwsError(why@),
            SigningError::Other(why) => SigningErrorView::Other(why@),
        }
    }
}

/// A failure of the client as plain values.
pub enum ErrorView {
    HttpError(TransportErrorView),
    ApiError(ApiErrorView),
    SigningError(SigningErrorView),
    Other(Seq<char>),
}

impl View for Error {
    type V = ErrorView;

    open spec fn view(&self) -> ErrorView {
        match self {
            Error::HttpError(e) => ErrorView::HttpError(e@),
            Error::ApiError(e) => ErrorView::ApiError(e@),
            Error::SigningError(e) => ErrorView::SigningError(e@),
            Error::Other(why) => ErrorView::Other(why@),
        }
    }
}

/// A normalized API error as plain values.
pub struct ApiErrorView {
    pub error_type: Option<Seq<char>>,
    pub title: Seq<char>,
    pub status: u16,
    pub trace_id: Option<Seq<char>>,
    pub detail: Option<Seq<char>>,
    pub errors: Seq<(Seq<char>, Seq<Seq<char>>)>,
}

/// The messages of a list, each as its characters.
pub open spec fn messages_of(messages: Vec<String>) -> Seq<Seq<char>> {
    Seq::new(messages@.len(), |i: int| messages@[i]@)
}

/// The fields of an error listing, each with its name and its messages.
pub open spec fn field_errors_of(errors: Vec<(String, Vec<String>)>) -> Seq<
    (Seq<char>, Seq<Seq<char>>),
> {
    Seq::new(errors@.len(), |i: int| (errors@[i].0@, messages_of(errors@[i].1)))
}

/// No field is listed twice.
pub open spec fn has_distinct_names(errors: Seq<(Seq<char>, Seq<Seq<char>>)>) -> bool {
    forall|i: int, j: int|
        0 <= i < j < errors.len() ==> (#[trigger] errors[i]).0 != (#[trigger] errors[j]).0
}

impl View for ApiError {
    type V = ApiErrorView;

    open spec fn view(&self) -> ApiErrorView {
        ApiErrorView {
            error_type: text_of(self.error_type),
            title: self.title@,
            status: self.status,
            trace_id: text_of(self.trace_id),
            detail: text_of(self.detail),
            errors: field_errors_of(self.errors),
        }
    }
}

/// The lines that list the fields of an error, each with its messages.
pub open spec fn errors_text(errors: Seq<(Seq<char>, Seq<Seq<char>>)>) -> Seq<char>
    decreases errors.len(),
{
    if errors.len() == 0 {
        Seq::empty()
    } else {
        errors_text(errors.drop_last()) + "\n- "@ + errors.last().0 + ": "@ + joined(
            errors.last().1,
            ", "@,
        )
    }
}

impl ApiErrorView {
    /// The error is well formed: it lists every field at most once, so
    /// that its field errors are a map from field names to messages.
    pub open spec fn wf(self) -> bool {
        has_distinct_names(self.errors)
    }

    /// The error in words: the status and the title, then the type, the
    /// detail, the trace id and the field errors, each where there is one.
    pub open spec fn message(self) -> Seq<char> {
        "TrueLayer HTTP error "@ + decimal_digits(self.status as nat) + ": "@ + self.title + (
        match self.error_type {
            Some(error_type) => " ("@ + error_type + ")"@,
            None => Seq::empty(),
        }) + (match self.detail {
            Some(detail) => "\nAdditional details: "@ + detail,
            None => Seq::empty(),
        }) + (match self.trace_id {
            Some(trace_id) => "\nTrace ID: "@ + trace_id,
            None => Seq::empty(),
        }) + (if self.errors.len() > 0 {
            "\nAll errors:"@ + errors_text(self.errors)
        } else {
            Seq::empty()
        })
    }
}

impl ApiError {
    /// The error in words, as it is shown to a person.
    pub fn message(&self) -> (r: String)
        ensures
            r@ == self@.message(),
    {
        let mut out = "TrueLayer HTTP error ".to_owned();
        out.append(decimal(self.status as u64).as_str());
        out.append(": ");
        out.append(self.title.as_str());
        if let Some(error_type) = &self.error_type {
            out.append(" (");
            out.append(error_type.as_str());
            out.append(")");
        }
        if let Some(detail) = &self.detail {
            out.append("\nAdditional details: ");
            out.append(detail.as_str());
        }
        if let Some(trace_id) = &self.trace_id {
            out.append("\nTrace ID: ");
            out.append(trace_id.as_str());
        }
        let ghost listed = field_errors_of(self.errors);
        if self.errors.len() > 0 {
            out.append("\nAll errors:");
            let ghost start = out@;
            let mut i: usize = 0;
            while i < self.errors.len()
                invariant
                    0 <= i <= self.errors.len(),
                    listed == field_errors_of(self.errors),
                    out@ == start + errors_text(listed.take(i as int)),
                decreases self.errors.len() - i,
            {
                let ghost before = listed.take(i as int);
                let ghost after = listed.take(i as int + 1);
                assert(after.drop_last() =~= before);
                assert(after.last() == listed[i as int]);
                out.append("\n- ");
                out.append(self.errors[i].0.as_str());
                out.append(": ");
                out.append(join(&self.errors[i].1, ", ").as_str());
                i = i + 1;
            }
            assert(listed.take(self.errors@.len() as int) =~= listed);
        }
        out
    }
}

} // verus!
