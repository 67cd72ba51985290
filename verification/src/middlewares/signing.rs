//! Signs the requests that change state on the server.
use vstd::prelude::*;
use vstd::string::StringSliceAdditionalSpecFns;
use vstd::utf8::encode_utf8;
use crate::common::{IDEMPOTENCY_KEY_HEADER, TL_SIGNATURE_HEADER};
use crate::error::{Error, SigningError};
use crate::request::{
    copy_bytes, is_valid_header_value, is_valid_value, lookup, with_line, Body, HeaderView, Method,
    Request,
};

verus! {

/// The link of the chain that attaches a signature to all outgoing `POST`,
/// `PUT`, `PATCH` and `DELETE` requests.
///
/// The link holds the private key, so it cannot be printed.
#[derive(Clone, PartialEq, Eq)]
pub struct SigningMiddleware {
    /// The identifier of the signing key.
    pub key_id: String,
    /// The private key, PEM encoded.
    pub private_key: Vec<u8>,
}

/// The methods whose requests are signed.
#[derive(Debug, Clone, Copy, PartialEq, Eq, Structural)]
pub enum SignedMethod {
    Post,
    Put,
    Patch,
    Delete,
}

/// What is reported when a signature cannot be put into a header.
pub const INVALID_SIGNATURE: &'static str = "failed to parse header value";

/// The method under which a request is signed, if it is signed at all.
pub open spec fn spec_signed_method(method: Method) -> Option<SignedMethod> {
    match method {
        Method::Post => Some(SignedMethod::Post),
        Method::Put => Some(SignedMethod::Put),
        Method::Patch => Some(SignedMethod::Patch),
        Method::Delete => Some(SignedMethod::Delete),
        _ => None,
    }
}

/// The method under which a request is signed, if it is signed at all.
pub fn signed_method(method: &Method) -> (r: Option<SignedMethod>)
    ensures
        r == spec_signed_method(*method),
        r is Some <==> method.is_mutating(),
{
    match method {
        Method::Post => Some(SignedMethod::Post),
        Method::Put => Some(SignedMethod::Put),
        Method::Patch => Some(SignedMethod::Patch),
        Method::Delete => Some(SignedMethod::Delete),
        _ => None,
    }
}

/// The path is absolute: it starts with `/`.
pub open spec fn is_absolute(path: Seq<u8>) -> bool {
    path.len() > 0 && path[0] == 0x2f
}

/// The bytes of a body that is held in memory; none for an empty body.
pub open spec fn body_bytes(body: Body) -> Seq<u8> {
    match body {
        Body::Bytes(bytes) => bytes@,
        _ => Seq::empty(),
    }
}

/// What a signature covers.
#[derive(Clone, Copy)]
pub struct SigningInput<'a> {
    /// The method of the request.
    pub method: SignedMethod,
    /// The path of the request.
    pub path: &'a str,
    /// The value of the request's idempotency key header, if it has one.
    pub idempotency_key: Option<&'a [u8]>,
    /// The whole body of the request; nothing for a request without body.
    pub body: &'a [u8],
}

/// What a signature covers, as plain values.
pub struct SigningInputView {
    pub method: SignedMethod,
    pub path: Seq<char>,
    pub idempotency_key: Option<Seq<u8>>,
    pub body: Seq<u8>,
}

impl<'a> View for SigningInput<'a> {
    type V = SigningInputView;

    open spec fn view(&self) -> SigningInputView {
        SigningInputView {
            method: self.method,
            path: self.path@,
            idempotency_key: match self.idempotency_key {
                Some(key) => Some(key@),
                None => None,
            },
            body: self.body@,
        }
    }
}

/// What the signature of a request covers: its method, its path, the
/// value of its idempotency key header, if it has one, and its whole body.
/// Nothing for a request that is not signed, because its method does not
/// change state on the server. A request that is to be signed is refused
/// if its body is not held in memory, and else if its path is not absolute.
pub open spec fn spec_signing_input(req: Request) -> Result<Option<SigningInputView>, SigningError> {
    match spec_signed_method(req.method) {
        None => Ok(None),
        Some(method) => if req.body is Streaming {
            Err(SigningError::StreamingBody)
        } else if !is_absolute(encode_utf8(req.path@)) {
            Err(SigningError::RelativePath)
        } else {
            Ok(
                Some(
                    SigningInputView {
                        method,
                        path: req.path@,
                        idempotency_key: lookup(req.headers@, IDEMPOTENCY_KEY_HEADER.spec_bytes()),
                        body: body_bytes(req.body),
                    },
                ),
            )
        },
    }
}

/// Works out what the signature of a request covers.
pub fn signing_input<'a>(req: &'a Request) -> (r: Result<Option<SigningInput<'a>>, SigningError>)
    ensures
        match spec_signing_input(*req) {
            Ok(Some(input)) => r matches Ok(Some(found)) && found@ == input,
            Ok(None) => r == Ok::<Option<SigningInput<'a>>, SigningError>(None),
            Err(e) => r == Err::<Option<SigningInput<'a>>, SigningError>(e),
        },
{
    let method = match signed_method(&req.method) {
        Some(method) => method,
        None => {
            return Ok(None);
        },
    };
    let body: &[u8] = match &req.body {
        Body::Streaming => {
            return Err(SigningError::StreamingBody);
        },
        Body::Bytes(bytes) => bytes.as_slice(),
        Body::Empty => {
            proof {
                reveal_strlit("");
            }
            "".as_bytes()
        },
    };
    let path = req.path.as_str().as_bytes();
    if path.len() == 0 || path[0] != 0x2f {
        return Err(SigningError::RelativePath);
    }
    let idempotency_key = match req.headers.get(IDEMPOTENCY_KEY_HEADER) {
        Some(value) => Some(value.as_slice()),
        None => None,
    };
    Ok(Some(SigningInput { method, path: req.path.as_str(), idempotency_key, body }))
}

/// The text is a detached signature of a request of the given method,
/// path, header and body: it names the key `key_id`, and it verifies, under
/// the public key that belongs to `private_key`, over exactly these parts.
pub uninterp spec fn is_signature_of(
    key_id: Seq<char>,
    private_key: Seq<u8>,
    method: SignedMethod,
    path: Seq<char>,
    header: Option<(Seq<char>, Seq<u8>)>,
    body: Seq<u8>,
    signature: Seq<char>,
) -> bool;

/// Computes the detached signature of a request from its method, its path,
/// one header, if any, and the bytes of its body.
///
/// Trusted: `truelayer_signing::sign_with_pem` and the builder it returns,
/// up to `Signer::sign`. The builder panics on a path that does not start
/// with `/`. The signature depends on a nonce that the signer draws, so
/// nothing is said of its value, but that it is a signature of what was
/// handed in: the signer writes the key id into it and signs the method,
/// the path, the header and the body with the private key, which is what
/// `Verifier::verify` checks under the public key. A failure is one of the
/// signer's own.
#[verifier::external_body]
fn sign_with_pem(
    key_id: &str,
    private_key: &[u8],
    method: SignedMethod,
    path: &str,
    header: Option<(&str, &[u8])>,
    body: &[u8],
) -> (r: Result<String, SigningError>)
    requires
        is_absolute(path.spec_bytes()),
    ensures
        r matches Err(e) ==> e is InvalidKey || e is JwsError || e is Other,
        r matches Ok(signature) ==> is_signature_of(
            key_id@,
            private_key@,
            method,
            path@,
            match header {
                Some(line) => Some((line.0@, line.1@)),
                None => None,
            },
            body@,
            signature@,
        ),
{
    let method = match method {
        SignedMethod::Post => truelayer_signing::Method::Post,
        SignedMethod::Put => truelayer_signing::Method::Put,
        SignedMethod::Patch => truelayer_signing::Method::Patch,
        SignedMethod::Delete => truelayer_signing::Method::Delete,
    };
    let builder = truelayer_signing::sign_with_pem(key_id, private_key).method(method).path(path);
    match builder.headers(header).body(body).build_signer().sign() {
        Ok(signature) => Ok(signature),
        Err(truelayer_signing::Error::InvalidKey(e)) => Err(SigningError::InvalidKey(e.to_string())),
        Err(truelayer_signing::Error::JwsError(e)) => Err(SigningError::JwsError(e.to_string())),
        Err(truelayer_signing::Error::Other(e)) => Err(SigningError::Other(e.to_string())),
    }
}

/// What attaching the outcome of the signer does to a request and gives to
/// the caller: a signature that can stand in a header becomes the
/// `Tl-Signature` header; any other outcome leaves the request as it is
/// and is reported.
pub open spec fn attached(
    before: Request,
    outcome: Result<String, SigningError>,
    after: Request,
    result: Result<(), Error>,
) -> bool {
    &&& after.method == before.method
    &&& after.path == before.path
    &&& after.query == before.query
    &&& after.body == before.body
    &&& match outcome {
        Ok(signature) => if is_valid_value(encode_utf8(signature@)) {
            &&& result is Ok
            &&& after.headers@ == with_line(
                before.headers@,
                HeaderView {
                    name: TL_SIGNATURE_HEADER.spec_bytes(),
                    value: encode_utf8(signature@),
                    sensitive: false,
                },
            )
        } else {
            &&& result matches Err(Error::Other(why))
            &&& why@ == INVALID_SIGNATURE@
            &&& after.headers == before.headers
        },
        Err(e) => result == Err::<(), Error>(Error::SigningError(e)) && after.headers
            == before.headers,
    }
}

/// Attaches the outcome of the signer to the request: a signature becomes
/// the `Tl-Signature` header, a failure is reported and leaves the request
/// as it is.
pub fn attach_signature(req: &mut Request, outcome: Result<String, SigningError>) -> (r: Result<
    (),
    Error,
>)
    ensures
        attached(*old(req), outcome, *final(req), r),
{
    match outcome {
        Ok(signature) => {
            let value = copy_bytes(signature.as_str().as_bytes());
            if !is_valid_header_value(value.as_slice()) {
                return Err(Error::Other(INVALID_SIGNATURE.to_owned()));
            }
            req.headers.insert(TL_SIGNATURE_HEADER, value, false);
            Ok(())
        },
        Err(e) => Err(Error::SigningError(e)),
    }
}

impl SigningMiddleware {
    /// The text is a signature, made with the key of this link, of the
    /// parts of a request that a signature covers: the method, the path,
    /// the idempotency key as the one signed header, if there is one, and
    /// the body.
    pub open spec fn covers(&self, input: SigningInputView, signature: Seq<char>) -> bool {
        is_signature_of(
            self.key_id@,
            self.private_key@,
            input.method,
            input.path,
            match input.idempotency_key {
                Some(key) => Some((IDEMPOTENCY_KEY_HEADER@, key)),
                None => None,
            },
            input.body,
            signature,
        )
    }

    /// A link that signs with the given key.
    pub fn new(key_id: &str, private_key: Vec<u8>) -> (r: SigningMiddleware)
        ensures
            r.key_id@ == key_id@,
            r.private_key == private_key,
    {
        SigningMiddleware { key_id: key_id.to_owned(), private_key }
    }

    /// Signs the request if its method changes state on the server, and
    /// lets any other request pass as it is.
    ///
    /// The signature covers the method, the path, the idempotency key, if
    /// the request has one, and the whole body. A request whose body is not
    /// held in memory is refused: it is never signed in part, and never let
    /// through unsigned.
    pub fn handle(&self, req: &mut Request) -> (r: Result<(), Error>)
        ensures
            final(req).method == old(req).method,
            final(req).path == old(req).path,
            final(req).query == old(req).query,
            final(req).body == old(req).body,
            !old(req).method.is_mutating() ==> r is Ok && final(req).headers == old(req).headers,
            r == Err::<(), Error>(Error::SigningError(SigningError::StreamingBody)) <==> old(
                req,
            ).method.is_mutating() && old(req).body is Streaming,
            r == Err::<(), Error>(Error::SigningError(SigningError::RelativePath)) <==> old(
                req,
            ).method.is_mutating() && !(old(req).body is Streaming) && !is_absolute(
                encode_utf8(old(req).path@),
            ),
            old(req).method.is_mutating() && !(old(req).body is Streaming) && is_absolute(
                encode_utf8(old(req).path@),
            ) ==> exists|outcome: Result<String, SigningError>|
                {
                    &&& outcome matches Err(e) ==> e is InvalidKey || e is JwsError || e is Other
                    &&& outcome matches Ok(signature) ==> self.covers(
                        spec_signing_input(*old(req)).unwrap().unwrap(),
                        signature@,
                    )
                    &&& #[trigger] attached(*old(req), outcome, *final(req), r)
                },
            r is Err ==> final(req).headers == old(req).headers,
            r is Ok && old(req).method.is_mutating() ==> exists|signature: Seq<char>|
                {
                    &&& lookup(final(req).headers@, TL_SIGNATURE_HEADER.spec_bytes()) == Some(
                        encode_utf8(signature),
                    )
                    &&& is_valid_value(encode_utf8(signature))
                    &&& #[trigger] self.covers(
                        spec_signing_input(*old(req)).unwrap().unwrap(),
                        signature,
                    )
                },
    {
        let outcome = match signing_input(req) {
            Err(e) => {
                return Err(Error::SigningError(e));
            },
            Ok(None) => {
                return Ok(());
            },
            Ok(Some(input)) => {
                let header = match input.idempotency_key {
                    Some(key) => Some((IDEMPOTENCY_KEY_HEADER, key)),
                    None => None,
                };
                sign_with_pem(
                    self.key_id.as_str(),
                    self.private_key.as_slice(),
                    input.method,
                    input.path,
                    header,
                    input.body,
                )
            },
        };
        let ghost before = *req;
        let r = attach_signature(req, outcome);
        proof {
            if r is Ok {
                let line = HeaderView {
                    name: TL_SIGNATURE_HEADER.spec_bytes(),
                    value: encode_utf8(outcome.unwrap()@),
                    sensitive: false,
                };
                crate::request::lemma_set_then_get(before.headers@, line, line.name);
                crate::request::lemma_same_name_equivalence(line.name, line.name, line.name);
                assert(self.covers(
                    spec_signing_input(before).unwrap().unwrap(),
                    outcome.unwrap()@,
                ));
            }
        }
        r
    }
}

} // verus!
