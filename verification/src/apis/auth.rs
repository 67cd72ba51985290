//! Credentials, tokens and the result of an authentication.
use vstd::prelude::*;
use secrecy::ExposeSecret;
use secrecy::Secret;
use crate::time::Timestamp;

pub mod api;

verus! {

/// A secret string that is redacted when printed and wiped when dropped.
///
/// The string is kept in a `secrecy::Secret`, of which the verifier sees
/// nothing but the text it guards.
#[verifier::external_body]
#[derive(Debug)]
pub struct Token(Secret<String>);

/// The text that a token guards.
pub uninterp spec fn secret_text(token: Token) -> Seq<char>;

impl View for Token {
    type V = Seq<char>;

    open spec fn view(&self) -> Seq<char> {
        secret_text(*self)
    }
}

impl Token {
    /// Wraps a secret string in a new `Token`.
    ///
    /// Trusted: `secrecy::Secret::new` keeps the string it is given.
    #[verifier::external_body]
    pub fn new(s: String) -> (r: Token)
        ensures
            secret_text(r) == s@,
    {
        Token(Secret::new(s))
    }

    /// Exposes a reference to the underlying secret string.
    ///
    /// Trusted: `secrecy::ExposeSecret::expose_secret` hands out the string
    /// that the secret was made from.
    #[verifier::external_body]
    pub fn expose_secret(&self) -> (r: &str)
        ensures
            r@ == secret_text(*self),
    {
        self.0.expose_secret().as_str()
    }
}

impl Clone for Token {
    /// A second token guarding the same secret.
    ///
    /// Trusted: `Clone` of `secrecy::Secret` clones the guarded string.
    #[verifier::external_body]
    fn clone(&self) -> (r: Token)
        ensures
            secret_text(r) == secret_text(*self),
    {
        Token(self.0.clone())
    }
}

/// Credentials used to authenticate against TrueLayer's APIs.
#[derive(Debug, Clone)]
pub enum Credentials {
    AuthorizationCode { client_id: String, client_secret: Token, code: String, redirect_uri: String },
    RefreshToken { client_id: String, client_secret: Token, refresh_token: Token },
    ClientCredentials { client_id: String, client_secret: Token, scope: String },
}

/// Credentials as plain values.
pub enum CredentialsView {
    AuthorizationCode {
        client_id: Seq<char>,
        client_secret: Seq<char>,
        code: Seq<char>,
        redirect_uri: Seq<char>,
    },
    RefreshToken { client_id: Seq<char>, client_secret: Seq<char>, refresh_token: Seq<char> },
    ClientCredentials { client_id: Seq<char>, client_secret: Seq<char>, scope: Seq<char> },
}

impl CredentialsView {
    /// The client id of the grant.
    pub open spec fn client_id(self) -> Seq<char> {
        match self {
            CredentialsView::AuthorizationCode { client_id, .. } => client_id,
            CredentialsView::RefreshToken { client_id, .. } => client_id,
            CredentialsView::ClientCredentials { client_id, .. } => client_id,
        }
    }

    /// The client secret of the grant.
    pub open spec fn client_secret(self) -> Seq<char> {
        match self {
            CredentialsView::AuthorizationCode { client_secret, .. } => client_secret,
            CredentialsView::RefreshToken { client_secret, .. } => client_secret,
            CredentialsView::ClientCredentials { client_secret, .. } => client_secret,
        }
    }

    /// The refresh token of the grant, if it is a refresh token grant.
    pub open spec fn refresh_token(self) -> Option<Seq<char>> {
        match self {
            CredentialsView::RefreshToken { refresh_token, .. } => Some(refresh_token),
            _ => None,
        }
    }
}

impl View for Credentials {
    type V = CredentialsView;

    open spec fn view(&self) -> CredentialsView {
        match self {
            Credentials::AuthorizationCode {
                client_id,
                client_secret,
                code,
                redirect_uri,
            } => CredentialsView::AuthorizationCode {
                client_id: client_id@,
                client_secret: client_secret@,
                code: code@,
                redirect_uri: redirect_uri@,
            },
            Credentials::RefreshToken {
                client_id,
                client_secret,
                refresh_token,
            } => CredentialsView::RefreshToken {
                client_id: client_id@,
                client_secret: client_secret@,
                refresh_token: refresh_token@,
            },
            Credentials::ClientCredentials {
                client_id,
                client_secret,
                scope,
            } => CredentialsView::ClientCredentials {
                client_id: client_id@,
                client_secret: client_secret@,
                scope: scope@,
            },
        }
    }
}

impl Credentials {
    /// Returns a reference to the client id stored in this [`Credentials`].
    pub fn client_id(&self) -> (r: &str)
        ensures
            r@ == self@.client_id(),
    {
        match self {
            Credentials::AuthorizationCode { client_id, .. } => client_id.as_str(),
            Credentials::RefreshToken { client_id, .. } => client_id.as_str(),
            Credentials::ClientCredentials { client_id, .. } => client_id.as_str(),
        }
    }

    /// Returns a reference to the client secret stored in this [`Credentials`].
    pub fn client_secret(&self) -> (r: &Token)
        ensures
            r@ == self@.client_secret(),
    {
        match self {
            Credentials::AuthorizationCode { client_secret, .. } => client_secret,
            Credentials::RefreshToken { client_secret, .. } => client_secret,
            Credentials::ClientCredentials { client_secret, .. } => client_secret,
        }
    }

    /// Returns a reference to the refresh token stored in this [`Credentials`].
    ///
    /// Returns `None` if the credential is not of type `RefreshToken`.
    pub fn refresh_token(&self) -> (r: Option<&Token>)
        ensures
            match r {
                Some(token) => self@.refresh_token() == Some(token@),
                None => self@.refresh_token() is None,
            },
    {
        match self {
            Credentials::RefreshToken { refresh_token, .. } => Some(refresh_token),
            _ => None,
        }
    }
}

/// Opaque access token used to authenticate to TrueLayer APIs.
#[derive(Debug, Clone)]
pub struct AccessToken {
    pub token: Token,
    pub expires_at: Option<Timestamp>,
}

/// An access token as plain values.
pub struct AccessTokenView {
    pub token: Seq<char>,
    pub expires_at: Option<Timestamp>,
}

impl View for AccessToken {
    type V = AccessTokenView;

    open spec fn view(&self) -> AccessTokenView {
        AccessTokenView { token: self.token@, expires_at: self.expires_at }
    }
}

impl AccessToken {
    /// An access token that expires at the given instant, or never.
    pub fn new(token: Token, expires_at: Option<Timestamp>) -> (r: AccessToken)
        ensures
            r@ == (AccessTokenView { token: token@, expires_at }),
    {
        AccessToken { token, expires_at }
    }

    /// Actual token contents held by this `AccessToken` instance.
    pub fn token(&self) -> (r: &Token)
        ensures
            r@ == self@.token,
    {
        &self.token
    }

    /// Expiration date of the token.
    ///
    /// Returns `None` if this token does not expire.
    pub fn expires_at(&self) -> (r: Option<Timestamp>)
        ensures
            r == self@.expires_at,
    {
        self.expires_at
    }

    /// Exposes a reference to the secret string of the token.
    pub fn expose_secret(&self) -> (r: &str)
        ensures
            r@ == self@.token,
    {
        self.token.expose_secret()
    }

    /// A second access token with the same contents.
    pub fn duplicate(&self) -> (r: AccessToken)
        ensures
            r@ == self@,
    {
        AccessToken { token: self.token.clone(), expires_at: self.expires_at }
    }
}

/// Result of an authentication request.
#[derive(Debug, Clone)]
pub struct AuthenticationResult {
    pub access_token: AccessToken,
    pub refresh_token: Option<Token>,
}

/// The result of an authentication as plain values.
pub struct AuthenticationResultView {
    pub access_token: AccessTokenView,
    pub refresh_token: Option<Seq<char>>,
}

impl View for AuthenticationResult {
    type V = AuthenticationResultView;

    open spec fn view(&self) -> AuthenticationResultView {
        AuthenticationResultView {
            access_token: self.access_token@,
            refresh_token: match self.refresh_token {
                Some(token) => Some(token@),
                None => None,
            },
        }
    }
}

impl AuthenticationResult {
    /// Returns a reference to the [`AccessToken`] returned by the authentication server.
    pub fn access_token(&self) -> (r: &AccessToken)
        ensures
            r@ == self@.access_token,
    {
        &self.access_token
    }

    /// Returns a reference to the refresh token returned by the authentication server, if present.
    pub fn refresh_token(&self) -> (r: Option<&Token>)
        ensures
            match r {
                Some(token) => self@.refresh_token == Some(token@),
                None => self@.refresh_token is None,
            },
    {
        self.refresh_token.as_ref()
    }
}

} // verus!
