//! Manager for credentials and access tokens.
//!
//! The manager is the single owner of the credentials and of the cached
//! access token. It serves one request for a token at a time: either from
//! the cache, or by asking the authentication server, which the caller does
//! on its behalf. Requests that arrive while the server is asked wait, and
//! are answered afterwards with what that one call came to, be it a token
//! or a failure: none of them makes the server be asked again.
use vstd::prelude::*;
use crate::apis::auth::{
    AccessToken, AccessTokenView, AuthenticationResult, AuthenticationResultView, Credentials,
    CredentialsView, Token,
};
use crate::common::BEARER;
use crate::error::{Error, ErrorView};
use crate::text::text_of;
use crate::time::{Timestamp, NANOS_PER_SEC};
use vstd::string::StringExecFns;

verus! {

/// An access token is refreshed this many seconds before it expires.
pub const REFRESH_MARGIN_SECS: i64 = 600;

/// How the report of an unsupported token type begins.
pub const UNSUPPORTED_TOKEN_TYPE: &'static str = "Unsupported access token type: ";

/// How the report of an unsupported token type ends.
pub const UNSUPPORTED_TOKEN_TYPE_END: &'static str = ". This is a bug in the SDK.";

/// Successful response of an authentication request.
///
/// The response holds tokens in the clear, so it cannot be printed.
#[derive(Clone, PartialEq, Eq)]
pub struct RawAuthenticationResponse {
    pub access_token: String,
    /// Seconds from now until the access token expires.
    pub expires_in: i64,
    pub refresh_token: Option<String>,
    pub token_type: String,
}

/// A successful response of an authentication request as plain values.
pub struct Answer {
    pub token_type: Seq<char>,
    pub access_token: Seq<char>,
    pub expires_in: i64,
    pub refresh_token: Option<Seq<char>>,
}

impl View for RawAuthenticationResponse {
    type V = Answer;

    open spec fn view(&self) -> Answer {
        Answer {
            token_type: self.token_type@,
            access_token: self.access_token@,
            expires_in: self.expires_in,
            refresh_token: text_of(self.refresh_token),
        }
    }
}

/// What an authentication comes to for the one who asked for it.
pub type Outcome = Result<AuthenticationResult, Error>;

/// What an authentication comes to, as plain values.
pub type OutcomeView = Result<AuthenticationResultView, ErrorView>;

/// The outcome of an authentication as plain values.
pub open spec fn outcome_view(outcome: Outcome) -> OutcomeView {
    match outcome {
        Ok(result) => Ok(result@),
        Err(e) => Err(e@),
    }
}

/// An authentication that has come to its end.
#[derive(Debug)]
pub struct Refresh {
    /// When the outcome was there.
    pub answered_at: Timestamp,
    /// What the authentication came to.
    pub outcome: Outcome,
}

/// An authentication that has come to its end, as plain values.
pub struct RefreshView {
    pub answered_at: Timestamp,
    pub outcome: OutcomeView,
}

impl View for Refresh {
    type V = RefreshView;

    open spec fn view(&self) -> RefreshView {
        RefreshView { answered_at: self.answered_at, outcome: outcome_view(self.outcome) }
    }
}

/// Internal state of the authenticator.
#[derive(Debug)]
pub struct AuthenticatorState {
    credentials: Credentials,
    access_token: Option<AccessToken>,
    last_refresh: Option<Refresh>,
}

/// The state of the authenticator as plain values.
pub struct AuthenticatorView {
    /// The grant that the next authentication will use.
    pub credentials: CredentialsView,
    /// The access token in the cache.
    pub access_token: Option<AccessTokenView>,
    /// The last authentication that has come to its end.
    pub last_refresh: Option<RefreshView>,
}

/// What the manager does with a request for an access token, as plain
/// values.
pub enum StepView {
    /// The request arrived while the last authentication was under way, and
    /// is answered with its outcome.
    Shared(OutcomeView),
    /// The request is answered from the cache.
    Cached(AuthenticationResultView),
    /// The server has to be asked.
    Authenticate,
}

/// A token that expires at `expires_at` is due for a refresh at `now`: it
/// expires in ten minutes or less, or has expired. A token that never
/// expires is never due.
pub open spec fn is_due(expires_at: Option<Timestamp>, now: Timestamp) -> bool {
    match expires_at {
        Some(at) => now.nanos >= at.nanos - REFRESH_MARGIN_SECS * NANOS_PER_SEC,
        None => false,
    }
}

/// Returns `true` if the token is close to expiration (10 minutes before
/// actual expiration) and should be refreshed. If this token does not
/// expire, this function always returns `false`.
pub fn should_refresh_token(token: &AccessToken, now: &Timestamp) -> (r: bool)
    ensures
        r == is_due(token@.expires_at, *now),
{
    match token.expires_at {
        Some(at) => {
            let margin: i128 = REFRESH_MARGIN_SECS as i128 * NANOS_PER_SEC;
            match at.nanos.checked_sub(margin) {
                Some(due) => now.nanos >= due,
                None => true,
            }
        },
        None => false,
    }
}

/// The instant at which a token that was received at `now` and lives for
/// `expires_in` seconds expires.
pub open spec fn expiry(now: Timestamp, expires_in: i64) -> int {
    now.nanos + expires_in * NANOS_PER_SEC
}

impl AuthenticatorView {
    /// The cached token can be handed out at `now`: there is one, and it is
    /// not due for a refresh.
    pub open spec fn is_fresh(self, now: Timestamp) -> bool {
        self.access_token matches Some(token) && !is_due(token.expires_at, now)
    }

    /// What a request is answered with from the cache at `now`: the cached
    /// token and the refresh token of the current grant, if the cached token
    /// is fresh; nothing if the server has to be asked.
    pub open spec fn cached(self, now: Timestamp) -> Option<AuthenticationResultView> {
        if self.is_fresh(now) {
            Some(
                AuthenticationResultView {
                    access_token: self.access_token.unwrap(),
                    refresh_token: self.credentials.refresh_token(),
                },
            )
        } else {
            None
        }
    }

    /// What a request that arrived at `arrived_at` shares: the outcome of
    /// the last authentication, if the request arrived before that outcome
    /// was there, and so has waited for it.
    pub open spec fn shared(self, arrived_at: Timestamp) -> Option<OutcomeView> {
        match self.last_refresh {
            Some(refresh) => if arrived_at.nanos < refresh.answered_at.nanos {
                Some(refresh.outcome)
            } else {
                None
            },
            None => None,
        }
    }

    /// What the manager does, with the clock reading `now`, with a request
    /// that arrived at `arrived_at`: a request that has waited for the last
    /// authentication is answered with its outcome, success or failure; any
    /// other is answered from the cache while the cached token is fresh;
    /// and only for what is left the server is asked.
    pub open spec fn step(self, arrived_at: Timestamp, now: Timestamp) -> StepView {
        match self.shared(arrived_at) {
            Some(outcome) => StepView::Shared(outcome),
            None => match self.cached(now) {
                Some(result) => StepView::Cached(result),
                None => StepView::Authenticate,
            },
        }
    }

    /// What the server's answer comes to when it is taken in at `now`: the
    /// new token, or the refusal of a token that is no bearer token.
    pub open spec fn outcome_of(answer: Answer, now: Timestamp) -> OutcomeView {
        if answer.token_type == BEARER@ {
            Ok(AuthenticatorView::granted(answer, now))
        } else {
            Err(
                ErrorView::Other(
                    UNSUPPORTED_TOKEN_TYPE@ + answer.token_type + UNSUPPORTED_TOKEN_TYPE_END@,
                ),
            )
        }
    }

    /// The state after the server's answer has been taken in at `now`: the
    /// new token is cached with its expiry, and a refresh token in the
    /// answer becomes the grant of every later authentication, under the
    /// same client id and secret. An answer whose token is no bearer token
    /// leaves the grant and the cache as they are. Either way the outcome
    /// is kept for the requests that have waited for it.
    pub open spec fn accepted(self, answer: Answer, now: Timestamp) -> AuthenticatorView {
        let last_refresh = Some(
            RefreshView { answered_at: now, outcome: AuthenticatorView::outcome_of(answer, now) },
        );
        if answer.token_type != BEARER@ {
            AuthenticatorView {
                credentials: self.credentials,
                access_token: self.access_token,
                last_refresh,
            }
        } else {
            AuthenticatorView {
                credentials: match answer.refresh_token {
                    Some(token) => CredentialsView::RefreshToken {
                        client_id: self.credentials.client_id(),
                        client_secret: self.credentials.client_secret(),
                        refresh_token: token,
                    },
                    None => self.credentials,
                },
                access_token: Some(AuthenticatorView::granted(answer, now).access_token),
                last_refresh,
            }
        }
    }

    /// The state after a call to the server has failed with `error` at
    /// `now`: the grant and the cache are as they were, and the failure is
    /// kept for the requests that have waited for the call.
    pub open spec fn failed(self, error: ErrorView, now: Timestamp) -> AuthenticatorView {
        AuthenticatorView {
            credentials: self.credentials,
            access_token: self.access_token,
            last_refresh: Some(RefreshView { answered_at: now, outcome: Err(error) }),
        }
    }

    /// What the caller is handed once the server's answer has been taken
    /// in: the new token and the refresh token of the answer.
    pub open spec fn granted(answer: Answer, now: Timestamp) -> AuthenticationResultView {
        AuthenticationResultView {
            access_token: AccessTokenView {
                token: answer.access_token,
                expires_at: Some(Timestamp { nanos: expiry(now, answer.expires_in) as i128 }),
            },
            refresh_token: answer.refresh_token,
        }
    }
}

impl View for AuthenticatorState {
    type V = AuthenticatorView;

    closed spec fn view(&self) -> AuthenticatorView {
        AuthenticatorView {
            credentials: self.credentials@,
            access_token: match self.access_token {
                Some(token) => Some(token@),
                None => None,
            },
            last_refresh: match self.last_refresh {
                Some(refresh) => Some(refresh@),
                None => None,
            },
        }
    }
}

/// What the manager does with a request for an access token.
#[derive(Debug)]
pub enum Step<'a> {
    /// The request arrived while the last authentication was under way: it
    /// is answered with the outcome of that authentication, token or
    /// failure, without a call to the server.
    Shared(&'a Outcome),
    /// The request is answered from the cache, without a call to the server.
    Cached(AuthenticationResult),
    /// The server has to be asked, with the manager's current credentials
    /// as the body of the request; its answer goes to
    /// [`AuthenticatorState::accept`], its failure to
    /// [`AuthenticatorState::fail`].
    Authenticate,
}

impl<'a> View for Step<'a> {
    type V = StepView;

    open spec fn view(&self) -> StepView {
        match self {
            Step::Shared(outcome) => StepView::Shared(outcome_view(**outcome)),
            Step::Cached(result) => StepView::Cached(result@),
            Step::Authenticate => StepView::Authenticate,
        }
    }
}

impl AuthenticatorState {
    /// The state of an authenticator that starts with the given credentials
    /// and without an access token.
    pub fn new(credentials: Credentials) -> (r: AuthenticatorState)
        ensures
            r@ == (AuthenticatorView {
                credentials: credentials@,
                access_token: None,
                last_refresh: None,
            }),
    {
        AuthenticatorState { credentials, access_token: None, last_refresh: None }
    }

    /// The credentials that the next authentication uses.
    pub fn credentials(&self) -> (r: &Credentials)
        ensures
            r@ == self@.credentials,
    {
        &self.credentials
    }

    /// Answers a request for an access token from the cache, if the cached
    /// token is fresh at `now`.
    pub fn cached_at(&self, now: &Timestamp) -> (r: Option<AuthenticationResult>)
        ensures
            match r {
                Some(result) => self@.cached(*now) == Some(result@),
                None => self@.cached(*now) is None,
            },
    {
        match &self.access_token {
            Some(token) => {
                if should_refresh_token(token, now) {
                    None
                } else {
                    let refresh_token = match self.credentials.refresh_token() {
                        Some(token) => Some(token.clone()),
                        None => None,
                    };
                    Some(AuthenticationResult { access_token: token.duplicate(), refresh_token })
                }
            },
            None => None,
        }
    }

    /// Decides what to do with a request that arrived at `arrived_at`, with
    /// the clock reading `now`.
    ///
    /// A request that arrived before the outcome of the last authentication
    /// was there has waited for that authentication, and is answered with
    /// its outcome, be it a token or a failure. Any other request is
    /// answered from the cache while the cached token is fresh. Only for
    /// what is left the server has to be asked.
    pub fn step_at(&self, arrived_at: &Timestamp, now: &Timestamp) -> (r: Step<'_>)
        ensures
            r@ == self@.step(*arrived_at, *now),
    {
        if let Some(refresh) = &self.last_refresh {
            if arrived_at.nanos < refresh.answered_at.nanos {
                return Step::Shared(&refresh.outcome);
            }
        }
        match self.cached_at(now) {
            Some(result) => Step::Cached(result),
            None => Step::Authenticate,
        }
    }

    /// Takes in the server's answer to an authentication, with the clock
    /// reading `now`.
    ///
    /// An answer whose token type is not `Bearer` is refused, and leaves the
    /// grant and the cache as they are. Otherwise the new token is cached,
    /// to expire `expires_in` seconds after `now`; a refresh token in the
    /// answer replaces the current grant; and the caller is handed the new
    /// token with the refresh token of the answer. Either way what the
    /// caller is handed is kept for the requests that arrived before `now`.
    pub fn accept_at(&mut self, response: RawAuthenticationResponse, now: &Timestamp) -> (r:
        Outcome)
        requires
            i128::MIN <= expiry(*now, response.expires_in) <= i128::MAX,
        ensures
            final(self)@ == old(self)@.accepted(response@, *now),
            outcome_view(r) == AuthenticatorView::outcome_of(response@, *now),
    {
        let bearer = BEARER.to_owned();
        if !(response.token_type == bearer) {
            let mut why = UNSUPPORTED_TOKEN_TYPE.to_owned();
            why.append(response.token_type.as_str());
            why.append(UNSUPPORTED_TOKEN_TYPE_END);
            self.last_refresh = Some(
                Refresh { answered_at: *now, outcome: Err(Error::Other(why.clone())) },
            );
            return Err(Error::Other(why));
        }
        let expires_at = now.add_secs(response.expires_in);
        let token = AccessToken::new(Token::new(response.access_token), Some(expires_at));
        self.access_token = Some(token.duplicate());
        let refresh_token = match response.refresh_token {
            Some(text) => {
                let refresh_token = Token::new(text);
                self.credentials = Credentials::RefreshToken {
                    client_id: self.credentials.client_id().to_owned(),
                    client_secret: self.credentials.client_secret().clone(),
                    refresh_token: refresh_token.clone(),
                };
                Some(refresh_token)
            },
            None => None,
        };
        let kept = AuthenticationResult {
            access_token: token.duplicate(),
            refresh_token: match &refresh_token {
                Some(token) => Some(token.clone()),
                None => None,
            },
        };
        self.last_refresh = Some(Refresh { answered_at: *now, outcome: Ok(kept) });
        Ok(AuthenticationResult { access_token: token, refresh_token })
    }

    /// Takes in the failure of a call to the server, with the clock reading
    /// `now`: the grant and the cache stay as they are, and the failure is
    /// kept for the requests that arrived before `now`.
    pub fn fail_at(&mut self, error: Error, now: &Timestamp)
        ensures
            final(self)@ == old(self)@.failed(error@, *now),
    {
        self.last_refresh = Some(Refresh { answered_at: *now, outcome: Err(error) });
    }

    /// Decides what to do with a request that arrived at `arrived_at`, by
    /// the clock: answer it with the outcome of the authentication that it
    /// has waited for, answer it from the cache, or ask the server.
    pub fn begin(&self, arrived_at: &Timestamp) -> (r: Step<'_>)
        ensures
            exists|now: Timestamp| now.in_clock_range() && r@ == #[trigger] self@.step(*arrived_at, now),
    {
        let now = Timestamp::now();
        self.step_at(arrived_at, &now)
    }

    /// Takes in the server's answer to an authentication, by the clock.
    pub fn accept(&mut self, response: RawAuthenticationResponse) -> (r: Outcome)
        ensures
            response.token_type@ == BEARER@ <==> r is Ok,
            exists|now: Timestamp|
                now.in_clock_range() && #[trigger] final(self)@ == old(self)@.accepted(
                    response@,
                    now,
                ) && outcome_view(r) == AuthenticatorView::outcome_of(response@, now),
    {
        let now = Timestamp::now();
        self.accept_at(response, &now)
    }

    /// Takes in the failure of a call to the server, by the clock.
    pub fn fail(&mut self, error: Error)
        ensures
            exists|now: Timestamp|
                now.in_clock_range() && #[trigger] final(self)@ == old(self)@.failed(error@, now),
    {
        let now = Timestamp::now();
        self.fail_at(error, &now)
    }
}

/// A cached token is handed out, without a call to the server, exactly
/// while its expiry lies more than ten minutes ahead, or if it never
/// expires; the token handed out is the cached one.
pub proof fn lemma_freshness_margin(state: AuthenticatorView, now: Timestamp)
    ensures
        state.cached(now) is Some <==> (state.access_token matches Some(token) && (
        token.expires_at matches Some(at) ==> at.nanos - now.nanos > REFRESH_MARGIN_SECS
            * NANOS_PER_SEC)),
        state.cached(now) matches Some(result) ==> Some(result.access_token)
            == state.access_token,
{
}

/// Once the server has granted a bearer token, every later request that is
/// served more than ten minutes before the token expires is answered from
/// the cache, with that same token: the one refresh serves them all,
/// however many they are and whenever in that time they are served.
pub proof fn lemma_one_refresh_serves_all(
    state: AuthenticatorView,
    answer: Answer,
    accepted_at: Timestamp,
    served_at: Seq<Timestamp>,
)
    requires
        answer.token_type == BEARER@,
        i128::MIN <= expiry(accepted_at, answer.expires_in) <= i128::MAX,
        forall|i: int|
            0 <= i < served_at.len() ==> (#[trigger] served_at[i]).nanos < expiry(
                accepted_at,
                answer.expires_in,
            ) - REFRESH_MARGIN_SECS * NANOS_PER_SEC,
    ensures
        forall|i: int|
            0 <= i < served_at.len() ==> (#[trigger] state.accepted(answer, accepted_at).cached(
                served_at[i],
            ) matches Some(result) && result.access_token == AuthenticatorView::granted(
                answer,
                accepted_at,
            ).access_token),
{
}

/// Those later requests are handed the very result of the refresh, refresh
/// token included, if the server sent a refresh token or the grant before
/// the refresh had none.
pub proof fn lemma_later_requests_get_same_result(
    state: AuthenticatorView,
    answer: Answer,
    accepted_at: Timestamp,
    served_at: Timestamp,
)
    requires
        answer.token_type == BEARER@,
        i128::MIN <= expiry(accepted_at, answer.expires_in) <= i128::MAX,
        served_at.nanos < expiry(accepted_at, answer.expires_in) - REFRESH_MARGIN_SECS
            * NANOS_PER_SEC,
        answer.refresh_token is Some || state.credentials.refresh_token() is None,
    ensures
        state.accepted(answer, accepted_at).cached(served_at) == Some(
            AuthenticatorView::granted(answer, accepted_at),
        ),
{
}

/// What one call to the authentication server comes to.
pub enum Reply {
    /// The server answered.
    Answered(Answer),
    /// The call failed: the server could not be reached, or it answered
    /// with an error.
    Failed(ErrorView),
}

/// When one request for a token arrives and is served: what the clock
/// reads when the request arrives, when the manager turns to it, and when
/// the outcome of the call to the server is there, should the server be
/// asked for it.
pub struct Turn {
    pub arrived_at: Timestamp,
    pub served_at: Timestamp,
    pub answered_at: Timestamp,
}

/// What serving a queue of requests comes to.
pub struct Served {
    /// The state of the manager after the last request.
    pub state: AuthenticatorView,
    /// How many times the server was asked.
    pub calls: nat,
    /// What each request was answered with, in the order of the queue.
    pub results: Seq<OutcomeView>,
}

impl AuthenticatorView {
    /// The state after the call that was made for a request has come to
    /// `reply` at `now`.
    pub open spec fn replied(self, reply: Reply, now: Timestamp) -> AuthenticatorView {
        match reply {
            Reply::Answered(answer) => self.accepted(answer, now),
            Reply::Failed(error) => self.failed(error, now),
        }
    }
}

/// What the one who asked is handed when the call comes to `reply` at
/// `now`.
pub open spec fn outcome_of_reply(reply: Reply, now: Timestamp) -> OutcomeView {
    match reply {
        Reply::Answered(answer) => AuthenticatorView::outcome_of(answer, now),
        Reply::Failed(error) => Err(error),
    }
}

/// The manager serving a queue of requests, one after another, from the
/// request with index `from` on. The server has been asked `calls` times
/// before, and its `n`-th call comes to `replies(n)`.
pub open spec fn serve(
    state: AuthenticatorView,
    queue: Seq<Turn>,
    replies: spec_fn(nat) -> Reply,
    calls: nat,
    from: nat,
) -> Served
    decreases queue.len() - from,
{
    if from >= queue.len() {
        Served { state, calls, results: Seq::empty() }
    } else {
        let turn = queue[from as int];
        match state.step(turn.arrived_at, turn.served_at) {
            StepView::Shared(outcome) => {
                let rest = serve(state, queue, replies, calls, from + 1);
                Served { state: rest.state, calls: rest.calls, results: seq![outcome] + rest.results }
            },
            StepView::Cached(result) => {
                let rest = serve(state, queue, replies, calls, from + 1);
                Served {
                    state: rest.state,
                    calls: rest.calls,
                    results: seq![Ok(result)] + rest.results,
                }
            },
            StepView::Authenticate => {
                let next = state.replied(replies(calls), turn.answered_at);
                let outcome = outcome_of_reply(replies(calls), turn.answered_at);
                let rest = serve(next, queue, replies, calls + 1, from + 1);
                Served { state: rest.state, calls: rest.calls, results: seq![outcome] + rest.results }
            },
        }
    }
}

/// Requests that all arrived before the outcome of the last authentication
/// was there are all answered with that outcome, token or failure, without
/// a call to the server and without a change of the manager's state.
pub proof fn lemma_waiting_requests_share_outcome(
    state: AuthenticatorView,
    queue: Seq<Turn>,
    replies: spec_fn(nat) -> Reply,
    calls: nat,
    from: nat,
)
    requires
        state.last_refresh is Some,
        forall|i: int|
            from <= i < queue.len() ==> (#[trigger] queue[i]).arrived_at.nanos
                < state.last_refresh.unwrap().answered_at.nanos,
    ensures
        serve(state, queue, replies, calls, from).state == state,
        serve(state, queue, replies, calls, from).calls == calls,
        serve(state, queue, replies, calls, from).results.len() == if from <= queue.len() {
            queue.len() - from
        } else {
            0
        },
        forall|i: int|
            0 <= i < serve(state, queue, replies, calls, from).results.len() ==> (#[trigger] serve(
                state,
                queue,
                replies,
                calls,
                from,
            ).results[i]) == state.last_refresh.unwrap().outcome,
    decreases queue.len() - from,
{
    if from < queue.len() {
        lemma_waiting_requests_share_outcome(state, queue, replies, calls, from + 1);
    }
}

/// Any number of requests that arrive while one call to the server is
/// under way make the server be asked exactly once, for the first of them,
/// and are all answered with what that one call came to: the same token if
/// the server granted one, and the same failure if the call failed or its
/// answer was refused.
pub proof fn lemma_concurrent_requests_are_batched(
    state: AuthenticatorView,
    queue: Seq<Turn>,
    replies: spec_fn(nat) -> Reply,
)
    requires
        queue.len() >= 1,
        state.step(queue[0].arrived_at, queue[0].served_at) is Authenticate,
        forall|i: int|
            1 <= i < queue.len() ==> (#[trigger] queue[i]).arrived_at.nanos
                < queue[0].answered_at.nanos,
    ensures
        serve(state, queue, replies, 0, 0).calls == 1,
        serve(state, queue, replies, 0, 0).results.len() == queue.len(),
        forall|i: int|
            0 <= i < queue.len() ==> (#[trigger] serve(state, queue, replies, 0, 0).results[i])
                == outcome_of_reply(replies(0), queue[0].answered_at),
        serve(state, queue, replies, 0, 0).state == state.replied(
            replies(0),
            queue[0].answered_at,
        ),
{
    let next = state.replied(replies(0), queue[0].answered_at);
    lemma_waiting_requests_share_outcome(next, queue, replies, 1, 1);
}

/// A request that arrives once the outcome of an authentication is there
/// has not waited for it, and is served on its own: from the cache while
/// the cached token is fresh, and else by asking the server anew. So a
/// failure is handed to those who waited for it, and to no one after them.
pub proof fn lemma_later_request_is_served_anew(
    state: AuthenticatorView,
    reply: Reply,
    answered_at: Timestamp,
    arrived_at: Timestamp,
    now: Timestamp,
)
    requires
        arrived_at.nanos >= answered_at.nanos,
    ensures
        state.replied(reply, answered_at).step(arrived_at, now) == match state.replied(
            reply,
            answered_at,
        ).cached(now) {
            Some(result) => StepView::Cached(result),
            None => StepView::Authenticate,
        },
        !(reply matches Reply::Answered(answer) && answer.token_type == BEARER@) ==> state.replied(
            reply,
            answered_at,
        ).cached(now) == state.cached(now),
{
}

/// Requests that have not waited for an authentication and are all served
/// while the cached token is fresh are all answered with that token,
/// without a call to the server and without a change of the manager's
/// state.
pub proof fn lemma_fresh_token_serves_queue(
    state: AuthenticatorView,
    queue: Seq<Turn>,
    replies: spec_fn(nat) -> Reply,
    calls: nat,
    from: nat,
)
    requires
        forall|i: int|
            from <= i < queue.len() ==> state.shared((#[trigger] queue[i]).arrived_at) is None
                && state.is_fresh(queue[i].served_at),
    ensures
        serve(state, queue, replies, calls, from).state == state,
        serve(state, queue, replies, calls, from).calls == calls,
        forall|i: int|
            0 <= i < serve(state, queue, replies, calls, from).results.len() ==> (#[trigger] serve(
                state,
                queue,
                replies,
                calls,
                from,
            ).results[i] matches Ok(result) && Some(result.access_token) == state.access_token),
    decreases queue.len() - from,
{
    if from < queue.len() {
        lemma_fresh_token_serves_queue(state, queue, replies, calls, from + 1);
    }
}

/// A refresh token in the server's answer becomes the grant of the next
/// authentication, under the client id and secret of the grant before; and
/// it stays the grant through every later answer that brings no refresh
/// token of its own, and through every failure.
pub proof fn lemma_grant_rotation(
    state: AuthenticatorView,
    answer: Answer,
    now: Timestamp,
    later_reply: Reply,
    later: Timestamp,
)
    requires
        answer.token_type == BEARER@,
        answer.refresh_token is Some,
        later_reply matches Reply::Answered(later_answer) ==> later_answer.refresh_token is None,
    ensures
        state.accepted(answer, now).credentials == (CredentialsView::RefreshToken {
            client_id: state.credentials.client_id(),
            client_secret: state.credentials.client_secret(),
            refresh_token: answer.refresh_token.unwrap(),
        }),
        state.accepted(answer, now).replied(later_reply, later).credentials == state.accepted(
            answer,
            now,
        ).credentials,
{
}

/// An answer whose token is no bearer token, and a call that fails, leave
/// the grant and the cache as they were: whoever has not waited for that
/// call is served as if it had never been made.
pub proof fn lemma_failure_keeps_grant_and_cache(
    state: AuthenticatorView,
    reply: Reply,
    now: Timestamp,
)
    requires
        !(reply matches Reply::Answered(answer) && answer.token_type == BEARER@),
    ensures
        state.replied(reply, now).credentials == state.credentials,
        state.replied(reply, now).access_token == state.access_token,
        state.replied(reply, now).last_refresh == Some(
            RefreshView { answered_at: now, outcome: outcome_of_reply(reply, now) },
        ),
        outcome_of_reply(reply, now) is Err,
{
}

} // verus!
