//! The login as a machine of three phases. Each phase is a type of its
//! own, and the only way from one to the next is the operation that the
//! phase offers: nothing can be skipped, and nothing leads back.

use vstd::prelude::*;
use vstd::string::*;
use crate::errors::{Error, ErrorView, error_view};
use crate::request;
use crate::request::{
    api_outcome, authorize_pairs, authorized_code, basic_header, bearer_header, body_document,
    exchange_outcome, exchange_pairs, offered_refresh_token, params_view, query_url,
    refresh_outcome, refresh_pairs, request_for, tokens_of, URL_AUTHORIZE, URL_TOKEN,
};
use crate::types::{
    ApiResponse, ClientId, ClientSecret, ExpiryTime, HttpRequest, HttpResponse, RequestMethod,
    Scope, Tokens, TokensView, clock_reading, current_time,
};

verus! {

/// The port on which every machine expects the provider's redirect.
pub const CALLBACK_PORT: u16 = 30405;

/// The client's credentials together with the state of one phase.
#[derive(Debug)]
pub struct StateMachine<State> {
    client_id: ClientId,
    client_secret: ClientSecret,
    callback_port: u16,
    state: State,
}

/// Nothing has happened yet.
#[derive(Debug)]
pub struct Unauthenticated;

/// The user has consented: the provider handed out an authorization code.
#[derive(Debug)]
pub struct Authenticated {
    auth_code: String,
}

/// The code has been exchanged: the machine holds a token set.
#[derive(Debug)]
pub struct TokenBearing {
    auth_code: String,
    tokens: Tokens,
}

/// The mathematical content of a [`TokenBearing`].
pub struct TokenBearingView {
    /// The code that was exchanged; it serves no further exchange.
    pub auth_code: Seq<char>,
    pub tokens: TokensView,
}

/// The mathematical content of a [`StateMachine`]: the credentials and the
/// content of the phase.
pub struct MachineView<Phase> {
    pub client_id: Seq<char>,
    pub client_secret: Seq<char>,
    pub callback_port: u16,
    pub phase: Phase,
}

impl<Phase> MachineView<Phase> {
    /// The same credentials in another phase.
    pub open spec fn with_phase<Next>(self, phase: Next) -> MachineView<Next> {
        MachineView {
            client_id: self.client_id,
            client_secret: self.client_secret,
            callback_port: self.callback_port,
            phase,
        }
    }
}

impl View for Unauthenticated {
    type V = ();

    open spec fn view(&self) -> () {
        ()
    }
}

impl View for Authenticated {
    type V = Seq<char>;

    closed spec fn view(&self) -> Seq<char> {
        self.auth_code@
    }
}

impl View for TokenBearing {
    type V = TokenBearingView;

    closed spec fn view(&self) -> TokenBearingView {
        TokenBearingView { auth_code: self.auth_code@, tokens: self.tokens@ }
    }
}

impl TokenBearing {
    /// The token set of a machine can always renew itself.
    #[verifier::type_invariant]
    spec fn renewable(self) -> bool {
        self.tokens@.wf()
    }
}

impl<State: View> View for StateMachine<State> {
    type V = MachineView<State::V>;

    closed spec fn view(&self) -> MachineView<State::V> {
        MachineView {
            client_id: self.client_id@,
            client_secret: self.client_secret@,
            callback_port: self.callback_port,
            phase: self.state@,
        }
    }
}

/// What an attempt to authenticate comes to: the code that the callback
/// line carries, or the failure of the listener itself.
pub open spec fn authentication(callback: Result<String, Error>) -> Result<Seq<char>, ErrorView> {
    match callback {
        Ok(line) => authorized_code(line@),
        Err(e) => Err(e@),
    }
}

/// What an attempt to exchange the code comes to, for a response received
/// at `now`, or for the failure of the transfer itself.
pub open spec fn exchange(response: Result<HttpResponse, Error>, now: i64) -> Result<
    TokensView,
    ErrorView,
> {
    match response {
        Ok(received) => exchange_outcome(received.status, received.body@, now),
        Err(e) => Err(e@),
    }
}

/// What an attempt to refresh comes to, for a response received at `now`,
/// or for the failure of the transfer itself.
pub open spec fn refreshment(old: TokensView, response: Result<HttpResponse, Error>, now: i64)
    -> Result<TokensView, ErrorView> {
    match response {
        Ok(received) => refresh_outcome(old, received.status, received.body@, now),
        Err(e) => Err(e@),
    }
}

/// What an API call comes to, or the failure of the transfer itself.
pub open spec fn api_call(response: Result<HttpResponse, Error>, endpoint: Seq<char>) -> Result<
    ApiResponse,
    ErrorView,
> {
    match response {
        Ok(received) => api_outcome(received.status, received.body@, endpoint),
        Err(e) => Err(e@),
    }
}

impl<S: View> StateMachine<S> {
    fn transition<T: View>(self, new_state: T) -> (next: StateMachine<T>)
        ensures
            next@ == self@.with_phase(new_state@),
    {
        StateMachine {
            client_id: self.client_id,
            callback_port: self.callback_port,
            client_secret: self.client_secret,
            state: new_state,
        }
    }

    /// The client id that the machine was made with.
    pub fn client_id(&self) -> (id: &str)
        ensures
            id@ == self@.client_id,
    {
        self.client_id.as_str()
    }

    /// The port on which the callback listener has to wait.
    pub fn callback_port(&self) -> (port: u16)
        ensures
            port == self@.callback_port,
    {
        self.callback_port
    }
}

impl StateMachine<Unauthenticated> {
    /// A machine for one client, before anything has happened.
    pub fn new(client_id: ClientId, client_secret: ClientSecret) -> (machine: Self)
        ensures
            machine@ == (MachineView {
                client_id: client_id@,
                client_secret: client_secret@,
                callback_port: CALLBACK_PORT,
                phase: (),
            }),
    {
        StateMachine {
            client_id,
            client_secret,
            callback_port: CALLBACK_PORT,
            state: Unauthenticated,
        }
    }

    /// The URL to open in the user's browser, for a scope and an optional
    /// `show_dialog` flag.
    pub fn authorize_url(&self, scope: &Scope, show_dialog: Option<bool>) -> (url: String)
        ensures
            url@ == query_url(
                URL_AUTHORIZE@,
                authorize_pairs(self@.client_id, self@.callback_port, scope@, show_dialog),
            ),
    {
        request::authorize_url(self.client_id.as_str(), self.callback_port, scope, show_dialog)
    }

    /// Moves on with what the callback listener got: the first line of the
    /// browser's request, or the listener's own failure. With a line that
    /// carries a code the machine is authenticated; in every other case it
    /// comes back as it was, with the error.
    pub fn authenticate(self, callback: Result<String, Error>) -> (outcome: Result<
        StateMachine<Authenticated>,
        (Self, Error),
    >)
        ensures
            match outcome {
                Ok(next) => authentication(callback) == Ok::<Seq<char>, ErrorView>(next@.phase)
                    && next@ == self@.with_phase(next@.phase),
                Err((same, e)) => authentication(callback) == Err::<Seq<char>, ErrorView>(e@)
                    && same == self,
            },
    {
        let line = match callback {
            Ok(line) => line,
            Err(e) => {
                return Err((self, e));
            },
        };
        match request::authorize(line.as_str()) {
            Ok(code) => Ok(self.transition(Authenticated { auth_code: code })),
            Err(e) => Err((self, e)),
        }
    }
}

impl StateMachine<Authenticated> {
    /// The authorization code that the provider handed out.
    pub fn auth_code(&self) -> (code: &str)
        ensures
            code@ == self@.phase,
    {
        self.state.auth_code.as_str()
    }

    /// The request that exchanges the code for tokens.
    pub fn token_request(&self) -> (request: HttpRequest)
        ensures
            request@ == request_for(
                RequestMethod::Post,
                Some(
                    exchange_pairs(
                        self@.phase,
                        self@.callback_port,
                        self@.client_secret,
                        self@.client_id,
                    ),
                ),
                seq![],
                URL_TOKEN@,
            ),
    {
        request::token_request(
            self.state.auth_code.as_str(),
            self.callback_port,
            self.client_secret.as_str(),
            self.client_id.as_str(),
        )
    }

    /// Whether `outcome` is what the answer to the token request, received
    /// at `now`, makes of this machine. A response that the exchange
    /// accepts gives a machine that bears the tokens of the response, with
    /// the same credentials and the code that was spent. Anything else
    /// gives the machine back as it was, with the error.
    pub open spec fn exchanged(
        self,
        response: Result<HttpResponse, Error>,
        now: i64,
        outcome: Result<StateMachine<TokenBearing>, (Self, Error)>,
    ) -> bool {
        match outcome {
            Ok(next) => exchange(response, now) == Ok::<TokensView, ErrorView>(
                next@.phase.tokens,
            ) && next@ == self@.with_phase(
                TokenBearingView { auth_code: self@.phase, tokens: next@.phase.tokens },
            ),
            Err((same, e)) => exchange(response, now) == Err::<TokensView, ErrorView>(e@)
                && same == self,
        }
    }

    /// Moves on with the answer to the token request, received at `now`:
    /// the response, or the failure of the transfer. With a response that
    /// the exchange accepts the machine bears tokens, and keeps the code
    /// that it spent; in every other case it comes back as it was, with
    /// the error.
    pub fn request_token_at(self, response: Result<HttpResponse, Error>, now: ExpiryTime) -> (outcome:
        Result<StateMachine<TokenBearing>, (Self, Error)>)
        ensures
            self.exchanged(response, now, outcome),
    {
        let received = match response {
            Ok(received) => received,
            Err(e) => {
                return Err((self, e));
            },
        };
        match request::request_token(received, now) {
            Ok(tokens) => {
                let auth_code = self.state.auth_code.clone();
                Ok(self.transition(TokenBearing { auth_code, tokens }))
            },
            Err(e) => Err((self, e)),
        }
    }

    /// As [`Self::request_token_at`], at the moment that the system clock
    /// shows, which is some moment that [`clock_reading`] admits.
    pub fn request_token(self, response: Result<HttpResponse, Error>) -> (outcome: Result<
        StateMachine<TokenBearing>,
        (Self, Error),
    >)
        ensures
            exists|now: i64| clock_reading(now) && #[trigger] self.exchanged(response, now, outcome),
    {
        let now = current_time();
        self.request_token_at(response, now)
    }
}

impl StateMachine<TokenBearing> {
    /// The authorization code that was exchanged. It is kept for
    /// diagnostics only.
    pub fn auth_code(&self) -> (code: &str)
        ensures
            code@ == self@.phase.auth_code,
    {
        self.state.auth_code.as_str()
    }

    /// The token set that the machine holds.
    pub fn tokens(&self) -> (tokens: &Tokens)
        ensures
            tokens@ == self@.phase.tokens,
            tokens@.wf(),
    {
        proof {
            use_type_invariant(&self.state);
        }
        &self.state.tokens
    }

    /// The request for an API call, signed with the access token held.
    pub fn api_request(
        &self,
        method: RequestMethod,
        params: Option<Vec<(&str, &str)>>,
        endpoint: &str,
    ) -> (request: HttpRequest)
        ensures
            request@ == request_for(
                method,
                params_view(params),
                seq![bearer_header(self@.phase.tokens.access_token)],
                endpoint@,
            ),
    {
        request::api_request(self.state.tokens.access_token.as_str(), method, params, endpoint)
    }

    /// Reads the answer to an API call: the response, or the failure of the
    /// transfer. The machine stays as it is.
    pub fn access_api(&self, response: Result<HttpResponse, Error>, endpoint: &str) -> (outcome:
        Result<ApiResponse, Error>)
        ensures
            error_view(outcome) == api_call(response, endpoint@),
    {
        match response {
            Ok(received) => request::access_api(received, endpoint),
            Err(e) => Err(e),
        }
    }

    /// The request that renews the access token.
    pub fn refresh_request(&self) -> (request: HttpRequest)
        ensures
            request@ == request_for(
                RequestMethod::Post,
                Some(refresh_pairs(self@.phase.tokens.refresh_token)),
                seq![basic_header(self@.client_id, self@.client_secret)],
                URL_TOKEN@,
            ),
    {
        request::refresh_request(
            &self.state.tokens,
            self.client_id.as_str(),
            self.client_secret.as_str(),
        )
    }

    /// Whether `after` and `outcome` are what the answer to a refresh
    /// request, received at `now`, makes of this machine. A response that
    /// the refresh accepts changes the token set, and nothing else.
    /// Anything else leaves the machine as it was.
    pub open spec fn refreshed(
        self,
        response: Result<HttpResponse, Error>,
        now: i64,
        outcome: Result<(), Error>,
        after: Self,
    ) -> bool {
        match outcome {
            Ok(()) => refreshment(self@.phase.tokens, response, now) == Ok::<
                TokensView,
                ErrorView,
            >(after@.phase.tokens) && after@ == self@.with_phase(
                TokenBearingView {
                    auth_code: self@.phase.auth_code,
                    tokens: after@.phase.tokens,
                },
            ),
            Err(e) => refreshment(self@.phase.tokens, response, now) == Err::<
                TokensView,
                ErrorView,
            >(e@) && after == self,
        }
    }

    /// Takes in the answer to the refresh request, received at `now`: the
    /// response, or the failure of the transfer.
    pub fn refresh_token_at(&mut self, response: Result<HttpResponse, Error>, now: ExpiryTime) -> (outcome:
        Result<(), Error>)
        ensures
            old(self).refreshed(response, now, outcome, *final(self)),
    {
        let received = match response {
            Ok(received) => received,
            Err(e) => {
                return Err(e);
            },
        };
        proof {
            use_type_invariant(&self.state);
        }
        match request::renewed_tokens(&self.state.tokens, received, now) {
            Ok(tokens) => {
                let auth_code = self.state.auth_code.clone();
                self.state = TokenBearing { auth_code, tokens };
                Ok(())
            },
            Err(e) => Err(e),
        }
    }

    /// As [`Self::refresh_token_at`], at the moment that the system clock
    /// shows, which is some moment that [`clock_reading`] admits.
    pub fn refresh_token(&mut self, response: Result<HttpResponse, Error>) -> (outcome: Result<
        (),
        Error,
    >)
        ensures
            exists|now: i64|
                clock_reading(now) && #[trigger] old(self).refreshed(
                    response,
                    now,
                    outcome,
                    *final(self),
                ),
    {
        let now = current_time();
        self.refresh_token_at(response, now)
    }
}

/// Two refreshes of one machine in a row, both accepted, the second with a
/// response whose document offers a refresh token: the machine then holds
/// the token set of the second response alone, and its credentials and
/// its spent code are those that it started with.
pub proof fn lemma_machine_refreshed_twice(
    start: StateMachine<TokenBearing>,
    first: Result<HttpResponse, Error>,
    first_at: i64,
    between: StateMachine<TokenBearing>,
    second: HttpResponse,
    second_at: i64,
    end: StateMachine<TokenBearing>,
)
    requires
        start.refreshed(first, first_at, Ok(()), between),
        between.refreshed(Ok(second), second_at, Ok(()), end),
        body_document(second.body@, URL_TOKEN@) matches Ok(document) && offered_refresh_token(
            document,
        ) is Some,
    ensures
        end@.phase.tokens == tokens_of(
            body_document(second.body@, URL_TOKEN@)->Ok_0,
            second_at,
        ),
        end@ == start@.with_phase(
            TokenBearingView { auth_code: start@.phase.auth_code, tokens: end@.phase.tokens },
        ),
{
}

/// A machine that a refresh leaves with an error is the machine that it
/// was, and a machine that a refresh renews keeps a token set that can
/// renew itself.
pub proof fn lemma_machine_refresh_is_safe(
    before: StateMachine<TokenBearing>,
    response: Result<HttpResponse, Error>,
    now: i64,
    outcome: Result<(), Error>,
    after: StateMachine<TokenBearing>,
)
    requires
        before.refreshed(response, now, outcome, after),
        before@.phase.tokens.wf(),
    ensures
        outcome is Err ==> after == before,
        after@.phase.tokens.wf(),
        after@.client_id == before@.client_id,
        after@.client_secret == before@.client_secret,
        after@.callback_port == before@.callback_port,
        after@.phase.auth_code == before@.phase.auth_code,
{
}

} // verus!
