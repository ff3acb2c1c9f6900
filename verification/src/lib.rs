//! Authorization-code login against an identity provider, kept free of I/O.
//!
//! A login runs through three phases, each a type of its own:
//! [`states::Unauthenticated`], [`states::Authenticated`] and
//! [`states::TokenBearing`]. A [`states::StateMachine`] in one phase offers
//! the request that has to be made next, and moves on when it is given what
//! came back:
//!
//! 1. open [`states::StateMachine::authorize_url`] in a browser, wait on the
//!    callback port for the provider's redirect, and hand the first line of
//!    that request to [`states::StateMachine::authenticate`];
//! 2. send [`states::StateMachine::token_request`] and hand the response to
//!    [`states::StateMachine::request_token`];
//! 3. from then on, send [`states::StateMachine::api_request`] and read the
//!    response with [`states::StateMachine::access_api`], and renew the
//!    access token with [`states::StateMachine::refresh_request`] and
//!    [`states::StateMachine::refresh_token`].
//!
//! The crate never sends or receives anything itself. What it decides is
//! verified: every function states what it returns for every input, and the
//! lemmas beside the functions state what follows for the flow as a whole.
//! Five outside crates do work that is taken on trust, each behind small
//! functions of its own: `querystring`, `url`, `json`, `base64` and
//! `chrono`.

pub mod codec;
pub mod document;
pub mod errors;
pub mod query;
pub mod request;
pub mod states;
pub mod text;
pub mod types;
