//! What can go wrong during a login or an API call.

use vstd::prelude::*;
use vstd::string::*;
use crate::text::{decimal, decimal_string};

verus! {

/// A failure of one step of the flow. Every variant carries plain text, so
/// that callers can build the transport variants themselves.
#[derive(Debug, Clone, PartialEq, Eq)]
pub enum Error {
    /// The provider, or the browser callback, sent something that the
    /// protocol does not allow; the text names what was received.
    SpotifyAPIError(String),
    /// The provider redirected with an explicit `error` parameter.
    AuthenticationError(String),
    /// An endpoint answered with a status other than 200; the text is the
    /// body that came with it, written anew where it is JSON.
    HttpErrorJson(u32, String),
    /// The HTTP transfer itself failed.
    Curl(String),
    /// The response body was not valid UTF-8.
    Utf8,
    /// The callback listener could not bind, accept, read or write.
    Io(String),
}

/// The mathematical content of an [`Error`].
pub enum ErrorView {
    SpotifyAPIError(Seq<char>),
    AuthenticationError(Seq<char>),
    HttpErrorJson(u32, Seq<char>),
    Curl(Seq<char>),
    Utf8,
    Io(Seq<char>),
}

impl View for Error {
    type V = ErrorView;

    open spec fn view(&self) -> ErrorView {
        match self {
            Error::SpotifyAPIError(s) => ErrorView::SpotifyAPIError(s@),
            Error::AuthenticationError(s) => ErrorView::AuthenticationError(s@),
            Error::HttpErrorJson(code, s) => ErrorView::HttpErrorJson(*code, s@),
            Error::Curl(s) => ErrorView::Curl(s@),
            Error::Utf8 => ErrorView::Utf8,
            Error::Io(s) => ErrorView::Io(s@),
        }
    }
}

impl ErrorView {
    /// The error in words.
    pub open spec fn message(self) -> Seq<char> {
        match self {
            ErrorView::SpotifyAPIError(what) => "Spotify API is incompatible: "@ + what,
            ErrorView::AuthenticationError(reason) => reason,
            ErrorView::HttpErrorJson(code, body) => "HTTP error "@ + decimal(code as nat) + ": "@
                + body,
            ErrorView::Curl(what) => what,
            ErrorView::Utf8 => "response body is not valid UTF-8"@,
            ErrorView::Io(what) => what,
        }
    }
}

impl Error {
    /// The error in words, for a person to read.
    pub fn message(&self) -> (text: String)
        ensures
            text@ == self@.message(),
    {
        match self {
            Error::SpotifyAPIError(what) => String::from_str("Spotify API is incompatible: ").concat(
                what.as_str(),
            ),
            Error::AuthenticationError(reason) => reason.clone(),
            Error::HttpErrorJson(code, body) => {
                let mut text = String::from_str("HTTP error ");
                text.append(decimal_string(*code as u64).as_str());
                text.append(": ");
                text.append(body.as_str());
                text
            },
            Error::Curl(what) => what.clone(),
            Error::Utf8 => String::from_str("response body is not valid UTF-8"),
            Error::Io(what) => what.clone(),
        }
    }
}

/// A `Result` with its error, if it holds one, taken by its view.
pub open spec fn error_view<T>(r: Result<T, Error>) -> Result<T, ErrorView> {
    match r {
        Ok(t) => Ok(t),
        Err(e) => Err(e@),
    }
}

/// The view of a `Result`, taken on whichever side it holds.
pub open spec fn result_view<T: View, E: View>(r: Result<T, E>) -> Result<T::V, E::V> {
    match r {
        Ok(t) => Ok(t@),
        Err(e) => Err(e@),
    }
}

} // verus!
