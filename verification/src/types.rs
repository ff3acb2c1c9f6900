//! The plain data of the flow: scopes, token sets, HTTP requests and
//! responses as values, and the result of an API call.

use vstd::prelude::*;
use vstd::string::*;
use crate::document::Json;
use crate::errors::Error;

verus! {

/// The id that the provider gave the client.
pub type ClientId = String;

/// The secret that goes with the client id.
pub type ClientSecret = String;

/// The address that the provider redirects the browser to.
pub type RedirectUri = String;

/// The URL of an API or token endpoint.
pub type Endpoint = str;

/// The single-use code that the provider hands out after consent.
pub type AuthCode = String;

/// An access token or a refresh token.
pub type Token = String;

/// A point in time, in whole seconds since the Unix epoch.
pub type ExpiryTime = i64;

/// The HTTP method of a request. Only `Get` is read-only: it carries its
/// parameters in the URL, every other method in the body.
#[derive(Debug, Copy, Clone, PartialEq, Eq)]
pub enum RequestMethod {
    Get,
    Post,
    Put,
    Delete,
}

/// A space-delimited list of permissions, as the provider writes it.
#[derive(Debug, PartialEq, Eq)]
pub struct Scope(String);

impl View for Scope {
    type V = Seq<char>;

    closed spec fn view(&self) -> Seq<char> {
        self.0@
    }
}

impl Scope {
    /// The scope that a text names.
    pub fn new(scope: &str) -> (made: Self)
        ensures
            made@ == scope@,
    {
        Scope(scope.to_owned())
    }

    /// The scope as text.
    pub fn as_str(&self) -> (text: &str)
        ensures
            text@ == self@,
    {
        self.0.as_str()
    }
}

impl std::str::FromStr for Scope {
    type Err = Error;

    /// Every text is a scope: this never fails.
    fn from_str(s: &str) -> (made: Result<Self, Error>)
        ensures
            made matches Ok(scope) && scope@ == s@,
    {
        Ok(Scope::new(s))
    }
}

impl std::ops::Deref for Scope {
    type Target = String;

    fn deref(&self) -> (text: &String)
        ensures
            text@ == self@,
    {
        &self.0
    }
}

impl Clone for Scope {
    fn clone(&self) -> (copy: Self)
        ensures
            copy@ == self@,
    {
        Scope(self.0.clone())
    }
}

impl Default for Scope {
    fn default() -> (made: Self)
        ensures
            made@ == Seq::<char>::empty(),
    {
        Scope(String::new())
    }
}

/// The credentials that an exchange or a refresh leaves behind.
#[derive(Debug, PartialEq, Eq)]
pub struct Tokens {
    pub access_token: Token,
    pub scope: Scope,
    pub expiry_time: ExpiryTime,
    pub refresh_token: Token,
}

/// The mathematical content of a [`Tokens`].
pub struct TokensView {
    pub access_token: Seq<char>,
    pub scope: Seq<char>,
    pub expiry_time: i64,
    pub refresh_token: Seq<char>,
}

impl View for Tokens {
    type V = TokensView;

    open spec fn view(&self) -> TokensView {
        TokensView {
            access_token: self.access_token@,
            scope: self.scope@,
            expiry_time: self.expiry_time,
            refresh_token: self.refresh_token@,
        }
    }
}

impl TokensView {
    /// A token set always has a refresh token to renew itself with.
    pub open spec fn wf(self) -> bool {
        self.refresh_token.len() > 0
    }
}

/// How an API call ended, once its response was read as JSON.
#[derive(Debug, PartialEq, Eq)]
pub enum ApiResponse {
    /// Status 200, with the document that came back.
    Success(Json),
    /// Any other status, with that status and the document that came back.
    HttpFailure(u32, Json),
}

/// An HTTP request as a value, for a transport to send.
#[derive(Debug, PartialEq, Eq)]
pub struct HttpRequest {
    pub method: RequestMethod,
    pub url: String,
    /// Header lines, each of the form `Name: value`.
    pub headers: Vec<String>,
    /// The form-encoded body, where the request has one.
    pub body: Option<String>,
}

/// The mathematical content of an [`HttpRequest`].
pub struct HttpRequestView {
    pub method: RequestMethod,
    pub url: Seq<char>,
    pub headers: Seq<Seq<char>>,
    pub body: Option<Seq<char>>,
}

/// Header lines as character sequences.
pub open spec fn lines_view(lines: Seq<String>) -> Seq<Seq<char>> {
    lines.map_values(|line: String| line@)
}

impl View for HttpRequest {
    type V = HttpRequestView;

    open spec fn view(&self) -> HttpRequestView {
        HttpRequestView {
            method: self.method,
            url: self.url@,
            headers: lines_view(self.headers@),
            body: match self.body {
                Some(text) => Some(text@),
                None => None,
            },
        }
    }
}

/// What a transport got back: the status code and the raw body.
#[derive(Debug, Clone, PartialEq, Eq)]
pub struct HttpResponse {
    pub status: u32,
    pub body: Vec<u8>,
}

/// The moment that lies `expires_in` seconds after `now`, where an `i64`
/// can hold it.
pub open spec fn expiry_after(now: i64, expires_in: i64) -> Option<i64> {
    if i64::MIN <= now + expires_in <= i64::MAX {
        Some((now + expires_in) as i64)
    } else {
        None
    }
}

/// The expiry of a token that was issued at `now` for `expires_in` seconds.
pub fn expiry_at(now: ExpiryTime, expires_in: i64) -> (expiry: Option<ExpiryTime>)
    ensures
        expiry == expiry_after(now, expires_in),
{
    now.checked_add(expires_in)
}

/// The earliest moment that a clock reading can be: the first second that
/// `chrono` can hold, the start of the year 262144 BCE.
pub const CLOCK_MIN: i64 = -8_334_601_228_800;

/// The latest moment that a clock reading can be: the last second that
/// `chrono` can hold, the end of the year 262142 CE.
pub const CLOCK_MAX: i64 = 8_210_266_876_799;

/// Whether a moment is one that the clock can show.
pub open spec fn clock_reading(now: i64) -> bool {
    CLOCK_MIN <= now <= CLOCK_MAX
}

/// Has `chrono` convert `SystemTime::now()` to a `DateTime<Utc>` and takes
/// the timestamp of that: the system clock in whole seconds since the Unix
/// epoch. The conversion counts a time before the epoch as negative, and
/// makes its value with `timestamp_opt(..).unwrap()`, so what it returns
/// is a moment that `chrono` can hold. Only that range is claimed.
#[verifier::external_body]
pub(crate) fn current_time() -> (now: ExpiryTime)
    ensures
        clock_reading(now),
{
    chrono::DateTime::<chrono::Utc>::from(std::time::SystemTime::now()).timestamp()
}

/// The expiry of a token that is issued now for `expires_in` seconds. The
/// clock decides which moment "now" is; whatever it shows, the result lies
/// `expires_in` seconds after it. A lifetime that no clock reading takes
/// beyond an `i64` always has an expiry.
pub fn expiry_time(expires_in: i64) -> (expiry: Option<ExpiryTime>)
    ensures
        exists|now: i64| clock_reading(now) && expiry == #[trigger] expiry_after(now, expires_in),
        i64::MIN - CLOCK_MIN <= expires_in <= i64::MAX - CLOCK_MAX ==> expiry is Some,
{
    let now = current_time();
    expiry_at(now, expires_in)
}

} // verus!
