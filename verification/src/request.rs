//! The wire protocol: the authorize URL, the browser callback, the two
//! token-endpoint exchanges and authenticated API calls. Nothing here sends
//! or receives; each step is a request to send or a reading of what came back.

use vstd::prelude::*;
use vstd::string::*;
use vstd::utf8::{decode_utf8, valid_utf8};
use crate::codec::{base64_encode, base64_text, string_from_utf8};
use crate::document::{Json, document_of, read, render, rendered};
use crate::errors::{Error, ErrorView, error_view, result_view};
use crate::query::{
    form_encode, form_urlencoded, joined, last_value, lemma_form_urlencoded_plain,
    lemma_stringified_joined, lookup, pairs_view, piece_pair, pieces_pairs, plain_text,
    querified, querify, stringify,
};
use crate::text::{
    chars_of, decimal, decimal_string, find_char, lemma_first_index_is, lemma_split_at_first,
    lemma_split_first, lemma_split_without, split, str_eq,
};
use crate::types::{
    ApiResponse, ExpiryTime, HttpRequest, HttpRequestView, HttpResponse, RequestMethod, Scope,
    Token, Tokens, TokensView, clock_reading, expiry_after, expiry_at, lines_view, CLOCK_MAX,
    CLOCK_MIN,
};

verus! {

/// Where the user is sent to give consent.
pub const URL_AUTHORIZE: &'static str = "https://accounts.spotify.com/authorize";

/// Where codes and refresh tokens are exchanged for access tokens.
pub const URL_TOKEN: &'static str = "https://accounts.spotify.com/api/token";

/// The host on which the callback listener waits.
pub const CALLBACK_HOST: &'static str = "localhost";

/// What the callback listener answers the browser, whatever the request
/// was.
pub const CALLBACK_REPLY: &'static str = "All done, now go back to your application";

/// The address that the provider redirects the browser to.
pub open spec fn redirect_address(port: u16) -> Seq<char> {
    "http://"@ + CALLBACK_HOST@ + ":"@ + decimal(port as nat)
}

/// A URL with parameters: the URL, `?`, and the pairs as `key=value`
/// joined by `&`.
pub open spec fn query_url(url: Seq<char>, pairs: Seq<(Seq<char>, Seq<char>)>) -> Seq<char> {
    url + seq!['?'] + joined(pairs)
}

/// The parameters of the authorize request, in the order in which they are
/// written.
pub open spec fn authorize_pairs(
    client_id: Seq<char>,
    callback_port: u16,
    scope: Seq<char>,
    show_dialog: Option<bool>,
) -> Seq<(Seq<char>, Seq<char>)> {
    let fixed = seq![
        ("client_id"@, client_id),
        ("response_type"@, "code"@),
        ("redirect_uri"@, redirect_address(callback_port)),
        ("scope"@, scope),
    ];
    match show_dialog {
        Some(true) => fixed.push(("show_dialog"@, "true"@)),
        Some(false) => fixed.push(("show_dialog"@, "false"@)),
        None => fixed,
    }
}

/// The form parameters of the first exchange.
pub open spec fn exchange_pairs(
    auth_code: Seq<char>,
    callback_port: u16,
    client_secret: Seq<char>,
    client_id: Seq<char>,
) -> Seq<(Seq<char>, Seq<char>)> {
    seq![
        ("grant_type"@, "authorization_code"@),
        ("code"@, auth_code),
        ("redirect_uri"@, redirect_address(callback_port)),
        ("client_id"@, client_id),
        ("client_secret"@, client_secret),
    ]
}

/// The form parameters of a refresh.
pub open spec fn refresh_pairs(refresh_token: Seq<char>) -> Seq<(Seq<char>, Seq<char>)> {
    seq![("grant_type"@, "refresh_token"@), ("refresh_token"@, refresh_token)]
}

/// The header line that signs a request with an access token.
pub open spec fn bearer_header(access_token: Seq<char>) -> Seq<char> {
    "Authorization: Bearer "@ + access_token
}

/// The header line that identifies the client by HTTP Basic
/// authentication.
pub open spec fn basic_header(client_id: Seq<char>, client_secret: Seq<char>) -> Seq<char> {
    "Authorization: Basic "@ + base64_text(client_id + ":"@ + client_secret)
}

/// The parameters of an optional list, as pairs of character sequences.
pub open spec fn params_view(params: Option<Vec<(&str, &str)>>) -> Option<
    Seq<(Seq<char>, Seq<char>)>,
> {
    match params {
        Some(list) => Some(pairs_view(list@)),
        None => None,
    }
}

/// The request that a method, optional parameters, header lines and an
/// endpoint make. A `Get` carries its parameters in the URL and has no
/// body; any other method leaves the URL alone and carries them
/// form-encoded in the body.
pub open spec fn request_for(
    method: RequestMethod,
    params: Option<Seq<(Seq<char>, Seq<char>)>>,
    headers: Seq<Seq<char>>,
    endpoint: Seq<char>,
) -> HttpRequestView {
    match params {
        None => HttpRequestView { method, url: endpoint, headers, body: None },
        Some(pairs) => match method {
            RequestMethod::Get => HttpRequestView {
                method,
                url: query_url(endpoint, pairs),
                headers,
                body: None,
            },
            _ => HttpRequestView {
                method,
                url: endpoint,
                headers,
                body: Some(form_urlencoded(pairs)),
            },
        },
    }
}

/// The redirect URI for a callback listener on `port`.
pub fn redirect_uri(port: u16) -> (uri: String)
    ensures
        uri@ == redirect_address(port),
{
    let mut uri = String::from_str("http://");
    uri.append(CALLBACK_HOST);
    uri.append(":");
    uri.append(decimal_string(port as u64).as_str());
    uri
}

/// Appends the parameters to a URL as its query string.
pub fn make_query_url(url: &str, params: Vec<(&str, &str)>) -> (full: String)
    ensures
        full@ == query_url(url@, pairs_view(params@)),
{
    let ghost pairs = pairs_view(params@);
    let count = params.len();
    let text = stringify(params);
    let mut full = String::from_str(url);
    full.append("?");
    proof {
        reveal_strlit("?");
        assert("?"@ =~= seq!['?']);
    }
    if count > 0 {
        // `stringify` closes every pair with `&`: the last one is left out.
        proof {
            lemma_stringified_joined(pairs);
        }
        let len = text.as_str().unicode_len();
        full.append(text.as_str().substring_char(0, len - 1));
        assert(text@.subrange(0, len - 1) =~= joined(pairs));
    }
    full
}

/// The request to send: see [`request_for`].
pub fn build_request(
    method: RequestMethod,
    params: Option<Vec<(&str, &str)>>,
    headers: Vec<String>,
    endpoint: &str,
) -> (request: HttpRequest)
    ensures
        request@ == request_for(method, params_view(params), lines_view(headers@), endpoint@),
{
    match params {
        None => HttpRequest { method, url: endpoint.to_owned(), headers, body: None },
        Some(list) => match method {
            RequestMethod::Get => HttpRequest {
                method,
                url: make_query_url(endpoint, list),
                headers,
                body: None,
            },
            _ => HttpRequest {
                method,
                url: endpoint.to_owned(),
                headers,
                body: Some(form_encode(list)),
            },
        },
    }
}

/// The URL to open in the user's browser: the provider's authorize
/// endpoint with the client id, `response_type=code`, the redirect URI of
/// the local listener, the scope and, where one is given, the
/// `show_dialog` flag.
pub fn authorize_url(
    client_id: &str,
    callback_port: u16,
    scope: &Scope,
    show_dialog: Option<bool>,
) -> (url: String)
    ensures
        url@ == query_url(
            URL_AUTHORIZE@,
            authorize_pairs(client_id@, callback_port, scope@, show_dialog),
        ),
{
    let uri = redirect_uri(callback_port);
    let mut params: Vec<(&str, &str)> = Vec::new();
    params.push(("client_id", client_id));
    params.push(("response_type", "code"));
    params.push(("redirect_uri", uri.as_str()));
    params.push(("scope", scope.as_str()));
    match show_dialog {
        Some(flag) => {
            params.push(("show_dialog", if flag { "true" } else { "false" }));
        },
        None => {},
    }
    assert(pairs_view(params@) =~= authorize_pairs(
        client_id@,
        callback_port,
        scope@,
        show_dialog,
    ));
    make_query_url(URL_AUTHORIZE, params)
}

/// The request of the first exchange: a form-encoded `POST` to the token
/// endpoint with the authorization code, the redirect URI that the
/// authorize request named, and the client's id and secret.
pub fn token_request(
    auth_code: &str,
    callback_port: u16,
    client_secret: &str,
    client_id: &str,
) -> (request: HttpRequest)
    ensures
        request@ == request_for(
            RequestMethod::Post,
            Some(exchange_pairs(auth_code@, callback_port, client_secret@, client_id@)),
            seq![],
            URL_TOKEN@,
        ),
{
    let redirect = redirect_uri(callback_port);
    let mut params: Vec<(&str, &str)> = Vec::new();
    params.push(("grant_type", "authorization_code"));
    params.push(("code", auth_code));
    params.push(("redirect_uri", redirect.as_str()));
    params.push(("client_id", client_id));
    params.push(("client_secret", client_secret));
    assert(pairs_view(params@) =~= exchange_pairs(
        auth_code@,
        callback_port,
        client_secret@,
        client_id@,
    ));
    let headers: Vec<String> = Vec::new();
    assert(lines_view(headers@) =~= seq![]);
    build_request(RequestMethod::Post, Some(params), headers, URL_TOKEN)
}

/// The request of a refresh: a form-encoded `POST` to the token endpoint
/// with the refresh token held, the client identified by HTTP Basic
/// authentication.
pub fn refresh_request(tokens: &Tokens, client_id: &str, client_secret: &str) -> (request:
    HttpRequest)
    ensures
        request@ == request_for(
            RequestMethod::Post,
            Some(refresh_pairs(tokens@.refresh_token)),
            seq![basic_header(client_id@, client_secret@)],
            URL_TOKEN@,
        ),
{
    let mut params: Vec<(&str, &str)> = Vec::new();
    params.push(("grant_type", "refresh_token"));
    params.push(("refresh_token", tokens.refresh_token.as_str()));
    assert(pairs_view(params@) =~= refresh_pairs(tokens@.refresh_token));
    let mut credentials = String::from_str(client_id);
    credentials.append(":");
    credentials.append(client_secret);
    let basic = base64_encode(credentials.as_str());
    let mut headers: Vec<String> = Vec::new();
    headers.push(String::from_str("Authorization: Basic ").concat(basic.as_str()));
    assert(lines_view(headers@) =~= seq![basic_header(client_id@, client_secret@)]);
    build_request(RequestMethod::Post, Some(params), headers, URL_TOKEN)
}

/// The request for an API call, signed with the access token.
pub fn api_request(
    access_token: &str,
    method: RequestMethod,
    params: Option<Vec<(&str, &str)>>,
    endpoint: &str,
) -> (request: HttpRequest)
    ensures
        request@ == request_for(
            method,
            params_view(params),
            seq![bearer_header(access_token@)],
            endpoint@,
        ),
{
    let mut headers: Vec<String> = Vec::new();
    headers.push(String::from_str("Authorization: Bearer ").concat(access_token));
    assert(lines_view(headers@) =~= seq![bearer_header(access_token@)]);
    build_request(method, params, headers, endpoint)
}

/// A `Get` carries its parameters in the URL, after a `?`, and has no
/// body. Every other method leaves the URL as the endpoint and carries the
/// parameters form-encoded in the body. With the single parameter
/// `key=value` the URL of a `Get` ends in `?key=value`, and where key and
/// value are plain texts the body of any other method is `key=value`.
pub proof fn lemma_parameter_placement(
    method: RequestMethod,
    pairs: Seq<(Seq<char>, Seq<char>)>,
    headers: Seq<Seq<char>>,
    endpoint: Seq<char>,
)
    ensures
        method == RequestMethod::Get ==> request_for(method, Some(pairs), headers, endpoint).url
            == endpoint + seq!['?'] + joined(pairs) && request_for(
            method,
            Some(pairs),
            headers,
            endpoint,
        ).body is None,
        method != RequestMethod::Get ==> request_for(method, Some(pairs), headers, endpoint).url
            == endpoint && request_for(method, Some(pairs), headers, endpoint).body == Some(
            form_urlencoded(pairs),
        ),
        pairs.len() == 1 ==> joined(pairs) == pairs[0].0 + seq!['='] + pairs[0].1,
        pairs.len() == 1 && plain_text(pairs[0].0) && plain_text(pairs[0].1) ==> form_urlencoded(
            pairs,
        ) == pairs[0].0 + seq!['='] + pairs[0].1,
{
    if pairs.len() == 1 && plain_text(pairs[0].0) && plain_text(pairs[0].1) {
        lemma_form_urlencoded_plain(pairs);
    }
}

/// What the provider's redirect to the local listener says.
#[derive(Debug, Clone, PartialEq, Eq)]
pub enum CallbackOutcome {
    /// The user consented; this is the authorization code.
    Code(String),
    /// The provider declined, with this reason.
    ProviderError(String),
}

/// The mathematical content of a [`CallbackOutcome`].
pub enum CallbackOutcomeView {
    Code(Seq<char>),
    ProviderError(Seq<char>),
}

impl View for CallbackOutcome {
    type V = CallbackOutcomeView;

    open spec fn view(&self) -> CallbackOutcomeView {
        match self {
            CallbackOutcome::Code(code) => CallbackOutcomeView::Code(code@),
            CallbackOutcome::ProviderError(reason) => CallbackOutcomeView::ProviderError(reason@),
        }
    }
}

/// The request target of a request line: its second space-delimited token.
pub open spec fn request_target(line: Seq<char>) -> Option<Seq<char>> {
    let tokens = split(line, ' ');
    if tokens.len() >= 2 {
        Some(tokens[1])
    } else {
        None
    }
}

/// The query string of a request target: the target without a leading `/?`.
pub open spec fn target_query(target: Seq<char>) -> Seq<char> {
    if target.len() >= 2 && target[0] == '/' && target[1] == '?' {
        target.skip(2)
    } else {
        target
    }
}

/// What a query string says, by its `code` and `error` parameters: exactly
/// one of the two must be there.
pub open spec fn query_outcome(query: Seq<char>) -> Result<CallbackOutcomeView, ErrorView> {
    let pairs = querified(query);
    match (last_value(pairs, "code"@), last_value(pairs, "error"@)) {
        (Some(code), None) => Ok(CallbackOutcomeView::Code(code)),
        (None, Some(reason)) => Ok(CallbackOutcomeView::ProviderError(reason)),
        _ => Err(ErrorView::SpotifyAPIError("Bad response: "@ + query)),
    }
}

/// What the first line of the callback request says.
pub open spec fn callback_outcome(line: Seq<char>) -> Result<CallbackOutcomeView, ErrorView> {
    match request_target(line) {
        None => Err(ErrorView::SpotifyAPIError("Bad callback request: "@ + line)),
        Some(target) => query_outcome(target_query(target)),
    }
}

/// The authorization code that the callback request line carries. A
/// redirect that names an error is an authentication failure with the
/// provider's reason.
pub open spec fn authorized_code(line: Seq<char>) -> Result<Seq<char>, ErrorView> {
    match callback_outcome(line) {
        Ok(CallbackOutcomeView::Code(code)) => Ok(code),
        Ok(CallbackOutcomeView::ProviderError(reason)) => Err(
            ErrorView::AuthenticationError(reason),
        ),
        Err(e) => Err(e),
    }
}

/// Reads the first line of the callback request that the browser made.
pub fn parse_response(line: &str) -> (outcome: Result<CallbackOutcome, Error>)
    ensures
        result_view(outcome) == callback_outcome(line@),
{
    let chars = chars_of(line);
    let first = find_char(&chars, 0, ' ');
    proof {
        assert(chars@.skip(0) =~= line@);
        lemma_split_first(line@, ' ');
    }
    if first >= chars.len() {
        return Err(Error::SpotifyAPIError(String::from_str("Bad callback request: ").concat(line)));
    }
    let after = first + 1;
    let end = find_char(&chars, after, ' ');
    let ghost rest = line@.skip(after as int);
    let ghost target = rest.take(end - after);
    proof {
        lemma_split_first(rest, ' ');
        assert(request_target(line@) == Some(target));
        assert(target =~= line@.subrange(after as int, end as int));
    }
    let start = if end - after >= 2 && chars[after] == '/' && chars[after + 1] == '?' {
        after + 2
    } else {
        after
    };
    let query = line.substring_char(start, end);
    assert(query@ =~= target_query(target));
    let pairs = querify(query);
    match (lookup(&pairs, "code"), lookup(&pairs, "error")) {
        (Some(code), None) => Ok(CallbackOutcome::Code(code.to_owned())),
        (None, Some(reason)) => Ok(CallbackOutcome::ProviderError(reason.to_owned())),
        _ => Err(Error::SpotifyAPIError(String::from_str("Bad response: ").concat(query))),
    }
}

/// Reads the authorization code out of the first line of the callback
/// request.
pub fn authorize(line: &str) -> (outcome: Result<String, Error>)
    ensures
        result_view(outcome) == authorized_code(line@),
{
    match parse_response(line) {
        Ok(CallbackOutcome::Code(code)) => Ok(code),
        Ok(CallbackOutcome::ProviderError(reason)) => Err(Error::AuthenticationError(reason)),
        Err(e) => Err(e),
    }
}

/// Whether `c` may stand in a key or a value of a one-parameter callback:
/// it is none of the three delimiters of the request line and its query.
pub open spec fn plain_char(c: char) -> bool {
    c != ' ' && c != '&' && c != '='
}

/// The request line `GET /?<key>=<value> HTTP/1.1`.
pub open spec fn one_parameter_line(key: Seq<char>, value: Seq<char>) -> Seq<char> {
    "GET /?"@ + key + seq!['='] + value + " HTTP/1.1"@
}

/// A request line `GET /?<key>=<value> HTTP/1.1`, with a key and a value
/// free of spaces, `&` and `=`, has the query `<key>=<value>`, which holds
/// that one pair.
pub proof fn lemma_one_parameter_line(key: Seq<char>, value: Seq<char>)
    requires
        forall|i: int| 0 <= i < key.len() ==> plain_char(#[trigger] key[i]),
        forall|i: int| 0 <= i < value.len() ==> plain_char(#[trigger] value[i]),
    ensures
        request_target(one_parameter_line(key, value)) == Some(
            "/?"@ + key + seq!['='] + value,
        ),
        target_query("/?"@ + key + seq!['='] + value) == key + seq!['='] + value,
        querified(key + seq!['='] + value) == seq![(key, value)],
{
    reveal_strlit("GET /?");
    reveal_strlit(" HTTP/1.1");
    reveal_strlit("/?");
    let line = one_parameter_line(key, value);
    let query = key + seq!['='] + value;
    let target = "/?"@ + query;
    let rest = line.skip(4);
    assert(target =~= "/?"@ + key + seq!['='] + value);
    assert(rest =~= target + " HTTP/1.1"@);
    lemma_first_index_is(line, ' ', 3);
    assert forall|j: int| 0 <= j < target.len() implies target[j] != ' ' by {
        if j >= 2 && j < 2 + key.len() {
            assert(target[j] == key[j - 2]);
        } else if j > 2 + key.len() {
            assert(target[j] == value[j - 3 - key.len()]);
        }
    }
    lemma_first_index_is(rest, ' ', target.len() as int);
    lemma_split_first(line, ' ');
    lemma_split_first(rest, ' ');
    assert(rest.take(target.len() as int) =~= target);
    assert(target.skip(2) =~= query);
    assert forall|j: int| 0 <= j < query.len() implies query[j] != '&' by {
        if j < key.len() {
            assert(query[j] == key[j]);
        } else if j > key.len() {
            assert(query[j] == value[j - 1 - key.len()]);
        }
    }
    lemma_split_without(query, '&');
    assert forall|j: int| 0 <= j < key.len() implies key[j] != '=' by {
        assert(plain_char(key[j]));
    }
    assert forall|j: int| 0 <= j < value.len() implies value[j] != '=' by {
        assert(plain_char(value[j]));
    }
    lemma_split_at_first(key, value, '=');
    lemma_split_without(value, '=');
    assert(split(query, '=') =~= seq![key, value]);
    assert(piece_pair(query) == Some((key, value)));
    let pieces = seq![query];
    assert(pieces.drop_last() =~= Seq::<Seq<char>>::empty());
    assert(pieces_pairs(pieces.drop_last()) =~= seq![]);
    assert(pieces.last() == query);
    assert(pieces_pairs(pieces) =~= seq![(key, value)]);
}

/// Every request line of the form `GET /?code=<X> HTTP/1.1`, where `X` is a
/// token without spaces, `&` or `=`, yields the code `X`.
pub proof fn lemma_code_callback(code: Seq<char>)
    requires
        forall|i: int| 0 <= i < code.len() ==> plain_char(#[trigger] code[i]),
    ensures
        callback_outcome("GET /?code="@ + code + " HTTP/1.1"@) == Ok::<
            CallbackOutcomeView,
            ErrorView,
        >(CallbackOutcomeView::Code(code)),
{
    reveal_strlit("GET /?code=");
    reveal_strlit("GET /?");
    reveal_strlit("code");
    reveal_strlit("error");
    let key = "code"@;
    assert("GET /?code="@ + code + " HTTP/1.1"@ =~= one_parameter_line(key, code));
    lemma_one_parameter_line(key, code);
    let pairs = seq![(key, code)];
    assert(pairs.drop_last() =~= Seq::<(Seq<char>, Seq<char>)>::empty());
    assert("code"@.len() != "error"@.len());
    assert(last_value(pairs, "code"@) == Some(code));
    assert(last_value(pairs.drop_last(), "error"@) is None);
    assert(last_value(pairs, "error"@) is None);
}

/// Every request line of the form `GET /?error=<E> HTTP/1.1`, where `E` is
/// free of spaces, `&` and `=`, yields the provider's error `E`.
pub proof fn lemma_error_callback(reason: Seq<char>)
    requires
        forall|i: int| 0 <= i < reason.len() ==> plain_char(#[trigger] reason[i]),
    ensures
        callback_outcome("GET /?error="@ + reason + " HTTP/1.1"@) == Ok::<
            CallbackOutcomeView,
            ErrorView,
        >(CallbackOutcomeView::ProviderError(reason)),
{
    reveal_strlit("GET /?error=");
    reveal_strlit("GET /?");
    reveal_strlit("code");
    reveal_strlit("error");
    let key = "error"@;
    assert("GET /?error="@ + reason + " HTTP/1.1"@ =~= one_parameter_line(key, reason));
    lemma_one_parameter_line(key, reason);
    let pairs = seq![(key, reason)];
    assert(pairs.drop_last() =~= Seq::<(Seq<char>, Seq<char>)>::empty());
    assert("code"@.len() != "error"@.len());
    assert(last_value(pairs, "error"@) == Some(reason));
    assert(last_value(pairs.drop_last(), "code"@) is None);
    assert(last_value(pairs, "code"@) is None);
}

/// A callback is never taken for a success unless its request line has a
/// request target whose query holds exactly one of `code` and `error`. A
/// query with neither, or with both, is a protocol error that names the
/// query.
pub proof fn lemma_callback_needs_one_key(line: Seq<char>)
    ensures
        callback_outcome(line) is Ok ==> request_target(line) is Some,
        request_target(line) matches Some(target) ==> {
            let query = target_query(target);
            let code = last_value(querified(query), "code"@);
            let reason = last_value(querified(query), "error"@);
            if (code is Some) != (reason is Some) {
                callback_outcome(line) is Ok
            } else {
                callback_outcome(line) == Err::<CallbackOutcomeView, ErrorView>(
                    ErrorView::SpotifyAPIError("Bad response: "@ + query),
                )
            }
        },
{
}

/// A request line of a single token, that is one without any space, has no
/// request target: it is a protocol error that names the line.
pub proof fn lemma_single_token_line(line: Seq<char>)
    requires
        forall|i: int| 0 <= i < line.len() ==> line[i] != ' ',
    ensures
        callback_outcome(line) == Err::<CallbackOutcomeView, ErrorView>(
            ErrorView::SpotifyAPIError("Bad callback request: "@ + line),
        ),
{
    lemma_split_without(line, ' ');
}

/// The error for a text that is not a JSON document.
pub open spec fn not_json(endpoint: Seq<char>) -> ErrorView {
    ErrorView::SpotifyAPIError("JSON not returned by "@ + endpoint + " endpoint"@)
}

/// The document that a response body holds. A body that is not UTF-8 is a
/// transport failure; one that is not JSON is an incompatibility that
/// names the endpoint.
pub open spec fn body_document(body: Seq<u8>, endpoint: Seq<char>) -> Result<Json, ErrorView> {
    if !valid_utf8(body) {
        Err(ErrorView::Utf8)
    } else {
        match document_of(decode_utf8(body)) {
            Some(document) => Ok(document),
            None => Err(not_json(endpoint)),
        }
    }
}

/// The body of a response as the text that an error carries: the document
/// of the body written anew where the body is JSON, else the body as it
/// came.
pub open spec fn body_text(text: Seq<char>) -> Seq<char> {
    match document_of(text) {
        Some(document) => rendered(document),
        None => text,
    }
}

/// What a response is worth to a caller that needs status 200. With
/// another status it is an error that carries the status and the body,
/// whether the body is JSON or not. With status 200 it is the document of
/// the body.
pub open spec fn reply_document(status: u32, body: Seq<u8>, endpoint: Seq<char>) -> Result<
    Json,
    ErrorView,
> {
    if !valid_utf8(body) {
        Err(ErrorView::Utf8)
    } else if status != 200 {
        Err(ErrorView::HttpErrorJson(status, body_text(decode_utf8(body))))
    } else {
        body_document(body, endpoint)
    }
}

/// How an API call ended: the document of the body, filed under the
/// status.
pub open spec fn api_outcome(status: u32, body: Seq<u8>, endpoint: Seq<char>) -> Result<
    ApiResponse,
    ErrorView,
> {
    match body_document(body, endpoint) {
        Ok(document) => if status == 200 {
            Ok(ApiResponse::Success(document))
        } else {
            Ok(ApiResponse::HttpFailure(status, document))
        },
        Err(e) => Err(e),
    }
}

fn text_document(text: &str, endpoint: &str) -> (read: Result<Json, Error>)
    ensures
        match read {
            Ok(document) => document_of(text@) == Some(document),
            Err(e) => document_of(text@) is None && e@ == not_json(endpoint@),
        },
{
    match read(text) {
        Some(document) => Ok(document),
        None => {
            let mut message = String::from_str("JSON not returned by ");
            message.append(endpoint);
            message.append(" endpoint");
            Err(Error::SpotifyAPIError(message))
        },
    }
}

/// Reads a response body as a JSON document.
pub fn read_document(body: Vec<u8>, endpoint: &str) -> (read: Result<Json, Error>)
    ensures
        error_view(read) == body_document(body@, endpoint@),
{
    match string_from_utf8(body) {
        Err(_) => Err(Error::Utf8),
        Ok(text) => text_document(text.as_str(), endpoint),
    }
}

/// Reads the response to a request that must end with status 200. The
/// status is looked at before the body is read as JSON, so that a failure
/// keeps its status whatever its body is.
pub fn receive_api_response(response: HttpResponse, endpoint: &str) -> (read: Result<Json, Error>)
    ensures
        error_view(read) == reply_document(response.status, response.body@, endpoint@),
{
    let status = response.status;
    let text = match string_from_utf8(response.body) {
        Ok(text) => text,
        Err(_) => {
            return Err(Error::Utf8);
        },
    };
    if status != 200 {
        let carried = match read(text.as_str()) {
            Some(document) => render(&document),
            None => text,
        };
        Err(Error::HttpErrorJson(status, carried))
    } else {
        text_document(text.as_str(), endpoint)
    }
}

/// Reads the response to an API call: status 200 is a success, any other
/// status a failure that the caller gets to see, each with the document
/// that came back.
pub fn access_api(response: HttpResponse, endpoint: &str) -> (outcome: Result<ApiResponse, Error>)
    ensures
        error_view(outcome) == api_outcome(response.status, response.body@, endpoint@),
{
    let status = response.status;
    match read_document(response.body, endpoint) {
        Ok(document) => if status == 200 {
            Ok(ApiResponse::Success(document))
        } else {
            Ok(ApiResponse::HttpFailure(status, document))
        },
        Err(e) => Err(e),
    }
}

/// A body that holds a document is filed by the status alone. An API call
/// with status 200 is a success with the document, and with any other
/// status a failure with that status and the document. A caller that needs
/// status 200 gets the document, or an error with the status and the
/// document as text.
pub proof fn lemma_status_decides(status: u32, body: Seq<u8>, endpoint: Seq<char>)
    requires
        body_document(body, endpoint) is Ok,
    ensures
        ({
            let document = body_document(body, endpoint)->Ok_0;
            &&& status == 200 ==> api_outcome(status, body, endpoint) == Ok::<
                ApiResponse,
                ErrorView,
            >(ApiResponse::Success(document))
            &&& status != 200 ==> api_outcome(status, body, endpoint) == Ok::<
                ApiResponse,
                ErrorView,
            >(ApiResponse::HttpFailure(status, document))
            &&& status == 200 ==> reply_document(status, body, endpoint) == Ok::<
                Json,
                ErrorView,
            >(document)
            &&& status != 200 ==> reply_document(status, body, endpoint) == Err::<
                Json,
                ErrorView,
            >(ErrorView::HttpErrorJson(status, rendered(document)))
        }),
{
}

/// A response to the token endpoint with a status other than 200 never
/// loses its status: whatever the body holds, as long as it is text, the
/// exchange and the refresh fail with an error that carries the status,
/// and the body as it came where it is not JSON.
pub proof fn lemma_status_is_kept(old: TokensView, status: u32, body: Seq<u8>, now: i64)
    requires
        status != 200,
        valid_utf8(body),
    ensures
        exchange_outcome(status, body, now) == Err::<TokensView, ErrorView>(
            ErrorView::HttpErrorJson(status, body_text(decode_utf8(body))),
        ),
        refresh_outcome(old, status, body, now) == Err::<TokensView, ErrorView>(
            ErrorView::HttpErrorJson(status, body_text(decode_utf8(body))),
        ),
        document_of(decode_utf8(body)) is None ==> body_text(decode_utf8(body)) == decode_utf8(
            body,
        ),
{
}

/// What a token response holds, once it has been checked.
#[derive(Debug, PartialEq, Eq)]
pub struct TokenResponse {
    pub access_token: Token,
    pub scope: Scope,
    pub expiry_time: ExpiryTime,
    /// The new refresh token, where the provider sent one.
    pub refresh_token: Option<Token>,
}

/// The mathematical content of a [`TokenResponse`].
pub struct TokenResponseView {
    pub access_token: Seq<char>,
    pub scope: Seq<char>,
    pub expiry_time: i64,
    pub refresh_token: Option<Seq<char>>,
}

impl View for TokenResponse {
    type V = TokenResponseView;

    open spec fn view(&self) -> TokenResponseView {
        TokenResponseView {
            access_token: self.access_token@,
            scope: self.scope@,
            expiry_time: self.expiry_time,
            refresh_token: match self.refresh_token {
                Some(token) => Some(token@),
                None => None,
            },
        }
    }
}

impl TokenResponseView {
    /// A refresh token that a response carries is never empty.
    pub open spec fn wf(self) -> bool {
        self.refresh_token matches Some(token) ==> token.len() > 0
    }

    /// The token set after this response: everything is taken from the
    /// response, but for the refresh token, which stays as it was in `old`
    /// where the response carries none.
    pub open spec fn merged(self, old: TokensView) -> TokensView {
        TokensView {
            access_token: self.access_token,
            scope: self.scope,
            expiry_time: self.expiry_time,
            refresh_token: match self.refresh_token {
                Some(token) => token,
                None => old.refresh_token,
            },
        }
    }
}

impl TokenResponse {
    /// The token set that replaces `old` after this response.
    pub fn convert_to_tokens(self, old: Tokens) -> (merged: Tokens)
        ensures
            merged@ == self@.merged(old@),
    {
        Tokens {
            access_token: self.access_token,
            scope: self.scope,
            expiry_time: self.expiry_time,
            refresh_token: match self.refresh_token {
                Some(token) => token,
                None => old.refresh_token,
            },
        }
    }
}

/// The refresh token that a token response offers: its `refresh_token`
/// member, where that is a string and not empty.
pub open spec fn offered_refresh_token(response: Json) -> Option<Seq<char>> {
    match response.text_field("refresh_token"@) {
        Some(token) => if token.len() > 0 {
            Some(token)
        } else {
            None
        },
        None => None,
    }
}

/// The expiry that a token response received at `now` announces: `now`
/// plus its `expires_in` member, where that is a whole number of seconds
/// and the sum is a moment that an `i64` can hold.
pub open spec fn announced_expiry(response: Json, now: i64) -> Option<i64> {
    match response.number_field("expires_in"@) {
        Some(number) => match number.integer() {
            Some(seconds) => expiry_after(now, seconds),
            None => None,
        },
        None => None,
    }
}

/// The error for a token response that does not have the expected shape.
pub open spec fn unknown_token_response(response: Json) -> ErrorView {
    ErrorView::SpotifyAPIError("Unknown token response: "@ + rendered(response))
}

/// What a token response received at `now` holds. It must have the string
/// members `access_token`, `token_type` and `scope` and the number member
/// `expires_in`; the token type must be `Bearer`; and the expiry must be
/// one that [`announced_expiry`] can give.
pub open spec fn token_response(response: Json, now: i64) -> Result<TokenResponseView, ErrorView> {
    match (
        response.text_field("access_token"@),
        response.text_field("token_type"@),
        response.text_field("scope"@),
        response.number_field("expires_in"@),
    ) {
        (Some(access_token), Some(token_type), Some(scope), Some(_)) => {
            if token_type != "Bearer"@ {
                Err(ErrorView::SpotifyAPIError("Unknown token type: "@ + token_type))
            } else {
                match announced_expiry(response, now) {
                    Some(expiry_time) => Ok(
                        TokenResponseView {
                            access_token,
                            scope,
                            expiry_time,
                            refresh_token: offered_refresh_token(response),
                        },
                    ),
                    None => Err(unknown_token_response(response)),
                }
            }
        },
        _ => Err(unknown_token_response(response)),
    }
}

/// The token set that the first exchange yields: the response must offer
/// a refresh token.
pub open spec fn exchanged_tokens(response: Json, now: i64) -> Result<TokensView, ErrorView> {
    match token_response(response, now) {
        Ok(checked) => match checked.refresh_token {
            Some(refresh_token) => Ok(
                TokensView {
                    access_token: checked.access_token,
                    scope: checked.scope,
                    expiry_time: checked.expiry_time,
                    refresh_token,
                },
            ),
            None => Err(
                ErrorView::SpotifyAPIError("Refresh token not returned by "@ + URL_TOKEN@),
            ),
        },
        Err(e) => Err(e),
    }
}

/// The token set that a refresh yields from the one held before.
pub open spec fn refreshed_tokens(old: TokensView, response: Json, now: i64) -> Result<
    TokensView,
    ErrorView,
> {
    match token_response(response, now) {
        Ok(checked) => Ok(checked.merged(old)),
        Err(e) => Err(e),
    }
}

/// The outcome of the first exchange, from the raw response.
pub open spec fn exchange_outcome(status: u32, body: Seq<u8>, now: i64) -> Result<
    TokensView,
    ErrorView,
> {
    match reply_document(status, body, URL_TOKEN@) {
        Ok(document) => exchanged_tokens(document, now),
        Err(e) => Err(e),
    }
}

/// The outcome of a refresh, from the raw response.
pub open spec fn refresh_outcome(old: TokensView, status: u32, body: Seq<u8>, now: i64) -> Result<
    TokensView,
    ErrorView,
> {
    match reply_document(status, body, URL_TOKEN@) {
        Ok(document) => refreshed_tokens(old, document, now),
        Err(e) => Err(e),
    }
}

/// The token set that a response makes by itself, where it offers a
/// refresh token: every field is taken from the response.
pub open spec fn tokens_of(response: Json, now: i64) -> TokensView {
    TokensView {
        access_token: response.text_field("access_token"@)->0,
        scope: response.text_field("scope"@)->0,
        expiry_time: announced_expiry(response, now)->0,
        refresh_token: offered_refresh_token(response)->0,
    }
}

fn text_member(response: &Json, key: &str) -> (found: Option<String>)
    ensures
        match found {
            Some(text) => response.text_field(key@) == Some(text@),
            None => response.text_field(key@) is None,
        },
{
    match response.get(key) {
        Some(Json::Text(text)) => Some(text.clone()),
        _ => None,
    }
}

fn unexpected_payload(response: &Json) -> (e: Error)
    ensures
        e@ == unknown_token_response(*response),
{
    Error::SpotifyAPIError(
        String::from_str("Unknown token response: ").concat(render(response).as_str()),
    )
}

/// Checks a token response, received at `now`, and takes out what it
/// holds.
pub fn parse_token_response(response: &Json, now: ExpiryTime) -> (read: Result<
    TokenResponse,
    Error,
>)
    ensures
        result_view(read) == token_response(*response, now),
        read matches Ok(checked) ==> checked@.wf(),
{
    let access_token = text_member(response, "access_token");
    let token_type = text_member(response, "token_type");
    let scope = text_member(response, "scope");
    let expires_in = match response.get("expires_in") {
        Some(Json::Number(number)) => Some(*number),
        _ => None,
    };
    let refresh_token = match text_member(response, "refresh_token") {
        Some(token) => if token.as_str().unicode_len() > 0 {
            Some(token)
        } else {
            None
        },
        None => None,
    };
    match (access_token, token_type, scope, expires_in) {
        (Some(access_token), Some(token_type), Some(scope), Some(number)) => {
            if !str_eq(token_type.as_str(), "Bearer") {
                Err(
                    Error::SpotifyAPIError(
                        String::from_str("Unknown token type: ").concat(token_type.as_str()),
                    ),
                )
            } else {
                let expiry = match number.to_i64() {
                    Some(seconds) => expiry_at(now, seconds),
                    None => None,
                };
                match expiry {
                    Some(expiry_time) => Ok(
                        TokenResponse {
                            access_token,
                            scope: Scope::new(scope.as_str()),
                            expiry_time,
                            refresh_token,
                        },
                    ),
                    None => Err(unexpected_payload(response)),
                }
            }
        },
        _ => Err(unexpected_payload(response)),
    }
}

/// Reads the response to the first exchange, received at `now`.
pub fn request_token(response: HttpResponse, now: ExpiryTime) -> (outcome: Result<Tokens, Error>)
    ensures
        result_view(outcome) == exchange_outcome(response.status, response.body@, now),
        outcome matches Ok(tokens) ==> tokens@.wf(),
{
    let document = match receive_api_response(response, URL_TOKEN) {
        Ok(document) => document,
        Err(e) => {
            return Err(e);
        },
    };
    let checked = match parse_token_response(&document, now) {
        Ok(checked) => checked,
        Err(e) => {
            return Err(e);
        },
    };
    match checked.refresh_token {
        None => Err(
            Error::SpotifyAPIError(
                String::from_str("Refresh token not returned by ").concat(URL_TOKEN),
            ),
        ),
        Some(refresh_token) => Ok(
            Tokens {
                access_token: checked.access_token,
                scope: checked.scope,
                expiry_time: checked.expiry_time,
                refresh_token,
            },
        ),
    }
}

/// Reads the response to a refresh, received at `now`: the token set that
/// follows `tokens`. A response that is accepted sets the access token,
/// the scope and the expiry together, and the refresh token where it
/// offers a new one.
pub fn renewed_tokens(tokens: &Tokens, response: HttpResponse, now: ExpiryTime) -> (outcome:
    Result<Tokens, Error>)
    ensures
        result_view(outcome) == refresh_outcome(tokens@, response.status, response.body@, now),
        tokens@.wf() ==> (outcome matches Ok(renewed) ==> renewed@.wf()),
{
    let document = match receive_api_response(response, URL_TOKEN) {
        Ok(document) => document,
        Err(e) => {
            return Err(e);
        },
    };
    let checked = match parse_token_response(&document, now) {
        Ok(checked) => checked,
        Err(e) => {
            return Err(e);
        },
    };
    Ok(
        Tokens {
            access_token: checked.access_token,
            scope: checked.scope,
            expiry_time: checked.expiry_time,
            refresh_token: match checked.refresh_token {
                Some(refresh_token) => refresh_token,
                None => tokens.refresh_token.clone(),
            },
        },
    )
}

/// Reads the response to a refresh, received at `now`, into the token set.
/// A response that is rejected leaves the token set as it was.
pub fn refresh_token(tokens: &mut Tokens, response: HttpResponse, now: ExpiryTime) -> (outcome:
    Result<(), Error>)
    ensures
        match outcome {
            Ok(()) => refresh_outcome(old(tokens)@, response.status, response.body@, now) == Ok::<
                TokensView,
                ErrorView,
            >(final(tokens)@),
            Err(e) => refresh_outcome(old(tokens)@, response.status, response.body@, now) == Err::<
                TokensView,
                ErrorView,
            >(e@) && *final(tokens) == *old(tokens),
        },
        old(tokens)@.wf() ==> final(tokens)@.wf(),
{
    match renewed_tokens(tokens, response, now) {
        Ok(renewed) => {
            *tokens = renewed;
            Ok(())
        },
        Err(e) => Err(e),
    }
}

/// The first exchange rejects a response without a usable refresh token as
/// an incompatibility of the provider, whatever else the response holds.
pub proof fn lemma_exchange_needs_refresh_token(response: Json, now: i64)
    requires
        offered_refresh_token(response) is None,
    ensures
        exchanged_tokens(response, now) matches Err(ErrorView::SpotifyAPIError(_)),
        token_response(response, now) is Ok ==> exchanged_tokens(response, now) == Err::<
            TokensView,
            ErrorView,
        >(ErrorView::SpotifyAPIError("Refresh token not returned by "@ + URL_TOKEN@)),
{
}

/// A refresh that is accepted keeps the refresh token held before where
/// the response offers none, and replaces it where the response offers
/// one. The other three fields are those of the response either way.
pub proof fn lemma_refresh_token_kept_or_replaced(old: TokensView, response: Json, now: i64)
    requires
        refreshed_tokens(old, response, now) is Ok,
    ensures
        ({
            let renewed = refreshed_tokens(old, response, now)->Ok_0;
            &&& offered_refresh_token(response) is None ==> renewed.refresh_token
                == old.refresh_token
            &&& offered_refresh_token(response) matches Some(token) ==> renewed.refresh_token
                == token
            &&& response.text_field("refresh_token"@) is None ==> renewed.refresh_token
                == old.refresh_token
            &&& renewed.access_token == response.text_field("access_token"@)->0
            &&& renewed.scope == response.text_field("scope"@)->0
            &&& Some(renewed.expiry_time) == announced_expiry(response, now)
            &&& old.wf() ==> renewed.wf()
        }),
{
}

/// A token response whose `token_type` is anything but the string
/// `Bearer` is rejected by the first exchange and by a refresh alike,
/// whatever its other members are.
pub proof fn lemma_bearer_only(old: TokensView, response: Json, now: i64)
    requires
        response.text_field("token_type"@) != Some("Bearer"@),
    ensures
        token_response(response, now) matches Err(ErrorView::SpotifyAPIError(_)),
        exchanged_tokens(response, now) matches Err(ErrorView::SpotifyAPIError(_)),
        refreshed_tokens(old, response, now) matches Err(ErrorView::SpotifyAPIError(_)),
{
}

/// The clock does not decide whether a token response with an ordinary
/// lifetime is accepted. Where `expires_in` is a whole number of seconds
/// that no clock reading takes beyond an `i64`, the response has an expiry
/// at every clock reading, and it is accepted at one reading exactly if it
/// is accepted at any other.
pub proof fn lemma_clock_does_not_decide(
    old: TokensView,
    response: Json,
    now: i64,
    other: i64,
)
    requires
        clock_reading(now),
        clock_reading(other),
        response.number_field("expires_in"@) matches Some(number) && number.integer() matches Some(
            seconds,
        ) && i64::MIN - CLOCK_MIN <= seconds <= i64::MAX - CLOCK_MAX,
    ensures
        announced_expiry(response, now) is Some,
        token_response(response, now) is Ok <==> token_response(response, other) is Ok,
        exchanged_tokens(response, now) is Ok <==> exchanged_tokens(response, other) is Ok,
        refreshed_tokens(old, response, now) is Ok <==> refreshed_tokens(old, response, other)
            is Ok,
{
}

/// After two refreshes in a row, the second with a response that offers a
/// refresh token, the token set is that of the second response alone:
/// nothing of the first response, nor of what was held before it, is left.
pub proof fn lemma_refresh_twice(
    held: TokensView,
    first: Json,
    first_at: i64,
    second: Json,
    second_at: i64,
)
    requires
        refreshed_tokens(held, first, first_at) is Ok,
        offered_refresh_token(second) is Some,
    ensures
        ({
            let between = refreshed_tokens(held, first, first_at)->Ok_0;
            &&& refreshed_tokens(between, second, second_at) == refreshed_tokens(
                held,
                second,
                second_at,
            )
            &&& refreshed_tokens(between, second, second_at) matches Ok(last) ==> last
                == tokens_of(second, second_at)
        }),
{
}

} // verus!
