use spotify_oauth::request::{
    api_request, authorize_url, build_request, make_query_url, redirect_uri, refresh_request,
    token_request, URL_TOKEN,
};
use spotify_oauth::types::{RequestMethod, Scope, Tokens};

fn held_tokens() -> Tokens {
    Tokens {
        access_token: "access".to_string(),
        scope: Scope::new("user-read-private"),
        expiry_time: 1_700_000_000,
        refresh_token: "refresh-1".to_string(),
    }
}

#[test]
fn redirect_uri_names_localhost_and_the_port() {
    assert_eq!(redirect_uri(30405), "http://localhost:30405");
    assert_eq!(redirect_uri(0), "http://localhost:0");
    assert_eq!(redirect_uri(7), "http://localhost:7");
    assert_eq!(redirect_uri(80), "http://localhost:80");
    assert_eq!(redirect_uri(65535), "http://localhost:65535");
}

#[test]
fn query_url_joins_pairs_without_a_trailing_separator() {
    assert_eq!(
        make_query_url("https://example.com/a", vec![("x", "1"), ("y", "2")]),
        "https://example.com/a?x=1&y=2"
    );
    assert_eq!(make_query_url("https://example.com/a", vec![("x", "1")]), "https://example.com/a?x=1");
    assert_eq!(make_query_url("https://example.com/a", vec![]), "https://example.com/a?");
    assert_eq!(make_query_url("u", vec![("", "")]), "u?=");
}

#[test]
fn authorize_url_without_the_dialog_flag() {
    assert_eq!(
        authorize_url("my-client", 30405, &Scope::new("user-read-private"), None),
        "https://accounts.spotify.com/authorize?client_id=my-client&response_type=code\
         &redirect_uri=http://localhost:30405&scope=user-read-private"
    );
}

#[test]
fn authorize_url_with_the_dialog_flag() {
    assert_eq!(
        authorize_url("my-client", 8080, &Scope::new(""), Some(true)),
        "https://accounts.spotify.com/authorize?client_id=my-client&response_type=code\
         &redirect_uri=http://localhost:8080&scope=&show_dialog=true"
    );
    assert_eq!(
        authorize_url("my-client", 8080, &Scope::new("a b"), Some(false)),
        "https://accounts.spotify.com/authorize?client_id=my-client&response_type=code\
         &redirect_uri=http://localhost:8080&scope=a b&show_dialog=false"
    );
}

#[test]
fn read_request_carries_parameters_in_the_url() {
    let request = api_request(
        "tok",
        RequestMethod::Get,
        Some(vec![("ids", "X")]),
        "https://api.example.com/items/",
    );
    assert_eq!(request.method, RequestMethod::Get);
    assert!(request.url.ends_with("?ids=X"));
    assert_eq!(request.url, "https://api.example.com/items/?ids=X");
    assert_eq!(request.body, None);
    assert_eq!(request.headers, vec!["Authorization: Bearer tok".to_string()]);
}

#[test]
fn write_request_carries_parameters_in_the_body() {
    for method in [RequestMethod::Post, RequestMethod::Put, RequestMethod::Delete] {
        let request =
            api_request("tok", method, Some(vec![("ids", "X")]), "https://api.example.com/items/");
        assert_eq!(request.method, method);
        assert_eq!(request.url, "https://api.example.com/items/");
        assert_eq!(request.body, Some("ids=X".to_string()));
        assert_eq!(request.headers, vec!["Authorization: Bearer tok".to_string()]);
    }
}

#[test]
fn body_is_form_encoded() {
    let request = build_request(
        RequestMethod::Post,
        Some(vec![("q", "a b&c=d"), ("name", "J/ö")]),
        vec![],
        "https://api.example.com/",
    );
    assert_eq!(request.body, Some("q=a+b%26c%3Dd&name=J%2F%C3%B6".to_string()));
    assert_eq!(request.headers, Vec::<String>::new());
}

#[test]
fn query_string_is_not_encoded() {
    let request = build_request(
        RequestMethod::Get,
        Some(vec![("q", "a b")]),
        vec!["Accept: */*".to_string()],
        "https://api.example.com/",
    );
    assert_eq!(request.url, "https://api.example.com/?q=a b");
    assert_eq!(request.headers, vec!["Accept: */*".to_string()]);
}

#[test]
fn request_without_parameters() {
    for method in [RequestMethod::Get, RequestMethod::Post] {
        let request = api_request("tok", method, None, "https://api.example.com/me");
        assert_eq!(request.url, "https://api.example.com/me");
        assert_eq!(request.body, None);
    }
    let empty = api_request("tok", RequestMethod::Post, Some(vec![]), "https://api.example.com/me");
    assert_eq!(empty.body, Some(String::new()));
}

#[test]
fn token_request_posts_the_code_and_the_credentials() {
    let request = token_request("the-code", 30405, "the-secret", "the-id");
    assert_eq!(request.method, RequestMethod::Post);
    assert_eq!(request.url, URL_TOKEN);
    assert_eq!(request.url, "https://accounts.spotify.com/api/token");
    assert_eq!(request.headers, Vec::<String>::new());
    assert_eq!(
        request.body,
        Some(
            "grant_type=authorization_code&code=the-code\
             &redirect_uri=http%3A%2F%2Flocalhost%3A30405\
             &client_id=the-id&client_secret=the-secret"
                .to_string()
        )
    );
}

#[test]
fn refresh_request_uses_basic_authentication() {
    let request = refresh_request(&held_tokens(), "id", "secret");
    assert_eq!(request.method, RequestMethod::Post);
    assert_eq!(request.url, "https://accounts.spotify.com/api/token");
    assert_eq!(request.headers, vec!["Authorization: Basic aWQ6c2VjcmV0".to_string()]);
    assert_eq!(request.body, Some("grant_type=refresh_token&refresh_token=refresh-1".to_string()));
}

#[test]
fn basic_authentication_is_padded_base64() {
    let request = refresh_request(&held_tokens(), "a", "b");
    assert_eq!(request.headers, vec!["Authorization: Basic YTpi".to_string()]);
    let padded = refresh_request(&held_tokens(), "ab", "b");
    assert_eq!(padded.headers, vec!["Authorization: Basic YWI6Yg==".to_string()]);
}

#[test]
fn plain_characters_are_encoded_as_they_are() {
    let plain = "ABCDEFGHIJKLMNOPQRSTUVWXYZabcdefghijklmnopqrstuvwxyz0123456789*-._";
    let request =
        build_request(RequestMethod::Post, Some(vec![(plain, plain)]), vec![], "https://e/");
    assert_eq!(request.body, Some(format!("{}={}", plain, plain)));
}

#[test]
fn a_space_is_encoded_as_a_plus_sign() {
    let request =
        build_request(RequestMethod::Post, Some(vec![("a b", " ")]), vec![], "https://e/");
    assert_eq!(request.body, Some("a+b=+".to_string()));
}

#[test]
fn other_bytes_are_encoded_as_upper_case_hexadecimal() {
    let cases = [
        ("\u{0}", "%00"),
        ("\n", "%0A"),
        ("\u{1f}", "%1F"),
        ("!", "%21"),
        ("%", "%25"),
        ("&", "%26"),
        ("+", "%2B"),
        (",", "%2C"),
        ("/", "%2F"),
        (":", "%3A"),
        ("=", "%3D"),
        ("?", "%3F"),
        ("@", "%40"),
        ("[", "%5B"),
        ("`", "%60"),
        ("{", "%7B"),
        ("~", "%7E"),
        ("\u{7f}", "%7F"),
        ("\u{80}", "%C2%80"),
        ("é", "%C3%A9"),
        ("€", "%E2%82%AC"),
        ("\u{10ffff}", "%F4%8F%BF%BF"),
    ];
    for (text, encoded) in cases {
        let request =
            build_request(RequestMethod::Put, Some(vec![("k", text)]), vec![], "https://e/");
        assert_eq!(request.body, Some(format!("k={}", encoded)));
        let key = build_request(RequestMethod::Put, Some(vec![(text, "v")]), vec![], "https://e/");
        assert_eq!(key.body, Some(format!("{}=v", encoded)));
    }
}

#[test]
fn pairs_are_joined_by_ampersands_in_the_body() {
    let request = build_request(
        RequestMethod::Delete,
        Some(vec![("a", "1"), ("", ""), ("b", "2"), ("a", "3")]),
        vec![],
        "https://e/",
    );
    assert_eq!(request.body, Some("a=1&=&b=2&a=3".to_string()));
}
