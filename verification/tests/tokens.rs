use spotify_oauth::document::{Json, JsonNumber};
use spotify_oauth::errors::Error;
use spotify_oauth::request::{
    parse_token_response, receive_api_response, refresh_token, renewed_tokens, request_token,
    TokenResponse,
};
use spotify_oauth::types::{HttpResponse, Scope, Tokens};

const FULL: &str = "{\"access_token\":\"NgCXRK...MzYjw\",\"token_type\":\"Bearer\",\
    \"scope\":\"user-read-private user-read-email\",\"expires_in\":3600,\
    \"refresh_token\":\"NgAagA...Um_SHo\"}";

const WITHOUT_REFRESH: &str = "{\"access_token\":\"second-access\",\"token_type\":\"Bearer\",\
    \"scope\":\"user-read-email\",\"expires_in\":1800}";

fn ok(body: &str) -> HttpResponse {
    HttpResponse { status: 200, body: body.as_bytes().to_vec() }
}

fn held() -> Tokens {
    Tokens {
        access_token: "first-access".to_string(),
        scope: Scope::new("user-read-private"),
        expiry_time: 1_700_000_000,
        refresh_token: "first-refresh".to_string(),
    }
}

fn text(s: &str) -> Json {
    Json::Text(s.to_string())
}

fn whole(n: u64) -> Json {
    Json::Number(JsonNumber { positive: true, mantissa: n, exponent: 0 })
}

fn object(members: Vec<(&str, Json)>) -> Json {
    Json::Object(members.into_iter().map(|(k, v)| (k.to_string(), v)).collect())
}

fn unknown(payload: &str) -> Error {
    Error::SpotifyAPIError(format!("Unknown token response: {}", payload))
}

#[test]
fn exchange_reads_all_five_fields() {
    assert_eq!(
        request_token(ok(FULL), 1_000_000),
        Ok(Tokens {
            access_token: "NgCXRK...MzYjw".to_string(),
            scope: Scope::new("user-read-private user-read-email"),
            expiry_time: 1_003_600,
            refresh_token: "NgAagA...Um_SHo".to_string(),
        })
    );
}

#[test]
fn exchange_without_refresh_token_is_rejected() {
    assert_eq!(
        request_token(ok(WITHOUT_REFRESH), 1_000_000),
        Err(Error::SpotifyAPIError(
            "Refresh token not returned by https://accounts.spotify.com/api/token".to_string()
        ))
    );
}

#[test]
fn exchange_with_an_empty_refresh_token_is_rejected() {
    let body = "{\"access_token\":\"a\",\"token_type\":\"Bearer\",\"scope\":\"s\",\
        \"expires_in\":1,\"refresh_token\":\"\"}";
    assert_eq!(
        request_token(ok(body), 0),
        Err(Error::SpotifyAPIError(
            "Refresh token not returned by https://accounts.spotify.com/api/token".to_string()
        ))
    );
}

#[test]
fn exchange_with_a_refresh_token_that_is_no_string_is_rejected() {
    let body = "{\"access_token\":\"a\",\"token_type\":\"Bearer\",\"scope\":\"s\",\
        \"expires_in\":1,\"refresh_token\":17}";
    assert_eq!(
        request_token(ok(body), 0),
        Err(Error::SpotifyAPIError(
            "Refresh token not returned by https://accounts.spotify.com/api/token".to_string()
        ))
    );
}

#[test]
fn other_token_types_are_rejected() {
    let body = "{\"access_token\":\"a\",\"token_type\":\"MAC\",\"scope\":\"s\",\
        \"expires_in\":3600,\"refresh_token\":\"r\"}";
    let expected = Error::SpotifyAPIError("Unknown token type: MAC".to_string());
    assert_eq!(request_token(ok(body), 0), Err(expected.clone()));
    assert_eq!(renewed_tokens(&held(), ok(body), 0), Err(expected));
    let lower = "{\"access_token\":\"a\",\"token_type\":\"bearer\",\"scope\":\"s\",\
        \"expires_in\":3600,\"refresh_token\":\"r\"}";
    assert_eq!(
        request_token(ok(lower), 0),
        Err(Error::SpotifyAPIError("Unknown token type: bearer".to_string()))
    );
}

#[test]
fn token_type_is_checked_before_the_expiry() {
    let body = "{\"access_token\":\"a\",\"token_type\":\"MAC\",\"scope\":\"s\",\
        \"expires_in\":0.5,\"refresh_token\":\"r\"}";
    assert_eq!(
        request_token(ok(body), 0),
        Err(Error::SpotifyAPIError("Unknown token type: MAC".to_string()))
    );
}

#[test]
fn missing_fields_are_rejected_with_the_payload() {
    assert_eq!(
        request_token(ok("{\"token_type\":\"Bearer\"}"), 0),
        Err(unknown("{\"token_type\":\"Bearer\"}"))
    );
    let no_scope = "{\"access_token\":\"a\",\"token_type\":\"Bearer\",\"expires_in\":1,\
        \"refresh_token\":\"r\"}";
    assert_eq!(request_token(ok(no_scope), 0), Err(unknown(no_scope)));
    let no_type = "{\"access_token\":\"a\",\"scope\":\"s\",\"expires_in\":1,\
        \"refresh_token\":\"r\"}";
    assert_eq!(request_token(ok(no_type), 0), Err(unknown(no_type)));
    let no_access = "{\"token_type\":\"Bearer\",\"scope\":\"s\",\"expires_in\":1,\
        \"refresh_token\":\"r\"}";
    assert_eq!(request_token(ok(no_access), 0), Err(unknown(no_access)));
    let no_expiry = "{\"access_token\":\"a\",\"token_type\":\"Bearer\",\"scope\":\"s\",\
        \"refresh_token\":\"r\"}";
    assert_eq!(request_token(ok(no_expiry), 0), Err(unknown(no_expiry)));
}

#[test]
fn documents_that_are_no_objects_are_rejected() {
    assert_eq!(request_token(ok("[1,2]"), 0), Err(unknown("[1,2]")));
    assert_eq!(request_token(ok("null"), 0), Err(unknown("null")));
    assert_eq!(request_token(ok("\"Bearer\""), 0), Err(unknown("\"Bearer\"")));
}

#[test]
fn wrongly_typed_fields_are_rejected() {
    let text_expiry = "{\"access_token\":\"a\",\"token_type\":\"Bearer\",\"scope\":\"s\",\
        \"expires_in\":\"3600\",\"refresh_token\":\"r\"}";
    assert_eq!(request_token(ok(text_expiry), 0), Err(unknown(text_expiry)));
    let number_access = "{\"access_token\":5,\"token_type\":\"Bearer\",\"scope\":\"s\",\
        \"expires_in\":3600,\"refresh_token\":\"r\"}";
    assert_eq!(request_token(ok(number_access), 0), Err(unknown(number_access)));
}

#[test]
fn expiry_is_the_time_of_receipt_plus_the_lifetime() {
    let response = parse_token_response(
        &object(vec![
            ("access_token", text("a")),
            ("token_type", text("Bearer")),
            ("scope", text("s")),
            ("expires_in", whole(3600)),
        ]),
        1_700_000_000,
    );
    assert_eq!(
        response,
        Ok(TokenResponse {
            access_token: "a".to_string(),
            scope: Scope::new("s"),
            expiry_time: 1_700_003_600,
            refresh_token: None,
        })
    );
}

#[test]
fn whole_lifetimes_in_any_notation_are_read() {
    for (notation, seconds) in [("3600.0", 3600), ("36e2", 3600), ("0", 0), ("-60", -60)] {
        let body = format!(
            "{{\"access_token\":\"a\",\"token_type\":\"Bearer\",\"scope\":\"s\",\
             \"expires_in\":{},\"refresh_token\":\"r\"}}",
            notation
        );
        let tokens = request_token(ok(&body), 100).unwrap();
        assert_eq!(tokens.expiry_time, 100 + seconds);
    }
}

#[test]
fn lifetimes_with_a_fraction_or_beyond_the_range_are_rejected() {
    for notation in ["0.5", "3600.25", "1e30", "9223372036854775808"] {
        let body = format!(
            "{{\"access_token\":\"a\",\"token_type\":\"Bearer\",\"scope\":\"s\",\
             \"expires_in\":{},\"refresh_token\":\"r\"}}",
            notation
        );
        assert!(matches!(request_token(ok(&body), 100), Err(Error::SpotifyAPIError(_))));
    }
}

#[test]
fn expiry_beyond_the_range_is_rejected() {
    assert!(matches!(request_token(ok(FULL), i64::MAX), Err(Error::SpotifyAPIError(_))));
    assert!(matches!(request_token(ok(FULL), i64::MAX - 3599), Err(Error::SpotifyAPIError(_))));
    assert_eq!(request_token(ok(FULL), i64::MAX - 3600).unwrap().expiry_time, i64::MAX);
}

#[test]
fn other_statuses_are_rejected_with_status_and_body() {
    let response = HttpResponse {
        status: 400,
        body: "{ \"error\" : \"invalid_grant\" }".as_bytes().to_vec(),
    };
    assert_eq!(
        request_token(response.clone(), 0),
        Err(Error::HttpErrorJson(400, "{\"error\":\"invalid_grant\"}".to_string()))
    );
    assert_eq!(
        renewed_tokens(&held(), response, 0),
        Err(Error::HttpErrorJson(400, "{\"error\":\"invalid_grant\"}".to_string()))
    );
    let full_but_failed = HttpResponse { status: 201, body: FULL.as_bytes().to_vec() };
    assert!(matches!(request_token(full_but_failed, 0), Err(Error::HttpErrorJson(201, _))));
}

#[test]
fn bodies_that_are_not_json_are_rejected_with_the_endpoint() {
    let expected = Error::SpotifyAPIError(
        "JSON not returned by https://accounts.spotify.com/api/token endpoint".to_string(),
    );
    assert_eq!(request_token(ok("<html>"), 0), Err(expected.clone()));
    assert_eq!(request_token(ok(""), 0), Err(expected.clone()));
    assert_eq!(renewed_tokens(&held(), ok("oops"), 0), Err(expected));
}

#[test]
fn other_statuses_keep_their_status_when_the_body_is_not_json() {
    let failed = HttpResponse { status: 500, body: "oops".as_bytes().to_vec() };
    assert_eq!(
        request_token(failed.clone(), 0),
        Err(Error::HttpErrorJson(500, "oops".to_string()))
    );
    assert_eq!(
        renewed_tokens(&held(), failed.clone(), 0),
        Err(Error::HttpErrorJson(500, "oops".to_string()))
    );
    let mut tokens = held();
    assert_eq!(
        refresh_token(&mut tokens, failed.clone(), 0),
        Err(Error::HttpErrorJson(500, "oops".to_string()))
    );
    assert_eq!(tokens, held());
    assert_eq!(
        receive_api_response(failed, "https://api.example.com/"),
        Err(Error::HttpErrorJson(500, "oops".to_string()))
    );
    let gateway = HttpResponse { status: 502, body: "Bad Gateway".as_bytes().to_vec() };
    assert_eq!(
        request_token(gateway, 0),
        Err(Error::HttpErrorJson(502, "Bad Gateway".to_string()))
    );
    let empty = HttpResponse { status: 204, body: Vec::new() };
    assert_eq!(request_token(empty, 0), Err(Error::HttpErrorJson(204, String::new())));
}

#[test]
fn other_statuses_with_a_body_that_is_not_utf8_are_a_transport_error() {
    let broken = HttpResponse { status: 500, body: vec![0x6f, 0xff] };
    assert_eq!(request_token(broken.clone(), 0), Err(Error::Utf8));
    assert_eq!(renewed_tokens(&held(), broken, 0), Err(Error::Utf8));
}

#[test]
fn numbers_with_too_many_digits_are_not_read() {
    let expected = Error::SpotifyAPIError(
        "JSON not returned by https://accounts.spotify.com/api/token endpoint".to_string(),
    );
    let fraction = format!(
        "{{\"access_token\":\"a\",\"token_type\":\"Bearer\",\"scope\":\"s\",\
         \"expires_in\":0.{},\"refresh_token\":\"r\"}}",
        "0".repeat(32769)
    );
    assert_eq!(request_token(ok(&fraction), 0), Err(expected.clone()));
    assert_eq!(renewed_tokens(&held(), ok(&fraction), 0), Err(expected));
    let failed = HttpResponse { status: 400, body: fraction.as_bytes().to_vec() };
    assert_eq!(request_token(failed, 0), Err(Error::HttpErrorJson(400, fraction.clone())));
}

#[test]
fn numbers_with_as_many_digits_as_allowed_are_read() {
    let body = format!(
        "{{\"access_token\":\"a\",\"token_type\":\"Bearer\",\"scope\":\"s\",\
         \"expires_in\":60.{},\"refresh_token\":\"r\"}}",
        "0".repeat(32767)
    );
    assert_eq!(request_token(ok(&body), 100).unwrap().expiry_time, 160);
}

#[test]
fn bodies_that_are_not_utf8_are_rejected() {
    let response = HttpResponse { status: 200, body: vec![0x7b, 0xff, 0x7d] };
    assert_eq!(request_token(response.clone(), 0), Err(Error::Utf8));
    assert_eq!(receive_api_response(response, "https://api.example.com/"), Err(Error::Utf8));
}

#[test]
fn refresh_without_refresh_token_keeps_the_old_one() {
    let mut tokens = held();
    assert_eq!(refresh_token(&mut tokens, ok(WITHOUT_REFRESH), 2_000), Ok(()));
    assert_eq!(
        tokens,
        Tokens {
            access_token: "second-access".to_string(),
            scope: Scope::new("user-read-email"),
            expiry_time: 3_800,
            refresh_token: "first-refresh".to_string(),
        }
    );
}

#[test]
fn refresh_with_refresh_token_replaces_the_old_one() {
    let mut tokens = held();
    assert_eq!(refresh_token(&mut tokens, ok(FULL), 2_000), Ok(()));
    assert_eq!(
        tokens,
        Tokens {
            access_token: "NgCXRK...MzYjw".to_string(),
            scope: Scope::new("user-read-private user-read-email"),
            expiry_time: 5_600,
            refresh_token: "NgAagA...Um_SHo".to_string(),
        }
    );
}

#[test]
fn refresh_with_an_empty_refresh_token_keeps_the_old_one() {
    let body = "{\"access_token\":\"a\",\"token_type\":\"Bearer\",\"scope\":\"s\",\
        \"expires_in\":1,\"refresh_token\":\"\"}";
    let mut tokens = held();
    assert_eq!(refresh_token(&mut tokens, ok(body), 10), Ok(()));
    assert_eq!(tokens.refresh_token, "first-refresh");
    assert_eq!(tokens.access_token, "a");
    assert_eq!(tokens.expiry_time, 11);
}

#[test]
fn failed_refresh_leaves_the_tokens_untouched() {
    let rejected = [
        ok("not json"),
        ok("{\"access_token\":\"x\"}"),
        ok("{\"access_token\":\"a\",\"token_type\":\"Basic\",\"scope\":\"s\",\"expires_in\":1}"),
        HttpResponse { status: 401, body: FULL.as_bytes().to_vec() },
        HttpResponse { status: 200, body: vec![0xc3] },
    ];
    for response in rejected {
        let mut tokens = held();
        assert!(refresh_token(&mut tokens, response, 5).is_err());
        assert_eq!(tokens, held());
    }
}

#[test]
fn two_refreshes_leave_only_the_latest_response() {
    let first = "{\"access_token\":\"a1\",\"token_type\":\"Bearer\",\"scope\":\"s1\",\
        \"expires_in\":10,\"refresh_token\":\"r1\"}";
    let second = "{\"access_token\":\"a2\",\"token_type\":\"Bearer\",\"scope\":\"s2\",\
        \"expires_in\":20,\"refresh_token\":\"r2\"}";
    let mut tokens = held();
    assert_eq!(refresh_token(&mut tokens, ok(first), 100), Ok(()));
    assert_eq!(
        tokens,
        Tokens {
            access_token: "a1".to_string(),
            scope: Scope::new("s1"),
            expiry_time: 110,
            refresh_token: "r1".to_string(),
        }
    );
    assert_eq!(refresh_token(&mut tokens, ok(second), 200), Ok(()));
    assert_eq!(
        tokens,
        Tokens {
            access_token: "a2".to_string(),
            scope: Scope::new("s2"),
            expiry_time: 220,
            refresh_token: "r2".to_string(),
        }
    );
    assert_eq!(request_token(ok(second), 200), Ok(tokens));
}

#[test]
fn last_of_two_equal_members_wins() {
    let body = "{\"access_token\":\"old\",\"access_token\":\"new\",\"token_type\":\"Bearer\",\
        \"scope\":\"s\",\"expires_in\":1,\"refresh_token\":\"r\"}";
    assert_eq!(request_token(ok(body), 0).unwrap().access_token, "new");
    let document = object(vec![
        ("access_token", text("old")),
        ("token_type", text("Bearer")),
        ("scope", text("s")),
        ("expires_in", whole(1)),
        ("access_token", text("new")),
    ]);
    assert_eq!(parse_token_response(&document, 0).unwrap().access_token, "new");
}

#[test]
fn convert_to_tokens_takes_the_response_and_keeps_a_missing_refresh_token() {
    let response = TokenResponse {
        access_token: "a2".to_string(),
        scope: Scope::new("s2"),
        expiry_time: 77,
        refresh_token: None,
    };
    assert_eq!(
        response.convert_to_tokens(held()),
        Tokens {
            access_token: "a2".to_string(),
            scope: Scope::new("s2"),
            expiry_time: 77,
            refresh_token: "first-refresh".to_string(),
        }
    );
    let with_refresh = TokenResponse {
        access_token: "a3".to_string(),
        scope: Scope::new("s3"),
        expiry_time: 78,
        refresh_token: Some("r3".to_string()),
    };
    assert_eq!(with_refresh.convert_to_tokens(held()).refresh_token, "r3");
}
