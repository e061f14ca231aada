use boldtrax::errors::{AccountError, ClientError, MarketDataError, PriceError, TradingError};
use boldtrax::http::auth::{
    apply_binance_hmac_auth, apply_binance_hmac_auth_at, apply_bybit_hmac_auth, hmac_sha256_hex, ApiKeyAuth, BasicAuth,
    BearerAuth, Method, NoAuth, NoWsAuth, RequestParts,
};
use boldtrax::http::client::{build_url, check_body, extract_error_body, handle_response, HttpClientBuilder};
use boldtrax::table::Table;
use hmac::{Hmac, Mac};
use sha2::Sha256;

fn request(method: Method, query: Option<&str>, body: Option<&[u8]>) -> RequestParts {
    RequestParts {
        method,
        query: query.map(|q| q.to_string()),
        headers: Table::new(),
        body: body.map(|b| b.to_vec()),
    }
}

fn header<'a>(request: &'a RequestParts, name: &str) -> Option<&'a str> {
    request.headers.get(&name.to_string()).map(|v| v.as_str())
}

fn pairs(request: &RequestParts) -> Vec<(String, String)> {
    let url = url::Url::parse(&format!("https://host/?{}", request.query.as_ref().unwrap())).unwrap();
    url.query_pairs().map(|(k, v)| (k.into_owned(), v.into_owned())).collect()
}

fn value(list: &[(String, String)], name: &str) -> String {
    list.iter().find(|(k, _)| k == name).map(|(_, v)| v.clone()).unwrap()
}

/// The signature as the crates give it.
fn signed(secret: &[u8], text: &str) -> String {
    let mut mac = Hmac::<Sha256>::new_from_slice(secret).unwrap();
    mac.update(text.as_bytes());
    hex::encode(mac.finalize().into_bytes())
}

#[test]
fn signature_matches_a_published_vector() {
    assert_eq!(
        hmac_sha256_hex(b"Jefe", b"what do ya want for nothing?"),
        "5bdcc146bf60754e6a042426089575c75a003f089d2739839dec58b964ec3843"
    );
}

#[test]
fn binance_hmac_produces_valid_signature() {
    let mut r = request(Method::Get, Some("orderId=123"), None);
    apply_binance_hmac_auth(&mut r, "testApiKey", "testSecretKey", 5000, &[], &[]).expect("apply_auth should not fail");

    let list = pairs(&r);
    assert_eq!(list.len(), 4);
    assert_eq!(value(&list, "recvWindow"), "5000");
    let signed_query = format!("orderId=123&timestamp={}&recvWindow=5000", value(&list, "timestamp"));
    let expected = signed(b"testSecretKey", &signed_query);
    assert_eq!(value(&list, "signature"), expected, "HMAC signature mismatch");
    assert_eq!(header(&r, "x-mbx-apikey"), Some("testApiKey"));
}

#[test]
fn binance_hmac_strips_stale_signing_params_on_retry() {
    let mut r = request(Method::Get, Some("timestamp=1000000&recvWindow=5000&signature=stalesig"), None);
    apply_binance_hmac_auth(&mut r, "key", "secret", 5000, &[], &[]).expect("apply_auth should not fail");

    let list = pairs(&r);
    let timestamps: Vec<_> = list.iter().filter(|(k, _)| k == "timestamp").collect();
    let signatures: Vec<_> = list.iter().filter(|(k, _)| k == "signature").collect();
    assert_eq!(timestamps.len(), 1, "should have exactly one timestamp after re-auth");
    assert_eq!(signatures.len(), 1, "should have exactly one signature after re-auth");
    assert_ne!(timestamps[0].1, "1000000", "stale timestamp should be replaced");
    assert_ne!(signatures[0].1, "stalesig", "stale signature should be replaced");
}

#[test]
fn signing_writes_pairs_as_a_form() {
    let mut r = request(Method::Get, Some("note=a%20b&drop=1"), None);
    apply_binance_hmac_auth_at(&mut r, "key", "secret", 10, &[("extra", "x&y")], &["drop"], 77).unwrap();
    let to_sign = "note=a+b&timestamp=77&recvWindow=10&extra=x%26y";
    let expected = format!("{}&signature={}", to_sign, hmac_sha256_hex(b"secret", to_sign.as_bytes()));
    assert_eq!(r.query, Some(expected));
}

#[test]
fn signing_again_signs_afresh() {
    let mut once = request(Method::Get, Some("symbol=BTCUSDT"), None);
    apply_binance_hmac_auth_at(&mut once, "key", "secret", 5000, &[], &[], 2).unwrap();
    let mut twice = request(Method::Get, Some("symbol=BTCUSDT"), None);
    apply_binance_hmac_auth_at(&mut twice, "key", "secret", 5000, &[], &[], 1).unwrap();
    apply_binance_hmac_auth_at(&mut twice, "key", "secret", 5000, &[], &[], 2).unwrap();
    assert_eq!(once.query, twice.query);
}

#[test]
fn key_with_control_characters_is_refused() {
    let mut r = request(Method::Get, None, None);
    assert!(matches!(
        apply_binance_hmac_auth_at(&mut r, "bad\nkey", "secret", 5000, &[], &[], 1),
        Err(ClientError::AuthError(m)) if m == "API key contains invalid header characters"
    ));
    assert!(matches!(apply_bybit_hmac_auth(&mut r, "bad\nkey", "secret", 5000, 1), Err(ClientError::AuthError(_))));
    assert!(matches!(BearerAuth::new("bad\ntoken".to_string()).apply_auth(&mut r), Err(ClientError::AuthError(_))));
    assert_eq!(header(&r, "authorization"), None);
}

#[test]
fn bybit_signs_the_query_of_a_get_and_the_body_of_a_post() {
    let mut get = request(Method::Get, Some("category=linear"), Some(b"ignored"));
    apply_bybit_hmac_auth(&mut get, "key", "secret", 5000, 1700000000000).unwrap();
    assert_eq!(
        header(&get, "x-bapi-sign"),
        Some(hmac_sha256_hex(b"secret", b"1700000000000key5000category=linear").as_str())
    );
    assert_eq!(header(&get, "x-bapi-timestamp"), Some("1700000000000"));

    let mut post = request(Method::Post, Some("ignored=1"), Some(b"{\"a\":1}"));
    apply_bybit_hmac_auth(&mut post, "key", "secret", 5000, 1700000000000).unwrap();
    assert_eq!(
        header(&post, "x-bapi-sign"),
        Some(hmac_sha256_hex(b"secret", b"1700000000000key5000{\"a\":1}").as_str())
    );

    let mut odd = request(Method::Post, None, Some(&[b'a', 0xff]));
    apply_bybit_hmac_auth(&mut odd, "key", "secret", 5000, 1).unwrap();
    assert_eq!(
        header(&odd, "x-bapi-sign"),
        Some(hmac_sha256_hex(b"secret", "1key5000a\u{fffd}".as_bytes()).as_str())
    );
}

#[test]
fn test_post_request_with_basic_auth() {
    let auth = BasicAuth::new("test_user".to_string(), Some("test_pass".to_string()));
    let mut r = request(Method::Post, None, None);
    auth.apply_auth(&mut r).unwrap();
    assert_eq!(header(&r, "authorization"), Some("Basic dGVzdF91c2VyOnRlc3RfcGFzcw=="));
    assert!(handle_response(201, "").is_ok());
}

#[test]
fn basic_auth_without_password_keeps_the_colon() {
    let mut r = request(Method::Get, None, None);
    BasicAuth::new("u".to_string(), None).apply_auth(&mut r).unwrap();
    assert_eq!(header(&r, "authorization"), Some("Basic dTo="));
}

#[test]
fn test_bearer_auth() {
    let auth = BearerAuth::new("my_token_123".to_string());
    let mut r = request(Method::Get, None, None);
    auth.apply_auth(&mut r).unwrap();
    assert_eq!(header(&r, "authorization"), Some("Bearer my_token_123"));
    assert!(handle_response(200, "").is_ok());
}

#[test]
fn test_api_key_auth() {
    let auth = ApiKeyAuth::new("x-api-key".to_string(), "secret_key_456".to_string());
    let mut r = request(Method::Get, None, None);
    auth.apply_auth(&mut r).unwrap();
    assert_eq!(header(&r, "x-api-key"), Some("secret_key_456"));
    assert!(handle_response(200, "").is_ok());
}

#[test]
fn header_names_become_small_and_bad_ones_are_refused() {
    let mut r = request(Method::Get, None, None);
    ApiKeyAuth::new("X-Api-Key".to_string(), "k".to_string()).apply_auth(&mut r).unwrap();
    assert_eq!(header(&r, "x-api-key"), Some("k"));
    let bad = ApiKeyAuth::new("x api key".to_string(), "k".to_string()).apply_auth(&mut r);
    assert!(matches!(bad, Err(ClientError::AuthError(_))));
}

#[test]
fn test_no_auth_provider() {
    let mut r = request(Method::Get, Some("a=1"), None);
    NoAuth.apply_auth(&mut r).unwrap();
    assert_eq!(r.query, Some("a=1".to_string()));
    assert_eq!(r.headers.len(), 0);
    assert!(matches!(NoWsAuth.auth_message(), Ok(None)));
}

#[test]
fn test_unauthorized_error() {
    let result = handle_response(401, "");
    assert!(result.is_err());
    assert!(matches!(result.unwrap_err(), ClientError::Unauthorized));
    assert!(matches!(handle_response(403, ""), Err(ClientError::Unauthorized)));
}

#[test]
fn test_rate_limit_error() {
    let result = handle_response(429, "");
    assert!(result.is_err());
    assert!(matches!(result.unwrap_err(), ClientError::RateLimited));
}

#[test]
fn test_server_error() {
    let result = handle_response(500, "");
    assert!(result.is_err());
    match result.unwrap_err() {
        ClientError::ServerError(code) => assert_eq!(code, 500),
        _ => panic!("Expected ServerError"),
    }
}

#[test]
fn other_statuses_tell_status_and_body() {
    assert!(matches!(handle_response(408, ""), Err(ClientError::Timeout)));
    assert!(matches!(handle_response(504, ""), Err(ClientError::Timeout)));
    assert!(handle_response(202, "").is_ok());
    match handle_response(404, "nothing here") {
        Err(ClientError::InvalidResponse(m)) => assert_eq!(m, "HTTP 404 Not Found: nothing here"),
        _ => panic!("Expected InvalidResponse"),
    }
    match handle_response(204, "") {
        Err(ClientError::InvalidResponse(m)) => assert_eq!(m, "HTTP 204 No Content: "),
        _ => panic!("Expected InvalidResponse"),
    }
}

#[test]
fn paths_are_joined_to_the_base() {
    assert_eq!(build_url("https://fapi.binance.com", "/fapi/v1/time").unwrap(), "https://fapi.binance.com/fapi/v1/time");
    assert_eq!(build_url("https://host/a/b", "c?d=1").unwrap(), "https://host/a/c?d=1");
    match build_url("no url", "/x") {
        Err(ClientError::InvalidUrl(m)) => assert_eq!(m, "invalid base_url: relative URL without a base"),
        _ => panic!("Expected InvalidUrl"),
    }
    match build_url("https://host", "https://[") {
        Err(ClientError::InvalidUrl(m)) => assert_eq!(m, "invalid path: invalid IPv6 address"),
        _ => panic!("Expected InvalidUrl"),
    }
}

#[test]
fn bodies_of_errors_are_shown() {
    assert_eq!(extract_error_body(None), "Unable to read error body");
    assert_eq!(extract_error_body(Some("oops".to_string())), "oops");
    assert_eq!(extract_error_body(Some("{\"code\":-1}".to_string())), "{\n  \"code\": -1\n}");
    assert!(check_body("binance", None).is_ok());
    match check_body("binance", Some("-1121 invalid symbol".to_string())) {
        Err(ClientError::InvalidResponse(m)) => assert_eq!(m, "binance: -1121 invalid symbol"),
        _ => panic!("Expected InvalidResponse"),
    }
}

#[test]
fn builder_keeps_its_settings() {
    let b = HttpClientBuilder::new("https://host".to_string());
    assert_eq!(b.settings().0, "https://host");
    let b = b.timeout(5).max_retries(0);
    assert_eq!(b.settings(), (&"https://host".to_string(), 5, 0));
}

#[test]
fn errors_of_requests_become_errors_of_markets() {
    assert!(matches!(MarketDataError::from(ClientError::RateLimited), MarketDataError::RateLimited));
    assert!(matches!(PriceError::from(ClientError::RateLimited), PriceError::RateLimited));
    assert!(matches!(AccountError::from(ClientError::Unauthorized), AccountError::Unauthorized));
    assert!(matches!(TradingError::from(ClientError::RateLimited), TradingError::RateLimited));
    assert!(matches!(
        MarketDataError::from(ClientError::Serialization("x".to_string())),
        MarketDataError::Parse(_)
    ));
    assert_eq!(ClientError::ServerError(502).message(), "server error: 502");
    assert_eq!(ClientError::AuthError("k".to_string()).message(), "auth error: k");
    assert_eq!(
        TradingError::PriceNotReady.message(),
        "price data not available for instrument — wait for order book snapshot"
    );
}

#[test]
fn base_address_is_what_was_parsed() {
    let good = HttpClientBuilder::new("https://Fapi.Binance.com".to_string());
    assert_eq!(good.base_address().unwrap(), "https://fapi.binance.com/");
    match HttpClientBuilder::new("not a url".to_string()).base_address() {
        Err(e) => assert_eq!(e.message(), "invalid url: relative URL without a base"),
        Ok(_) => panic!("expected a refusal"),
    }
}

#[test]
fn signing_keeps_other_headers() {
    let mut r = request(Method::Get, Some("a=1"), None);
    r.headers.insert("x-trace".to_string(), "t".to_string());
    apply_binance_hmac_auth(&mut r, "key", "secret", 5000, &[], &[]).unwrap();
    assert_eq!(header(&r, "x-trace"), Some("t"));
    assert_eq!(header(&r, "x-mbx-apikey"), Some("key"));
    assert_eq!(r.headers.len(), 2);
}
