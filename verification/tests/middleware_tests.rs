use axum::body::Body;
use axum::http::{HeaderName, HeaderValue, Response, StatusCode};
use base64::Engine;
use micro_frontend::config::Environment;
use micro_frontend::metrics::{metric_path_label, AuthOutcome};
use micro_frontend::middleware::auth_metrics_middleware;
use micro_frontend::middleware::jwt_auth::{
    authentication_outcome, choose_token, extract_jwt_token, is_valid_token, jwt_auth_middleware,
    normalize_public_key, parse_algorithm, read_payload, read_stated_expiry, token_candidates,
    usable, Claims, JwtAlgorithm, JwtConfig, MAX_PUBLIC_KEY_BYTES,
};
use micro_frontend::middleware::rate_limiting::{
    choose_client_address, configured_limit, configured_limiter, forwarded_address_text,
    get_client_ip, rate_limiting_middleware, retain_recent, ClientAddress, RateLimiter,
    LOCAL_ADDRESS,
};
use micro_frontend::middleware::security::{is_user_specific_page, security_headers_middleware};
use std::str::FromStr;

const PUBLIC_KEY: &str = "-----BEGIN PUBLIC KEY-----\nMIIBIjANBgkqhkiG9w0BAQEFAAOCAQ8AMIIBCgKCAQEAlwQuG+v6h6NrAndmYRFJ\nahVXhhvLAWT75BVDPjYL8LfwymNuEiV9Tenx1kuhRvOYLoWpD9LzDPZCj+lj8P1i\niY9sKkaDQWStxcPk5GSbQX/519I5m47dMaXrxc5A6ds9HvdrQIZFTb7+pgKbz9Aj\nzYtpj8y8RuP3bkVyz33f8eaV30vv5vSmEwmjCYi3uHd5KpGKOOQGyZBDswRxPBIj\n/nkPrF4UYeo2QAjJiMC7mGMMcJnMR4PIElvCOU7nWiRSRYPDdvfZHRn5qViMVkbt\nlUAqUGL1xbIoIVft0pzZAdDblKILcmBO6mumb4cujNuKAHIUVRZrpSWMVSzsTOt6\ndwIDAQAB\n-----END PUBLIC KEY-----\n";

fn env(pairs: &[(&str, &str)]) -> Environment {
    Environment { vars: pairs.iter().map(|(k, v)| (k.to_string(), v.to_string())).collect() }
}

fn token(payload: &str) -> String {
    let encode = |s: &str| base64::engine::general_purpose::URL_SAFE_NO_PAD.encode(s);
    format!("{}.{}.{}", encode("{\"alg\":\"RS256\"}"), encode(payload), "c2ln")
}

#[test]
fn test_jwt_config_creation() {
    let env = env(&[
        (
            "JWT_PUBLIC_KEY",
            "-----BEGIN PUBLIC KEY-----\nMIIBIjANBgkqhkiG9w0BAQEFAAOCAQ8AMIIBCgKCAQEA...\n-----END PUBLIC KEY-----",
        ),
        ("JWT_ALGORITHM", "RS256"),
        ("JWT_AUDIENCE", "test-service"),
        ("JWT_ISSUER", "test-issuer"),
    ]);
    let result = JwtConfig::from_env(&env);
    assert!(result.is_err());
}

#[test]
fn test_jwt_config_from_env() {
    let env = env(&[("JWT_PUBLIC_KEY", PUBLIC_KEY), ("JWT_ALGORITHM", "RS256")]);
    let jwt_config = JwtConfig::from_env(&env).unwrap();
    assert_eq!(jwt_config.validation.algorithm, JwtAlgorithm::RS256);
}

#[test]
fn test_jwt_config_debug() {
    let env = env(&[("JWT_PUBLIC_KEY", PUBLIC_KEY)]);
    let jwt_config = JwtConfig::from_env(&env).unwrap();
    let debug_output = jwt_config.to_debug_string();
    assert!(debug_output.contains("<redacted>"));
    assert!(debug_output.contains("JwtConfig"));
    assert!(!debug_output.contains("MIIB"));
}

#[test]
fn test_security_headers() {
    let mut response = Response::builder().status(StatusCode::OK).body(Body::empty()).unwrap();
    for (name, value) in security_headers_middleware("/", None) {
        response
            .headers_mut()
            .insert(HeaderName::from_str(&name).unwrap(), HeaderValue::from_str(&value).unwrap());
    }
    assert_eq!(response.headers().get("X-Content-Type-Options").unwrap(), "nosniff");
    assert_eq!(response.headers().get("X-Frame-Options").unwrap(), "DENY");
    assert!(response
        .headers()
        .get("Content-Security-Policy")
        .unwrap()
        .to_str()
        .unwrap()
        .starts_with("default-src 'self'"));
}

#[test]
fn the_configuration_has_defaults_for_all_but_the_key() {
    let config = JwtConfig::from_env(&env(&[("JWT_PUBLIC_KEY", PUBLIC_KEY)])).unwrap();
    assert_eq!(config.validation.algorithm, JwtAlgorithm::RS256);
    assert_eq!(config.validation.audience, "micro-frontend-service");
    assert_eq!(config.validation.issuer, "test-auth-service");
    assert_eq!(config.validation.leeway, 60);
    assert_eq!(
        config.to_debug_string(),
        "JwtConfig { public_key: \"<redacted>\", validation: JwtValidation { algorithm: RS256, audience: \"micro-frontend-service\", issuer: \"test-auth-service\", leeway: 60 } }"
    );

    let config = JwtConfig::from_env(&env(&[
        ("JWT_PUBLIC_KEY", PUBLIC_KEY),
        ("JWT_ALGORITHM", "ES256"),
        ("JWT_AUDIENCE", "aud"),
        ("JWT_ISSUER", "iss"),
        ("JWT_CLOCK_SKEW_SECONDS", "5"),
    ]))
    .unwrap();
    assert_eq!(config.validation.algorithm, JwtAlgorithm::ES256);
    assert_eq!(config.validation.audience, "aud");
    assert_eq!(config.validation.issuer, "iss");
    assert_eq!(config.validation.leeway, 5);

    let config = JwtConfig::from_env(&env(&[
        ("JWT_PUBLIC_KEY", PUBLIC_KEY),
        ("JWT_CLOCK_SKEW_SECONDS", "soon"),
    ]))
    .unwrap();
    assert_eq!(config.validation.leeway, 60);
}

#[test]
fn the_configuration_fails_in_a_fixed_order() {
    let error = |pairs: &[(&str, &str)]| match JwtConfig::from_env(&env(pairs)) {
        Ok(_) => panic!("a configuration was made"),
        Err(e) => e,
    };
    assert_eq!(error(&[]), "JWT_PUBLIC_KEY environment variable not set");
    assert_eq!(
        error(&[("JWT_ALGORITHM", "HS256")]),
        "JWT_PUBLIC_KEY environment variable not set"
    );
    assert!(error(&[("JWT_PUBLIC_KEY", "nonsense"), ("JWT_ALGORITHM", "HS256")])
        .starts_with("Failed to parse JWT public key: "));
    assert!(error(&[("JWT_PUBLIC_KEY", "\"")]).starts_with("Failed to parse JWT public key: "));
    assert_eq!(
        error(&[("JWT_PUBLIC_KEY", PUBLIC_KEY), ("JWT_ALGORITHM", "HS256")]),
        "Unsupported JWT algorithm: HS256"
    );
    assert_eq!(parse_algorithm("RS256"), Some(JwtAlgorithm::RS256));
    assert_eq!(parse_algorithm("ES256"), Some(JwtAlgorithm::ES256));
    assert_eq!(parse_algorithm("rs256"), None);
}

#[test]
fn a_key_may_be_quoted_and_spell_its_line_breaks() {
    let escaped = PUBLIC_KEY.replace('\n', "\\n");
    assert_eq!(normalize_public_key(&escaped), PUBLIC_KEY);
    assert_eq!(normalize_public_key(&format!("\"{}\"", escaped)), PUBLIC_KEY);
    assert_eq!(normalize_public_key(&format!("'{}'", escaped)), PUBLIC_KEY);
    assert!(JwtConfig::from_env(&env(&[("JWT_PUBLIC_KEY", &format!("'{}'", escaped))])).is_ok());

    assert_eq!(normalize_public_key("\"abc'"), "\"abc'");
    assert_eq!(normalize_public_key("\"\""), "");
    assert_eq!(normalize_public_key("\""), "\"");
    assert_eq!(normalize_public_key("'"), "'");
    assert_eq!(normalize_public_key(""), "");
    assert_eq!(normalize_public_key("a\\nb\\n"), "a\nb\n");
    assert_eq!(normalize_public_key("a\\\\nb"), "a\\\nb");
    assert_eq!(normalize_public_key("a\\"), "a\\");
    assert_eq!(normalize_public_key("a\\tb"), "a\\tb");
    for s in ["x\\ny", "\\n\\n", "\\\\n", "n\\", "\\nn\\n\\", "plain"] {
        assert_eq!(normalize_public_key(s), s.replace("\\n", "\n"));
    }
}

#[test]
fn a_token_is_usable_unless_it_says_that_it_has_expired() {
    assert!(is_valid_token(&token("{\"exp\":2000}"), 1999));
    assert!(!is_valid_token(&token("{\"exp\":2000}"), 2000));
    assert!(!is_valid_token(&token("{\"exp\":2000}"), 2001));
    assert!(is_valid_token(&token("{\"exp\":-5}"), -6));
    assert!(!is_valid_token(&token("{\"exp\":-5}"), 0));
    assert!(is_valid_token(&token("{\"sub\":\"x\"}"), 5));
    assert!(is_valid_token(&token("{\"exp\":\"2000\"}"), 5000));
    assert!(is_valid_token(&token("{\"exp\":2000.5}"), 5000));
    assert!(is_valid_token(&token("{\"exp\":18446744073709551615}"), 5000));
    assert!(is_valid_token(&token("[2000]"), 5000));
    assert!(is_valid_token(&token("not json"), 5000));
    assert!(is_valid_token("a.b.c", 5000));
    assert!(is_valid_token("a.!!!.c", 5000));
    assert!(is_valid_token("..", 5000));
    assert!(!is_valid_token("", 0));
    assert!(!is_valid_token("a.b", 0));
    assert!(!is_valid_token("a.b.c.d", 0));
    assert!(!is_valid_token("invalid", 0));
}

#[test]
fn the_payload_is_read_without_looking_at_the_signature() {
    let (parts, payload) = read_payload(&token("{\"exp\":7}"));
    assert_eq!(parts, 3);
    assert_eq!(payload.as_deref(), Some("{\"exp\":7}"));
    assert_eq!(read_stated_expiry(&token("{\"exp\":7}")), (3, Some(7)));
    assert_eq!(read_stated_expiry(&token("{\"exp\":7,\"exp\":9}")), (3, Some(9)));
    assert_eq!(read_stated_expiry("a.b"), (2, None));
    assert_eq!(read_stated_expiry("a.b.c.d.e"), (5, None));
    let padded = format!("a.{}.c", base64::engine::general_purpose::URL_SAFE.encode("{\"exp\":7}x"));
    assert!(padded.contains('='));
    assert_eq!(read_stated_expiry(&padded), (3, None));
    let not_text = format!(
        "a.{}.c",
        base64::engine::general_purpose::URL_SAFE_NO_PAD.encode([0xffu8, 0xfe, 0xfd])
    );
    assert_eq!(read_payload(&not_text), (3, None));
    assert!(usable(3, None, 0));
    assert!(usable(3, Some(1), 0));
    assert!(!usable(3, Some(0), 0));
    assert!(!usable(2, None, 0));
    assert!(!usable(4, Some(100), 0));
}

#[test]
fn tokens_are_taken_from_cookies_first_and_then_from_the_bearer_header() {
    let tokens = token_candidates(
        Some("a=1; jwt_token=first;jwt_token=second ; other=jwt_token=no;  jwt_token="),
        Some("Bearer third"),
    );
    assert_eq!(tokens, ["first", "second", "", "third"]);
    assert_eq!(token_candidates(None, Some("Bearer x")), ["x"]);
    assert_eq!(token_candidates(Some("jwt_token=y"), None), ["y"]);
    assert!(token_candidates(None, None).is_empty());
    assert!(token_candidates(Some("JWT_TOKEN=y"), Some("bearer x")).is_empty());
    assert!(token_candidates(Some("jwt_token_js=y"), Some("Bearer")).is_empty());
    assert!(token_candidates(Some(""), Some(" Bearer x")).is_empty());
    assert_eq!(token_candidates(None, Some("Bearer  x ")), [" x "]);
    assert_eq!(token_candidates(Some("jwt_token=a=b"), None), ["a=b"]);
}

#[test]
fn the_first_usable_token_is_taken_and_else_the_first() {
    let fresh = token("{\"exp\":2000}");
    let stale = token("{\"exp\":10}");
    let pick = |tokens: &[&str]| {
        choose_token(&tokens.iter().map(|t| t.to_string()).collect::<Vec<String>>(), 1000)
    };
    assert_eq!(pick(&[&stale, &fresh]), Some(fresh.clone()));
    assert_eq!(pick(&[&fresh, &stale]), Some(fresh.clone()));
    assert_eq!(pick(&["junk", &stale]), Some("junk".to_string()));
    assert_eq!(pick(&["junk", &stale, &fresh, "a.b.c"]), Some(fresh.clone()));
    assert_eq!(pick(&[&stale, "a.b.c"]), Some("a.b.c".to_string()));
    assert_eq!(pick(&[&stale]), Some(stale.clone()));
    assert_eq!(pick(&[]), None);

    let cookie = format!("jwt_token={}; theme=dark", stale);
    let bearer = format!("Bearer {}", fresh);
    assert_eq!(extract_jwt_token(Some(&cookie), Some(&bearer), 1000), Some(fresh.clone()));
    assert_eq!(extract_jwt_token(Some(&cookie), Some(&bearer), 5), Some(stale.clone()));
    assert_eq!(extract_jwt_token(Some(&cookie), None, 1000), Some(stale.clone()));
    assert_eq!(extract_jwt_token(Some("theme=dark"), Some("Basic abc"), 1000), None);
    assert_eq!(extract_jwt_token(None, None, 1000), None);
}

#[test]
fn authentication_is_prepared_or_refused() {
    let bearer = format!("Bearer {}", token("{\"exp\":2000}"));
    let good = env(&[("JWT_PUBLIC_KEY", PUBLIC_KEY)]);
    match jwt_auth_middleware(None, Some(&bearer), &good, 0) {
        Ok(found) => {
            assert_eq!(found.token, token("{\"exp\":2000}"));
            assert_eq!(found.config.validation.leeway, 60);
        }
        Err(status) => panic!("refused with {}", status),
    }
    assert!(matches!(jwt_auth_middleware(None, None, &good, 0), Err(401)));
    assert!(matches!(jwt_auth_middleware(None, Some("Basic x"), &good, 0), Err(401)));
    assert!(matches!(jwt_auth_middleware(None, None, &env(&[]), 0), Err(401)));
    assert!(matches!(jwt_auth_middleware(None, Some(&bearer), &env(&[]), 0), Err(500)));
    assert!(matches!(
        jwt_auth_middleware(Some("jwt_token=x"), None, &env(&[("JWT_PUBLIC_KEY", "bad")]), 0),
        Err(500)
    ));
}

fn headers(path: &str, content_type: Option<&str>) -> Vec<(String, String)> {
    security_headers_middleware(path, content_type)
}

#[test]
fn every_response_gets_the_protection_headers() {
    let all = headers("/health", None);
    let names: Vec<&str> = all.iter().map(|(n, _)| n.as_str()).collect();
    assert_eq!(
        names,
        [
            "X-Content-Type-Options",
            "X-Frame-Options",
            "X-XSS-Protection",
            "Referrer-Policy",
            "Permissions-Policy",
            "Content-Security-Policy"
        ]
    );
    assert_eq!(all[2].1, "1; mode=block");
    assert_eq!(all[3].1, "strict-origin-when-cross-origin");
    assert_eq!(all[4].1, "geolocation=(), microphone=(), camera=()");
    assert_eq!(
        all[5].1,
        "default-src 'self'; script-src 'self' 'unsafe-inline'; style-src 'self' 'unsafe-inline'; img-src 'self' data:; font-src 'self'; connect-src 'self'; frame-ancestors 'none'; base-uri 'self'; form-action 'self'"
    );
    for (name, value) in all {
        assert!(HeaderName::from_str(&name).is_ok());
        assert!(HeaderValue::from_str(&value).is_ok());
    }
}

#[test]
fn caching_depends_on_the_content_type_and_the_path() {
    let caching = |path: &str, content_type: Option<&str>| headers(path, content_type)[6..].to_vec();
    let pair = |n: &str, v: &str| (n.to_string(), v.to_string());
    assert_eq!(
        caching("/edit", Some("text/html; charset=utf-8")),
        [
            pair("cache-control", "no-cache, no-store, must-revalidate"),
            pair("pragma", "no-cache"),
            pair("expires", "0")
        ]
    );
    assert_eq!(caching("/display/username/admin", Some("text/html")).len(), 3);
    assert_eq!(
        caching("/", Some("text/html")),
        [pair("cache-control", "public, max-age=300, must-revalidate")]
    );
    assert_eq!(caching("/edit/", Some("text/html")).len(), 1);
    for content_type in ["text/css", "application/javascript; x", "image/png", "image/"] {
        assert_eq!(
            caching("/edit", Some(content_type)),
            [pair("cache-control", "public, max-age=31536000, immutable")]
        );
    }
    assert!(caching("/edit", Some("application/json")).is_empty());
    assert!(caching("/edit", Some("TEXT/HTML")).is_empty());
    assert!(caching("/edit", Some("")).is_empty());
    assert!(caching("/edit", None).is_empty());
    assert_eq!(axum::http::header::CACHE_CONTROL.as_str(), "cache-control");
    assert_eq!(axum::http::header::PRAGMA.as_str(), "pragma");
    assert_eq!(axum::http::header::EXPIRES.as_str(), "expires");
}

#[test]
fn pages_of_one_user_are_recognised() {
    assert!(is_user_specific_page("/edit"));
    assert!(is_user_specific_page("/display/username/"));
    assert!(is_user_specific_page("/display/username/alice"));
    assert!(!is_user_specific_page("/edit/"));
    assert!(!is_user_specific_page("/display/username"));
    assert!(!is_user_specific_page("/"));
    assert!(!is_user_specific_page(""));
}

#[test]
fn the_limiter_lets_through_up_to_its_limit_within_the_window() {
    let ip = ClientAddress::V4(0x7f000001);
    let mut limiter = RateLimiter::new(3, 1000);
    assert!(limiter.check_rate_limit(ip, 0));
    assert!(limiter.check_rate_limit(ip, 100));
    assert!(limiter.check_rate_limit(ip, 200));
    assert!(!limiter.check_rate_limit(ip, 300));
    assert!(!limiter.check_rate_limit(ip, 999));
    assert!(limiter.check_rate_limit(ip, 1000));
    assert!(!limiter.check_rate_limit(ip, 1099));
    assert!(limiter.check_rate_limit(ip, 1100));
    assert!(limiter.check_rate_limit(ip, 1200));
    assert!(!limiter.check_rate_limit(ip, 1201));
    assert!(limiter.check_rate_limit(ip, 50_000));
}

#[test]
fn each_address_has_its_own_count() {
    let mut limiter = RateLimiter::new(1, 1000);
    assert!(limiter.check_rate_limit(ClientAddress::V4(1), 0));
    assert!(limiter.check_rate_limit(ClientAddress::V6(1), 0));
    assert!(limiter.check_rate_limit(ClientAddress::V4(2), 0));
    assert!(!limiter.check_rate_limit(ClientAddress::V4(1), 1));
    assert!(!limiter.check_rate_limit(ClientAddress::V6(1), 1));
    assert!(limiter.check_rate_limit(ClientAddress::V6(u128::MAX), 1));
}

#[test]
fn a_limit_of_zero_lets_nothing_through_and_a_window_of_zero_everything() {
    let ip = ClientAddress::V4(9);
    let mut closed = RateLimiter::new(0, 1000);
    assert!(!closed.check_rate_limit(ip, 0));
    assert!(!closed.check_rate_limit(ip, 10_000));
    let mut open = RateLimiter::new(1, 0);
    assert!(open.check_rate_limit(ip, 5));
    assert!(open.check_rate_limit(ip, 5));
    let mut backwards = RateLimiter::new(1, 10);
    assert!(backwards.check_rate_limit(ip, 100));
    assert!(!backwards.check_rate_limit(ip, 50));
    let mut late = RateLimiter::new(1, u64::MAX);
    assert!(late.check_rate_limit(ip, 0));
    assert!(!late.check_rate_limit(ip, u64::MAX - 1));
    assert!(late.check_rate_limit(ip, u64::MAX));
}

#[test]
fn only_the_times_within_the_window_are_kept() {
    assert_eq!(retain_recent(&vec![0, 5, 10, 15, 20], 20, 10), [15, 20]);
    assert_eq!(retain_recent(&vec![0, 5, 10, 15, 20], 20, 11), [10, 15, 20]);
    assert_eq!(retain_recent(&vec![30, 1, 25], 20, 5), [30, 25]);
    assert!(retain_recent(&vec![1, 2, 3], 20, 0).is_empty());
    assert!(retain_recent(&vec![], 20, 10).is_empty());
}

#[test]
fn the_client_address_is_the_first_entry_of_a_forwarding_header() {
    assert_eq!(forwarded_address_text("1.2.3.4, 5.6.7.8"), "1.2.3.4");
    assert_eq!(forwarded_address_text("  ::1 ,x"), "::1");
    assert_eq!(forwarded_address_text(""), "");
    assert_eq!(forwarded_address_text(",1.2.3.4"), "");
    assert_eq!(
        get_client_ip(Some("a, b"), None, Some(" c ")),
        ["a".to_string(), "c".to_string()]
    );
    assert_eq!(get_client_ip(Some("a"), Some("b"), Some("c")), ["a", "b", "c"]);
    assert!(get_client_ip(None, None, None).is_empty());
}

#[test]
fn the_client_is_at_the_first_address_that_reads_as_one() {
    let a = ClientAddress::V4(1);
    let b = ClientAddress::V6(2);
    assert_eq!(choose_client_address(&vec![None, Some(a), Some(b)]), a);
    assert_eq!(choose_client_address(&vec![Some(b), None]), b);
    assert_eq!(choose_client_address(&vec![None, None]), ClientAddress::V4(LOCAL_ADDRESS));
    assert_eq!(choose_client_address(&vec![]), ClientAddress::V4(u32::from_be_bytes([127, 0, 0, 1])));
}

#[test]
fn the_limit_is_read_from_its_setting() {
    assert_eq!(configured_limit(None), 60);
    assert_eq!(configured_limit(Some("5")), 5);
    assert_eq!(configured_limit(Some("+7")), 7);
    assert_eq!(configured_limit(Some("0")), 0);
    assert_eq!(configured_limit(Some("-1")), 60);
    assert_eq!(configured_limit(Some(" 5")), 60);
    assert_eq!(configured_limit(Some("many")), 60);
    assert_eq!(configured_limit(Some("99999999999999999999999")), 60);
}

#[test]
fn a_kept_limiter_turns_down_the_request_after_the_last_that_is_allowed() {
    let ip = ClientAddress::V4(1);
    let other = ClientAddress::V4(2);
    let mut limiter = configured_limiter(Some("3"));
    for now in [0, 10_000, 20_000] {
        assert!(rate_limiting_middleware(&mut limiter, ip, now).is_none());
    }
    let rejection = rate_limiting_middleware(&mut limiter, ip, 30_000).unwrap();
    assert_eq!(rejection.status, 429);
    assert_eq!(rejection.body, "Rate limit exceeded");
    assert_eq!(rejection.retry_after_seconds, 60);
    assert!(rate_limiting_middleware(&mut limiter, other, 30_000).is_none());
    assert!(rate_limiting_middleware(&mut limiter, ip, 59_999).is_some());
    assert!(rate_limiting_middleware(&mut limiter, ip, 60_000).is_none());
    assert!(rate_limiting_middleware(&mut limiter, ip, 60_001).is_some());
    assert!(rate_limiting_middleware(&mut limiter, ip, 70_000).is_none());
}

#[test]
fn the_default_limit_is_sixty_requests_in_a_minute() {
    let ip = ClientAddress::V6(7);
    let mut limiter = configured_limiter(None);
    for i in 0..60u64 {
        assert!(rate_limiting_middleware(&mut limiter, ip, i).is_none());
    }
    assert!(rate_limiting_middleware(&mut limiter, ip, 60).is_some());
    assert!(rate_limiting_middleware(&mut limiter, ip, 59_999).is_some());
    assert!(rate_limiting_middleware(&mut limiter, ip, 60_000).is_none());
    let mut closed = configured_limiter(Some("0"));
    assert!(rate_limiting_middleware(&mut closed, ip, 0).is_some());
    let mut unreadable = configured_limiter(Some("many"));
    assert!(rate_limiting_middleware(&mut unreadable, ip, 0).is_none());
}

#[test]
fn a_token_that_fails_validation_is_answered_with_401() {
    let claims = Claims {
        sub: "admin".to_string(),
        iat: 1,
        exp: 2,
        aud: "a".to_string(),
        iss: "i".to_string(),
    };
    let passed = authentication_outcome(Ok(claims)).unwrap();
    assert_eq!(passed.sub, "admin");
    assert_eq!((passed.iat, passed.exp), (1, 2));
    assert_eq!((passed.aud.as_str(), passed.iss.as_str()), ("a", "i"));
    for reason in ["ExpiredSignature", "InvalidSignature", "InvalidToken", ""] {
        assert!(matches!(authentication_outcome(Err(reason.to_string())), Err(401)));
    }
}

fn nested_key(label: &str, depth: usize, inmost: &[u8]) -> String {
    let mut der: Vec<u8> = vec![0x30, inmost.len() as u8];
    der.extend_from_slice(inmost);
    for _ in 1..depth {
        let n = der.len();
        let mut outer: Vec<u8> = vec![0x30];
        if n < 128 {
            outer.push(n as u8);
        } else if n < 256 {
            outer.extend_from_slice(&[0x81, n as u8]);
        } else {
            outer.extend_from_slice(&[0x82, (n >> 8) as u8, (n & 255) as u8]);
        }
        outer.extend_from_slice(&der);
        der = outer;
    }
    let body = base64::engine::general_purpose::STANDARD.encode(&der);
    format!("-----BEGIN {label}-----\n{body}\n-----END {label}-----")
}

#[test]
fn a_key_that_nests_as_deep_as_its_length_allows_is_read_without_harm() {
    assert_eq!(MAX_PUBLIC_KEY_BYTES, 1024);
    let from_env = |key: &str| JwtConfig::from_env(&env(&[("JWT_PUBLIC_KEY", key)]));
    for inmost in [&[][..], &[0x05, 0x00][..]] {
        let mut deepest = 0;
        for depth in 1..400 {
            if nested_key("PUBLIC KEY", depth, inmost).len() <= MAX_PUBLIC_KEY_BYTES {
                deepest = depth;
            }
        }
        assert!(deepest > 200 && deepest <= 234, "{deepest}");
        for depth in [1, 5, 64, 107, deepest] {
            let error = from_env(&nested_key("PUBLIC KEY", depth, inmost)).err().unwrap();
            assert!(error.starts_with("Failed to parse JWT public key: "), "{error}");
            assert!(!error.contains("longer than"), "{error}");
        }
        assert_eq!(
            from_env(&nested_key("PUBLIC KEY", deepest + 1, inmost)).err().as_deref(),
            Some("Failed to parse JWT public key: the key is longer than 1024 bytes")
        );
    }
    let mut deepest = 0;
    for depth in 1..400 {
        if nested_key("RSA PUBLIC KEY", depth, &[0x05, 0x00]).len() <= MAX_PUBLIC_KEY_BYTES {
            deepest = depth;
        }
    }
    assert!(deepest > 200 && deepest <= 234, "{deepest}");
    assert!(from_env(&nested_key("RSA PUBLIC KEY", deepest, &[0x05, 0x00])).is_ok());
    assert!(from_env(&nested_key("RSA PUBLIC KEY", deepest, &[])).is_err());
}

#[test]
fn a_key_that_is_too_long_is_not_read() {
    let long = format!("-----BEGIN PUBLIC KEY-----\n{}\n-----END PUBLIC KEY-----", "MIIB".repeat(1100));
    assert!(long.len() > MAX_PUBLIC_KEY_BYTES);
    let error = match JwtConfig::from_env(&env(&[("JWT_PUBLIC_KEY", &long)])) {
        Ok(_) => panic!("a configuration was made"),
        Err(e) => e,
    };
    assert_eq!(error, "Failed to parse JWT public key: the key is longer than 1024 bytes");
    assert!(matches!(
        jwt_auth_middleware(None, Some("Bearer a.b.c"), &env(&[("JWT_PUBLIC_KEY", &long)]), 0),
        Err(500)
    ));
    let padded = format!("{}{}", PUBLIC_KEY, " ".repeat(MAX_PUBLIC_KEY_BYTES - PUBLIC_KEY.len()));
    assert_eq!(padded.len(), MAX_PUBLIC_KEY_BYTES);
    let longer = format!("{} ", padded);
    let message = |key: &str| JwtConfig::from_env(&env(&[("JWT_PUBLIC_KEY", key)])).err();
    assert_ne!(
        message(&padded).as_deref(),
        Some("Failed to parse JWT public key: the key is longer than 1024 bytes")
    );
    assert_eq!(
        message(&longer).as_deref(),
        Some("Failed to parse JWT public key: the key is longer than 1024 bytes")
    );
}

#[test]
fn responses_are_counted_as_failures_or_successes() {
    assert!(
        matches!(auth_metrics_middleware(401, Some("a")), AuthOutcome::Failure(r) if r == "invalid_token")
    );
    assert!(
        matches!(auth_metrics_middleware(403, None), AuthOutcome::Failure(r) if r == "insufficient_permissions")
    );
    assert!(matches!(auth_metrics_middleware(200, Some("alice")), AuthOutcome::Success(u) if u == "alice"));
    assert!(matches!(auth_metrics_middleware(500, Some("bob")), AuthOutcome::Success(u) if u == "bob"));
    assert!(matches!(auth_metrics_middleware(200, None), AuthOutcome::Unknown));
}

#[test]
fn the_path_label_keeps_letters_digits_and_slashes() {
    assert_eq!(metric_path_label("/api/username/john-doe_1"), "/api/username/john_doe_1");
    assert_eq!(metric_path_label("/a.b/c?d=e"), "/a_b/c_d_e");
    assert_eq!(metric_path_label("/é/ß"), "/_/_");
    assert_eq!(metric_path_label(""), "");
    for s in ["/x y/Z9", "{}", "/debug/set-token/a%20b", "\u{1F600}/ok"] {
        assert_eq!(
            metric_path_label(s),
            s.replace(|c: char| !c.is_ascii_alphanumeric() && c != '/', "_")
        );
    }
}
