use token_hub::auth::password::{hash_password, verify_password};
use token_hub::auth::secret::ServerSecret;
use token_hub::auth::session::{generate_session_token, hash_session_token};
use token_hub::auth::token_hmac::{generate_api_token, hash_api_token};
use token_hub::auth::totp::{TotpError, build_totp, generate_at, generate_totp_secret, totp_qrcode_datauri, urlenc, verify_totp, verify_totp_at};
use token_hub::auth::jwt::{accept_service_claims, new_service_claims, ServiceClaims};
use token_hub::domain::token::TOKEN_PREFIX_LITERAL;

#[test]
fn hash_and_verify() {
    let h = hash_password("s3cret-pass").unwrap();
    assert!(verify_password("s3cret-pass", &h).is_ok());
    assert!(verify_password("wrong", &h).is_err());
}

#[test]
fn malformed_phc_string_does_not_verify() {
    assert!(verify_password("anything", "not-a-phc-string").is_err());
}

#[test]
fn session_token_unique_and_hashable() {
    let secret = ServerSecret::new("session-secret");
    let t1 = generate_session_token();
    let t2 = generate_session_token();
    assert_ne!(t1, t2);
    assert!(t1.len() >= 60);

    let h1 = hash_session_token(&t1, &secret);
    let h2 = hash_session_token(&t1, &secret);
    assert_eq!(h1, h2, "hash must be deterministic");
    assert_ne!(h1, hash_session_token(&t2, &secret));
}

#[test]
fn session_token_is_64_url_safe_chars() {
    let t = generate_session_token();
    assert_eq!(t.len(), 64);
    assert!(t.chars().all(|c| c.is_ascii_alphanumeric() || c == '-' || c == '_'));
}

#[test]
fn token_generation_and_hash() {
    let secret = ServerSecret::new("test-server-secret");
    let t1 = generate_api_token();
    let t2 = generate_api_token();
    assert!(t1.starts_with(TOKEN_PREFIX_LITERAL));
    assert_ne!(t1, t2, "tokens must be unique");

    let h1 = hash_api_token(&t1, &secret);
    let h2 = hash_api_token(&t1, &secret);
    assert_eq!(h1, h2);

    let h3 = hash_api_token(&t2, &secret);
    assert_ne!(h1, h3);

    let secret2 = ServerSecret::new("different-secret");
    let h4 = hash_api_token(&t1, &secret2);
    assert_ne!(h1, h4);
}

#[test]
fn keyed_hash_known_value() {
    // HMAC-SHA256 with key "key" of "The quick brown fox jumps over the lazy dog" (RFC 4231 style vector).
    let secret = ServerSecret::new("key");
    let h = hash_api_token("The quick brown fox jumps over the lazy dog", &secret);
    assert_eq!(h, "f7bc83f430538424b13298e6aa6fb143ef4d59a14946175997479dbc2d1a3cd8");
    assert_eq!(hash_session_token("The quick brown fox jumps over the lazy dog", &secret), h);
}

#[test]
fn api_token_shape() {
    let t = generate_api_token();
    assert_eq!(t.len(), 72);
    assert!(t[8..].chars().all(|c| c.is_ascii_hexdigit() && !c.is_ascii_uppercase()));
}

#[test]
fn secret_generate_and_verify_current() {
    let secret = generate_totp_secret();
    let now = chrono::Utc::now().timestamp().max(0) as u64;
    let code = generate_at(&secret, now).unwrap();
    assert!(verify_totp(&secret, &code).is_ok());
}

#[test]
fn invalid_secret_rejected() {
    assert!(build_totp("not-a-valid-base32!!!").is_err());
}

#[test]
fn skew_allows_clock_drift() {
    let secret = generate_totp_secret();
    let now = chrono::Utc::now().timestamp().max(0) as u64;
    let code_past = generate_at(&secret, now.saturating_sub(30)).unwrap();
    assert!(verify_totp(&secret, &code_past).is_ok());
}

#[test]
fn otpauth_url_well_formed() {
    let secret = generate_totp_secret();
    let url = totp_qrcode_datauri(&secret, "TokenHub", "admin@x.com").unwrap();
    assert!(url.starts_with("otpauth://totp/"));
    assert!(url.contains("secret="));
    assert!(url.contains("issuer=TokenHub"));
}

#[test]
fn otpauth_url_exact() {
    let url = totp_qrcode_datauri("JBSWY3DPEHPK3PXP", "Token Hub", "a:b@x.com").unwrap();
    assert_eq!(
        url,
        "otpauth://totp/Token%20Hub:a%3Ab%40x.com?secret=JBSWY3DPEHPK3PXP&issuer=Token%20Hub&algorithm=SHA1&digits=6&period=30"
    );
}

#[test]
fn urlenc_escapes_reserved_characters() {
    assert_eq!(urlenc("a b:c?d&e=f"), "a%20b%3Ac%3Fd%26e%3Df");
    assert_eq!(urlenc("x-y_z.~"), "x-y_z.~");
    assert_eq!(urlenc("/"), "%2F");
}

#[test]
fn totp_rfc6238_vector_and_window() {
    // RFC 6238 SHA-1 test secret "12345678901234567890" in base32.
    let secret = "GEZDGNBVGY3TQOJQGEZDGNBVGY3TQOJQ";
    assert_eq!(generate_at(secret, 59).unwrap(), "287082");
    assert!(verify_totp_at(secret, "287082", 59).is_ok());
    assert!(verify_totp_at(secret, "287082", 89).is_ok());
    assert!(verify_totp_at(secret, "287082", 120).is_err());
    assert!(verify_totp_at("!!", "287082", 59).is_err());
}

#[test]
fn service_claims_are_built_and_accepted() {
    let claims = new_service_claims("svc_1", &["accounts.read".to_string()], 3600, 100);
    assert_eq!(claims.iss, "svc_1");
    assert_eq!(claims.exp, 3700);
    assert_eq!(claims.sub_kind, "service");
    let ok = accept_service_claims(Some(claims.clone()));
    assert!(ok.is_ok());
    let mut wrong: ServiceClaims = claims;
    wrong.sub_kind = "admin".to_string();
    assert!(accept_service_claims(Some(wrong)).is_err());
    assert!(accept_service_claims(None).is_err());
}

#[test]
fn invalid_secret_carries_the_parser_message() {
    match build_totp("not-a-valid-base32!!!") {
        Err(TotpError::InvalidSecret(m)) => assert_eq!(m, "Could not decode base32 secret."),
        _ => panic!("an invalid secret must be refused"),
    }
}

#[test]
fn codes_are_six_ascii_digits() {
    let secret = "JBSWY3DPEHPK3PXP";
    for t in [0u64, 59, 1_111_111_109, 2_000_000_000] {
        let c = generate_at(secret, t).unwrap();
        assert_eq!(c.len(), 6);
        assert!(c.chars().all(|ch| ch.is_ascii_digit()));
    }
}

#[test]
fn codes_past_the_last_checkable_time_are_refused() {
    let secret = "JBSWY3DPEHPK3PXP";
    let late = u64::MAX - 10;
    let code = generate_at(secret, late).unwrap();
    assert!(matches!(verify_totp_at(secret, &code, late), Err(TotpError::VerifyFailed)));
    let last = u64::MAX - 60;
    let code = generate_at(secret, last).unwrap();
    assert!(verify_totp_at(secret, &code, last).is_ok());
}

#[test]
fn session_and_api_token_hashes_agree_and_are_lower_hex() {
    let s = ServerSecret::new("k");
    let a = hash_session_token("tok", &s);
    assert_eq!(a, hash_api_token("tok", &s));
    assert!(a.chars().all(|c| c.is_ascii_digit() || ('a'..='f').contains(&c)));
}

#[test]
fn urlenc_keeps_ascii_letters_and_digits_and_encodes_other_ascii() {
    assert_eq!(urlenc("Az09-_.~"), "Az09-_.~");
    assert_eq!(urlenc("a@b/c"), "a%40b%2Fc");
    assert_eq!(urlenc("é"), "é");
}

#[test]
fn verify_totp_reports_the_secret_error_and_otherwise_a_verdict() {
    match verify_totp("not-a-valid-base32!!!", "123456") {
        Err(TotpError::InvalidSecret(m)) => assert_eq!(m, "Could not decode base32 secret."),
        other => panic!("unexpected {other:?}"),
    }
    let r = verify_totp("JBSWY3DPEHPK3PXP", "000000x");
    assert!(matches!(r, Err(TotpError::VerifyFailed)));
}
