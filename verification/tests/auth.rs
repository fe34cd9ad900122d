use crm::crm::auth::{admission, bearer_token, AuthError, DecodingKey};
use crm::status::Code;
use jwt_simple::algorithms::{EdDSAKeyPairLike, Ed25519KeyPair};
use jwt_simple::claims::Claims;
use jwt_simple::prelude::{Clock, Duration};

fn signed_token(key: &Ed25519KeyPair, issuer: &str, audience: &str) -> String {
    let mut custom = serde_json::Map::new();
    custom.insert("id".to_string(), serde_json::Value::from(1));
    custom.insert("ws_id".to_string(), serde_json::Value::from(2));
    custom.insert("fullname".to_string(), serde_json::Value::from("Ada"));
    custom.insert("email".to_string(), serde_json::Value::from("ada@x.com"));
    custom.insert("created_at".to_string(), serde_json::Value::from("2024-05-07T00:00:00Z"));
    let claims = Claims::with_custom_claims(serde_json::Value::Object(custom), Duration::from_hours(1))
        .with_issuer(issuer)
        .with_audience(audience);
    key.sign(claims).unwrap()
}

#[test]
fn missing_header_is_refused() {
    let err = bearer_token(None).unwrap_err();
    assert_eq!(err.code, Code::Unauthenticated);
    assert_eq!(err.message, "missing token");
}

#[test]
fn other_scheme_is_refused() {
    for header in ["Basic abc", "bearer abc", "Bearer", "", "Bearerabc"] {
        let err = bearer_token(Some(header)).unwrap_err();
        assert_eq!(err.code, Code::Unauthenticated);
        assert_eq!(err.message, "invalid token format");
    }
}

#[test]
fn bearer_token_is_read() {
    assert_eq!(bearer_token(Some("Bearer abc.def")).unwrap(), "abc.def");
    assert_eq!(bearer_token(Some("Bearer ")).unwrap(), "");
    assert_eq!(bearer_token(Some("Bearer  x")).unwrap(), " x");
}

#[test]
fn admission_passes_claims_and_refuses_errors() {
    assert_eq!(admission(Ok("{}".to_string())).unwrap(), "{}");
    let err = admission(Err(AuthError { message: "Token has expired".to_string() })).unwrap_err();
    assert_eq!(err.code, Code::Unauthenticated);
    assert_eq!(err.message, "Token has expired");
}

#[test]
fn invalid_pem_is_not_a_key() {
    assert!(DecodingKey::load("not a key").is_err());
}

#[test]
fn token_of_the_key_is_accepted() {
    let pair = Ed25519KeyPair::generate();
    let key = DecodingKey::load(&pair.public_key().to_pem()).unwrap();
    let token = signed_token(&pair, "chat_server", "chat_web");
    let claims: serde_json::Value = serde_json::from_str(&key.verify_token(&token).unwrap()).unwrap();
    assert_eq!(claims["email"], "ada@x.com");
    assert_eq!(claims["id"], 1);
    let header = format!("Bearer {}", token);
    let claims: serde_json::Value = serde_json::from_str(&key.call(Some(&header)).unwrap()).unwrap();
    assert_eq!(claims["fullname"], "Ada");
}

#[test]
fn token_of_another_issuer_audience_or_key_is_refused() {
    let pair = Ed25519KeyPair::generate();
    let key = DecodingKey::load(&pair.public_key().to_pem()).unwrap();
    assert!(key.verify_token(&signed_token(&pair, "someone", "chat_web")).is_err());
    assert!(key.verify_token(&signed_token(&pair, "chat_server", "elsewhere")).is_err());
    let other = Ed25519KeyPair::generate();
    let err = key.call(Some(&format!("Bearer {}", signed_token(&other, "chat_server", "chat_web")))).unwrap_err();
    assert_eq!(err.code, Code::Unauthenticated);
    assert!(key.call(Some("Bearer not-a-token")).is_err());
}

#[test]
fn token_is_checked_at_the_given_time() {
    let pair = Ed25519KeyPair::generate();
    let key = DecodingKey::load(&pair.public_key().to_pem()).unwrap();
    let token = signed_token(&pair, "chat_server", "chat_web");
    let now = Clock::now_since_epoch();
    assert!(key.verify_token_at(&token, now.as_ticks()).is_ok());
    let two_days_later = (now + Duration::from_days(2)).as_ticks();
    assert!(key.verify_token_at(&token, two_days_later).is_err());
    let header = format!("Bearer {}", token);
    assert!(key.call_at(Some(&header), now.as_ticks()).is_ok());
    let err = key.call_at(Some(&header), two_days_later).unwrap_err();
    assert_eq!(err.code, Code::Unauthenticated);
    assert_eq!(key.call_at(None, now.as_ticks()).unwrap_err().message, "missing token");
    assert_eq!(key.call_at(Some("Basic x"), now.as_ticks()).unwrap_err().message, "invalid token format");
}

#[test]
fn issuer_and_audience_are_not_interchangeable() {
    let pair = Ed25519KeyPair::generate();
    let key = DecodingKey::load(&pair.public_key().to_pem()).unwrap();
    let now = Clock::now_since_epoch().as_ticks();
    assert!(key.verify_token_at(&signed_token(&pair, "chat_web", "chat_server"), now).is_err());
    assert!(key.verify_token_at(&signed_token(&pair, "chat_server", "chat_web"), now).is_ok());
}

#[test]
fn key_loaded_from_pem_checks_its_own_signatures_only() {
    let pair = Ed25519KeyPair::generate();
    let other = Ed25519KeyPair::generate();
    let key = DecodingKey::load(&pair.public_key().to_pem()).unwrap();
    let now = Clock::now_since_epoch().as_ticks();
    assert!(key.verify_token_at(&signed_token(&other, "chat_server", "chat_web"), now).is_err());
    assert!(key.verify_token_at("abc", now).is_err());
}

#[test]
fn refusals_carry_the_text_of_the_token_check() {
    let pair = Ed25519KeyPair::generate();
    let key = DecodingKey::load(&pair.public_key().to_pem()).unwrap();
    let now = Clock::now_since_epoch();
    let token = signed_token(&pair, "chat_server", "chat_web");
    let two_days_later = (now + Duration::from_days(2)).as_ticks();
    assert_eq!(key.verify_token_at(&token, two_days_later).unwrap_err().message, "Token has expired");
    let header = format!("Bearer {}", token);
    let refusal = key.call_at(Some(&header), two_days_later).unwrap_err();
    assert_eq!(refusal.code, Code::Unauthenticated);
    assert_eq!(refusal.message, "Token has expired");
    let wrong_issuer = signed_token(&pair, "elsewhere", "chat_web");
    assert_eq!(key.verify_token_at(&wrong_issuer, now.as_ticks()).unwrap_err().message, "Required issuer mismatch");
    let wrong_audience = signed_token(&pair, "chat_server", "elsewhere");
    let refusal = key.call(Some(&format!("Bearer {}", wrong_audience))).unwrap_err();
    assert_eq!(refusal.message, key.verify_token(&wrong_audience).unwrap_err().message);
    assert_eq!(refusal.message, "Required audience mismatch");
}

#[test]
fn latest_checkable_time_is_accepted_without_overflow() {
    let pair = Ed25519KeyPair::generate();
    let key = DecodingKey::load(&pair.public_key().to_pem()).unwrap();
    let token = signed_token(&pair, "chat_server", "chat_web");
    let limit = u64::MAX - 900 * (1u64 << 32);
    assert_eq!(key.verify_token_at(&token, limit).unwrap_err().message, "Token has expired");
}

#[test]
fn times_past_the_checkable_range_are_refused_as_clock_out_of_range() {
    let pair = Ed25519KeyPair::generate();
    let key = DecodingKey::load(&pair.public_key().to_pem()).unwrap();
    let token = signed_token(&pair, "chat_server", "chat_web");
    let past_limit = u64::MAX - 900 * (1u64 << 32) + 1;
    assert_eq!(key.verify_token_at(&token, past_limit).unwrap_err().message, "clock out of range");
    assert_eq!(key.verify_token_at(&token, u64::MAX).unwrap_err().message, "clock out of range");
    let refusal = key.call_at(Some(&format!("Bearer {}", token)), u64::MAX).unwrap_err();
    assert_eq!(refusal.code, Code::Unauthenticated);
    assert_eq!(refusal.message, "clock out of range");
    assert_eq!(key.call_at(None, u64::MAX).unwrap_err().message, "missing token");
    assert_eq!(key.call_at(Some("Token x"), u64::MAX).unwrap_err().message, "invalid token format");
}
