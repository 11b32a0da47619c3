use jsonwebtoken::{decode, encode, DecodingKey, EncodingKey, Header, Validation};
use serde_json::Value;
use token_hub::auth::jwt::{accept_service_claims, new_service_claims, JwtError, ServiceClaims};
use token_hub::auth::secret::ServerSecret;

fn to_value(c: &ServiceClaims) -> Value {
    let mut m = serde_json::Map::new();
    m.insert("iss".to_string(), Value::String(c.iss.clone()));
    m.insert("iat".to_string(), Value::from(c.iat));
    m.insert("exp".to_string(), Value::from(c.exp));
    m.insert("scope".to_string(), Value::Array(c.scope.iter().cloned().map(Value::String).collect()));
    m.insert("sub_kind".to_string(), Value::String(c.sub_kind.clone()));
    Value::Object(m)
}

fn from_value(v: &Value) -> Option<ServiceClaims> {
    Some(ServiceClaims {
        iss: v.get("iss")?.as_str()?.to_string(),
        iat: v.get("iat")?.as_i64()?,
        exp: v.get("exp")?.as_i64()?,
        scope: v.get("scope")?.as_array()?.iter().map(|s| s.as_str().map(str::to_string)).collect::<Option<Vec<_>>>()?,
        sub_kind: v.get("sub_kind")?.as_str()?.to_string(),
    })
}

fn issue_service_jwt(client_id: &str, scopes: &[String], ttl_secs: i64, secret: &ServerSecret) -> Result<String, JwtError> {
    let now = chrono::Utc::now().timestamp();
    let claims = new_service_claims(client_id, scopes, ttl_secs, now);
    encode(&Header::default(), &to_value(&claims), &EncodingKey::from_secret(secret.as_bytes()))
        .map_err(|e| JwtError::Sign(e.to_string()))
}

fn verify_service_jwt(token: &str, secret: &ServerSecret) -> Result<ServiceClaims, JwtError> {
    let mut validation = Validation::default();
    validation.leeway = 0;
    let decoded = decode::<Value>(token, &DecodingKey::from_secret(secret.as_bytes()), &validation)
        .ok()
        .and_then(|d| from_value(&d.claims));
    accept_service_claims(decoded)
}

#[test]
fn issue_and_verify_roundtrip() {
    let secret = ServerSecret::new("jwt-test-secret");
    let scopes = vec!["accounts.read".to_string(), "credits.write".to_string()];
    let token = issue_service_jwt("svc_1", &scopes, 3600, &secret).unwrap();
    let claims = verify_service_jwt(&token, &secret).unwrap();
    assert_eq!(claims.iss, "svc_1");
    assert_eq!(claims.scope, scopes);
    assert_eq!(claims.sub_kind, "service");
}

#[test]
fn tampered_token_rejected() {
    let secret = ServerSecret::new("jwt-test-secret");
    let token = issue_service_jwt("svc_1", &[], 3600, &secret).unwrap();
    let mut tampered = token.clone();
    let last = tampered.pop().unwrap();
    tampered.push(if last == 'a' { 'b' } else { 'a' });
    assert!(verify_service_jwt(&tampered, &secret).is_err());
}

#[test]
fn wrong_secret_rejected() {
    let secret1 = ServerSecret::new("secret-1");
    let secret2 = ServerSecret::new("secret-2");
    let token = issue_service_jwt("svc_1", &[], 3600, &secret1).unwrap();
    assert!(verify_service_jwt(&token, &secret2).is_err());
}

#[test]
fn expired_token_rejected() {
    let secret = ServerSecret::new("jwt-test-secret");
    let token = issue_service_jwt("svc_1", &[], -10, &secret).unwrap();
    assert!(verify_service_jwt(&token, &secret).is_err());
}

#[test]
fn claims_of_another_subject_kind_rejected() {
    let secret = ServerSecret::new("jwt-test-secret");
    let mut claims = new_service_claims("svc_1", &[], 3600, chrono::Utc::now().timestamp());
    claims.sub_kind = "admin".to_string();
    let token = encode(&Header::default(), &to_value(&claims), &EncodingKey::from_secret(secret.as_bytes())).unwrap();
    assert!(verify_service_jwt(&token, &secret).is_err());
}
