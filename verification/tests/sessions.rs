use task_management_app::account::{
    hash_password, login, login_at, password_matches, registration_password_hash,
    registration_reply,
};
use task_management_app::auth::{auth_middleware, auth_middleware_at, authorize, bearer_token, trim_bearer};
use task_management_app::client::bearer_header;
use task_management_app::error::AuthError;
use task_management_app::models::UserRecord;
use task_management_app::token::{
    claims_from_fields, generate_jwt, generate_jwt_at, Claims, MAX_CLOCK_TIMESTAMP,
    TOKEN_LIFETIME_SECS,
};

const SECRET: &str = "s3cret-signing-key";

fn now() -> Option<u64> {
    Some(std::time::SystemTime::now().duration_since(std::time::UNIX_EPOCH).unwrap().as_secs())
}

fn now_secs() -> i64 {
    now().unwrap() as i64
}

fn record(id: i64, hash: &str) -> UserRecord {
    UserRecord {
        id,
        username: "alice".to_string(),
        password_hash: hash.to_string(),
        created_at: "2024-01-01 00:00:00".to_string(),
        updated_at: "2024-01-01 00:00:00".to_string(),
    }
}

#[test]
fn claims_expire_a_day_after_issue() {
    assert_eq!(Claims::issued_at(5, 1000), Claims { sub: 5, exp: 87400 });
    assert_eq!(TOKEN_LIFETIME_SECS, 24 * 60 * 60);
    assert_eq!(MAX_CLOCK_TIMESTAMP, chrono::DateTime::<chrono::Utc>::MAX_UTC.timestamp());
}

#[test]
fn issued_token_authenticates_its_user() {
    let token = generate_jwt_at(42, SECRET, now()).unwrap();
    assert_eq!(token.matches('.').count(), 2);
    let header = bearer_header(&token);
    assert_eq!(auth_middleware(Some(&header), SECRET), Ok(42));
    assert_eq!(auth_middleware_at(Some(&header), SECRET, now()), Ok(42));
    let token = generate_jwt(-9, SECRET).unwrap();
    assert_eq!(auth_middleware(Some(&bearer_header(&token)), SECRET), Ok(-9));
}

#[test]
fn issued_token_is_a_standard_jwt() {
    let token = generate_jwt_at(42, SECRET, Some(1_700_000_000)).unwrap();
    let mut v = jsonwebtoken::Validation::default();
    v.validate_exp = false;
    let data = jsonwebtoken::decode::<serde_json::Value>(
        &token,
        &jsonwebtoken::DecodingKey::from_secret(SECRET.as_bytes()),
        &v,
    )
    .unwrap();
    let expected = object(vec![
        ("sub", serde_json::Value::from(42)),
        ("exp", serde_json::Value::from(1_700_086_400i64)),
    ]);
    assert_eq!(data.claims, expected);
}

#[test]
fn expired_token_is_refused_as_expired() {
    let token = generate_jwt_at(42, SECRET, Some(1000)).unwrap();
    assert_eq!(auth_middleware(Some(&bearer_header(&token)), SECRET), Err(AuthError::TokenExpired));
}

#[test]
fn token_under_other_secret_is_invalid() {
    let token = generate_jwt_at(42, "another secret", now()).unwrap();
    assert_eq!(auth_middleware(Some(&bearer_header(&token)), SECRET), Err(AuthError::TokenInvalid));
    assert_eq!(auth_middleware(Some("Bearer not-a-token"), SECRET), Err(AuthError::TokenInvalid));
    assert_eq!(auth_middleware(Some(""), SECRET), Err(AuthError::TokenInvalid));
}

#[test]
fn missing_header_is_refused() {
    assert_eq!(auth_middleware(None, SECRET), Err(AuthError::MissingAuthHeader));
    assert_eq!(bearer_token(None), Err(AuthError::MissingAuthHeader));
}

#[test]
fn every_leading_bearer_is_removed() {
    assert_eq!(trim_bearer("Bearer abc"), "abc");
    assert_eq!(trim_bearer("Bearer Bearer abc"), "abc");
    assert_eq!(trim_bearer("abc"), "abc");
    assert_eq!(trim_bearer("bearer abc"), "bearer abc");
    assert_eq!(trim_bearer("BearerBearer x"), "BearerBearer x");
    assert_eq!(trim_bearer("Bearer "), "");
    assert_eq!(bearer_token(Some("Bearer xyz")), Ok("xyz".to_string()));
    let token = generate_jwt_at(3, SECRET, now()).unwrap();
    let doubled = format!("Bearer Bearer {}", token);
    assert_eq!(auth_middleware(Some(&doubled), SECRET), Ok(3));
    assert_eq!(auth_middleware(Some(&token), SECRET), Ok(3));
}

fn object(fields: Vec<(&str, serde_json::Value)>) -> serde_json::Value {
    let mut m = serde_json::Map::new();
    for (k, v) in fields {
        m.insert(k.to_string(), v);
    }
    serde_json::Value::Object(m)
}

fn foreign_token(claims: serde_json::Value) -> String {
    jsonwebtoken::encode(
        &jsonwebtoken::Header::default(),
        &claims,
        &jsonwebtoken::EncodingKey::from_secret(SECRET.as_bytes()),
    )
    .unwrap()
}

#[test]
fn token_without_integer_subject_is_invalid() {
    let exp = now_secs() + 3600;
    let t = foreign_token(object(vec![("exp", serde_json::Value::from(exp))]));
    assert_eq!(auth_middleware(Some(&bearer_header(&t)), SECRET), Err(AuthError::TokenInvalid));
    let t = foreign_token(object(vec![("sub", serde_json::Value::from("alice")), ("exp", serde_json::Value::from(exp))]));
    assert_eq!(auth_middleware(Some(&bearer_header(&t)), SECRET), Err(AuthError::TokenInvalid));
    let t = foreign_token(object(vec![("sub", serde_json::Value::from(11))]));
    assert_eq!(auth_middleware(Some(&bearer_header(&t)), SECRET), Err(AuthError::TokenInvalid));
    let t = foreign_token(object(vec![
        ("exp", serde_json::Value::from(exp)),
        ("sub", serde_json::Value::from(11)),
        ("other", serde_json::Value::from("x")),
    ]));
    assert_eq!(auth_middleware(Some(&bearer_header(&t)), SECRET), Ok(11));
}

#[test]
fn claims_are_read_by_name() {
    let f = vec![("exp".to_string(), Some(10)), ("sub".to_string(), Some(4))];
    assert_eq!(claims_from_fields(&f), Some(Claims { sub: 4, exp: 10 }));
    let f = vec![("sub".to_string(), None), ("exp".to_string(), Some(10))];
    assert_eq!(claims_from_fields(&f), None);
    let f = vec![("sub".to_string(), Some(1))];
    assert_eq!(claims_from_fields(&f), None);
    assert_eq!(claims_from_fields(&vec![]), None);
}

#[test]
fn registered_password_logs_in() {
    let hash = hash_password("hunter2").unwrap();
    assert_ne!(hash, "hunter2");
    assert_eq!(hash.len(), 60);
    assert!(hash.starts_with("$2b$12$"));
    assert!(password_matches("hunter2", &hash));
    assert!(!password_matches("hunter3", &hash));
    assert!(!password_matches("hunter2", "not a bcrypt hash"));
    let reply = login_at(record(8, &hash), "hunter2", SECRET, now()).unwrap();
    assert_eq!(reply.message, "Login successful");
    assert_eq!(reply.user, record(8, &hash));
    assert_eq!(auth_middleware(Some(&bearer_header(&reply.token)), SECRET), Ok(8));
}

#[test]
fn wrong_password_is_refused() {
    let hash = registration_password_hash("correct horse").unwrap();
    assert_eq!(login_at(record(1, &hash), "battery staple", SECRET, now()), Err(AuthError::WrongCredentials));
    assert_eq!(login(record(1, &hash), "battery staple", SECRET), Err(AuthError::WrongCredentials));
    assert_eq!(login(record(1, "garbage"), "correct horse", SECRET), Err(AuthError::WrongCredentials));
    let reply = login(record(1, &hash), "correct horse", SECRET).unwrap();
    assert_eq!(auth_middleware(Some(&bearer_header(&reply.token)), SECRET), Ok(1));
}

#[test]
fn registration_reply_confirms() {
    let r = registration_reply(record(2, "h"));
    assert_eq!(r.message, "User registered successfully");
    assert_eq!(r.user.id, 2);
}

#[test]
fn expiry_is_checked_with_leeway_against_reading() {
    let token = generate_jwt_at(5, SECRET, Some(1_000_000)).unwrap();
    let header = bearer_header(&token);
    let exp: u64 = 1_000_000 + 86_400;
    assert_eq!(auth_middleware_at(Some(&header), SECRET, Some(exp)), Ok(5));
    assert_eq!(auth_middleware_at(Some(&header), SECRET, Some(exp + 60)), Ok(5));
    assert_eq!(auth_middleware_at(Some(&header), SECRET, Some(exp + 61)), Err(AuthError::TokenExpired));
    assert_eq!(auth_middleware_at(Some(&header), SECRET, Some(0)), Ok(5));
    assert_eq!(auth_middleware_at(Some(&header), SECRET, None), Err(AuthError::InternalServerError));
    assert_eq!(auth_middleware_at(None, SECRET, Some(0)), Err(AuthError::MissingAuthHeader));
    assert_eq!(auth_middleware_at(Some("Bearer a.b"), SECRET, None), Err(AuthError::TokenInvalid));
}

#[test]
fn tokens_are_issued_within_clock_range() {
    let last = (MAX_CLOCK_TIMESTAMP - TOKEN_LIFETIME_SECS) as u64;
    assert!(generate_jwt_at(1, SECRET, Some(last)).is_some());
    assert_eq!(generate_jwt_at(1, SECRET, Some(last + 1)), None);
    assert_eq!(generate_jwt_at(1, SECRET, None), None);
    assert_eq!(generate_jwt_at(1, SECRET, Some(0)).unwrap().matches('.').count(), 2);
}

#[test]
fn login_at_out_of_range_is_internal_error() {
    let hash = hash_password("pw").unwrap();
    let last = (MAX_CLOCK_TIMESTAMP - TOKEN_LIFETIME_SECS) as u64;
    assert_eq!(login_at(record(3, &hash), "pw", SECRET, None), Err(AuthError::InternalServerError));
    assert_eq!(login_at(record(3, &hash), "pw", SECRET, Some(last + 1)), Err(AuthError::InternalServerError));
    assert_eq!(login_at(record(3, &hash), "nope", SECRET, None), Err(AuthError::WrongCredentials));
    assert!(login_at(record(3, &hash), "pw", SECRET, Some(last)).is_ok());
}

#[test]
fn authorize_decides_in_order() {
    let good = vec![("sub".to_string(), Some(4)), ("exp".to_string(), Some(100))];
    assert_eq!(authorize(None, Some(0)), Err(AuthError::TokenInvalid));
    assert_eq!(authorize(Some(vec![]), None), Err(AuthError::TokenInvalid));
    assert_eq!(authorize(Some(good.clone()), None), Err(AuthError::InternalServerError));
    assert_eq!(authorize(Some(good.clone()), Some(160)), Ok(4));
    assert_eq!(authorize(Some(good), Some(161)), Err(AuthError::TokenExpired));
}
