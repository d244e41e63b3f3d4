use std::collections::HashMap;
use std::time::{SystemTime, UNIX_EPOCH};

use account_auth::{
    account_id_from_subject, auth_middleware, extract_token, resolve_account, AccountStore,
    AuthError, Environment, NewUser, StoreError,
};

const SECRET: &[u8] = b"test-signing-secret";

fn now() -> i64 {
    SystemTime::now().duration_since(UNIX_EPOCH).unwrap().as_secs() as i64
}

fn token_for(sub: &str, exp: i64, secret: &[u8]) -> String {
    let mut claims: HashMap<String, serde_json::Value> = HashMap::new();
    claims.insert("sub".to_string(), serde_json::Value::String(sub.to_string()));
    claims.insert("exp".to_string(), serde_json::Value::from(exp));
    claims.insert("iat".to_string(), serde_json::Value::from(now()));
    jsonwebtoken::encode(
        &jsonwebtoken::Header::default(),
        &claims,
        &jsonwebtoken::EncodingKey::from_secret(secret),
    )
    .unwrap()
}

fn store_with_one() -> (AccountStore, u128) {
    let mut store = AccountStore::new();
    let id = store
        .insert_account(
            NewUser {
                username: "johndoe".to_string(),
                password_hash: "h".to_string(),
                first_name: None,
                last_name: None,
                email: "john@example.com".to_string(),
                verification_token: "tok".to_string(),
            },
            1,
        )
        .unwrap();
    (store, id)
}

fn subject(id: u128) -> String {
    uuid::Uuid::from_u128(id).to_string()
}

#[test]
fn token_prefers_cookie_then_bearer_header() {
    assert_eq!(extract_token(Some("abc"), Some("Bearer xyz")), Some("abc".to_string()));
    assert_eq!(extract_token(None, Some("Bearer xyz")), Some("xyz".to_string()));
    assert_eq!(extract_token(None, Some("Basic xyz")), None);
    assert_eq!(extract_token(None, Some("Bearer")), None);
    assert_eq!(extract_token(None, Some("Bearer ")), Some(String::new()));
    assert_eq!(extract_token(None, None), None);
}

#[test]
fn no_token_is_not_provided() {
    let (store, _) = store_with_one();
    let r = auth_middleware(&store, None, None, SECRET);
    assert_eq!(r.unwrap_err(), AuthError::NotProvided);
    assert_eq!(AuthError::NotProvided.status(), 401);
    assert_eq!(AuthError::NotProvided.message(), "Token not provided");
}

#[test]
fn valid_token_attaches_account() {
    let (store, id) = store_with_one();
    let token = token_for(&subject(id), now() + 3600, SECRET);
    let user = auth_middleware(&store, Some(&token), None, SECRET).unwrap();
    assert_eq!(user.id, id);
    assert_eq!(user.username, "johndoe");
    let header = format!("Bearer {}", token);
    let user = auth_middleware(&store, None, Some(&header), SECRET).unwrap();
    assert_eq!(user.email, "john@example.com");
}

#[test]
fn expired_token_is_invalid() {
    let (store, id) = store_with_one();
    let token = token_for(&subject(id), now() - 3600, SECRET);
    let r = auth_middleware(&store, Some(&token), None, SECRET);
    assert_eq!(r.unwrap_err(), AuthError::InvalidToken);
}

#[test]
fn forged_token_is_invalid() {
    let (store, id) = store_with_one();
    let token = token_for(&subject(id), now() + 3600, b"another-secret");
    let r = auth_middleware(&store, Some(&token), None, SECRET);
    assert_eq!(r.unwrap_err(), AuthError::InvalidToken);
    let r = auth_middleware(&store, Some("not.a.jwt"), None, SECRET);
    assert_eq!(r.unwrap_err(), AuthError::InvalidToken);
}

#[test]
fn subject_that_is_not_an_identifier_is_invalid() {
    let (store, _) = store_with_one();
    let token = token_for("johndoe", now() + 3600, SECRET);
    let r = auth_middleware(&store, Some(&token), None, SECRET);
    assert_eq!(r.unwrap_err(), AuthError::InvalidToken);
}

#[test]
fn token_for_missing_account_is_user_gone() {
    let (store, id) = store_with_one();
    let token = token_for(&subject(id + 41), now() + 3600, SECRET);
    let r = auth_middleware(&store, Some(&token), None, SECRET);
    let e = r.unwrap_err();
    assert_eq!(e, AuthError::UserGone);
    assert_eq!(e.message(), "The user belonging to this token no longer exists");
}

#[test]
fn subject_parsing() {
    assert_eq!(
        account_id_from_subject(Some("00000000-0000-0000-0000-00000000002a".to_string())),
        Ok(42)
    );
    assert_eq!(account_id_from_subject(Some("nope".to_string())), Err(AuthError::InvalidToken));
    assert_eq!(account_id_from_subject(None), Err(AuthError::InvalidToken));
}

#[test]
fn lookup_outcomes() {
    assert_eq!(resolve_account(Err(StoreError::Unavailable)).unwrap_err(), AuthError::InternalError);
    assert_eq!(resolve_account(Ok(None)).unwrap_err(), AuthError::UserGone);
    assert_eq!(AuthError::InternalError.status(), 500);
}

#[test]
fn environment_settings() {
    let dev = Environment::from_settings(Some("development"), b"s".to_vec()).unwrap();
    assert!(!dev.prod);
    assert_eq!(dev.jwt_secret, b"s".to_vec());
    assert!(Environment::from_settings(Some("production"), Vec::new()).unwrap().prod);
    assert!(!Environment::from_settings(None, Vec::new()).unwrap().prod);
    let err = Environment::from_settings(Some("staging"), Vec::new()).err().unwrap();
    assert_eq!(err.message(), "Invalid environment");
}
