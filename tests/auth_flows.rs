use authcore::auth::AuthService;
use authcore::credential::verify_password;
use authcore::errors::AuthError;
use authcore::model::{Role, TokenType};
use authcore::repo::{TokenRepo, UserCreateInput, UserRepo};
use authcore::store::{AuthStore, User, PASSWORD_RESET_TOKEN_TTL_MS, SESSION_TOKEN_TTL_MS};

fn input(email: &str) -> UserCreateInput {
    UserCreateInput {
        email: email.to_string(),
        salt: vec![],
        hash: vec![],
        first_name: Some("Ada".to_string()),
        last_name: None,
        role: None,
        location: None,
        description: None,
        title: None,
    }
}

fn create(db: &mut AuthStore, email: &str, password: &str) -> User {
    AuthService::create_user(input(email), password, 0, db).unwrap()
}

/// A user row with a placeholder credential, for flows that never check it.
fn plain_user(db: &mut AuthStore, id: u128, email: &str) -> User {
    let mut row = input(email);
    row.salt = vec![3u8; 32];
    row.hash = vec![4u8; 64];
    UserRepo::create_one(row, id, 0, 0, db).unwrap()
}

#[test]
fn created_user_has_derived_credential() {
    let mut db = AuthStore::new();
    let u = create(&mut db, "a@example.com", "secret123");
    assert_eq!(u.email, "a@example.com");
    assert_eq!(u.role, Role::Author);
    assert_eq!(u.salt.len(), 32);
    assert!(verify_password("secret123", &u.salt, &u.hash));
    assert_eq!(db.users.len(), 1);
}

#[test]
fn creating_a_taken_email_fails() {
    let mut db = AuthStore::new();
    plain_user(&mut db, 1, "a@example.com");
    let dup = AuthService::create_user(input("a@example.com"), "x", 0, &mut db);
    assert_eq!(dup.unwrap_err(), AuthError::DatabaseError);
    assert_eq!(db.users.len(), 1);
}

#[test]
fn login_logout_scenario() {
    let mut db = AuthStore::new();
    let u = create(&mut db, "a@example.com", "secret123");
    let (who, pair) = AuthService::login(
        &"a@example.com".to_string(),
        "secret123",
        Some("10.0.0.1".to_string()),
        "test-agent".to_string(),
        &mut db,
    )
    .unwrap();
    assert_eq!(who.id, u.id);
    assert_eq!(pair.token.token_type, TokenType::Session);
    assert_eq!(pair.token.expiration, Some(pair.token.created_at + SESSION_TOKEN_TTL_MS));
    assert_eq!(pair.session.token_id, pair.token.id);
    assert_eq!(db.sessions.len(), 1);
    assert_eq!(db.activities.len(), 1);
    assert_eq!(db.activities[0].action, "login");
    assert_eq!(db.activities[0].action_by_id, Some(u.id));
    let cookie = pair.token.token.clone();
    let now = pair.token.created_at + 1;
    AuthService::logout(&cookie, None, Some("test-agent".to_string()), now, &mut db).unwrap();
    assert!(db.tokens.is_empty());
    assert!(db.sessions.is_empty());
    assert_eq!(db.activities.len(), 2);
    assert_eq!(db.activities[1].action, "logout");
    let again = AuthService::logout(&cookie, None, None, now, &mut db);
    assert_eq!(again.unwrap_err(), AuthError::NotFound);
    assert_eq!(db.activities.len(), 2);
}

#[test]
fn wrong_password_and_unknown_email_fail_alike() {
    let mut db = AuthStore::new();
    create(&mut db, "a@example.com", "secret123");
    let wrong = AuthService::login(&"a@example.com".to_string(), "nope", None, "ua".to_string(), &mut db);
    let unknown = AuthService::login(&"b@example.com".to_string(), "secret123", None, "ua".to_string(), &mut db);
    assert_eq!(wrong.unwrap_err(), AuthError::InvalidCredentials);
    assert_eq!(unknown.unwrap_err(), AuthError::InvalidCredentials);
    assert!(db.tokens.is_empty());
    assert!(db.activities.is_empty());
}

#[test]
fn expired_reset_token_check_deletes_it() {
    let mut db = AuthStore::new();
    let u = plain_user(&mut db, 1, "a@example.com");
    TokenRepo::create_one_password_reset_token_at(u.id, "r1".to_string(), 1_000, &mut db).unwrap();
    let late = 1_000 + PASSWORD_RESET_TOKEN_TTL_MS + 1;
    assert!(!AuthService::check_password_reset_token(&"r1".to_string(), late, &mut db));
    assert!(db.tokens.is_empty());
    assert!(!AuthService::check_password_reset_token(&"r1".to_string(), late, &mut db));
    assert!(TokenRepo::get_by_token(&"r1".to_string(), &db).is_err());
}

#[test]
fn reset_token_valid_until_its_expiration() {
    let mut db = AuthStore::new();
    let u = plain_user(&mut db, 1, "a@example.com");
    TokenRepo::create_one_password_reset_token_at(u.id, "r2".to_string(), 1_000, &mut db).unwrap();
    assert!(AuthService::check_password_reset_token(&"r2".to_string(), 1_000 + PASSWORD_RESET_TOKEN_TTL_MS, &mut db));
    assert_eq!(db.tokens.len(), 1);
    TokenRepo::create_one_session_token_at(u.id, "s2".to_string(), 1_000, &mut db).unwrap();
    assert!(!AuthService::check_password_reset_token(&"s2".to_string(), 1_001, &mut db));
    assert!(!AuthService::check_password_reset_token(&"missing".to_string(), 1_001, &mut db));
    assert_eq!(db.tokens.len(), 2);
}

#[test]
fn reset_token_is_single_use() {
    let mut db = AuthStore::new();
    let u = plain_user(&mut db, 1, "a@example.com");
    TokenRepo::create_one_password_reset_token_at(u.id, "r3".to_string(), 1_000, &mut db).unwrap();
    assert_eq!(AuthService::reset_password(&"r3".to_string(), "newpass1", 2_000, &mut db), Ok(true));
    assert!(verify_password("newpass1", &db.users[0].salt, &db.users[0].hash));
    assert_eq!(db.users[0].salt, u.salt);
    assert!(db.tokens.is_empty());
    let hash_after_first = db.users[0].hash.clone();
    assert_eq!(AuthService::reset_password(&"r3".to_string(), "newpass2", 2_001, &mut db), Ok(false));
    assert_eq!(db.users[0].hash, hash_after_first);
}

#[test]
fn password_change_keeps_salt_and_is_recorded() {
    let mut db = AuthStore::new();
    let u = create(&mut db, "a@example.com", "secret123");
    let updated = AuthService::update_password(u.id, "secret123", "next", None, None, &mut db).unwrap();
    assert_eq!(updated.salt, u.salt);
    assert_ne!(updated.hash, u.hash);
    assert_eq!(updated.hash.len(), 64);
    assert_eq!(db.users[0].hash, updated.hash);
    assert_eq!(db.activities.len(), 1);
    assert_eq!(db.activities[0].action, "password_change");
    assert_eq!(db.activities[0].action_by_id, Some(u.id));
}

#[test]
fn password_change_with_wrong_current_password_fails() {
    let mut db = AuthStore::new();
    let u = plain_user(&mut db, 1, "a@example.com");
    let bad = AuthService::update_password(u.id, "wrong", "next", None, None, &mut db);
    assert_eq!(bad.unwrap_err(), AuthError::InvalidCredentials);
    assert!(db.activities.is_empty());
    assert_eq!(db.users[0].hash, u.hash);
    let missing = AuthService::update_password(12345, "secret123", "x", None, None, &mut db);
    assert_eq!(missing.unwrap_err(), AuthError::InvalidCredentials);
}

#[test]
fn reset_request_creates_token_only_for_known_email() {
    let mut db = AuthStore::new();
    let u = plain_user(&mut db, 1, "a@example.com");
    assert_eq!(AuthService::request_password_reset(&"nobody@example.com".to_string(), &mut db), Ok(None));
    assert!(db.tokens.is_empty());
    let (to, value) = AuthService::request_password_reset(&"a@example.com".to_string(), &mut db).unwrap().unwrap();
    assert_eq!(to, "a@example.com");
    assert_eq!(db.tokens.len(), 1);
    assert_eq!(db.tokens[0].token, value);
    assert_eq!(db.tokens[0].user_id, u.id);
    assert_eq!(db.tokens[0].token_type, TokenType::PasswordReset);
}

#[test]
fn session_cookie_resolution() {
    let mut db = AuthStore::new();
    let u = create(&mut db, "a@example.com", "secret123");
    let (_, pair) = AuthService::login(&"a@example.com".to_string(), "secret123", None, "ua".to_string(), &mut db).unwrap();
    let now = pair.token.created_at;
    assert!(AuthService::resolve_session(&None, now, &db).is_none());
    assert!(AuthService::resolve_session(&Some("bogus".to_string()), now, &db).is_none());
    let found = AuthService::resolve_session(&Some(pair.token.token.clone()), now, &db).unwrap();
    assert_eq!(found.id, u.id);
}

#[test]
fn login_at_stores_the_given_token_value_and_time() {
    let mut db = AuthStore::new();
    let u = AuthService::create_user_at(input("a@example.com"), "secret123", vec![9u8; 32], 77, 0, 500, &mut db).unwrap();
    assert_eq!(u.id, 77);
    assert_eq!(u.salt, vec![9u8; 32]);
    assert_eq!(u.created_at, 500);
    let (_, pair) = AuthService::login_at(
        &"a@example.com".to_string(),
        "secret123",
        None,
        "ua".to_string(),
        "fixed-token".to_string(),
        1_000,
        &mut db,
    )
    .unwrap();
    assert_eq!(pair.token.token, "fixed-token");
    assert_eq!(pair.token.created_at, 1_000);
    assert_eq!(pair.token.expiration, Some(1_000 + SESSION_TOKEN_TTL_MS));
    assert_eq!(pair.session.created_at, 1_000);
    assert_eq!(db.activities[0].action_at, 1_000);
}

#[test]
fn login_fails_as_session_create_failed_when_value_is_taken() {
    let mut db = AuthStore::new();
    AuthService::create_user_at(input("a@example.com"), "secret123", vec![9u8; 32], 77, 0, 500, &mut db).unwrap();
    TokenRepo::create_one_access_token_at(77, "ci".to_string(), "taken".to_string(), 0, &mut db).unwrap();
    let r = AuthService::login_at(&"a@example.com".to_string(), "secret123", None, "ua".to_string(), "taken".to_string(), 1_000, &mut db);
    assert_eq!(r.unwrap_err(), AuthError::SessionCreateFailed);
    assert!(db.sessions.is_empty());
    assert_eq!(db.tokens.len(), 1);
    assert!(db.activities.is_empty());
}

#[test]
fn reset_request_at_uses_given_value() {
    let mut db = AuthStore::new();
    plain_user(&mut db, 5, "a@example.com");
    let r = AuthService::request_password_reset_at(&"a@example.com".to_string(), "rv".to_string(), 100, &mut db).unwrap();
    assert_eq!(r, Some(("a@example.com".to_string(), "rv".to_string())));
    assert_eq!(db.tokens[0].expiration, Some(100 + PASSWORD_RESET_TOKEN_TTL_MS));
    let again = AuthService::request_password_reset_at(&"a@example.com".to_string(), "rv".to_string(), 100, &mut db);
    assert_eq!(again.unwrap_err(), AuthError::DatabaseError);
}

#[test]
fn reset_check_deletes_any_expired_token_with_its_session() {
    let mut db = AuthStore::new();
    let u = plain_user(&mut db, 1, "a@example.com");
    authcore::repo::SessionRepo::create_one_with_token_at(&u, None, "ua".to_string(), "old-session".to_string(), 0, &mut db)
        .unwrap();
    let late = SESSION_TOKEN_TTL_MS + 1;
    assert!(!AuthService::check_password_reset_token(&"old-session".to_string(), late, &mut db));
    assert!(db.tokens.is_empty());
    assert!(db.sessions.is_empty());
}
