use authcore::model::{Language, Role, Theme, TokenType, UserStatus};
use authcore::repo::{SessionRepo, TokenRepo, UserRepo};
use authcore::store::{AuthStore, DbError, User, PASSWORD_RESET_TOKEN_TTL_MS, SESSION_TOKEN_TTL_MS};

fn user(id: u128, email: &str) -> User {
    User {
        id,
        email: email.to_string(),
        first_name: None,
        last_name: None,
        salt: vec![1u8; 32],
        hash: vec![2u8; 64],
        description: None,
        title: None,
        location: None,
        language: Language::English,
        role: Role::Author,
        theme: Theme::Light,
        avatar: None,
        online_status: UserStatus::Offline,
        last_active_at: None,
        updated_at: 0,
        updated_by: 0,
        created_at: 0,
        created_by: 0,
        deleted_at: None,
        deleted_by: None,
    }
}

#[test]
fn session_token_expires_thirty_days_after_creation() {
    let mut db = AuthStore::new();
    let t = TokenRepo::create_one_session_token_at(1, "v1".to_string(), 1_000, &mut db).unwrap();
    assert_eq!(t.token_type, TokenType::Session);
    assert_eq!(t.expiration, Some(1_000 + 2_592_000_000));
    assert_eq!(SESSION_TOKEN_TTL_MS, 30 * 24 * 60 * 60 * 1000);
    assert_eq!(t.id, 1);
    assert_eq!(t.created_at, 1_000);
    let fresh = TokenRepo::create_one_session_token(1, &mut db).unwrap();
    assert_eq!(fresh.expiration, Some(fresh.created_at + SESSION_TOKEN_TTL_MS));
    assert_ne!(fresh.token, "v1");
    assert_eq!(fresh.id, 2);
}

#[test]
fn reset_token_expires_thirty_minutes_after_creation() {
    let mut db = AuthStore::new();
    let t = TokenRepo::create_one_password_reset_token_at(1, "r".to_string(), 5_000, &mut db).unwrap();
    assert_eq!(t.token_type, TokenType::PasswordReset);
    assert_eq!(t.expiration, Some(5_000 + 1_800_000));
    assert_eq!(PASSWORD_RESET_TOKEN_TTL_MS, 30 * 60 * 1000);
    let fresh = TokenRepo::create_one_password_reset_token(1, &mut db).unwrap();
    assert_eq!(fresh.expiration, Some(fresh.created_at + PASSWORD_RESET_TOKEN_TTL_MS));
}

#[test]
fn access_tokens_never_expire_and_are_listed_alone() {
    let mut db = AuthStore::new();
    let a = TokenRepo::create_one_access_token_at(7, "ci".to_string(), "a".to_string(), 10, &mut db).unwrap();
    assert_eq!(a.expiration, None);
    assert_eq!(a.name, Some("ci".to_string()));
    TokenRepo::create_one_session_token_at(7, "s".to_string(), 10, &mut db).unwrap();
    TokenRepo::create_one_access_token_at(8, "other".to_string(), "b".to_string(), 10, &mut db).unwrap();
    let listed = TokenRepo::list_for_user(7, &db);
    assert_eq!(listed.len(), 1);
    assert_eq!(listed[0].token, "a");
    let random = TokenRepo::create_one_access_token(7, "cli".to_string(), &mut db).unwrap();
    assert_eq!(random.token_type, TokenType::StaticAccess);
    assert_eq!(TokenRepo::list_for_user(7, &db).len(), 2);
}

#[test]
fn duplicate_token_value_is_refused() {
    let mut db = AuthStore::new();
    TokenRepo::create_one_session_token_at(1, "dup".to_string(), 0, &mut db).unwrap();
    let again = TokenRepo::create_one_session_token_at(2, "dup".to_string(), 0, &mut db);
    assert_eq!(again.unwrap_err(), DbError::Conflict);
    assert_eq!(db.tokens.len(), 1);
}

#[test]
fn creation_time_out_of_range_is_refused() {
    let mut db = AuthStore::new();
    let r = TokenRepo::create_one_session_token_at(1, "late".to_string(), i64::MAX, &mut db);
    assert_eq!(r.unwrap_err(), DbError::InvalidArgument);
    assert!(db.tokens.is_empty());
}

#[test]
fn get_and_delete_by_value() {
    let mut db = AuthStore::new();
    TokenRepo::create_one_session_token_at(1, "x".to_string(), 0, &mut db).unwrap();
    assert_eq!(TokenRepo::get_by_token(&"x".to_string(), &db).unwrap().user_id, 1);
    assert_eq!(TokenRepo::get_by_token(&"y".to_string(), &db).unwrap_err(), DbError::NotFound);
    let deleted = TokenRepo::delete_one_by_token(&"x".to_string(), &mut db).unwrap();
    assert_eq!(deleted.token, "x");
    assert!(db.tokens.is_empty());
    assert_eq!(TokenRepo::delete_one_by_token(&"x".to_string(), &mut db).unwrap_err(), DbError::NotFound);
}

#[test]
fn delete_by_id_is_scoped_to_owner() {
    let mut db = AuthStore::new();
    let t = TokenRepo::create_one_access_token_at(1, "n".to_string(), "v".to_string(), 0, &mut db).unwrap();
    assert_eq!(TokenRepo::delete_by_id(t.id, 2, &mut db).unwrap_err(), DbError::Forbidden);
    assert_eq!(db.tokens.len(), 1);
    assert_eq!(TokenRepo::delete_by_id(99, 1, &mut db).unwrap_err(), DbError::NotFound);
    assert_eq!(TokenRepo::delete_by_id(t.id, 1, &mut db).unwrap(), t.id);
    assert!(db.tokens.is_empty());
}

#[test]
fn session_round_trip_leaves_no_rows() {
    let mut db = AuthStore::new();
    let u = user(11, "a@example.com");
    let p = SessionRepo::create_one_with_token_at(&u, Some("127.0.0.1".to_string()), "agent".to_string(), "tok".to_string(), 100, &mut db).unwrap();
    assert_eq!(p.session.token_id, p.token.id);
    assert_eq!(p.session.user_agent, "agent");
    assert_eq!(p.token.expiration, Some(100 + SESSION_TOKEN_TTL_MS));
    assert_eq!(db.tokens.len(), 1);
    assert_eq!(db.sessions.len(), 1);
    SessionRepo::delete_with_token(&"tok".to_string(), &mut db).unwrap();
    assert!(db.tokens.iter().all(|t| t.token != "tok"));
    assert!(db.sessions.iter().all(|s| s.token_id != p.token.id));
    assert_eq!(SessionRepo::delete_with_token(&"tok".to_string(), &mut db).unwrap_err(), DbError::NotFound);
}

#[test]
fn failed_session_creation_stores_nothing() {
    let mut db = AuthStore::new();
    let u = user(11, "a@example.com");
    TokenRepo::create_one_session_token_at(3, "taken".to_string(), 0, &mut db).unwrap();
    let r = SessionRepo::create_one_with_token_at(&u, None, "ua".to_string(), "taken".to_string(), 0, &mut db);
    assert!(r.is_err());
    assert_eq!(db.tokens.len(), 1);
    assert!(db.sessions.is_empty());
}

#[test]
fn delete_session_by_id_checks_owner() {
    let mut db = AuthStore::new();
    let u = user(11, "a@example.com");
    let p = SessionRepo::create_one_with_token(&u, None, "ua".to_string(), &mut db).unwrap();
    assert_eq!(SessionRepo::delete_by_id_for_user(p.session.id, 12, &mut db).unwrap_err(), DbError::Forbidden);
    assert_eq!(db.sessions.len(), 1);
    assert_eq!(SessionRepo::delete_by_id_for_user(42, 11, &mut db).unwrap_err(), DbError::NotFound);
    SessionRepo::delete_by_id_for_user(p.session.id, 11, &mut db).unwrap();
    assert!(db.sessions.is_empty());
    assert!(db.tokens.is_empty());
}

#[test]
fn sessions_are_listed_for_their_owner_only() {
    let mut db = AuthStore::new();
    let a = user(1, "a@x");
    let b = user(2, "b@x");
    let pa = SessionRepo::create_one_with_token_at(&a, None, "ua-a".to_string(), "ta".to_string(), 1, &mut db).unwrap();
    SessionRepo::create_one_with_token_at(&b, None, "ua-b".to_string(), "tb".to_string(), 2, &mut db).unwrap();
    let listed = SessionRepo::get_sessions_for_user(1, &db);
    assert_eq!(listed.len(), 1);
    assert_eq!(listed[0].id, pa.token.id);
    assert_eq!(listed[0].session.user_agent, "ua-a");
    assert_eq!(listed[0].expiration, Some(1 + SESSION_TOKEN_TTL_MS));
}

#[test]
fn user_lookup_and_updates() {
    let mut db = AuthStore::new();
    db.users.push(user(5, "u@x"));
    assert_eq!(UserRepo::get_by_email(&"u@x".to_string(), &db).unwrap().id, 5);
    assert_eq!(UserRepo::get_by_email(&"v@x".to_string(), &db).unwrap_err(), DbError::NotFound);
    assert_eq!(UserRepo::get_by_id(6, &db).unwrap_err(), DbError::NotFound);
    UserRepo::update_status(5, UserStatus::Away, Some(77), &mut db).unwrap();
    assert_eq!(db.users[0].online_status, UserStatus::Away);
    assert_eq!(db.users[0].last_active_at, Some(77));
    UserRepo::update_status(5, UserStatus::Offline, None, &mut db).unwrap();
    assert_eq!(db.users[0].online_status, UserStatus::Offline);
    assert_eq!(db.users[0].last_active_at, Some(77));
    assert_eq!(UserRepo::update_status(6, UserStatus::Away, None, &mut db).unwrap_err(), DbError::NotFound);
    let u = UserRepo::update_hash_salt(5, vec![9u8; 64], vec![8u8; 32], &mut db).unwrap();
    assert_eq!(u.hash, vec![9u8; 64]);
    assert_eq!(db.users[0].salt, vec![8u8; 32]);
}

#[test]
fn session_token_resolves_to_owner_until_expiry() {
    let mut db = AuthStore::new();
    db.users.push(user(5, "u@x"));
    let u = user(5, "u@x");
    SessionRepo::create_one_with_token_at(&u, None, "ua".to_string(), "cookie".to_string(), 0, &mut db).unwrap();
    TokenRepo::create_one_password_reset_token_at(5, "reset".to_string(), 0, &mut db).unwrap();
    assert_eq!(UserRepo::get_from_session_token(&"cookie".to_string(), 10, &db).unwrap().id, 5);
    assert!(UserRepo::get_from_session_token(&"cookie".to_string(), SESSION_TOKEN_TTL_MS + 1, &db).is_err());
    assert!(UserRepo::get_from_session_token(&"reset".to_string(), 10, &db).is_err());
    assert!(UserRepo::get_from_session_token(&"nothing".to_string(), 10, &db).is_err());
}

#[test]
fn preferences_update_changes_only_language_and_theme() {
    let mut db = AuthStore::new();
    db.users.push(user(5, "u@x"));
    let prefs = authcore::repo::PreferencesInput { language: Language::German, theme: Theme::Dark };
    let u = UserRepo::update_preferences(5, prefs, &mut db).unwrap();
    assert_eq!(u.language, Language::German);
    assert_eq!(u.theme, Theme::Dark);
    assert_eq!(db.users[0].email, "u@x");
    assert_eq!(db.users[0].hash, vec![2u8; 64]);
    let missing = UserRepo::update_preferences(6, authcore::repo::PreferencesInput { language: Language::English, theme: Theme::Light }, &mut db);
    assert_eq!(missing.unwrap_err(), DbError::NotFound);
}
