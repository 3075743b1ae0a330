use authcore::api::{reset, update_password, validate_user_id, EmailService, PasswordResetBody, UpdatePasswordPayload};
use authcore::auth::AuthService;
use authcore::credential::verify_password;
use authcore::errors::UserError;
use authcore::model::Role;
use authcore::repo::{TokenRepo, UserCreateInput, UserRepo};
use authcore::store::AuthStore;

fn input(email: &str, role: Option<Role>) -> UserCreateInput {
    UserCreateInput {
        email: email.to_string(),
        salt: vec![5u8; 32],
        hash: vec![6u8; 64],
        first_name: None,
        last_name: None,
        role,
        location: None,
        description: None,
        title: None,
    }
}

fn create(db: &mut AuthStore, email: &str, password: &str) -> authcore::store::User {
    AuthService::create_user(input(email, None), password, 0, db).unwrap()
}

fn plain_user(db: &mut AuthStore, id: u128, email: &str, role: Option<Role>) -> authcore::store::User {
    UserRepo::create_one(input(email, role), id, 0, 0, db).unwrap()
}

#[test]
fn reset_requires_matching_confirmation() {
    let mut db = AuthStore::new();
    let u = plain_user(&mut db, 1, "a@example.com", None);
    TokenRepo::create_one_password_reset_token_at(u.id, "rt".to_string(), 0, &mut db).unwrap();
    let mismatch = PasswordResetBody { token: "rt".to_string(), password: "fresh-secret".to_string(), confirm_password: "other-secret".to_string() };
    assert!(!reset(&mismatch, 10, &mut db));
    assert_eq!(db.tokens.len(), 1);
    let ok = PasswordResetBody { token: "rt".to_string(), password: "fresh-secret".to_string(), confirm_password: "fresh-secret".to_string() };
    assert!(reset(&ok, 10, &mut db));
    assert!(db.tokens.is_empty());
    assert!(verify_password("fresh-secret", &db.users[0].salt, &db.users[0].hash));
    assert_ne!(db.users[0].hash, u.hash);
    assert!(!reset(&ok, 11, &mut db));
}

fn payload(c: &str, n: &str, k: &str) -> UpdatePasswordPayload {
    UpdatePasswordPayload {
        current_password: c.to_string(),
        new_password: n.to_string(),
        confirm_new_password: k.to_string(),
    }
}

#[test]
fn password_change_handler_errors() {
    let mut db = AuthStore::new();
    let u = plain_user(&mut db, 1, "a@example.com", None);
    assert_eq!(update_password(&None, &payload("cur", "n", "n"), None, None, &mut db).unwrap_err(), UserError::Unauthorized);
    let me = Some(u);
    assert_eq!(update_password(&me, &payload("cur", "n", "m"), None, None, &mut db).unwrap_err(), UserError::PasswordsDontMatch);
    assert_eq!(update_password(&me, &payload("bad", "n", "n"), None, None, &mut db).unwrap_err(), UserError::InvalidCredentials);
}

#[test]
fn password_change_handler_success() {
    let mut db = AuthStore::new();
    let u = create(&mut db, "a@example.com", "cur");
    let v = update_password(&Some(u), &payload("cur", "n", "n"), None, None, &mut db).unwrap();
    assert_eq!(v.hash, db.users[0].hash);
    assert_eq!(db.activities.len(), 1);
}

#[test]
fn user_id_resolution() {
    let mut db = AuthStore::new();
    let u = plain_user(&mut db, 1, "a@example.com", Some(Role::Editor));
    let me = Some(u);
    assert_eq!(validate_user_id(&"me".to_string(), &me, &None), Ok(me.as_ref().unwrap().id));
    assert_eq!(validate_user_id(&"me".to_string(), &None, &None), Err(UserError::Unauthorized));
    assert_eq!(validate_user_id(&"me".to_string(), &me, &Some(vec![Role::Admin])), Err(UserError::Forbidden));
    assert_eq!(validate_user_id(&"me".to_string(), &me, &Some(vec![Role::Admin, Role::Editor])), Ok(me.as_ref().unwrap().id));
    assert_eq!(
        validate_user_id(&"00000000-0000-4000-0000-000000000001".to_string(), &None, &None),
        Ok(0x0000_0000_0000_4000_0000_0000_0000_0001)
    );
    assert_eq!(
        validate_user_id(&"not-a-uuid".to_string(), &None, &None),
        Err(UserError::InvalidId("not-a-uuid".to_string()))
    );
}

#[test]
fn reset_email_text() {
    let link = EmailService::reset_link("https://example.com", "abc");
    assert_eq!(link, "https://example.com/admin/reset-password?token=abc");
    assert_eq!(
        EmailService::reset_email_body(&link),
        "<p>Reset your password by clicking this link: <a href=\"https://example.com/admin/reset-password?token=abc\">https://example.com/admin/reset-password?token=abc</a></p>"
    );
}
