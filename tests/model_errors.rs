use authcore::errors::{
    ActivityError, AuthError, ErrorResponse, Metadata, SessionError, SetupError, TokenError, UserError,
};
use authcore::model::{default_sort_by, Language, Role, Settings, SortDirection, Theme, TokenType, UserStatus};

#[test]
fn status_labels_are_lower_snake_case() {
    assert_eq!(UserStatus::Offline.label(), "offline");
    assert_eq!(UserStatus::Online.label(), "online");
    assert_eq!(UserStatus::Away.label(), "away");
    assert_eq!(UserStatus::DoNotDisturb.label(), "do_not_disturb");
}

#[test]
fn status_parse_is_exact() {
    assert_eq!(UserStatus::parse_label(&"away".to_string()), Some(UserStatus::Away));
    assert_eq!(UserStatus::parse_label(&"do_not_disturb".to_string()), Some(UserStatus::DoNotDisturb));
    assert_eq!(UserStatus::parse_label(&"Away".to_string()), None);
    assert_eq!(UserStatus::parse_label(&"busy".to_string()), None);
}

#[test]
fn stored_text_reads_case_insensitively_with_defaults() {
    assert_eq!(UserStatus::from_text(&"ONLINE".to_string()), UserStatus::Online);
    assert_eq!(UserStatus::from_text(&"unknown".to_string()), UserStatus::Offline);
    assert_eq!(Role::from_text(&"Editor".to_string()), Role::Editor);
    assert_eq!(Role::from_text(&"nobody".to_string()), Role::Admin);
    assert_eq!(Language::from_text(&"DE".to_string()), Language::German);
    assert_eq!(Language::from_text(&"fr".to_string()), Language::English);
    assert_eq!(Theme::from_text(&"Dark".to_string()), Theme::Dark);
    assert_eq!(Theme::from_text(&"blue".to_string()), Theme::Light);
    assert_eq!(TokenType::from_text(&"Static_Access".to_string()), TokenType::StaticAccess);
    assert_eq!(TokenType::from_text(&"password_reset".to_string()), TokenType::PasswordReset);
    assert_eq!(TokenType::from_text(&"other".to_string()), TokenType::Session);
}

#[test]
fn enum_labels() {
    assert_eq!(Role::Contributor.label(), "contributor");
    assert_eq!(Language::German.label(), "de");
    assert_eq!(Theme::Dark.label(), "dark");
    assert_eq!(TokenType::StaticAccess.label(), "static_access");
    assert_eq!(TokenType::PasswordReset.label(), "password_reset");
    assert_eq!(SortDirection::Desc.label(), "desc");
    assert_eq!(SortDirection::Asc.label(), "asc");
    assert_eq!(default_sort_by(), "email");
}

#[test]
fn settings_default() {
    let s = Settings::default();
    assert_eq!(s.id, "settings");
    assert!(!s.setup_finished);
}

#[test]
fn auth_error_table() {
    assert_eq!(AuthError::InvalidCredentials.status_code(), 401);
    assert_eq!(AuthError::InvalidCredentials.message(), "Invalid credentials");
    assert_eq!(AuthError::SessionCreateFailed.status_code(), 500);
    assert_eq!(AuthError::SessionCreateFailed.message(), "Creating session failed");
    assert_eq!(AuthError::DatabaseError.status_code(), 500);
    assert_eq!(AuthError::DatabaseError.message(), "Database error");
    assert_eq!(AuthError::NotFound.status_code(), 404);
    let e = AuthError::InternalServerError("boom".to_string());
    assert_eq!(e.status_code(), 500);
    assert_eq!(e.message(), "Internal server error: boom");
}

#[test]
fn other_error_tables() {
    assert_eq!(SessionError::Unauthorized.status_code(), 401);
    assert_eq!(SessionError::NotFound.status_code(), 404);
    assert_eq!(SessionError::NotFound.message(), "Session not found");
    assert_eq!(SessionError::DatabaseError.status_code(), 500);
    assert_eq!(TokenError::Unauthorized.status_code(), 401);
    assert_eq!(TokenError::DatabaseError.message(), "Database error");
    assert_eq!(ActivityError::DatabaseError.status_code(), 500);
    assert_eq!(ActivityError::DatabaseError.message(), "Database Error");
    assert_eq!(SetupError::AlreadySetup.status_code(), 409);
    assert_eq!(SetupError::PasswordsDontMatch.status_code(), 400);
    assert_eq!(SetupError::FailedToFinishSetup.status_code(), 500);
    let e = SetupError::FailedToCreateUser("x".to_string());
    assert_eq!(e.status_code(), 500);
    assert_eq!(e.message(), "Failed to create user: x");
}

#[test]
fn user_error_table() {
    assert_eq!(UserError::DatabaseError.status_code(), 500);
    assert_eq!(UserError::NotFound.status_code(), 404);
    assert_eq!(UserError::NotFound.message(), "User not found");
    assert_eq!(UserError::Unauthorized.status_code(), 401);
    assert_eq!(UserError::Forbidden.status_code(), 403);
    let e = UserError::InvalidId("abc".to_string());
    assert_eq!(e.status_code(), 400);
    assert_eq!(e.message(), "Invalid id abc");
    assert_eq!(UserError::PasswordsDontMatch.message(), "Passwords don't match");
    assert_eq!(UserError::InternalServerError("d".to_string()).message(), "Internal server error: d");
    assert_eq!(UserError::InvalidCredentials.status_code(), 400);
    assert_eq!(UserError::WrongAvatarFileType.status_code(), 400);
    assert_eq!(UserError::AvatarFileWriteError.status_code(), 500);
    assert_eq!(UserError::MissingAvatarField.message(), "Missing avatar field in multipart");
}

#[test]
fn error_envelope_carries_message_and_timestamp() {
    let r = ErrorResponse::new("Unauthorized".to_string(), 1_700_000_000);
    assert_eq!(r.error_message, "Unauthorized");
    assert_eq!(r._metadata.timestamp, 1_700_000_000);
    assert!(r._metadata.total_count.is_none());
    let m = Metadata::at(5);
    assert_eq!(m.timestamp, 5);
    assert!(m.first_index_on_page.is_none());
    assert!(m.last_index_on_page.is_none());
}

#[test]
fn conversions_from_stored_text() {
    assert_eq!(UserStatus::from("AWAY".to_string()), UserStatus::Away);
    assert_eq!(UserStatus::from("nonsense".to_string()), UserStatus::Offline);
    assert_eq!(Role::from("author".to_string()), Role::Author);
    assert_eq!(Language::from("de".to_string()), Language::German);
    assert_eq!(Theme::from("LIGHT".to_string()), Theme::Light);
    assert_eq!(TokenType::from("session".to_string()), TokenType::Session);
    let t: TokenType = "STATIC_ACCESS".to_string().into();
    assert_eq!(t, TokenType::StaticAccess);
}
