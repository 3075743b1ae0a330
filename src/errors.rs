//! Domain errors and the one table that maps each of them to an HTTP status
//! code and a user-visible message.
use vstd::prelude::*;

verus! {

pub const STATUS_BAD_REQUEST: u16 = 400;
pub const STATUS_UNAUTHORIZED: u16 = 401;
pub const STATUS_FORBIDDEN: u16 = 403;
pub const STATUS_NOT_FOUND: u16 = 404;
pub const STATUS_CONFLICT: u16 = 409;
pub const STATUS_INTERNAL_SERVER_ERROR: u16 = 500;

/// Errors of the authentication flows.
#[derive(Clone, Debug, PartialEq, Eq)]
pub enum AuthError {
    /// Wrong password or unknown identity; the two are not told apart.
    InvalidCredentials,
    /// Unexpected failure; the detail is kept for diagnostics.
    InternalServerError(String),
    /// The credentials were valid but the session could not be stored.
    SessionCreateFailed,
    /// The datastore refused the operation.
    DatabaseError,
    /// The token or session to remove does not exist.
    NotFound,
}

/// Status code of each error.
pub open spec fn auth_error_status(e: AuthError) -> u16 {
    match e {
        AuthError::InvalidCredentials => STATUS_UNAUTHORIZED,
        AuthError::NotFound => STATUS_NOT_FOUND,
        _ => STATUS_INTERNAL_SERVER_ERROR,
    }
}

/// Message of each error.
pub open spec fn auth_error_message(e: AuthError) -> Seq<char> {
    match e {
        AuthError::InvalidCredentials => "Invalid credentials"@,
        AuthError::InternalServerError(d) => "Internal server error: "@ + d@,
        AuthError::SessionCreateFailed => "Creating session failed"@,
        AuthError::DatabaseError => "Database error"@,
        AuthError::NotFound => "Not found"@,
    }
}

impl AuthError {
    /// The HTTP status code answered for this error.
    pub fn status_code(&self) -> (r: u16)
        ensures
            r == auth_error_status(*self),
    {
        match self {
            AuthError::InvalidCredentials => STATUS_UNAUTHORIZED,
            AuthError::NotFound => STATUS_NOT_FOUND,
            _ => STATUS_INTERNAL_SERVER_ERROR,
        }
    }

    /// The message sent in the error envelope.
    pub fn message(&self) -> (r: String)
        ensures
            r@ == auth_error_message(*self),
    {
        match self {
            AuthError::InvalidCredentials => "Invalid credentials".to_owned(),
            AuthError::InternalServerError(d) => {
                let prefix = "Internal server error: ".to_owned();
                prefix.concat(d.as_str())
            },
            AuthError::SessionCreateFailed => "Creating session failed".to_owned(),
            AuthError::DatabaseError => "Database error".to_owned(),
            AuthError::NotFound => "Not found".to_owned(),
        }
    }
}

/// Errors of the session endpoints.
#[derive(Clone, Copy, Debug, PartialEq, Eq, Structural)]
pub enum SessionError {
    Unauthorized,
    DatabaseError,
    NotFound,
}

/// Status code of each error.
pub open spec fn session_error_status(e: SessionError) -> u16 {
    match e {
        SessionError::Unauthorized => STATUS_UNAUTHORIZED,
        SessionError::DatabaseError => STATUS_INTERNAL_SERVER_ERROR,
        SessionError::NotFound => STATUS_NOT_FOUND,
    }
}

/// Message of each error.
pub open spec fn session_error_message(e: SessionError) -> Seq<char> {
    match e {
        SessionError::Unauthorized => "Unauthorized"@,
        SessionError::DatabaseError => "Database error"@,
        SessionError::NotFound => "Session not found"@,
    }
}

impl SessionError {
    /// The HTTP status code answered for this error.
    pub fn status_code(&self) -> (r: u16)
        ensures
            r == session_error_status(*self),
    {
        match self {
            SessionError::Unauthorized => STATUS_UNAUTHORIZED,
            SessionError::DatabaseError => STATUS_INTERNAL_SERVER_ERROR,
            SessionError::NotFound => STATUS_NOT_FOUND,
        }
    }

    /// The message sent in the error envelope.
    pub fn message(&self) -> (r: String)
        ensures
            r@ == session_error_message(*self),
    {
        match self {
            SessionError::Unauthorized => "Unauthorized".to_owned(),
            SessionError::DatabaseError => "Database error".to_owned(),
            SessionError::NotFound => "Session not found".to_owned(),
        }
    }
}

/// Errors of the access-token endpoints.
#[derive(Clone, Copy, Debug, PartialEq, Eq, Structural)]
pub enum TokenError {
    DatabaseError,
    Unauthorized,
}

/// Status code of each error.
pub open spec fn token_error_status(e: TokenError) -> u16 {
    match e {
        TokenError::DatabaseError => STATUS_INTERNAL_SERVER_ERROR,
        TokenError::Unauthorized => STATUS_UNAUTHORIZED,
    }
}

/// Message of each error.
pub open spec fn token_error_message(e: TokenError) -> Seq<char> {
    match e {
        TokenError::DatabaseError => "Database error"@,
        TokenError::Unauthorized => "Unauthorized"@,
    }
}

impl TokenError {
    /// The HTTP status code answered for this error.
    pub fn status_code(&self) -> (r: u16)
        ensures
            r == token_error_status(*self),
    {
        match self {
            TokenError::DatabaseError => STATUS_INTERNAL_SERVER_ERROR,
            TokenError::Unauthorized => STATUS_UNAUTHORIZED,
        }
    }

    /// The message sent in the error envelope.
    pub fn message(&self) -> (r: String)
        ensures
            r@ == token_error_message(*self),
    {
        match self {
            TokenError::DatabaseError => "Database error".to_owned(),
            TokenError::Unauthorized => "Unauthorized".to_owned(),
        }
    }
}

/// Errors of the activity endpoint.
#[derive(Clone, Copy, Debug, PartialEq, Eq, Structural)]
pub enum ActivityError {
    DatabaseError,
}

impl ActivityError {
    /// The HTTP status code answered for this error.
    pub fn status_code(&self) -> (r: u16)
        ensures
            r == STATUS_INTERNAL_SERVER_ERROR,
    {
        STATUS_INTERNAL_SERVER_ERROR
    }

    /// The message sent in the error envelope.
    pub fn message(&self) -> (r: String)
        ensures
            r@ == "Database Error"@,
    {
        "Database Error".to_owned()
    }
}

/// Errors of the first-run setup endpoints.
#[derive(Clone, Debug, PartialEq, Eq)]
pub enum SetupError {
    AlreadySetup,
    FailedToCreateUser(String),
    FailedToFinishSetup,
    PasswordsDontMatch,
}

/// Status code of each error.
pub open spec fn setup_error_status(e: SetupError) -> u16 {
    match e {
        SetupError::AlreadySetup => STATUS_CONFLICT,
        SetupError::FailedToCreateUser(_) => STATUS_INTERNAL_SERVER_ERROR,
        SetupError::FailedToFinishSetup => STATUS_INTERNAL_SERVER_ERROR,
        SetupError::PasswordsDontMatch => STATUS_BAD_REQUEST,
    }
}

/// Message of each error.
pub open spec fn setup_error_message(e: SetupError) -> Seq<char> {
    match e {
        SetupError::AlreadySetup => "Already setup"@,
        SetupError::FailedToCreateUser(d) => "Failed to create user: "@ + d@,
        SetupError::FailedToFinishSetup => "Failed to finish setup"@,
        SetupError::PasswordsDontMatch => "Passwords don't match"@,
    }
}

impl SetupError {
    /// The HTTP status code answered for this error.
    pub fn status_code(&self) -> (r: u16)
        ensures
            r == setup_error_status(*self),
    {
        match self {
            SetupError::AlreadySetup => STATUS_CONFLICT,
            SetupError::FailedToCreateUser(_) => STATUS_INTERNAL_SERVER_ERROR,
            SetupError::FailedToFinishSetup => STATUS_INTERNAL_SERVER_ERROR,
            SetupError::PasswordsDontMatch => STATUS_BAD_REQUEST,
        }
    }

    /// The message sent in the error envelope.
    pub fn message(&self) -> (r: String)
        ensures
            r@ == setup_error_message(*self),
    {
        match self {
            SetupError::AlreadySetup => "Already setup".to_owned(),
            SetupError::FailedToCreateUser(d) => {
                let prefix = "Failed to create user: ".to_owned();
                prefix.concat(d.as_str())
            },
            SetupError::FailedToFinishSetup => "Failed to finish setup".to_owned(),
            SetupError::PasswordsDontMatch => "Passwords don't match".to_owned(),
        }
    }
}

/// Errors of the user endpoints.
#[derive(Clone, Debug, PartialEq, Eq)]
pub enum UserError {
    DatabaseError,
    NotFound,
    Unauthorized,
    Forbidden,
    InvalidId(String),
    PasswordsDontMatch,
    InternalServerError(String),
    InvalidCredentials,
    WrongAvatarFileType,
    AvatarFileWriteError,
    MissingAvatarField,
}

/// Status code of each error.
pub open spec fn user_error_status(e: UserError) -> u16 {
    match e {
        UserError::DatabaseError => STATUS_INTERNAL_SERVER_ERROR,
        UserError::NotFound => STATUS_NOT_FOUND,
        UserError::Unauthorized => STATUS_UNAUTHORIZED,
        UserError::Forbidden => STATUS_FORBIDDEN,
        UserError::InvalidId(_) => STATUS_BAD_REQUEST,
        UserError::PasswordsDontMatch => STATUS_BAD_REQUEST,
        UserError::InternalServerError(_) => STATUS_INTERNAL_SERVER_ERROR,
        UserError::InvalidCredentials => STATUS_BAD_REQUEST,
        UserError::WrongAvatarFileType => STATUS_BAD_REQUEST,
        UserError::AvatarFileWriteError => STATUS_INTERNAL_SERVER_ERROR,
        UserError::MissingAvatarField => STATUS_BAD_REQUEST,
    }
}

/// Message of each error.
pub open spec fn user_error_message(e: UserError) -> Seq<char> {
    match e {
        UserError::DatabaseError => "Database error"@,
        UserError::NotFound => "User not found"@,
        UserError::Unauthorized => "Unauthorized"@,
        UserError::Forbidden => "Forbidden"@,
        UserError::InvalidId(d) => "Invalid id "@ + d@,
        UserError::PasswordsDontMatch => "Passwords don't match"@,
        UserError::InternalServerError(d) => "Internal server error: "@ + d@,
        UserError::InvalidCredentials => "Invalid credentials"@,
        UserError::WrongAvatarFileType => "Wrong avatar file type. Expected 'image/...'"@,
        UserError::AvatarFileWriteError => "Error writing avatar file"@,
        UserError::MissingAvatarField => "Missing avatar field in multipart"@,
    }
}

impl UserError {
    /// The HTTP status code answered for this error.
    pub fn status_code(&self) -> (r: u16)
        ensures
            r == user_error_status(*self),
    {
        match self {
            UserError::DatabaseError => STATUS_INTERNAL_SERVER_ERROR,
            UserError::NotFound => STATUS_NOT_FOUND,
            UserError::Unauthorized => STATUS_UNAUTHORIZED,
            UserError::Forbidden => STATUS_FORBIDDEN,
            UserError::InvalidId(_) => STATUS_BAD_REQUEST,
            UserError::PasswordsDontMatch => STATUS_BAD_REQUEST,
            UserError::InternalServerError(_) => STATUS_INTERNAL_SERVER_ERROR,
            UserError::InvalidCredentials => STATUS_BAD_REQUEST,
            UserError::WrongAvatarFileType => STATUS_BAD_REQUEST,
            UserError::AvatarFileWriteError => STATUS_INTERNAL_SERVER_ERROR,
            UserError::MissingAvatarField => STATUS_BAD_REQUEST,
        }
    }

    /// The message sent in the error envelope.
    pub fn message(&self) -> (r: String)
        ensures
            r@ == user_error_message(*self),
    {
        match self {
            UserError::DatabaseError => "Database error".to_owned(),
            UserError::NotFound => "User not found".to_owned(),
            UserError::Unauthorized => "Unauthorized".to_owned(),
            UserError::Forbidden => "Forbidden".to_owned(),
            UserError::InvalidId(d) => {
                let prefix = "Invalid id ".to_owned();
                prefix.concat(d.as_str())
            },
            UserError::PasswordsDontMatch => "Passwords don't match".to_owned(),
            UserError::InternalServerError(d) => {
                let prefix = "Internal server error: ".to_owned();
                prefix.concat(d.as_str())
            },
            UserError::InvalidCredentials => "Invalid credentials".to_owned(),
            UserError::WrongAvatarFileType => "Wrong avatar file type. Expected 'image/...'".to_owned(),
            UserError::AvatarFileWriteError => "Error writing avatar file".to_owned(),
            UserError::MissingAvatarField => "Missing avatar field in multipart".to_owned(),
        }
    }
}

/// Extra fields sent beside every response body.
#[derive(Clone, Debug)]
pub struct Metadata {
    pub total_count: Option<i64>,
    pub first_index_on_page: Option<i64>,
    pub last_index_on_page: Option<i64>,
    /// Seconds since the Unix epoch.
    pub timestamp: i64,
}

impl Metadata {
    /// Metadata stamped with `timestamp` and no paging fields.
    pub fn at(timestamp: i64) -> (r: Metadata)
        ensures
            r.timestamp == timestamp,
            r.total_count is None,
            r.first_index_on_page is None,
            r.last_index_on_page is None,
    {
        Metadata { total_count: None, first_index_on_page: None, last_index_on_page: None, timestamp }
    }
}

/// The uniform error envelope `{errorMessage, _metadata}`.
#[derive(Clone, Debug)]
pub struct ErrorResponse {
    pub error_message: String,
    pub _metadata: Metadata,
}

impl ErrorResponse {
    /// The envelope for `error_message`, stamped with `timestamp`.
    pub fn new(error_message: String, timestamp: i64) -> (r: ErrorResponse)
        ensures
            r.error_message == error_message,
            r._metadata.timestamp == timestamp,
            r._metadata.total_count is None,
    {
        ErrorResponse { error_message, _metadata: Metadata::at(timestamp) }
    }
}

} // verus!
