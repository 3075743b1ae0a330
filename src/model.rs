//! Plain data of the authentication domain: enumerations with their textual
//! labels, and the records that the datastore and the services exchange.
use vstd::prelude::*;

verus! {

/// Identifier of a user (a UUID held as its 128-bit value).
pub type UserId = u128;

/// Milliseconds since the Unix epoch.
pub type Timestamp = i64;

/// Presence status of a user.
#[derive(Clone, Copy, Debug, PartialEq, Eq, Structural)]
pub enum UserStatus {
    Offline,
    Online,
    Away,
    DoNotDisturb,
}

/// Role of a user.
#[derive(Clone, Copy, Debug, PartialEq, Eq, Structural)]
pub enum Role {
    Admin,
    Editor,
    Author,
    Contributor,
}

/// Interface language of a user.
#[derive(Clone, Copy, Debug, PartialEq, Eq, Structural)]
pub enum Language {
    English,
    German,
}

/// Interface theme of a user.
#[derive(Clone, Copy, Debug, PartialEq, Eq, Structural)]
pub enum Theme {
    Light,
    Dark,
}

/// Kind of a bearer token.
#[derive(Clone, Copy, Debug, PartialEq, Eq, Structural)]
pub enum TokenType {
    PasswordReset,
    StaticAccess,
    Session,
}

/// The stored label of each value.
pub open spec fn status_label(s: UserStatus) -> Seq<char> {
    match s {
        UserStatus::Offline => "offline"@,
        UserStatus::Online => "online"@,
        UserStatus::Away => "away"@,
        UserStatus::DoNotDisturb => "do_not_disturb"@,
    }
}

/// The value whose label is exactly `t`, if any.
pub open spec fn status_of_label(t: Seq<char>) -> Option<UserStatus> {
    if t == "offline"@ {
        Some(UserStatus::Offline)
    } else if t == "online"@ {
        Some(UserStatus::Online)
    } else if t == "away"@ {
        Some(UserStatus::Away)
    } else if t == "do_not_disturb"@ {
        Some(UserStatus::DoNotDisturb)
    } else {
        None
    }
}

/// The stored label of each value.
pub open spec fn role_label(r: Role) -> Seq<char> {
    match r {
        Role::Admin => "admin"@,
        Role::Editor => "editor"@,
        Role::Author => "author"@,
        Role::Contributor => "contributor"@,
    }
}

/// The value whose label is exactly `t`, if any.
pub open spec fn role_of_label(t: Seq<char>) -> Option<Role> {
    if t == "admin"@ {
        Some(Role::Admin)
    } else if t == "editor"@ {
        Some(Role::Editor)
    } else if t == "author"@ {
        Some(Role::Author)
    } else if t == "contributor"@ {
        Some(Role::Contributor)
    } else {
        None
    }
}

/// The stored label of each value.
pub open spec fn language_label(l: Language) -> Seq<char> {
    match l {
        Language::English => "en"@,
        Language::German => "de"@,
    }
}

/// The value whose label is exactly `t`, if any.
pub open spec fn language_of_label(t: Seq<char>) -> Option<Language> {
    if t == "en"@ {
        Some(Language::English)
    } else if t == "de"@ {
        Some(Language::German)
    } else {
        None
    }
}

/// The stored label of each value.
pub open spec fn theme_label(t: Theme) -> Seq<char> {
    match t {
        Theme::Light => "light"@,
        Theme::Dark => "dark"@,
    }
}

/// The value whose label is exactly `t`, if any.
pub open spec fn theme_of_label(t: Seq<char>) -> Option<Theme> {
    if t == "light"@ {
        Some(Theme::Light)
    } else if t == "dark"@ {
        Some(Theme::Dark)
    } else {
        None
    }
}

/// The stored label of each value.
pub open spec fn token_type_label(t: TokenType) -> Seq<char> {
    match t {
        TokenType::PasswordReset => "password_reset"@,
        TokenType::StaticAccess => "static_access"@,
        TokenType::Session => "session"@,
    }
}

/// The value whose label is exactly `t`, if any.
pub open spec fn token_type_of_label(t: Seq<char>) -> Option<TokenType> {
    if t == "password_reset"@ {
        Some(TokenType::PasswordReset)
    } else if t == "static_access"@ {
        Some(TokenType::StaticAccess)
    } else if t == "session"@ {
        Some(TokenType::Session)
    } else {
        None
    }
}

/// The characters of `s` with every letter lower-cased, as std's
/// `str::to_lowercase` computes them.
pub uninterp spec fn lower_of(s: Seq<char>) -> Seq<char>;

/// Relies on `str::to_lowercase`: its result depends on the characters alone.
#[verifier::external_body]
fn lowercase(s: &str) -> (r: String)
    ensures
        r@ == lower_of(s@),
{
    s.to_lowercase()
}

fn text_eq(a: &String, b: &str) -> (r: bool)
    ensures
        r == (a@ == b@),
{
    let owned = b.to_owned();
    *a == owned
}

impl UserStatus {
    /// The lower-snake-case label of the status.
    pub fn label(&self) -> (r: String)
        ensures
            r@ == status_label(*self),
    {
        match self {
            UserStatus::Offline => "offline".to_owned(),
            UserStatus::Online => "online".to_owned(),
            UserStatus::Away => "away".to_owned(),
            UserStatus::DoNotDisturb => "do_not_disturb".to_owned(),
        }
    }

    /// The status whose label is exactly `text`, if any.
    pub fn parse_label(text: &String) -> (r: Option<UserStatus>)
        ensures
            r == status_of_label(text@),
    {
        if text_eq(text, "offline") {
            Some(UserStatus::Offline)
        } else if text_eq(text, "online") {
            Some(UserStatus::Online)
        } else if text_eq(text, "away") {
            Some(UserStatus::Away)
        } else if text_eq(text, "do_not_disturb") {
            Some(UserStatus::DoNotDisturb)
        } else {
            None
        }
    }

    /// Reads a stored status case-insensitively; unknown text reads as
    /// `Offline`.
    pub fn from_text(value: &String) -> (r: UserStatus)
        ensures
            r == (match status_of_label(lower_of(value@)) {
                Some(s) => s,
                None => UserStatus::Offline,
            }),
    {
        let lowered = lowercase(value.as_str());
        match UserStatus::parse_label(&lowered) {
            Some(s) => s,
            None => UserStatus::Offline,
        }
    }

    /// Whether the status counts as recently active (anything but offline).
    pub fn is_active(&self) -> (r: bool)
        ensures
            r == (*self != UserStatus::Offline),
    {
        !matches!(self, UserStatus::Offline)
    }
}

impl Role {
    /// The stored label.
    pub fn label(&self) -> (r: String)
        ensures
            r@ == role_label(*self),
    {
        match self {
            Role::Admin => "admin".to_owned(),
            Role::Editor => "editor".to_owned(),
            Role::Author => "author".to_owned(),
            Role::Contributor => "contributor".to_owned(),
        }
    }

    /// Reads a role case-insensitively; unknown text reads as `Admin`.
    pub fn from_text(value: &String) -> (r: Role)
        ensures
            r == (match role_of_label(lower_of(value@)) {
                Some(x) => x,
                None => Role::Admin,
            }),
    {
        let t = lowercase(value.as_str());
        if text_eq(&t, "admin") {
            Role::Admin
        } else if text_eq(&t, "editor") {
            Role::Editor
        } else if text_eq(&t, "author") {
            Role::Author
        } else if text_eq(&t, "contributor") {
            Role::Contributor
        } else {
            Role::Admin
        }
    }
}

impl Language {
    /// The stored label.
    pub fn label(&self) -> (r: String)
        ensures
            r@ == language_label(*self),
    {
        match self {
            Language::English => "en".to_owned(),
            Language::German => "de".to_owned(),
        }
    }

    /// Reads a language case-insensitively; unknown text reads as `English`.
    pub fn from_text(value: &String) -> (r: Language)
        ensures
            r == (match language_of_label(lower_of(value@)) {
                Some(x) => x,
                None => Language::English,
            }),
    {
        let t = lowercase(value.as_str());
        if text_eq(&t, "en") {
            Language::English
        } else if text_eq(&t, "de") {
            Language::German
        } else {
            Language::English
        }
    }
}

impl Theme {
    /// The stored label.
    pub fn label(&self) -> (r: String)
        ensures
            r@ == theme_label(*self),
    {
        match self {
            Theme::Light => "light".to_owned(),
            Theme::Dark => "dark".to_owned(),
        }
    }

    /// Reads a theme case-insensitively; unknown text reads as `Light`.
    pub fn from_text(value: &String) -> (r: Theme)
        ensures
            r == (match theme_of_label(lower_of(value@)) {
                Some(x) => x,
                None => Theme::Light,
            }),
    {
        let t = lowercase(value.as_str());
        if text_eq(&t, "light") {
            Theme::Light
        } else if text_eq(&t, "dark") {
            Theme::Dark
        } else {
            Theme::Light
        }
    }
}

impl TokenType {
    /// The stored label.
    pub fn label(&self) -> (r: String)
        ensures
            r@ == token_type_label(*self),
    {
        match self {
            TokenType::PasswordReset => "password_reset".to_owned(),
            TokenType::StaticAccess => "static_access".to_owned(),
            TokenType::Session => "session".to_owned(),
        }
    }

    /// Reads a token kind case-insensitively; unknown text reads as `Session`.
    pub fn from_text(value: &String) -> (r: TokenType)
        ensures
            r == (match token_type_of_label(lower_of(value@)) {
                Some(x) => x,
                None => TokenType::Session,
            }),
    {
        let t = lowercase(value.as_str());
        if text_eq(&t, "password_reset") {
            TokenType::PasswordReset
        } else if text_eq(&t, "static_access") {
            TokenType::StaticAccess
        } else {
            TokenType::Session
        }
    }
}


/// Direction of a sorted listing.
#[derive(Clone, Copy, Debug, PartialEq, Eq, Structural)]
pub enum SortDirection {
    Asc,
    Desc,
}

impl SortDirection {
    /// The stored label.
    pub fn label(&self) -> (r: String)
        ensures
            r@ == (match *self {
                SortDirection::Asc => "asc"@,
                SortDirection::Desc => "desc"@,
            }),
    {
        match self {
            SortDirection::Asc => "asc".to_owned(),
            SortDirection::Desc => "desc".to_owned(),
        }
    }
}

/// Paging and ordering of a listing.
pub struct DatabaseListOptions {
    pub limit: i64,
    pub offset: i64,
    pub sort_by: String,
    pub sort_direction: SortDirection,
}

/// The column a user listing is sorted by when none is asked for.
pub fn default_sort_by() -> (r: String)
    ensures
        r@ == "email"@,
{
    "email".to_owned()
}

/// The application settings record.
#[derive(Clone, Debug)]
pub struct Settings {
    pub id: String,
    pub setup_finished: bool,
}

impl Default for Settings {
    fn default() -> (r: Settings)
        ensures
            r.id@ == "settings"@,
            !r.setup_finished,
    {
        Settings { id: "settings".to_owned(), setup_finished: false }
    }
}

/// A presence change as sent to clients.
pub struct UserStatusUpdate {
    pub user_id: String,
    pub new_status: UserStatus,
}

/// A tag to attach to a user: an existing one by id, or a new one by label.
pub enum UpdateTag {
    Existing { id: i32 },
    New { label: String },
}

impl From<String> for UserStatus {
    fn from(value: String) -> UserStatus {
        UserStatus::from_text(&value)
    }
}

impl vstd::std_specs::convert::FromSpecImpl<String> for UserStatus {
    open spec fn obeys_from_spec() -> bool {
        true
    }

    open spec fn from_spec(v: String) -> UserStatus {
        match status_of_label(lower_of(v@)) {
            Some(x) => x,
            None => UserStatus::Offline,
        }
    }
}

impl From<String> for Role {
    fn from(value: String) -> Role {
        Role::from_text(&value)
    }
}

impl vstd::std_specs::convert::FromSpecImpl<String> for Role {
    open spec fn obeys_from_spec() -> bool {
        true
    }

    open spec fn from_spec(v: String) -> Role {
        match role_of_label(lower_of(v@)) {
            Some(x) => x,
            None => Role::Admin,
        }
    }
}

impl From<String> for Language {
    fn from(value: String) -> Language {
        Language::from_text(&value)
    }
}

impl vstd::std_specs::convert::FromSpecImpl<String> for Language {
    open spec fn obeys_from_spec() -> bool {
        true
    }

    open spec fn from_spec(v: String) -> Language {
        match language_of_label(lower_of(v@)) {
            Some(x) => x,
            None => Language::English,
        }
    }
}

impl From<String> for Theme {
    fn from(value: String) -> Theme {
        Theme::from_text(&value)
    }
}

impl vstd::std_specs::convert::FromSpecImpl<String> for Theme {
    open spec fn obeys_from_spec() -> bool {
        true
    }

    open spec fn from_spec(v: String) -> Theme {
        match theme_of_label(lower_of(v@)) {
            Some(x) => x,
            None => Theme::Light,
        }
    }
}

impl From<String> for TokenType {
    fn from(value: String) -> TokenType {
        TokenType::from_text(&value)
    }
}

impl vstd::std_specs::convert::FromSpecImpl<String> for TokenType {
    open spec fn obeys_from_spec() -> bool {
        true
    }

    open spec fn from_spec(v: String) -> TokenType {
        match token_type_of_label(lower_of(v@)) {
            Some(x) => x,
            None => TokenType::Session,
        }
    }
}
} // verus!
