//! The tables the authentication core works on: users, bearer tokens,
//! sessions and the audit trail, with a ghost view over which every
//! operation is stated.
use vstd::prelude::*;
use crate::model::{Language, Role, Theme, Timestamp, TokenType, UserId, UserStatus};

verus! {

/// Milliseconds in thirty days: the lifetime of a session token.
pub const SESSION_TOKEN_TTL_MS: i64 = 2_592_000_000;
/// Milliseconds in thirty minutes: the lifetime of a password-reset token.
pub const PASSWORD_RESET_TOKEN_TTL_MS: i64 = 1_800_000;
/// The latest creation time for which every expiration still fits an `i64`.
pub const MAX_CREATION_TIME: i64 = 9_223_372_036_854_775_807 - 2_592_000_000;

/// Errors of the datastore.
#[derive(Clone, Copy, Debug, PartialEq, Eq, Structural)]
pub enum DbError {
    /// No row matches.
    NotFound,
    /// The row exists but belongs to another user.
    Forbidden,
    /// A unique value (token value, user id or email) is already taken.
    Conflict,
    /// The table has handed out every identifier it can.
    IdsExhausted,
    /// A timestamp or a paging bound is out of range.
    InvalidArgument,
}

/// A bearer token.
#[derive(Debug)]
pub struct Token {
    pub id: i32,
    /// Label of a static-access token.
    pub name: Option<String>,
    /// The opaque bearer value.
    pub token: String,
    pub token_type: TokenType,
    pub expiration: Option<Timestamp>,
    pub user_id: UserId,
    pub session_id: Option<i32>,
    pub created_at: Timestamp,
    pub updated_at: Timestamp,
}

/// A login session, bound to exactly one session token.
#[derive(Debug)]
pub struct Session {
    pub id: i32,
    pub token_id: i32,
    pub user_agent: String,
    pub ip_address: Option<String>,
    pub created_at: Timestamp,
}

/// A session with the token it was created with.
#[derive(Debug)]
pub struct SessionWithToken {
    pub session: Session,
    pub token: Token,
}

/// A session as listed for its owner: the token's id and dates, and the
/// session.
#[derive(Debug)]
pub struct TokenWithSession {
    pub id: i32,
    pub created_at: Timestamp,
    pub expiration: Option<Timestamp>,
    pub session: Session,
}

/// A user account.
#[derive(Debug)]
pub struct User {
    pub id: UserId,
    pub email: String,
    pub first_name: Option<String>,
    pub last_name: Option<String>,
    pub salt: Vec<u8>,
    pub hash: Vec<u8>,
    pub description: Option<String>,
    pub title: Option<String>,
    pub location: Option<String>,
    pub language: Language,
    pub role: Role,
    pub theme: Theme,
    pub avatar: Option<String>,
    pub online_status: UserStatus,
    pub last_active_at: Option<Timestamp>,
    pub updated_at: Timestamp,
    pub updated_by: UserId,
    pub created_at: Timestamp,
    pub created_by: UserId,
    pub deleted_at: Option<Timestamp>,
    pub deleted_by: Option<UserId>,
}

/// An immutable audit record.
#[derive(Debug)]
pub struct Activity {
    pub id: i32,
    pub action: String,
    pub action_by_id: Option<UserId>,
    pub action_at: Timestamp,
    pub ip_address: Option<String>,
    pub user_agent: Option<String>,
    pub table_name: Option<String>,
    pub item_id: Option<String>,
    /// The record before the change, without secrets, as JSON text.
    pub old_data: Option<String>,
    /// The record after the change, without secrets, as JSON text.
    pub new_data: Option<String>,
}

/// The tables. Rows keep their order of insertion.
pub struct AuthStore {
    pub users: Vec<User>,
    pub tokens: Vec<Token>,
    pub sessions: Vec<Session>,
    pub activities: Vec<Activity>,
    pub next_token_id: i32,
    pub next_session_id: i32,
    pub next_activity_id: i32,
}

impl AuthStore {
    /// Empty tables; identifiers start at 1.
    pub fn new() -> (r: AuthStore)
        ensures
            r@.users.len() == 0,
            r@.tokens.len() == 0,
            r@.sessions.len() == 0,
            r@.activities.len() == 0,
            r@.next_token_id == 1,
            r@.next_session_id == 1,
            r@.next_activity_id == 1,
            store_wf(r@),
    {
        AuthStore {
            users: Vec::new(),
            tokens: Vec::new(),
            sessions: Vec::new(),
            activities: Vec::new(),
            next_token_id: 1,
            next_session_id: 1,
            next_activity_id: 1,
        }
    }
}

/// The contents of an `AuthStore`.
pub struct StoreView {
    pub users: Seq<User>,
    pub tokens: Seq<Token>,
    pub sessions: Seq<Session>,
    pub activities: Seq<Activity>,
    pub next_token_id: i32,
    pub next_session_id: i32,
    pub next_activity_id: i32,
}

impl View for AuthStore {
    type V = StoreView;

    open spec fn view(&self) -> StoreView {
        StoreView {
            users: self.users@,
            tokens: self.tokens@,
            sessions: self.sessions@,
            activities: self.activities@,
            next_token_id: self.next_token_id,
            next_session_id: self.next_session_id,
            next_activity_id: self.next_activity_id,
        }
    }
}

// ---------------------------------------------------------------------------
// Lookups over the tables. Where several rows match, the last one counts.

/// The last token whose value is `v`.
pub open spec fn token_by_value(s: Seq<Token>, v: Seq<char>) -> Option<Token>
    decreases s.len(),
{
    if s.len() == 0 {
        None
    } else if s.last().token@ == v {
        Some(s.last())
    } else {
        token_by_value(s.drop_last(), v)
    }
}

/// The tokens whose value is not `v`, in order.
pub open spec fn tokens_without_value(s: Seq<Token>, v: Seq<char>) -> Seq<Token>
    decreases s.len(),
{
    if s.len() == 0 {
        s
    } else if s.last().token@ == v {
        tokens_without_value(s.drop_last(), v)
    } else {
        tokens_without_value(s.drop_last(), v).push(s.last())
    }
}

/// The last token with id `id`.
pub open spec fn token_by_id(s: Seq<Token>, id: i32) -> Option<Token>
    decreases s.len(),
{
    if s.len() == 0 {
        None
    } else if s.last().id == id {
        Some(s.last())
    } else {
        token_by_id(s.drop_last(), id)
    }
}

/// The tokens whose id is not `id`, in order.
pub open spec fn tokens_without_id(s: Seq<Token>, id: i32) -> Seq<Token>
    decreases s.len(),
{
    if s.len() == 0 {
        s
    } else if s.last().id == id {
        tokens_without_id(s.drop_last(), id)
    } else {
        tokens_without_id(s.drop_last(), id).push(s.last())
    }
}

/// Whether some token has value `v`.
pub open spec fn has_token_value(s: Seq<Token>, v: Seq<char>) -> bool {
    exists|i: int| 0 <= i < s.len() && #[trigger] s[i].token@ == v
}

/// Whether some session refers to token `token_id`.
pub open spec fn has_session_for_token(s: Seq<Session>, token_id: i32) -> bool {
    exists|i: int| 0 <= i < s.len() && #[trigger] s[i].token_id == token_id
}

/// The sessions that do not refer to token `token_id`, in order.
pub open spec fn sessions_without_token(s: Seq<Session>, token_id: i32) -> Seq<Session>
    decreases s.len(),
{
    if s.len() == 0 {
        s
    } else if s.last().token_id == token_id {
        sessions_without_token(s.drop_last(), token_id)
    } else {
        sessions_without_token(s.drop_last(), token_id).push(s.last())
    }
}

/// The last session with id `id`.
pub open spec fn session_by_id(s: Seq<Session>, id: i32) -> Option<Session>
    decreases s.len(),
{
    if s.len() == 0 {
        None
    } else if s.last().id == id {
        Some(s.last())
    } else {
        session_by_id(s.drop_last(), id)
    }
}

/// The sessions whose id is not `id`, in order.
pub open spec fn sessions_without_id(s: Seq<Session>, id: i32) -> Seq<Session>
    decreases s.len(),
{
    if s.len() == 0 {
        s
    } else if s.last().id == id {
        sessions_without_id(s.drop_last(), id)
    } else {
        sessions_without_id(s.drop_last(), id).push(s.last())
    }
}

/// The static-access tokens of `user`, in order.
pub open spec fn access_tokens_of(s: Seq<Token>, user: UserId) -> Seq<Token>
    decreases s.len(),
{
    if s.len() == 0 {
        s
    } else if s.last().user_id == user && s.last().token_type == TokenType::StaticAccess {
        access_tokens_of(s.drop_last(), user).push(s.last())
    } else {
        access_tokens_of(s.drop_last(), user)
    }
}

/// Index of the last user with id `id`, or -1.
pub open spec fn user_index_by_id(s: Seq<User>, id: UserId) -> int
    decreases s.len(),
{
    if s.len() == 0 {
        -1
    } else if s.last().id == id {
        s.len() - 1
    } else {
        user_index_by_id(s.drop_last(), id)
    }
}

/// Index of the last user with email `email`, or -1.
pub open spec fn user_index_by_email(s: Seq<User>, email: Seq<char>) -> int
    decreases s.len(),
{
    if s.len() == 0 {
        -1
    } else if s.last().email@ == email {
        s.len() - 1
    } else {
        user_index_by_email(s.drop_last(), email)
    }
}

/// Two user records agree on every field (byte fields by content).
pub open spec fn same_user(a: User, b: User) -> bool {
    &&& a.id == b.id
    &&& a.email == b.email
    &&& a.first_name == b.first_name
    &&& a.last_name == b.last_name
    &&& a.salt@ == b.salt@
    &&& a.hash@ == b.hash@
    &&& a.description == b.description
    &&& a.title == b.title
    &&& a.location == b.location
    &&& a.language == b.language
    &&& a.role == b.role
    &&& a.theme == b.theme
    &&& a.avatar == b.avatar
    &&& a.online_status == b.online_status
    &&& a.last_active_at == b.last_active_at
    &&& a.updated_at == b.updated_at
    &&& a.updated_by == b.updated_by
    &&& a.created_at == b.created_at
    &&& a.created_by == b.created_by
    &&& a.deleted_at == b.deleted_at
    &&& a.deleted_by == b.deleted_by
}

// ---------------------------------------------------------------------------
// Copies of rows.

/// A copy of optional text.
pub fn copy_text(o: &Option<String>) -> (r: Option<String>)
    ensures
        r == *o,
{
    match o {
        Some(s) => Some(s.clone()),
        None => None,
    }
}

impl Token {
    /// A field-by-field copy.
    pub fn copy(&self) -> (r: Token)
        ensures
            r == *self,
    {
        Token {
            id: self.id,
            name: copy_text(&self.name),
            token: self.token.clone(),
            token_type: self.token_type,
            expiration: self.expiration,
            user_id: self.user_id,
            session_id: self.session_id,
            created_at: self.created_at,
            updated_at: self.updated_at,
        }
    }
}

impl Session {
    /// A field-by-field copy.
    pub fn copy(&self) -> (r: Session)
        ensures
            r == *self,
    {
        Session {
            id: self.id,
            token_id: self.token_id,
            user_agent: self.user_agent.clone(),
            ip_address: copy_text(&self.ip_address),
            created_at: self.created_at,
        }
    }
}

impl Activity {
    /// A field-by-field copy.
    pub fn copy(&self) -> (r: Activity)
        ensures
            r == *self,
    {
        Activity {
            id: self.id,
            action: self.action.clone(),
            action_by_id: self.action_by_id,
            action_at: self.action_at,
            ip_address: copy_text(&self.ip_address),
            user_agent: copy_text(&self.user_agent),
            table_name: copy_text(&self.table_name),
            item_id: copy_text(&self.item_id),
            old_data: copy_text(&self.old_data),
            new_data: copy_text(&self.new_data),
        }
    }
}

impl User {
    /// A field-by-field copy (byte fields by content).
    pub fn copy(&self) -> (r: User)
        ensures
            same_user(r, *self),
    {
        User {
            id: self.id,
            email: self.email.clone(),
            first_name: copy_text(&self.first_name),
            last_name: copy_text(&self.last_name),
            salt: self.salt.clone(),
            hash: self.hash.clone(),
            description: copy_text(&self.description),
            title: copy_text(&self.title),
            location: copy_text(&self.location),
            language: self.language,
            role: self.role,
            theme: self.theme,
            avatar: copy_text(&self.avatar),
            online_status: self.online_status,
            last_active_at: self.last_active_at,
            updated_at: self.updated_at,
            updated_by: self.updated_by,
            created_at: self.created_at,
            created_by: self.created_by,
            deleted_at: self.deleted_at,
            deleted_by: self.deleted_by,
        }
    }
}

// ---------------------------------------------------------------------------
// Scans.

proof fn lemma_prefix_step<T>(s: Seq<T>, i: int)
    requires
        0 <= i < s.len(),
    ensures
        s.subrange(0, i + 1).drop_last() == s.subrange(0, i),
        s.subrange(0, i + 1).last() == s[i],
{
    assert(s.subrange(0, i + 1).drop_last() =~= s.subrange(0, i));
}

/// Index of the last token whose value is `v`.
pub fn find_token_by_value(tokens: &Vec<Token>, v: &String) -> (r: Option<usize>)
    ensures
        r matches Some(i) ==> i < tokens@.len() && token_by_value(tokens@, v@) == Some(tokens@[i as int]),
        r is None ==> token_by_value(tokens@, v@) is None,
{
    let mut found: Option<usize> = None;
    let mut i: usize = 0;
    while i < tokens.len()
        invariant
            i <= tokens@.len(),
            found matches Some(j) ==> j < i && token_by_value(tokens@.subrange(0, i as int), v@)
                == Some(tokens@[j as int]),
            found is None ==> token_by_value(tokens@.subrange(0, i as int), v@) is None,
        decreases tokens@.len() - i,
    {
        proof {
            lemma_prefix_step(tokens@, i as int);
        }
        if tokens[i].token == *v {
            found = Some(i);
        }
        i = i + 1;
    }
    assert(tokens@.subrange(0, tokens@.len() as int) =~= tokens@);
    found
}

/// Index of the last token with id `id`.
pub fn find_token_by_id(tokens: &Vec<Token>, id: i32) -> (r: Option<usize>)
    ensures
        r matches Some(i) ==> i < tokens@.len() && token_by_id(tokens@, id) == Some(tokens@[i as int])
            && tokens@[i as int].id == id,
        r is None ==> token_by_id(tokens@, id) is None,
{
    let mut found: Option<usize> = None;
    let mut i: usize = 0;
    while i < tokens.len()
        invariant
            i <= tokens@.len(),
            found matches Some(j) ==> j < i && token_by_id(tokens@.subrange(0, i as int), id)
                == Some(tokens@[j as int]) && tokens@[j as int].id == id,
            found is None ==> token_by_id(tokens@.subrange(0, i as int), id) is None,
        decreases tokens@.len() - i,
    {
        proof {
            lemma_prefix_step(tokens@, i as int);
        }
        if tokens[i].id == id {
            found = Some(i);
        }
        i = i + 1;
    }
    assert(tokens@.subrange(0, tokens@.len() as int) =~= tokens@);
    found
}

/// Removes every token whose value is `v`; returns the last one removed.
pub fn remove_tokens_with_value(tokens: &mut Vec<Token>, v: &String) -> (r: Option<Token>)
    ensures
        final(tokens)@ == tokens_without_value(old(tokens)@, v@),
        r == token_by_value(old(tokens)@, v@),
{
    let ghost orig = tokens@;
    let ghost n = orig.len();
    let ghost mut k: int = 0;
    let mut removed: Option<Token> = None;
    let mut i: usize = 0;
    while i < tokens.len()
        invariant
            0 <= k <= n,
            n == orig.len(),
            tokens@ == tokens_without_value(orig.subrange(0, k), v@) + orig.subrange(k, n as int),
            i == tokens_without_value(orig.subrange(0, k), v@).len(),
            removed == token_by_value(orig.subrange(0, k), v@),
        decreases tokens@.len() - i,
    {
        proof {
            lemma_prefix_step(orig, k);
            assert(tokens@[i as int] == orig[k]);
        }
        if tokens[i].token == *v {
            removed = Some(tokens.remove(i));
            proof {
                assert(orig.subrange(k + 1, n as int) =~= orig.subrange(k, n as int).drop_first());
                k = k + 1;
                assert(tokens@ =~= tokens_without_value(orig.subrange(0, k), v@) + orig.subrange(k, n as int));
            }
        } else {
            i = i + 1;
            proof {
                k = k + 1;
                assert(tokens@ =~= tokens_without_value(orig.subrange(0, k), v@) + orig.subrange(k, n as int));
            }
        }
    }
    proof {
        if k < n {
            assert(tokens@.len() > i);
        }
        assert(orig.subrange(0, n as int) =~= orig);
        assert(orig.subrange(n as int, n as int) =~= Seq::<Token>::empty());
        assert(tokens@ =~= tokens_without_value(orig, v@));
    }
    removed
}


/// The last session that refers to token `token_id`.
pub open spec fn session_by_token(s: Seq<Session>, token_id: i32) -> Option<Session>
    decreases s.len(),
{
    if s.len() == 0 {
        None
    } else if s.last().token_id == token_id {
        Some(s.last())
    } else {
        session_by_token(s.drop_last(), token_id)
    }
}

/// Index of the last user with id `id`.
pub fn find_user_by_id(users: &Vec<User>, id: UserId) -> (r: Option<usize>)
    ensures
        r matches Some(i) ==> i < users@.len() && user_index_by_id(users@, id) == i,
        r is None ==> user_index_by_id(users@, id) == -1,
{
    let mut found: Option<usize> = None;
    let mut i: usize = 0;
    while i < users.len()
        invariant
            i <= users@.len(),
            found matches Some(j) ==> j < i && user_index_by_id(users@.subrange(0, i as int), id) == j,
            found is None ==> user_index_by_id(users@.subrange(0, i as int), id) == -1,
        decreases users@.len() - i,
    {
        proof {
            lemma_prefix_step(users@, i as int);
            lemma_user_index_by_id_bounded(users@.subrange(0, i as int), id);
        }
        if users[i].id == id {
            found = Some(i);
        }
        i = i + 1;
    }
    assert(users@.subrange(0, users@.len() as int) =~= users@);
    found
}

/// Index of the last user with email `email`.
pub fn find_user_by_email(users: &Vec<User>, email: &String) -> (r: Option<usize>)
    ensures
        r matches Some(i) ==> i < users@.len() && user_index_by_email(users@, email@) == i,
        r is None ==> user_index_by_email(users@, email@) == -1,
{
    let mut found: Option<usize> = None;
    let mut i: usize = 0;
    while i < users.len()
        invariant
            i <= users@.len(),
            found matches Some(j) ==> j < i && user_index_by_email(users@.subrange(0, i as int), email@) == j,
            found is None ==> user_index_by_email(users@.subrange(0, i as int), email@) == -1,
        decreases users@.len() - i,
    {
        proof {
            lemma_prefix_step(users@, i as int);
            lemma_user_index_by_email_bounded(users@.subrange(0, i as int), email@);
        }
        if users[i].email == *email {
            found = Some(i);
        }
        i = i + 1;
    }
    assert(users@.subrange(0, users@.len() as int) =~= users@);
    found
}

/// A found user index is in range and points at that id.
pub proof fn lemma_user_index_by_id_bounded(s: Seq<User>, id: UserId)
    ensures
        -1 <= user_index_by_id(s, id) < s.len(),
        user_index_by_id(s, id) >= 0 ==> s[user_index_by_id(s, id)].id == id,
    decreases s.len(),
{
    if s.len() > 0 && s.last().id != id {
        lemma_user_index_by_id_bounded(s.drop_last(), id);
    }
}

/// A found user index is in range and points at that email.
pub proof fn lemma_user_index_by_email_bounded(s: Seq<User>, email: Seq<char>)
    ensures
        -1 <= user_index_by_email(s, email) < s.len(),
        user_index_by_email(s, email) >= 0 ==> s[user_index_by_email(s, email)].email@ == email,
    decreases s.len(),
{
    if s.len() > 0 && s.last().email@ != email {
        lemma_user_index_by_email_bounded(s.drop_last(), email);
    }
}

/// Copies of the static-access tokens of `user`, in order.
pub fn copy_access_tokens(tokens: &Vec<Token>, user: UserId) -> (r: Vec<Token>)
    ensures
        r@ == access_tokens_of(tokens@, user),
{
    let mut out: Vec<Token> = Vec::new();
    let mut i: usize = 0;
    while i < tokens.len()
        invariant
            i <= tokens@.len(),
            out@ == access_tokens_of(tokens@.subrange(0, i as int), user),
        decreases tokens@.len() - i,
    {
        proof {
            lemma_prefix_step(tokens@, i as int);
        }
        if tokens[i].user_id == user && tokens[i].token_type == TokenType::StaticAccess {
            out.push(tokens[i].copy());
        }
        i = i + 1;
    }
    assert(tokens@.subrange(0, tokens@.len() as int) =~= tokens@);
    out
}

/// Removes every token with id `key`; returns the last one removed.
pub fn remove_tokens_with_id(rows: &mut Vec<Token>, key: i32) -> (r: Option<Token>)
    ensures
        final(rows)@ == tokens_without_id(old(rows)@, key),
        r == token_by_id(old(rows)@, key),
{
    let ghost orig = rows@;
    let ghost n = orig.len();
    let ghost mut k: int = 0;
    let mut removed: Option<Token> = None;
    let mut i: usize = 0;
    while i < rows.len()
        invariant
            0 <= k <= n,
            n == orig.len(),
            rows@ == tokens_without_id(orig.subrange(0, k), key) + orig.subrange(k, n as int),
            i == tokens_without_id(orig.subrange(0, k), key).len(),
            removed == token_by_id(orig.subrange(0, k), key),
        decreases rows@.len() - i,
    {
        proof {
            lemma_prefix_step(orig, k);
            assert(rows@[i as int] == orig[k]);
        }
        if rows[i].id == key {
            removed = Some(rows.remove(i));
            proof {
                assert(orig.subrange(k + 1, n as int) =~= orig.subrange(k, n as int).drop_first());
                k = k + 1;
                assert(rows@ =~= tokens_without_id(orig.subrange(0, k), key) + orig.subrange(k, n as int));
            }
        } else {
            i = i + 1;
            proof {
                k = k + 1;
                assert(rows@ =~= tokens_without_id(orig.subrange(0, k), key) + orig.subrange(k, n as int));
            }
        }
    }
    proof {
        if k < n {
            assert(rows@.len() > i);
        }
        assert(orig.subrange(0, n as int) =~= orig);
        assert(orig.subrange(n as int, n as int) =~= Seq::<Token>::empty());
        assert(rows@ =~= tokens_without_id(orig, key));
    }
    removed
}

/// Removes every session of token `key`; returns the last one removed.
pub fn remove_sessions_of_token(rows: &mut Vec<Session>, key: i32) -> (r: Option<Session>)
    ensures
        final(rows)@ == sessions_without_token(old(rows)@, key),
        r == session_by_token(old(rows)@, key),
{
    let ghost orig = rows@;
    let ghost n = orig.len();
    let ghost mut k: int = 0;
    let mut removed: Option<Session> = None;
    let mut i: usize = 0;
    while i < rows.len()
        invariant
            0 <= k <= n,
            n == orig.len(),
            rows@ == sessions_without_token(orig.subrange(0, k), key) + orig.subrange(k, n as int),
            i == sessions_without_token(orig.subrange(0, k), key).len(),
            removed == session_by_token(orig.subrange(0, k), key),
        decreases rows@.len() - i,
    {
        proof {
            lemma_prefix_step(orig, k);
            assert(rows@[i as int] == orig[k]);
        }
        if rows[i].token_id == key {
            removed = Some(rows.remove(i));
            proof {
                assert(orig.subrange(k + 1, n as int) =~= orig.subrange(k, n as int).drop_first());
                k = k + 1;
                assert(rows@ =~= sessions_without_token(orig.subrange(0, k), key) + orig.subrange(k, n as int));
            }
        } else {
            i = i + 1;
            proof {
                k = k + 1;
                assert(rows@ =~= sessions_without_token(orig.subrange(0, k), key) + orig.subrange(k, n as int));
            }
        }
    }
    proof {
        if k < n {
            assert(rows@.len() > i);
        }
        assert(orig.subrange(0, n as int) =~= orig);
        assert(orig.subrange(n as int, n as int) =~= Seq::<Session>::empty());
        assert(rows@ =~= sessions_without_token(orig, key));
    }
    removed
}

/// Removes every session with id `key`; returns the last one removed.
pub fn remove_sessions_with_id(rows: &mut Vec<Session>, key: i32) -> (r: Option<Session>)
    ensures
        final(rows)@ == sessions_without_id(old(rows)@, key),
        r == session_by_id(old(rows)@, key),
{
    let ghost orig = rows@;
    let ghost n = orig.len();
    let ghost mut k: int = 0;
    let mut removed: Option<Session> = None;
    let mut i: usize = 0;
    while i < rows.len()
        invariant
            0 <= k <= n,
            n == orig.len(),
            rows@ == sessions_without_id(orig.subrange(0, k), key) + orig.subrange(k, n as int),
            i == sessions_without_id(orig.subrange(0, k), key).len(),
            removed == session_by_id(orig.subrange(0, k), key),
        decreases rows@.len() - i,
    {
        proof {
            lemma_prefix_step(orig, k);
            assert(rows@[i as int] == orig[k]);
        }
        if rows[i].id == key {
            removed = Some(rows.remove(i));
            proof {
                assert(orig.subrange(k + 1, n as int) =~= orig.subrange(k, n as int).drop_first());
                k = k + 1;
                assert(rows@ =~= sessions_without_id(orig.subrange(0, k), key) + orig.subrange(k, n as int));
            }
        } else {
            i = i + 1;
            proof {
                k = k + 1;
                assert(rows@ =~= sessions_without_id(orig.subrange(0, k), key) + orig.subrange(k, n as int));
            }
        }
    }
    proof {
        if k < n {
            assert(rows@.len() > i);
        }
        assert(orig.subrange(0, n as int) =~= orig);
        assert(orig.subrange(n as int, n as int) =~= Seq::<Session>::empty());
        assert(rows@ =~= sessions_without_id(orig, key));
    }
    removed
}

/// Index of the last session with id `id`.
pub fn find_session_by_id(sessions: &Vec<Session>, id: i32) -> (r: Option<usize>)
    ensures
        r matches Some(i) ==> i < sessions@.len() && session_by_id(sessions@, id) == Some(sessions@[i as int])
            && sessions@[i as int].id == id,
        r is None ==> session_by_id(sessions@, id) is None,
{
    let mut found: Option<usize> = None;
    let mut i: usize = 0;
    while i < sessions.len()
        invariant
            i <= sessions@.len(),
            found matches Some(j) ==> j < i && session_by_id(sessions@.subrange(0, i as int), id)
                == Some(sessions@[j as int]) && sessions@[j as int].id == id,
            found is None ==> session_by_id(sessions@.subrange(0, i as int), id) is None,
        decreases sessions@.len() - i,
    {
        proof {
            lemma_prefix_step(sessions@, i as int);
        }
        if sessions[i].id == id {
            found = Some(i);
        }
        i = i + 1;
    }
    assert(sessions@.subrange(0, sessions@.len() as int) =~= sessions@);
    found
}

/// After removing the tokens of value `v`, no token has that value.
pub proof fn lemma_no_token_with_removed_value(s: Seq<Token>, v: Seq<char>)
    ensures
        !has_token_value(tokens_without_value(s, v), v),
        token_by_value(tokens_without_value(s, v), v) is None,
    decreases s.len(),
{
    if s.len() > 0 {
        lemma_no_token_with_removed_value(s.drop_last(), v);
        let rest = tokens_without_value(s.drop_last(), v);
        if s.last().token@ != v {
            let r = rest.push(s.last());
            assert(r.drop_last() =~= rest);
            assert forall|i: int| 0 <= i < r.len() implies #[trigger] r[i].token@ != v by {
                if i < rest.len() {
                    assert(r[i] == rest[i]);
                }
            }
        }
    }
}

/// After removing the sessions of token `token_id`, none refers to it.
pub proof fn lemma_no_session_of_removed_token(s: Seq<Session>, token_id: i32)
    ensures
        !has_session_for_token(sessions_without_token(s, token_id), token_id),
    decreases s.len(),
{
    if s.len() > 0 {
        lemma_no_session_of_removed_token(s.drop_last(), token_id);
        let rest = sessions_without_token(s.drop_last(), token_id);
        if s.last().token_id != token_id {
            let r = rest.push(s.last());
            assert forall|i: int| 0 <= i < r.len() implies #[trigger] r[i].token_id != token_id by {
                if i < rest.len() {
                    assert(r[i] == rest[i]);
                }
            }
        }
    }
}

/// Removing a value that no token has leaves the tokens as they are.
pub proof fn lemma_without_absent_value(s: Seq<Token>, v: Seq<char>)
    requires
        token_by_value(s, v) is None,
    ensures
        tokens_without_value(s, v) == s,
    decreases s.len(),
{
    if s.len() > 0 {
        lemma_without_absent_value(s.drop_last(), v);
        assert(s.drop_last().push(s.last()) =~= s);
    }
}

// ---------------------------------------------------------------------------
// Well-formedness of the tables.

/// No two tokens share a value.
pub open spec fn token_values_unique(s: Seq<Token>) -> bool {
    forall|i: int, j: int| #![trigger s[i], s[j]] 0 <= i < s.len() && 0 <= j < s.len() && i != j ==> s[i].token@ != s[j].token@
}

/// Some token has id `id`.
pub open spec fn has_token_id(s: Seq<Token>, id: i32) -> bool {
    exists|k: int| 0 <= k < s.len() && #[trigger] s[k].id == id
}

/// Every session is bound to a token that exists.
pub open spec fn sessions_bound(ss: Seq<Session>, ts: Seq<Token>) -> bool {
    forall|i: int| 0 <= i < ss.len() ==> has_token_id(ts, #[trigger] ss[i].token_id)
}

/// No two users share an id or an email.
pub open spec fn user_keys_unique(u: Seq<User>) -> bool {
    forall|i: int, j: int| #![trigger u[i], u[j]] 0 <= i < u.len() && 0 <= j < u.len() && i != j
        ==> u[i].id != u[j].id && u[i].email@ != u[j].email@
}

/// Every two distinct tokens of `s` satisfy `p`.
pub open spec fn tokens_pairwise(s: Seq<Token>, p: spec_fn(Token, Token) -> bool) -> bool {
    forall|i: int, j: int| #![trigger s[i], s[j]] 0 <= i < s.len() && 0 <= j < s.len() && i != j ==> p(s[i], s[j])
}

/// Every two distinct sessions of `s` satisfy `p`.
pub open spec fn sessions_pairwise(s: Seq<Session>, p: spec_fn(Session, Session) -> bool) -> bool {
    forall|i: int, j: int| #![trigger s[i], s[j]] 0 <= i < s.len() && 0 <= j < s.len() && i != j ==> p(s[i], s[j])
}

/// Distinct tokens have distinct ids.
pub open spec fn distinct_token_ids() -> spec_fn(Token, Token) -> bool {
    |a: Token, b: Token| a.id != b.id
}

/// Distinct sessions have distinct ids and are bound to distinct tokens.
pub open spec fn distinct_session_keys() -> spec_fn(Session, Session) -> bool {
    |a: Session, b: Session| a.id != b.id && a.token_id != b.token_id
}

/// Every token id is below `next`.
pub open spec fn token_ids_below(s: Seq<Token>, next: i32) -> bool {
    forall|i: int| 0 <= i < s.len() ==> (#[trigger] s[i]).id < next
}

/// Every session id is below `next`.
pub open spec fn session_ids_below(s: Seq<Session>, next: i32) -> bool {
    forall|i: int| 0 <= i < s.len() ==> (#[trigger] s[i]).id < next
}

/// The invariant of the tables: token values and token ids are unique and
/// below the next token id; session ids are unique and below the next
/// session id; a token has at most one session, and a session never
/// outlives its token; user ids and emails are unique.
pub open spec fn store_wf(st: StoreView) -> bool {
    &&& token_values_unique(st.tokens)
    &&& tokens_pairwise(st.tokens, distinct_token_ids())
    &&& token_ids_below(st.tokens, st.next_token_id)
    &&& sessions_pairwise(st.sessions, distinct_session_keys())
    &&& session_ids_below(st.sessions, st.next_session_id)
    &&& sessions_bound(st.sessions, st.tokens)
    &&& user_keys_unique(st.users)
}

/// A value that no lookup finds is held by no token.
pub proof fn lemma_absent_value(s: Seq<Token>, v: Seq<char>)
    requires
        token_by_value(s, v) is None,
    ensures
        forall|k: int| 0 <= k < s.len() ==> (#[trigger] s[k]).token@ != v,
    decreases s.len(),
{
    if s.len() > 0 {
        lemma_absent_value(s.drop_last(), v);
        assert forall|k: int| 0 <= k < s.len() implies (#[trigger] s[k]).token@ != v by {
            if k < s.len() - 1 {
                assert(s[k] == s.drop_last()[k]);
            }
        }
    }
}

/// With unique values, the token holding a value is the one found for it.
pub proof fn lemma_unique_value_found(s: Seq<Token>, v: Seq<char>, k: int)
    requires
        token_values_unique(s),
        0 <= k < s.len(),
        s[k].token@ == v,
    ensures
        token_by_value(s, v) == Some(s[k]),
    decreases s.len(),
{
    if k < s.len() - 1 {
        assert(s[k] == s.drop_last()[k]);
        assert(s.last().token@ != v) by {
            assert(s[s.len() - 1] == s.last());
        }
        assert(token_values_unique(s.drop_last())) by {
            assert forall|i: int, j: int| #![trigger s.drop_last()[i], s.drop_last()[j]]
                0 <= i < s.drop_last().len() && 0 <= j < s.drop_last().len() && i != j
                implies s.drop_last()[i].token@ != s.drop_last()[j].token@ by {
                assert(s.drop_last()[i] == s[i] && s.drop_last()[j] == s[j]);
            }
        }
        lemma_unique_value_found(s.drop_last(), v, k);
    }
}

/// What `tokens_without_value` keeps: exactly the tokens of other values,
/// each taken from the input.
pub proof fn lemma_tokens_without_value_members(s: Seq<Token>, v: Seq<char>)
    ensures
        forall|i: int| 0 <= i < tokens_without_value(s, v).len() ==> exists|k: int| 0 <= k < s.len()
            && s[k] == #[trigger] tokens_without_value(s, v)[i],
        forall|i: int| 0 <= i < tokens_without_value(s, v).len() ==> (#[trigger] tokens_without_value(s, v)[i]).token@ != v,
        forall|k: int| 0 <= k < s.len() && (#[trigger] s[k]).token@ != v ==> tokens_without_value(s, v).contains(s[k]),
    decreases s.len(),
{
    if s.len() > 0 {
        let d = s.drop_last();
        lemma_tokens_without_value_members(d, v);
        let rest = tokens_without_value(d, v);
        let r = tokens_without_value(s, v);
        assert forall|i: int| 0 <= i < r.len() implies exists|k: int| 0 <= k < s.len() && s[k] == #[trigger] r[i] by {
            if i < rest.len() {
                assert(r[i] == rest[i]);
                let k = choose|k: int| 0 <= k < d.len() && d[k] == rest[i];
                assert(s[k] == d[k]);
            } else {
                assert(r[i] == s[s.len() - 1]);
            }
        }
        assert forall|i: int| 0 <= i < r.len() implies (#[trigger] r[i]).token@ != v by {
            if i < rest.len() {
                assert(r[i] == rest[i]);
            }
        }
        assert forall|k: int| 0 <= k < s.len() && (#[trigger] s[k]).token@ != v implies r.contains(s[k]) by {
            if k < s.len() - 1 {
                assert(s[k] == d[k]);
                let j = choose|j: int| 0 <= j < rest.len() && rest[j] == d[k];
                if s.last().token@ != v {
                    assert(r[j] == rest[j]);
                } else {
                    assert(r == rest);
                }
            } else {
                assert(r[r.len() - 1] == s[k]);
            }
        }
    }
}

/// What `tokens_without_id` keeps: exactly the tokens of other ids, each
/// taken from the input.
pub proof fn lemma_tokens_without_id_members(s: Seq<Token>, id: i32)
    ensures
        forall|i: int| 0 <= i < tokens_without_id(s, id).len() ==> exists|k: int| 0 <= k < s.len()
            && s[k] == #[trigger] tokens_without_id(s, id)[i],
        forall|k: int| 0 <= k < s.len() && (#[trigger] s[k]).id != id ==> tokens_without_id(s, id).contains(s[k]),
    decreases s.len(),
{
    if s.len() > 0 {
        let d = s.drop_last();
        lemma_tokens_without_id_members(d, id);
        let rest = tokens_without_id(d, id);
        let r = tokens_without_id(s, id);
        assert forall|i: int| 0 <= i < r.len() implies exists|k: int| 0 <= k < s.len() && s[k] == #[trigger] r[i] by {
            if i < rest.len() {
                assert(r[i] == rest[i]);
                let k = choose|k: int| 0 <= k < d.len() && d[k] == rest[i];
                assert(s[k] == d[k]);
            } else {
                assert(r[i] == s[s.len() - 1]);
            }
        }
        assert forall|k: int| 0 <= k < s.len() && (#[trigger] s[k]).id != id implies r.contains(s[k]) by {
            if k < s.len() - 1 {
                assert(s[k] == d[k]);
                let j = choose|j: int| 0 <= j < rest.len() && rest[j] == d[k];
                if s.last().id != id {
                    assert(r[j] == rest[j]);
                } else {
                    assert(r == rest);
                }
            } else {
                assert(r[r.len() - 1] == s[k]);
            }
        }
    }
}

/// Each session kept by `sessions_without_token` comes from the input and is
/// bound to another token.
pub proof fn lemma_sessions_without_token_members(s: Seq<Session>, id: i32)
    ensures
        forall|i: int| 0 <= i < sessions_without_token(s, id).len() ==> exists|k: int| 0 <= k < s.len()
            && s[k] == #[trigger] sessions_without_token(s, id)[i],
        forall|i: int| 0 <= i < sessions_without_token(s, id).len() ==> (#[trigger] sessions_without_token(s, id)[i]).token_id != id,
    decreases s.len(),
{
    if s.len() > 0 {
        let d = s.drop_last();
        lemma_sessions_without_token_members(d, id);
        let rest = sessions_without_token(d, id);
        let r = sessions_without_token(s, id);
        assert forall|i: int| 0 <= i < r.len() implies exists|k: int| 0 <= k < s.len() && s[k] == #[trigger] r[i] by {
            if i < rest.len() {
                assert(r[i] == rest[i]);
                let k = choose|k: int| 0 <= k < d.len() && d[k] == rest[i];
                assert(s[k] == d[k]);
            } else {
                assert(r[i] == s[s.len() - 1]);
            }
        }
        assert forall|i: int| 0 <= i < r.len() implies (#[trigger] r[i]).token_id != id by {
            if i < rest.len() {
                assert(r[i] == rest[i]);
            }
        }
    }
}

/// Each session kept by `sessions_without_id` comes from the input.
pub proof fn lemma_sessions_without_id_members(s: Seq<Session>, id: i32)
    ensures
        forall|i: int| 0 <= i < sessions_without_id(s, id).len() ==> exists|k: int| 0 <= k < s.len()
            && s[k] == #[trigger] sessions_without_id(s, id)[i],
    decreases s.len(),
{
    if s.len() > 0 {
        let d = s.drop_last();
        lemma_sessions_without_id_members(d, id);
        let rest = sessions_without_id(d, id);
        let r = sessions_without_id(s, id);
        assert forall|i: int| 0 <= i < r.len() implies exists|k: int| 0 <= k < s.len() && s[k] == #[trigger] r[i] by {
            if i < rest.len() {
                assert(r[i] == rest[i]);
                let k = choose|k: int| 0 <= k < d.len() && d[k] == rest[i];
                assert(s[k] == d[k]);
            } else {
                assert(r[i] == s[s.len() - 1]);
            }
        }
    }
}

/// Removing tokens by value keeps values unique.
pub proof fn lemma_tokens_without_value_unique(s: Seq<Token>, v: Seq<char>)
    requires
        token_values_unique(s),
    ensures
        token_values_unique(tokens_without_value(s, v)),
    decreases s.len(),
{
    if s.len() > 0 {
        let d = s.drop_last();
        assert(token_values_unique(d)) by {
            assert forall|i: int, j: int| #![trigger d[i], d[j]] 0 <= i < d.len() && 0 <= j < d.len() && i != j
                implies d[i].token@ != d[j].token@ by {
                assert(d[i] == s[i] && d[j] == s[j]);
            }
        }
        lemma_tokens_without_value_unique(d, v);
        lemma_tokens_without_value_members(d, v);
        let rest = tokens_without_value(d, v);
        let r = tokens_without_value(s, v);
        if s.last().token@ != v {
            assert forall|i: int, j: int| #![trigger r[i], r[j]] 0 <= i < r.len() && 0 <= j < r.len() && i != j
                implies r[i].token@ != r[j].token@ by {
                if i < rest.len() && j < rest.len() {
                    assert(r[i] == rest[i] && r[j] == rest[j]);
                } else if i < rest.len() {
                    assert(r[i] == rest[i]);
                    let k = choose|k: int| 0 <= k < d.len() && d[k] == #[trigger] rest[i];
                    assert(s[k] == d[k]);
                    assert(r[j] == s[s.len() - 1]);
                } else {
                    assert(r[j] == rest[j]);
                    let k = choose|k: int| 0 <= k < d.len() && d[k] == #[trigger] rest[j];
                    assert(s[k] == d[k]);
                    assert(r[i] == s[s.len() - 1]);
                }
            }
        }
    }
}

/// Removing tokens by id keeps values unique.
pub proof fn lemma_tokens_without_id_unique(s: Seq<Token>, id: i32)
    requires
        token_values_unique(s),
    ensures
        token_values_unique(tokens_without_id(s, id)),
    decreases s.len(),
{
    if s.len() > 0 {
        let d = s.drop_last();
        assert(token_values_unique(d)) by {
            assert forall|i: int, j: int| #![trigger d[i], d[j]] 0 <= i < d.len() && 0 <= j < d.len() && i != j
                implies d[i].token@ != d[j].token@ by {
                assert(d[i] == s[i] && d[j] == s[j]);
            }
        }
        lemma_tokens_without_id_unique(d, id);
        lemma_tokens_without_id_members(d, id);
        let rest = tokens_without_id(d, id);
        let r = tokens_without_id(s, id);
        if s.last().id != id {
            assert forall|i: int, j: int| #![trigger r[i], r[j]] 0 <= i < r.len() && 0 <= j < r.len() && i != j
                implies r[i].token@ != r[j].token@ by {
                if i < rest.len() && j < rest.len() {
                    assert(r[i] == rest[i] && r[j] == rest[j]);
                } else if i < rest.len() {
                    assert(r[i] == rest[i]);
                    let k = choose|k: int| 0 <= k < d.len() && d[k] == #[trigger] rest[i];
                    assert(s[k] == d[k]);
                    assert(r[j] == s[s.len() - 1]);
                } else {
                    assert(r[j] == rest[j]);
                    let k = choose|k: int| 0 <= k < d.len() && d[k] == #[trigger] rest[j];
                    assert(s[k] == d[k]);
                    assert(r[i] == s[s.len() - 1]);
                }
            }
        }
    }
}

/// An id and an email that no lookup finds are held by no user.
pub proof fn lemma_user_index_absent(s: Seq<User>, id: UserId, email: Seq<char>)
    requires
        user_index_by_id(s, id) == -1,
        user_index_by_email(s, email) == -1,
    ensures
        forall|k: int| 0 <= k < s.len() ==> (#[trigger] s[k]).id != id && s[k].email@ != email,
    decreases s.len(),
{
    if s.len() > 0 {
        lemma_user_index_absent(s.drop_last(), id, email);
        assert forall|k: int| 0 <= k < s.len() implies (#[trigger] s[k]).id != id && s[k].email@ != email by {
            if k < s.len() - 1 {
                assert(s[k] == s.drop_last()[k]);
            }
        }
    }
}

/// `tokens_without_value` keeps every pairwise property of its input.
pub proof fn lemma_tokens_without_value_pairwise(s: Seq<Token>, k: Seq<char>, p: spec_fn(Token, Token) -> bool)
    requires
        tokens_pairwise(s, p),
    ensures
        tokens_pairwise(tokens_without_value(s, k), p),
    decreases s.len(),
{
    if s.len() > 0 {
        let d = s.drop_last();
        assert(tokens_pairwise(d, p)) by {
            assert forall|i: int, j: int| #![trigger d[i], d[j]] 0 <= i < d.len() && 0 <= j < d.len() && i != j
                implies p(d[i], d[j]) by {
                assert(d[i] == s[i] && d[j] == s[j]);
            }
        }
        lemma_tokens_without_value_pairwise(d, k, p);
        lemma_tokens_without_value_members(d, k);
        let rest = tokens_without_value(d, k);
        let r = tokens_without_value(s, k);
        if s.last().token@ != k {
            assert forall|i: int, j: int| #![trigger r[i], r[j]] 0 <= i < r.len() && 0 <= j < r.len() && i != j
                implies p(r[i], r[j]) by {
                if i < rest.len() && j < rest.len() {
                    assert(r[i] == rest[i] && r[j] == rest[j]);
                } else if i < rest.len() {
                    assert(r[i] == rest[i]);
                    let m = choose|m: int| 0 <= m < d.len() && d[m] == #[trigger] rest[i];
                    assert(s[m] == d[m]);
                    assert(r[j] == s[s.len() - 1]);
                } else {
                    assert(r[j] == rest[j]);
                    let m = choose|m: int| 0 <= m < d.len() && d[m] == #[trigger] rest[j];
                    assert(s[m] == d[m]);
                    assert(r[i] == s[s.len() - 1]);
                }
            }
        }
    }
}

/// `tokens_without_id` keeps every pairwise property of its input.
pub proof fn lemma_tokens_without_id_pairwise(s: Seq<Token>, k: i32, p: spec_fn(Token, Token) -> bool)
    requires
        tokens_pairwise(s, p),
    ensures
        tokens_pairwise(tokens_without_id(s, k), p),
    decreases s.len(),
{
    if s.len() > 0 {
        let d = s.drop_last();
        assert(tokens_pairwise(d, p)) by {
            assert forall|i: int, j: int| #![trigger d[i], d[j]] 0 <= i < d.len() && 0 <= j < d.len() && i != j
                implies p(d[i], d[j]) by {
                assert(d[i] == s[i] && d[j] == s[j]);
            }
        }
        lemma_tokens_without_id_pairwise(d, k, p);
        lemma_tokens_without_id_members(d, k);
        let rest = tokens_without_id(d, k);
        let r = tokens_without_id(s, k);
        if s.last().id != k {
            assert forall|i: int, j: int| #![trigger r[i], r[j]] 0 <= i < r.len() && 0 <= j < r.len() && i != j
                implies p(r[i], r[j]) by {
                if i < rest.len() && j < rest.len() {
                    assert(r[i] == rest[i] && r[j] == rest[j]);
                } else if i < rest.len() {
                    assert(r[i] == rest[i]);
                    let m = choose|m: int| 0 <= m < d.len() && d[m] == #[trigger] rest[i];
                    assert(s[m] == d[m]);
                    assert(r[j] == s[s.len() - 1]);
                } else {
                    assert(r[j] == rest[j]);
                    let m = choose|m: int| 0 <= m < d.len() && d[m] == #[trigger] rest[j];
                    assert(s[m] == d[m]);
                    assert(r[i] == s[s.len() - 1]);
                }
            }
        }
    }
}

/// `sessions_without_token` keeps every pairwise property of its input.
pub proof fn lemma_sessions_without_token_pairwise(s: Seq<Session>, k: i32, p: spec_fn(Session, Session) -> bool)
    requires
        sessions_pairwise(s, p),
    ensures
        sessions_pairwise(sessions_without_token(s, k), p),
    decreases s.len(),
{
    if s.len() > 0 {
        let d = s.drop_last();
        assert(sessions_pairwise(d, p)) by {
            assert forall|i: int, j: int| #![trigger d[i], d[j]] 0 <= i < d.len() && 0 <= j < d.len() && i != j
                implies p(d[i], d[j]) by {
                assert(d[i] == s[i] && d[j] == s[j]);
            }
        }
        lemma_sessions_without_token_pairwise(d, k, p);
        lemma_sessions_without_token_members(d, k);
        let rest = sessions_without_token(d, k);
        let r = sessions_without_token(s, k);
        if s.last().token_id != k {
            assert forall|i: int, j: int| #![trigger r[i], r[j]] 0 <= i < r.len() && 0 <= j < r.len() && i != j
                implies p(r[i], r[j]) by {
                if i < rest.len() && j < rest.len() {
                    assert(r[i] == rest[i] && r[j] == rest[j]);
                } else if i < rest.len() {
                    assert(r[i] == rest[i]);
                    let m = choose|m: int| 0 <= m < d.len() && d[m] == #[trigger] rest[i];
                    assert(s[m] == d[m]);
                    assert(r[j] == s[s.len() - 1]);
                } else {
                    assert(r[j] == rest[j]);
                    let m = choose|m: int| 0 <= m < d.len() && d[m] == #[trigger] rest[j];
                    assert(s[m] == d[m]);
                    assert(r[i] == s[s.len() - 1]);
                }
            }
        }
    }
}

/// `sessions_without_id` keeps every pairwise property of its input.
pub proof fn lemma_sessions_without_id_pairwise(s: Seq<Session>, k: i32, p: spec_fn(Session, Session) -> bool)
    requires
        sessions_pairwise(s, p),
    ensures
        sessions_pairwise(sessions_without_id(s, k), p),
    decreases s.len(),
{
    if s.len() > 0 {
        let d = s.drop_last();
        assert(sessions_pairwise(d, p)) by {
            assert forall|i: int, j: int| #![trigger d[i], d[j]] 0 <= i < d.len() && 0 <= j < d.len() && i != j
                implies p(d[i], d[j]) by {
                assert(d[i] == s[i] && d[j] == s[j]);
            }
        }
        lemma_sessions_without_id_pairwise(d, k, p);
        lemma_sessions_without_id_members(d, k);
        let rest = sessions_without_id(d, k);
        let r = sessions_without_id(s, k);
        if s.last().id != k {
            assert forall|i: int, j: int| #![trigger r[i], r[j]] 0 <= i < r.len() && 0 <= j < r.len() && i != j
                implies p(r[i], r[j]) by {
                if i < rest.len() && j < rest.len() {
                    assert(r[i] == rest[i] && r[j] == rest[j]);
                } else if i < rest.len() {
                    assert(r[i] == rest[i]);
                    let m = choose|m: int| 0 <= m < d.len() && d[m] == #[trigger] rest[i];
                    assert(s[m] == d[m]);
                    assert(r[j] == s[s.len() - 1]);
                } else {
                    assert(r[j] == rest[j]);
                    let m = choose|m: int| 0 <= m < d.len() && d[m] == #[trigger] rest[j];
                    assert(s[m] == d[m]);
                    assert(r[i] == s[s.len() - 1]);
                }
            }
        }
    }
}

/// Removing the sessions of a token that no session is bound to changes
/// nothing.
pub proof fn lemma_sessions_without_absent_token(s: Seq<Session>, id: i32)
    requires
        forall|k: int| 0 <= k < s.len() ==> (#[trigger] s[k]).token_id != id,
    ensures
        sessions_without_token(s, id) == s,
    decreases s.len(),
{
    if s.len() > 0 {
        assert forall|k: int| 0 <= k < s.drop_last().len() implies (#[trigger] s.drop_last()[k]).token_id != id by {
            assert(s.drop_last()[k] == s[k]);
        }
        lemma_sessions_without_absent_token(s.drop_last(), id);
        assert(s.last() == s[s.len() - 1]);
        assert(s.drop_last().push(s.last()) =~= s);
    }
}

/// Removing tokens by an id that no token has changes nothing.
pub proof fn lemma_tokens_without_absent_id(s: Seq<Token>, id: i32)
    requires
        forall|k: int| 0 <= k < s.len() ==> (#[trigger] s[k]).id != id,
    ensures
        tokens_without_id(s, id) == s,
    decreases s.len(),
{
    if s.len() > 0 {
        assert forall|k: int| 0 <= k < s.drop_last().len() implies (#[trigger] s.drop_last()[k]).id != id by {
            assert(s.drop_last()[k] == s[k]);
        }
        lemma_tokens_without_absent_id(s.drop_last(), id);
        assert(s.last() == s[s.len() - 1]);
        assert(s.drop_last().push(s.last()) =~= s);
    }
}

/// Removing sessions by an id that no session has changes nothing.
pub proof fn lemma_sessions_without_absent_id(s: Seq<Session>, id: i32)
    requires
        forall|k: int| 0 <= k < s.len() ==> (#[trigger] s[k]).id != id,
    ensures
        sessions_without_id(s, id) == s,
    decreases s.len(),
{
    if s.len() > 0 {
        assert forall|k: int| 0 <= k < s.drop_last().len() implies (#[trigger] s.drop_last()[k]).id != id by {
            assert(s.drop_last()[k] == s[k]);
        }
        lemma_sessions_without_absent_id(s.drop_last(), id);
        assert(s.last() == s[s.len() - 1]);
        assert(s.drop_last().push(s.last()) =~= s);
    }
}

/// With distinct ids, removing the tokens of one token's id removes that
/// token alone.
pub proof fn lemma_tokens_without_id_single(s: Seq<Token>, k: int)
    requires
        tokens_pairwise(s, distinct_token_ids()),
        0 <= k < s.len(),
    ensures
        tokens_without_id(s, s[k].id) == s.remove(k),
    decreases s.len(),
{
    let d = s.drop_last();
    let id = s[k].id;
    assert(tokens_pairwise(d, distinct_token_ids())) by {
        assert forall|i: int, j: int| #![trigger d[i], d[j]] 0 <= i < d.len() && 0 <= j < d.len() && i != j
            implies (distinct_token_ids())(d[i], d[j]) by {
            assert(d[i] == s[i] && d[j] == s[j]);
        }
    }
    if k == s.len() - 1 {
        assert forall|j: int| 0 <= j < d.len() implies (#[trigger] d[j]).id != id by {
            assert(d[j] == s[j]);
        }
        lemma_tokens_without_absent_id(d, id);
        assert(s.remove(k) =~= d);
    } else {
        assert(s.last() == s[s.len() - 1]);
        assert(d[k] == s[k]);
        lemma_tokens_without_id_single(d, k);
        assert(d.remove(k).push(s.last()) =~= s.remove(k));
    }
}

/// With distinct keys, removing the sessions of one session's id removes
/// that session alone.
pub proof fn lemma_sessions_without_id_single(s: Seq<Session>, k: int)
    requires
        sessions_pairwise(s, distinct_session_keys()),
        0 <= k < s.len(),
    ensures
        sessions_without_id(s, s[k].id) == s.remove(k),
    decreases s.len(),
{
    let d = s.drop_last();
    let id = s[k].id;
    assert(sessions_pairwise(d, distinct_session_keys())) by {
        assert forall|i: int, j: int| #![trigger d[i], d[j]] 0 <= i < d.len() && 0 <= j < d.len() && i != j
            implies (distinct_session_keys())(d[i], d[j]) by {
            assert(d[i] == s[i] && d[j] == s[j]);
        }
    }
    if k == s.len() - 1 {
        assert forall|j: int| 0 <= j < d.len() implies (#[trigger] d[j]).id != id by {
            assert(d[j] == s[j]);
        }
        lemma_sessions_without_absent_id(d, id);
        assert(s.remove(k) =~= d);
    } else {
        assert(s.last() == s[s.len() - 1]);
        assert(d[k] == s[k]);
        lemma_sessions_without_id_single(d, k);
        assert(d.remove(k).push(s.last()) =~= s.remove(k));
    }
}
} // verus!
