//! Token, session and user repositories over the tables of `AuthStore`.
//! Every write either applies whole or leaves the tables as they were.
use vstd::prelude::*;
use crate::model::{Language, Role, Theme, Timestamp, TokenType, UserId, UserStatus};
use crate::store::{
    distinct_session_keys, distinct_token_ids, lemma_sessions_without_absent_token,
    lemma_sessions_without_id_pairwise, lemma_sessions_without_token_pairwise, lemma_tokens_without_id_pairwise,
    lemma_tokens_without_value_pairwise, session_ids_below, token_ids_below, lemma_tokens_without_id_single,
    lemma_sessions_without_id_single,
    has_token_id, lemma_absent_value, lemma_sessions_without_id_members, lemma_sessions_without_token_members,
    lemma_tokens_without_id_members, lemma_tokens_without_id_unique, lemma_tokens_without_value_members,
    lemma_tokens_without_value_unique, lemma_unique_value_found, lemma_user_index_absent, store_wf,
    access_tokens_of, copy_access_tokens, find_session_by_id, find_token_by_id, find_token_by_value,
    find_user_by_email, find_user_by_id, remove_sessions_of_token, remove_sessions_with_id,
    remove_tokens_with_id, remove_tokens_with_value, same_user, session_by_id, sessions_without_id,
    sessions_without_token, user_index_by_email, has_session_for_token, has_token_value,
    lemma_no_session_of_removed_token, lemma_no_token_with_removed_value, lemma_without_absent_value, user_index_by_id, SessionWithToken, User, token_by_id, token_by_value, tokens_without_id,
    tokens_without_value, AuthStore, DbError, Session, StoreView, Token, TokenWithSession, MAX_CREATION_TIME,
    PASSWORD_RESET_TOKEN_TTL_MS, SESSION_TOKEN_TTL_MS,
};

verus! {

/// Relies on `chrono::Utc::now` (read as `timestamp_millis`): the current
/// time in milliseconds since the Unix epoch. It panics if the system clock
/// reads before 1970, which no argument can rule out.
#[verifier::external_body]
pub(crate) fn now_millis() -> (r: Timestamp) {
    chrono::Utc::now().timestamp_millis()
}

/// Relies on `uuid::Uuid::new_v4` (read as `as_u128`): a version-4 UUID
/// with 122 bits from the operating system's secure random source. It panics
/// if that source fails, which no argument can rule out.
#[verifier::external_body]
pub(crate) fn random_uuid() -> (r: u128) {
    uuid::Uuid::new_v4().as_u128()
}

/// A fresh bearer value: the text of a random UUID.
pub(crate) fn random_token_value() -> (r: String) {
    crate::activity::uuid_to_text(random_uuid())
}

/// The token row that a create inserts.
pub open spec fn token_row(
    st: StoreView,
    user_id: UserId,
    kind: TokenType,
    value: String,
    name: Option<String>,
    expiration: Option<Timestamp>,
    now: Timestamp,
) -> Token {
    Token {
        id: st.next_token_id,
        name,
        token: value,
        token_type: kind,
        expiration,
        user_id,
        session_id: None,
        created_at: now,
        updated_at: now,
    }
}

/// Whether a token with value `v` created at `now` can be inserted.
pub open spec fn can_insert_token(st: StoreView, v: Seq<char>, now: Timestamp) -> bool {
    &&& token_by_value(st.tokens, v) is None
    &&& st.next_token_id < i32::MAX
    &&& now <= MAX_CREATION_TIME
}

/// The tables with `t` added to the tokens.
pub open spec fn with_token(st: StoreView, t: Token) -> StoreView {
    StoreView { tokens: st.tokens.push(t), next_token_id: (st.next_token_id + 1) as i32, ..st }
}

/// The session row that `create_one_with_token` inserts beside token `t`.
pub open spec fn session_row(
    st: StoreView,
    t: Token,
    ip: Option<String>,
    user_agent: String,
    now: Timestamp,
) -> Session {
    Session { id: st.next_session_id, token_id: t.id, user_agent, ip_address: ip, created_at: now }
}

/// The tables with token `t` and session `s` added.
pub open spec fn with_session_pair(st: StoreView, t: Token, s: Session) -> StoreView {
    StoreView {
        tokens: st.tokens.push(t),
        sessions: st.sessions.push(s),
        next_token_id: (st.next_token_id + 1) as i32,
        next_session_id: (st.next_session_id + 1) as i32,
        ..st
    }
}

/// The tables after deleting the token with value `v` and its sessions.
pub open spec fn without_session_token(st: StoreView, v: Seq<char>) -> StoreView {
    match token_by_value(st.tokens, v) {
        Some(t) => StoreView {
            tokens: tokens_without_value(st.tokens, v),
            sessions: sessions_without_token(st.sessions, t.id),
            ..st
        },
        None => st,
    }
}

/// The sessions of `user` joined with their tokens, in order.
pub open spec fn sessions_of_user(s: Seq<Session>, tokens: Seq<Token>, user: UserId) -> Seq<TokenWithSession>
    decreases s.len(),
{
    if s.len() == 0 {
        Seq::empty()
    } else {
        let rest = sessions_of_user(s.drop_last(), tokens, user);
        match token_by_id(tokens, s.last().token_id) {
            Some(t) => if t.user_id == user {
                rest.push(TokenWithSession {
                    id: t.id,
                    created_at: t.created_at,
                    expiration: t.expiration,
                    session: s.last(),
                })
            } else {
                rest
            },
            None => rest,
        }
    }
}

/// Whether token `t` authenticates its owner at time `now`: a session or
/// static-access token that has not expired.
pub open spec fn authenticates(t: Token, now: Timestamp) -> bool {
    &&& t.token_type != TokenType::PasswordReset
    &&& match t.expiration {
        Some(e) => now <= e,
        None => true,
    }
}

/// The token with value `v`, or `NotFound`.
pub open spec fn lookup_token(st: StoreView, v: Seq<char>) -> Result<Token, DbError> {
    match token_by_value(st.tokens, v) {
        Some(t) => Ok(t),
        None => Err(DbError::NotFound),
    }
}

/// The outcome of deleting token `id` on behalf of `user`.
pub open spec fn owned_token_deletion(st: StoreView, id: i32, user: UserId) -> Result<i32, DbError> {
    match token_by_id(st.tokens, id) {
        None => Err(DbError::NotFound),
        Some(t) => if t.user_id == user {
            Ok(id)
        } else {
            Err(DbError::Forbidden)
        },
    }
}

/// The tables with the tokens replaced by `tokens`.
pub open spec fn with_tokens(st: StoreView, tokens: Seq<Token>) -> StoreView {
    StoreView { tokens, ..st }
}

/// Creates, finds and deletes bearer tokens.
pub struct TokenRepo {}

impl TokenRepo {
    fn insert_token(
        user_id: UserId,
        kind: TokenType,
        value: String,
        name: Option<String>,
        expiration: Option<Timestamp>,
        now: Timestamp,
        db: &mut AuthStore,
    ) -> (r: Result<Token, DbError>)
        requires
            store_wf(old(db)@),
        ensures
            store_wf(final(db)@),
            r is Ok <==> can_insert_token(old(db)@, value@, now),
            r matches Ok(t) ==> t == token_row(old(db)@, user_id, kind, value, name, expiration, now)
                && final(db)@ == with_token(old(db)@, t),
            r is Err ==> final(db)@ == old(db)@,
    {
        if now > MAX_CREATION_TIME || db.next_token_id == i32::MAX {
            return Err(DbError::InvalidArgument);
        }
        if find_token_by_value(&db.tokens, &value).is_some() {
            return Err(DbError::Conflict);
        }
        let t = Token {
            id: db.next_token_id,
            name,
            token: value,
            token_type: kind,
            expiration,
            user_id,
            session_id: None,
            created_at: now,
            updated_at: now,
        };
        db.tokens.push(t.copy());
        db.next_token_id = db.next_token_id + 1;
        proof {
            lemma_wf_push_token(old(db)@, t);
        }
        Ok(t)
    }

    /// Inserts a session token with value `value` created at `now`; it
    /// expires thirty days later.
    pub fn create_one_session_token_at(user_id: UserId, value: String, now: Timestamp, db: &mut AuthStore) -> (r: Result<Token, DbError>)
        requires
            store_wf(old(db)@),
        ensures
            store_wf(final(db)@),
            r is Ok <==> can_insert_token(old(db)@, value@, now),
            r matches Ok(t) ==> t == token_row(old(db)@, user_id, TokenType::Session, value, None,
                Some((now + SESSION_TOKEN_TTL_MS) as i64), now) && final(db)@ == with_token(old(db)@, t),
            r is Err ==> final(db)@ == old(db)@,
    {
        if now > MAX_CREATION_TIME {
            return Err(DbError::InvalidArgument);
        }
        let expiration = now + SESSION_TOKEN_TTL_MS;
        TokenRepo::insert_token(user_id, TokenType::Session, value, None, Some(expiration), now, db)
    }

    /// Inserts a session token with a fresh random value; it expires thirty
    /// days after its creation.
    pub fn create_one_session_token(user_id: UserId, db: &mut AuthStore) -> (r: Result<Token, DbError>)
        requires
            store_wf(old(db)@),
        ensures
            store_wf(final(db)@),
            r matches Ok(t) ==> t == token_row(old(db)@, user_id, TokenType::Session, t.token, None,
                Some((t.created_at + SESSION_TOKEN_TTL_MS) as i64), t.created_at)
                && final(db)@ == with_token(old(db)@, t),
            r is Err ==> final(db)@ == old(db)@,
    {
        let now = now_millis();
        TokenRepo::create_one_session_token_at(user_id, random_token_value(), now, db)
    }

    /// Inserts a password-reset token with value `value` created at `now`;
    /// it expires thirty minutes later.
    pub fn create_one_password_reset_token_at(user_id: UserId, value: String, now: Timestamp, db: &mut AuthStore) -> (r: Result<Token, DbError>)
        requires
            store_wf(old(db)@),
        ensures
            store_wf(final(db)@),
            r is Ok <==> can_insert_token(old(db)@, value@, now),
            r matches Ok(t) ==> t == token_row(old(db)@, user_id, TokenType::PasswordReset, value, None,
                Some((now + PASSWORD_RESET_TOKEN_TTL_MS) as i64), now) && final(db)@ == with_token(old(db)@, t),
            r is Err ==> final(db)@ == old(db)@,
    {
        if now > MAX_CREATION_TIME {
            return Err(DbError::InvalidArgument);
        }
        let expiration = now + PASSWORD_RESET_TOKEN_TTL_MS;
        TokenRepo::insert_token(user_id, TokenType::PasswordReset, value, None, Some(expiration), now, db)
    }

    /// Inserts a password-reset token with a fresh random value; it expires
    /// thirty minutes after its creation.
    pub fn create_one_password_reset_token(user_id: UserId, db: &mut AuthStore) -> (r: Result<Token, DbError>)
        requires
            store_wf(old(db)@),
        ensures
            store_wf(final(db)@),
            r matches Ok(t) ==> t == token_row(old(db)@, user_id, TokenType::PasswordReset, t.token, None,
                Some((t.created_at + PASSWORD_RESET_TOKEN_TTL_MS) as i64), t.created_at)
                && final(db)@ == with_token(old(db)@, t),
            r is Err ==> final(db)@ == old(db)@,
    {
        let now = now_millis();
        TokenRepo::create_one_password_reset_token_at(user_id, random_token_value(), now, db)
    }

    /// Inserts a static-access token labelled `name`; it never expires.
    pub fn create_one_access_token_at(user_id: UserId, name: String, value: String, now: Timestamp, db: &mut AuthStore) -> (r: Result<Token, DbError>)
        requires
            store_wf(old(db)@),
        ensures
            store_wf(final(db)@),
            r is Ok <==> can_insert_token(old(db)@, value@, now),
            r matches Ok(t) ==> t == token_row(old(db)@, user_id, TokenType::StaticAccess, value, Some(name), None, now)
                && final(db)@ == with_token(old(db)@, t),
            r is Err ==> final(db)@ == old(db)@,
    {
        TokenRepo::insert_token(user_id, TokenType::StaticAccess, value, Some(name), None, now, db)
    }

    /// Inserts a static-access token labelled `name` with a fresh random
    /// value; it never expires.
    pub fn create_one_access_token(user_id: UserId, name: String, db: &mut AuthStore) -> (r: Result<Token, DbError>)
        requires
            store_wf(old(db)@),
        ensures
            store_wf(final(db)@),
            r matches Ok(t) ==> t == token_row(old(db)@, user_id, TokenType::StaticAccess, t.token, Some(name), None, t.created_at)
                && final(db)@ == with_token(old(db)@, t),
            r is Err ==> final(db)@ == old(db)@,
    {
        let now = now_millis();
        TokenRepo::create_one_access_token_at(user_id, name, random_token_value(), now, db)
    }

    /// The token whose value is `token`.
    pub fn get_by_token(token: &String, db: &AuthStore) -> (r: Result<Token, DbError>)
        ensures
            r == lookup_token(db@, token@),
    {
        match find_token_by_value(&db.tokens, token) {
            Some(i) => Ok(db.tokens[i].copy()),
            None => Err(DbError::NotFound),
        }
    }

    /// Deletes the token whose value is `token`, with any session bound to
    /// it, and returns it.
    pub fn delete_one_by_token(token: &String, db: &mut AuthStore) -> (r: Result<Token, DbError>)
        requires
            store_wf(old(db)@),
        ensures
            store_wf(final(db)@),
            r == lookup_token(old(db)@, token@),
            final(db)@ == without_session_token(old(db)@, token@),
    {
        match remove_tokens_with_value(&mut db.tokens, token) {
            Some(t) => {
                let _ = remove_sessions_of_token(&mut db.sessions, t.id);
                proof {
                    lemma_wf_without_session_token(old(db)@, token@);
                }
                Ok(t)
            },
            None => {
                proof {
                    lemma_without_absent_value(old(db)@.tokens, token@);
                }
                Err(DbError::NotFound)
            },
        }
    }

    /// The static-access tokens of `user_id`.
    pub fn list_for_user(user_id: UserId, db: &AuthStore) -> (r: Vec<Token>)
        ensures
            r@ == access_tokens_of(db@.tokens, user_id),
    {
        copy_access_tokens(&db.tokens, user_id)
    }

    /// Deletes token `id`, with any session bound to it, if `user_id` owns
    /// it, and returns the id.
    pub fn delete_by_id(id: i32, user_id: UserId, db: &mut AuthStore) -> (r: Result<i32, DbError>)
        requires
            store_wf(old(db)@),
        ensures
            store_wf(final(db)@),
            r == owned_token_deletion(old(db)@, id, user_id),
            r is Ok ==> final(db)@ == without_token_id(old(db)@, id),
            r is Ok ==> exists|k: int| 0 <= k < old(db)@.tokens.len() && old(db)@.tokens[k].id == id
                && old(db)@.tokens[k].user_id == user_id && final(db)@.tokens == old(db)@.tokens.remove(k),
            r is Err ==> final(db)@ == old(db)@,
    {
        match find_token_by_id(&db.tokens, id) {
            None => Err(DbError::NotFound),
            Some(i) => {
                if db.tokens[i].user_id != user_id {
                    return Err(DbError::Forbidden);
                }
                let _ = remove_tokens_with_id(&mut db.tokens, id);
                let _ = remove_sessions_of_token(&mut db.sessions, id);
                proof {
                    lemma_wf_without_token_id(old(db)@, id);
                    lemma_tokens_without_id_single(old(db)@.tokens, i as int);
                }
                Ok(id)
            },
        }
    }
}


/// Whether a session with a token of value `v` can be created at `now`.
pub open spec fn can_create_session(st: StoreView, v: Seq<char>, now: Timestamp) -> bool {
    can_insert_token(st, v, now) && st.next_session_id < i32::MAX
}

/// The outcome of deleting session `id` on behalf of `user`.
pub open spec fn owned_session_deletion(st: StoreView, id: i32, user: UserId) -> Result<(), DbError> {
    match session_by_id(st.sessions, id) {
        None => Err(DbError::NotFound),
        Some(s) => match token_by_id(st.tokens, s.token_id) {
            None => Err(DbError::NotFound),
            Some(t) => if t.user_id == user {
                Ok(())
            } else {
                Err(DbError::Forbidden)
            },
        },
    }
}

/// The tables after deleting token `id` and the sessions bound to it.
pub open spec fn without_token_id(st: StoreView, id: i32) -> StoreView {
    StoreView {
        tokens: tokens_without_id(st.tokens, id),
        sessions: sessions_without_token(st.sessions, id),
        ..st
    }
}

/// The tables after deleting session `id`, its token, and any other session
/// bound to that token.
pub open spec fn without_session(st: StoreView, id: i32) -> StoreView {
    match session_by_id(st.sessions, id) {
        Some(s) => StoreView {
            sessions: sessions_without_token(sessions_without_id(st.sessions, id), s.token_id),
            tokens: tokens_without_id(st.tokens, s.token_id),
            ..st
        },
        None => st,
    }
}

/// Creates, lists and deletes sessions together with their tokens.
pub struct SessionRepo {}

impl SessionRepo {
    /// Creates a session for `user` together with its session token of value
    /// `value`, both at `now`, as one write.
    pub fn create_one_with_token_at(
        user: &User,
        ip: Option<String>,
        user_agent: String,
        value: String,
        now: Timestamp,
        db: &mut AuthStore,
    ) -> (r: Result<SessionWithToken, DbError>)
        requires
            store_wf(old(db)@),
        ensures
            store_wf(final(db)@),
            r is Ok <==> can_create_session(old(db)@, value@, now),
            r matches Ok(p) ==> p.token == token_row(old(db)@, user.id, TokenType::Session, value, None,
                Some((now + SESSION_TOKEN_TTL_MS) as i64), now)
                && p.session == session_row(old(db)@, p.token, ip, user_agent, now)
                && final(db)@ == with_session_pair(old(db)@, p.token, p.session),
            r is Err ==> final(db)@ == old(db)@,
    {
        if db.next_session_id == i32::MAX {
            return Err(DbError::IdsExhausted);
        }
        let token = match TokenRepo::create_one_session_token_at(user.id, value, now, db) {
            Ok(t) => t,
            Err(e) => return Err(e),
        };
        let session = Session {
            id: db.next_session_id,
            token_id: token.id,
            user_agent,
            ip_address: ip,
            created_at: now,
        };
        db.sessions.push(session.copy());
        db.next_session_id = db.next_session_id + 1;
        proof {
            lemma_wf_push_session_pair(old(db)@, token, session);
        }
        Ok(SessionWithToken { session, token })
    }

    /// Creates a session for `user` together with a session token of fresh
    /// random value, as one write.
    pub fn create_one_with_token(user: &User, ip: Option<String>, user_agent: String, db: &mut AuthStore) -> (r: Result<SessionWithToken, DbError>)
        requires
            store_wf(old(db)@),
        ensures
            store_wf(final(db)@),
            r matches Ok(p) ==> p.token == token_row(old(db)@, user.id, TokenType::Session, p.token.token, None,
                Some((p.token.created_at + SESSION_TOKEN_TTL_MS) as i64), p.token.created_at)
                && p.session == session_row(old(db)@, p.token, ip, user_agent, p.token.created_at)
                && final(db)@ == with_session_pair(old(db)@, p.token, p.session),
            r is Err ==> final(db)@ == old(db)@,
    {
        let now = now_millis();
        SessionRepo::create_one_with_token_at(user, ip, user_agent, random_token_value(), now, db)
    }

    /// Deletes the token whose value is `token` and every session bound to
    /// it, as one write.
    pub fn delete_with_token(token: &String, db: &mut AuthStore) -> (r: Result<(), DbError>)
        requires
            store_wf(old(db)@),
        ensures
            store_wf(final(db)@),
            r is Ok <==> token_by_value(old(db)@.tokens, token@) is Some,
            r is Err ==> r == Err::<(), DbError>(DbError::NotFound),
            final(db)@ == without_session_token(old(db)@, token@),
    {
        match TokenRepo::delete_one_by_token(token, db) {
            Ok(_) => Ok(()),
            Err(e) => Err(e),
        }
    }

    /// Deletes session `id` and its token if `user_id` owns the token, as
    /// one write.
    pub fn delete_by_id_for_user(id: i32, user_id: UserId, db: &mut AuthStore) -> (r: Result<(), DbError>)
        requires
            store_wf(old(db)@),
        ensures
            store_wf(final(db)@),
            r == owned_session_deletion(old(db)@, id, user_id),
            r is Ok ==> final(db)@ == without_session(old(db)@, id),
            r is Ok ==> exists|a: int, b: int| 0 <= a < old(db)@.sessions.len() && 0 <= b < old(db)@.tokens.len()
                && old(db)@.sessions[a].id == id && old(db)@.tokens[b].id == old(db)@.sessions[a].token_id
                && old(db)@.tokens[b].user_id == user_id
                && final(db)@.sessions == old(db)@.sessions.remove(a) && final(db)@.tokens == old(db)@.tokens.remove(b),
            r is Err ==> final(db)@ == old(db)@,
    {
        let si = match find_session_by_id(&db.sessions, id) {
            Some(i) => i,
            None => return Err(DbError::NotFound),
        };
        let token_id = db.sessions[si].token_id;
        let ti = match find_token_by_id(&db.tokens, token_id) {
            Some(i) => i,
            None => return Err(DbError::NotFound),
        };
        if db.tokens[ti].user_id != user_id {
            return Err(DbError::Forbidden);
        }
        let _ = remove_sessions_with_id(&mut db.sessions, id);
        let _ = remove_tokens_with_id(&mut db.tokens, token_id);
        let _ = remove_sessions_of_token(&mut db.sessions, token_id);
        proof {
            lemma_wf_without_session(old(db)@, id);
            let ss = old(db)@.sessions;
            lemma_sessions_without_id_single(ss, si as int);
            lemma_tokens_without_id_single(old(db)@.tokens, ti as int);
            let rest = ss.remove(si as int);
            assert forall|j: int| 0 <= j < rest.len() implies (#[trigger] rest[j]).token_id != token_id by {
                let k = if j < si { j } else { j + 1 };
                assert(rest[j] == ss[k]);
                assert((distinct_session_keys())(ss[k], ss[si as int]));
            }
            lemma_sessions_without_absent_token(rest, token_id);
        }
        Ok(())
    }

    /// The sessions of `user_id` with their tokens.
    pub fn get_sessions_for_user(user_id: UserId, db: &AuthStore) -> (r: Vec<TokenWithSession>)
        requires
            store_wf(db@),
        ensures
            r@ == sessions_of_user(db@.sessions, db@.tokens, user_id),
    {
        let mut out: Vec<TokenWithSession> = Vec::new();
        let mut i: usize = 0;
        while i < db.sessions.len()
            invariant
                i <= db@.sessions.len(),
                out@ == sessions_of_user(db@.sessions.subrange(0, i as int), db@.tokens, user_id),
            decreases db@.sessions.len() - i,
        {
            proof {
                assert(db@.sessions.subrange(0, i + 1).drop_last() =~= db@.sessions.subrange(0, i as int));
            }
            let s = &db.sessions[i];
            match find_token_by_id(&db.tokens, s.token_id) {
                Some(ti) => {
                    let t = &db.tokens[ti];
                    if t.user_id == user_id {
                        out.push(TokenWithSession {
                            id: t.id,
                            created_at: t.created_at,
                            expiration: t.expiration,
                            session: s.copy(),
                        });
                    }
                },
                None => {},
            }
            i = i + 1;
        }
        assert(db@.sessions.subrange(0, db@.sessions.len() as int) =~= db@.sessions);
        out
    }
}

/// What a new user is created with.
pub struct UserCreateInput {
    pub email: String,
    pub salt: Vec<u8>,
    pub hash: Vec<u8>,
    pub first_name: Option<String>,
    pub last_name: Option<String>,
    pub role: Option<Role>,
    pub location: Option<String>,
    pub description: Option<String>,
    pub title: Option<String>,
}

/// A user's interface preferences.
pub struct PreferencesInput {
    pub language: Language,
    pub theme: Theme,
}

/// The user row that `create_one` inserts; the role defaults to `Author`.
pub open spec fn user_row(input: UserCreateInput, id: UserId, creator: UserId, now: Timestamp) -> User {
    User {
        id,
        email: input.email,
        first_name: input.first_name,
        last_name: input.last_name,
        salt: input.salt,
        hash: input.hash,
        description: input.description,
        title: input.title,
        location: input.location,
        language: Language::English,
        role: match input.role {
            Some(r) => r,
            None => Role::Author,
        },
        theme: Theme::Light,
        avatar: None,
        online_status: UserStatus::Offline,
        last_active_at: None,
        updated_at: now,
        updated_by: creator,
        created_at: now,
        created_by: creator,
        deleted_at: None,
        deleted_by: None,
    }
}

/// The tables with the users replaced by `users`.
pub open spec fn with_users(st: StoreView, users: Seq<User>) -> StoreView {
    StoreView { users, ..st }
}

/// `u` with its presence updated; the activity time changes only when one
/// is given.
pub open spec fn with_status(u: User, status: UserStatus, last_active_at: Option<Timestamp>) -> User {
    User {
        online_status: status,
        last_active_at: match last_active_at {
            Some(t) => Some(t),
            None => u.last_active_at,
        },
        ..u
    }
}

/// `u` with a new credential.
pub open spec fn with_credential(u: User, hash: Vec<u8>, salt: Vec<u8>) -> User {
    User { hash, salt, ..u }
}

/// `u` with new preferences.
pub open spec fn with_preferences(u: User, p: PreferencesInput) -> User {
    User { language: p.language, theme: p.theme, ..u }
}

/// The user that token value `v` resolves to at `now`: the owner of an
/// existing, unexpired session or static-access token.
pub open spec fn session_user_index(st: StoreView, v: Seq<char>, now: Timestamp) -> int {
    match token_by_value(st.tokens, v) {
        Some(t) => if authenticates(t, now) {
            user_index_by_id(st.users, t.user_id)
        } else {
            -1
        },
        None => -1,
    }
}

/// Finds and updates user accounts.
pub struct UserRepo {}

impl UserRepo {
    /// Inserts a user with id `id`, created by `current_user_id` at `now`.
    pub fn create_one(
        new_user: UserCreateInput,
        id: UserId,
        current_user_id: UserId,
        now: Timestamp,
        db: &mut AuthStore,
    ) -> (r: Result<User, DbError>)
        requires
            store_wf(old(db)@),
        ensures
            store_wf(final(db)@),
            r is Ok <==> (user_index_by_id(old(db)@.users, id) == -1
                && user_index_by_email(old(db)@.users, new_user.email@) == -1),
            r matches Ok(u) ==> same_user(u, user_row(new_user, id, current_user_id, now))
                && final(db)@ == with_users(old(db)@, old(db)@.users.push(user_row(new_user, id, current_user_id, now))),
            r is Err ==> final(db)@ == old(db)@,
    {
        if find_user_by_id(&db.users, id).is_some() || find_user_by_email(&db.users, &new_user.email).is_some() {
            return Err(DbError::Conflict);
        }
        let row = User {
            id,
            email: new_user.email,
            first_name: new_user.first_name,
            last_name: new_user.last_name,
            salt: new_user.salt,
            hash: new_user.hash,
            description: new_user.description,
            title: new_user.title,
            location: new_user.location,
            language: Language::English,
            role: match new_user.role {
                Some(r) => r,
                None => Role::Author,
            },
            theme: Theme::Light,
            avatar: None,
            online_status: UserStatus::Offline,
            last_active_at: None,
            updated_at: now,
            updated_by: current_user_id,
            created_at: now,
            created_by: current_user_id,
            deleted_at: None,
            deleted_by: None,
        };
        let out = row.copy();
        let ghost g = row;
        db.users.push(row);
        proof {
            lemma_wf_push_user(old(db)@, g);
        }
        Ok(out)
    }

    /// The user with email `email`.
    pub fn get_by_email(email: &String, db: &AuthStore) -> (r: Result<User, DbError>)
        ensures
            r is Err <==> user_index_by_email(db@.users, email@) == -1,
            r is Err ==> r == Err::<User, DbError>(DbError::NotFound),
            r matches Ok(u) ==> same_user(u, db@.users[user_index_by_email(db@.users, email@)]),
    {
        match find_user_by_email(&db.users, email) {
            Some(i) => Ok(db.users[i].copy()),
            None => Err(DbError::NotFound),
        }
    }

    /// The user with id `id`.
    pub fn get_by_id(id: UserId, db: &AuthStore) -> (r: Result<User, DbError>)
        ensures
            r is Err <==> user_index_by_id(db@.users, id) == -1,
            r is Err ==> r == Err::<User, DbError>(DbError::NotFound),
            r matches Ok(u) ==> same_user(u, db@.users[user_index_by_id(db@.users, id)]),
    {
        match find_user_by_id(&db.users, id) {
            Some(i) => Ok(db.users[i].copy()),
            None => Err(DbError::NotFound),
        }
    }

    /// The user that bearer value `token` authenticates at `now`.
    pub fn get_from_session_token(token: &String, now: Timestamp, db: &AuthStore) -> (r: Result<User, DbError>)
        ensures
            r is Err <==> session_user_index(db@, token@, now) == -1,
            r is Err ==> r == Err::<User, DbError>(DbError::NotFound),
            r matches Ok(u) ==> same_user(u, db@.users[session_user_index(db@, token@, now)]),
    {
        let ti = match find_token_by_value(&db.tokens, token) {
            Some(i) => i,
            None => return Err(DbError::NotFound),
        };
        let t = &db.tokens[ti];
        if t.token_type == TokenType::PasswordReset {
            return Err(DbError::NotFound);
        }
        match t.expiration {
            Some(e) => {
                if now > e {
                    return Err(DbError::NotFound);
                }
            },
            None => {},
        }
        UserRepo::get_by_id(t.user_id, db)
    }

    /// Sets the presence of user `id`; the activity time is written only
    /// when one is given.
    pub fn update_status(
        id: UserId,
        online_status: UserStatus,
        last_active_at: Option<Timestamp>,
        db: &mut AuthStore,
    ) -> (r: Result<(), DbError>)
        requires
            store_wf(old(db)@),
        ensures
            store_wf(final(db)@),
            r is Err <==> user_index_by_id(old(db)@.users, id) == -1,
            r is Err ==> r == Err::<(), DbError>(DbError::NotFound) && final(db)@ == old(db)@,
            r is Ok ==> final(db)@ == with_users(old(db)@, old(db)@.users.update(
                user_index_by_id(old(db)@.users, id),
                with_status(old(db)@.users[user_index_by_id(old(db)@.users, id)], online_status, last_active_at),
            )),
    {
        let i = match find_user_by_id(&db.users, id) {
            Some(i) => i,
            None => return Err(DbError::NotFound),
        };
        let mut u = db.users.remove(i);
        u.online_status = online_status;
        match last_active_at {
            Some(t) => {
                u.last_active_at = Some(t);
            },
            None => {},
        }
        db.users.insert(i, u);
        assert(db@.users =~= old(db)@.users.update(i as int, with_status(old(db)@.users[i as int], online_status, last_active_at)));
        proof {
            lemma_wf_update_user(old(db)@, i as int, with_status(old(db)@.users[i as int], online_status, last_active_at));
        }
        Ok(())
    }

    /// Replaces the credential of user `id`.
    pub fn update_hash_salt(id: UserId, hash: Vec<u8>, salt: Vec<u8>, db: &mut AuthStore) -> (r: Result<User, DbError>)
        requires
            store_wf(old(db)@),
        ensures
            store_wf(final(db)@),
            r is Err <==> user_index_by_id(old(db)@.users, id) == -1,
            r is Err ==> r == Err::<User, DbError>(DbError::NotFound) && final(db)@ == old(db)@,
            r matches Ok(u) ==> final(db)@ == with_users(old(db)@, old(db)@.users.update(
                user_index_by_id(old(db)@.users, id),
                with_credential(old(db)@.users[user_index_by_id(old(db)@.users, id)], hash, salt),
            )) && same_user(u, final(db)@.users[user_index_by_id(old(db)@.users, id)]),
    {
        let i = match find_user_by_id(&db.users, id) {
            Some(i) => i,
            None => return Err(DbError::NotFound),
        };
        let ghost h = hash;
        let ghost s = salt;
        let mut u = db.users.remove(i);
        u.hash = hash;
        u.salt = salt;
        let out = u.copy();
        db.users.insert(i, u);
        assert(db@.users =~= old(db)@.users.update(i as int, with_credential(old(db)@.users[i as int], h, s)));
        proof {
            lemma_wf_update_user(old(db)@, i as int, with_credential(old(db)@.users[i as int], h, s));
        }
        Ok(out)
    }

    /// Replaces the preferences of user `id`.
    pub fn update_preferences(id: UserId, preferences: PreferencesInput, db: &mut AuthStore) -> (r: Result<User, DbError>)
        requires
            store_wf(old(db)@),
        ensures
            store_wf(final(db)@),
            r is Err <==> user_index_by_id(old(db)@.users, id) == -1,
            r is Err ==> r == Err::<User, DbError>(DbError::NotFound) && final(db)@ == old(db)@,
            r matches Ok(u) ==> final(db)@ == with_users(old(db)@, old(db)@.users.update(
                user_index_by_id(old(db)@.users, id),
                with_preferences(old(db)@.users[user_index_by_id(old(db)@.users, id)], preferences),
            )) && same_user(u, final(db)@.users[user_index_by_id(old(db)@.users, id)]),
    {
        let i = match find_user_by_id(&db.users, id) {
            Some(i) => i,
            None => return Err(DbError::NotFound),
        };
        let mut u = db.users.remove(i);
        u.language = preferences.language;
        u.theme = preferences.theme;
        let out = u.copy();
        db.users.insert(i, u);
        assert(db@.users =~= old(db)@.users.update(i as int, with_preferences(old(db)@.users[i as int], preferences)));
        proof {
            lemma_wf_update_user(old(db)@, i as int, with_preferences(old(db)@.users[i as int], preferences));
        }
        Ok(out)
    }
}

/// Creating a session with its token and then deleting by that token's
/// value leaves no token with the value and no session bound to the token;
/// every other token and session is as it was before the create.
pub proof fn lemma_session_round_trip(
    st: StoreView,
    user_id: UserId,
    ip: Option<String>,
    user_agent: String,
    value: String,
    now: Timestamp,
)
    requires
        store_wf(st),
        can_create_session(st, value@, now),
    ensures
        ({
            let t = token_row(st, user_id, TokenType::Session, value, None, Some((now + SESSION_TOKEN_TTL_MS) as i64), now);
            let created = with_session_pair(st, t, session_row(st, t, ip, user_agent, now));
            let deleted = without_session_token(created, value@);
            &&& token_by_value(created.tokens, value@) == Some(t)
            &&& !has_token_value(deleted.tokens, value@)
            &&& !has_session_for_token(deleted.sessions, t.id)
            &&& deleted.tokens == st.tokens
            &&& deleted.sessions == st.sessions
        }),
{
    let t = token_row(st, user_id, TokenType::Session, value, None, Some((now + SESSION_TOKEN_TTL_MS) as i64), now);
    let created = with_session_pair(st, t, session_row(st, t, ip, user_agent, now));
    assert(created.tokens.drop_last() =~= st.tokens);
    lemma_no_token_with_removed_value(created.tokens, value@);
    lemma_no_session_of_removed_token(created.sessions, t.id);
    lemma_without_absent_value(st.tokens, value@);
    assert(created.sessions.drop_last() =~= st.sessions);
    assert forall|k: int| 0 <= k < st.sessions.len() implies (#[trigger] st.sessions[k]).token_id != t.id by {
        let m = choose|m: int| 0 <= m < st.tokens.len() && #[trigger] st.tokens[m].id == st.sessions[k].token_id;
    }
    lemma_sessions_without_absent_token(st.sessions, t.id);
}

// ---------------------------------------------------------------------------
// The writes keep the tables well formed.

proof fn lemma_tokens_below_kept(s: Seq<Token>, r: Seq<Token>, next: i32)
    requires
        token_ids_below(s, next),
        forall|i: int| 0 <= i < r.len() ==> exists|k: int| 0 <= k < s.len() && s[k] == #[trigger] r[i],
    ensures
        token_ids_below(r, next),
{
    assert forall|i: int| 0 <= i < r.len() implies (#[trigger] r[i]).id < next by {
        let k = choose|k: int| 0 <= k < s.len() && s[k] == r[i];
    }
}

proof fn lemma_sessions_below_kept(s: Seq<Session>, r: Seq<Session>, next: i32)
    requires
        session_ids_below(s, next),
        forall|i: int| 0 <= i < r.len() ==> exists|k: int| 0 <= k < s.len() && s[k] == #[trigger] r[i],
    ensures
        session_ids_below(r, next),
{
    assert forall|i: int| 0 <= i < r.len() implies (#[trigger] r[i]).id < next by {
        let k = choose|k: int| 0 <= k < s.len() && s[k] == r[i];
    }
}

proof fn lemma_wf_push_token(st: StoreView, t: Token)
    requires
        store_wf(st),
        token_by_value(st.tokens, t.token@) is None,
        t.id == st.next_token_id,
        st.next_token_id < i32::MAX,
    ensures
        store_wf(with_token(st, t)),
{
    lemma_absent_value(st.tokens, t.token@);
    let n = with_token(st, t);
    assert forall|i: int, j: int| #![trigger n.tokens[i], n.tokens[j]]
        0 <= i < n.tokens.len() && 0 <= j < n.tokens.len() && i != j
        implies (distinct_token_ids())(n.tokens[i], n.tokens[j]) by {
        if i < st.tokens.len() && j < st.tokens.len() {
            assert(n.tokens[i] == st.tokens[i] && n.tokens[j] == st.tokens[j]);
        } else if i < st.tokens.len() {
            assert(n.tokens[i] == st.tokens[i]);
        } else {
            assert(n.tokens[j] == st.tokens[j]);
        }
    }
    assert forall|i: int| 0 <= i < n.tokens.len() implies (#[trigger] n.tokens[i]).id < n.next_token_id by {
        if i < st.tokens.len() {
            assert(n.tokens[i] == st.tokens[i]);
        }
    }
    assert forall|i: int| 0 <= i < n.sessions.len() implies has_token_id(n.tokens, #[trigger] n.sessions[i].token_id) by {
        let k = choose|k: int| 0 <= k < st.tokens.len() && #[trigger] st.tokens[k].id == st.sessions[i].token_id;
        assert(n.tokens[k] == st.tokens[k]);
    }
    assert forall|i: int, j: int| #![trigger n.tokens[i], n.tokens[j]]
        0 <= i < n.tokens.len() && 0 <= j < n.tokens.len() && i != j
        implies n.tokens[i].token@ != n.tokens[j].token@ by {
        if i < st.tokens.len() && j < st.tokens.len() {
            assert(n.tokens[i] == st.tokens[i] && n.tokens[j] == st.tokens[j]);
        } else if i < st.tokens.len() {
            assert(n.tokens[i] == st.tokens[i]);
        } else {
            assert(n.tokens[j] == st.tokens[j]);
        }
    }
}

proof fn lemma_wf_push_session_pair(st: StoreView, t: Token, s: Session)
    requires
        store_wf(st),
        token_by_value(st.tokens, t.token@) is None,
        t.id == st.next_token_id,
        st.next_token_id < i32::MAX,
        s.token_id == t.id,
        s.id == st.next_session_id,
        st.next_session_id < i32::MAX,
    ensures
        store_wf(with_session_pair(st, t, s)),
{
    lemma_wf_push_token(st, t);
    let m = with_token(st, t);
    let n = with_session_pair(st, t, s);
    assert(n.tokens == m.tokens);
    assert forall|i: int| 0 <= i < st.sessions.len() implies (#[trigger] st.sessions[i]).token_id != t.id by {
        let k = choose|k: int| 0 <= k < st.tokens.len() && #[trigger] st.tokens[k].id == st.sessions[i].token_id;
    }
    assert forall|i: int, j: int| #![trigger n.sessions[i], n.sessions[j]]
        0 <= i < n.sessions.len() && 0 <= j < n.sessions.len() && i != j
        implies (distinct_session_keys())(n.sessions[i], n.sessions[j]) by {
        if i < st.sessions.len() && j < st.sessions.len() {
            assert(n.sessions[i] == st.sessions[i] && n.sessions[j] == st.sessions[j]);
        } else if i < st.sessions.len() {
            assert(n.sessions[i] == st.sessions[i]);
        } else {
            assert(n.sessions[j] == st.sessions[j]);
        }
    }
    assert forall|i: int| 0 <= i < n.sessions.len() implies (#[trigger] n.sessions[i]).id < n.next_session_id by {
        if i < st.sessions.len() {
            assert(n.sessions[i] == st.sessions[i]);
        }
    }
    assert forall|i: int| 0 <= i < n.sessions.len() implies has_token_id(n.tokens, #[trigger] n.sessions[i].token_id) by {
        if i < st.sessions.len() {
            assert(n.sessions[i] == m.sessions[i]);
        } else {
            assert(n.tokens[st.tokens.len() as int] == t);
        }
    }
}

/// Deleting a token by value, with its sessions, keeps the tables well formed.
pub proof fn lemma_wf_without_session_token(st: StoreView, v: Seq<char>)
    requires
        store_wf(st),
    ensures
        store_wf(without_session_token(st, v)),
{
    if let Some(t) = token_by_value(st.tokens, v) {
        let n = without_session_token(st, v);
        lemma_tokens_without_value_unique(st.tokens, v);
        lemma_tokens_without_value_members(st.tokens, v);
        lemma_sessions_without_token_members(st.sessions, t.id);
        lemma_tokens_without_value_pairwise(st.tokens, v, distinct_token_ids());
        lemma_sessions_without_token_pairwise(st.sessions, t.id, distinct_session_keys());
        lemma_tokens_below_kept(st.tokens, n.tokens, st.next_token_id);
        lemma_sessions_below_kept(st.sessions, n.sessions, st.next_session_id);
        assert forall|i: int| 0 <= i < n.sessions.len() implies has_token_id(n.tokens, #[trigger] n.sessions[i].token_id) by {
            let k = choose|k: int| 0 <= k < st.sessions.len() && st.sessions[k] == #[trigger] n.sessions[i];
            let m = choose|m: int| 0 <= m < st.tokens.len() && #[trigger] st.tokens[m].id == st.sessions[k].token_id;
            if st.tokens[m].token@ == v {
                lemma_unique_value_found(st.tokens, v, m);
            }
            assert(n.tokens.contains(st.tokens[m]));
            let j = choose|j: int| 0 <= j < n.tokens.len() && n.tokens[j] == st.tokens[m];
            assert(n.tokens[j].id == n.sessions[i].token_id);
        }
    }
}

/// Deleting a token by id, with its sessions, keeps the tables well formed.
pub proof fn lemma_wf_without_token_id(st: StoreView, id: i32)
    requires
        store_wf(st),
    ensures
        store_wf(without_token_id(st, id)),
{
    let n = without_token_id(st, id);
    lemma_tokens_without_id_unique(st.tokens, id);
    lemma_tokens_without_id_members(st.tokens, id);
    lemma_sessions_without_token_members(st.sessions, id);
    lemma_tokens_without_id_pairwise(st.tokens, id, distinct_token_ids());
    lemma_sessions_without_token_pairwise(st.sessions, id, distinct_session_keys());
    lemma_tokens_below_kept(st.tokens, n.tokens, st.next_token_id);
    lemma_sessions_below_kept(st.sessions, n.sessions, st.next_session_id);
    assert forall|i: int| 0 <= i < n.sessions.len() implies has_token_id(n.tokens, #[trigger] n.sessions[i].token_id) by {
        let k = choose|k: int| 0 <= k < st.sessions.len() && st.sessions[k] == #[trigger] n.sessions[i];
        let m = choose|m: int| 0 <= m < st.tokens.len() && #[trigger] st.tokens[m].id == st.sessions[k].token_id;
        assert(n.tokens.contains(st.tokens[m]));
        let j = choose|j: int| 0 <= j < n.tokens.len() && n.tokens[j] == st.tokens[m];
        assert(n.tokens[j].id == n.sessions[i].token_id);
    }
}

/// Deleting a session with its token keeps the tables well formed.
pub proof fn lemma_wf_without_session(st: StoreView, id: i32)
    requires
        store_wf(st),
    ensures
        store_wf(without_session(st, id)),
{
    if let Some(s) = session_by_id(st.sessions, id) {
        let n = without_session(st, id);
        let mid = sessions_without_id(st.sessions, id);
        lemma_tokens_without_id_unique(st.tokens, s.token_id);
        lemma_tokens_without_id_members(st.tokens, s.token_id);
        lemma_sessions_without_id_members(st.sessions, id);
        lemma_sessions_without_token_members(mid, s.token_id);
        lemma_tokens_without_id_pairwise(st.tokens, s.token_id, distinct_token_ids());
        lemma_sessions_without_id_pairwise(st.sessions, id, distinct_session_keys());
        lemma_sessions_without_token_pairwise(mid, s.token_id, distinct_session_keys());
        lemma_tokens_below_kept(st.tokens, n.tokens, st.next_token_id);
        lemma_sessions_below_kept(st.sessions, mid, st.next_session_id);
        lemma_sessions_below_kept(mid, n.sessions, st.next_session_id);
        assert forall|i: int| 0 <= i < n.sessions.len() implies has_token_id(n.tokens, #[trigger] n.sessions[i].token_id) by {
            let k1 = choose|k: int| 0 <= k < mid.len() && mid[k] == #[trigger] n.sessions[i];
            let k = choose|k: int| 0 <= k < st.sessions.len() && st.sessions[k] == #[trigger] mid[k1];
            let m = choose|m: int| 0 <= m < st.tokens.len() && #[trigger] st.tokens[m].id == st.sessions[k].token_id;
            assert(n.tokens.contains(st.tokens[m]));
            let j = choose|j: int| 0 <= j < n.tokens.len() && n.tokens[j] == st.tokens[m];
            assert(n.tokens[j].id == n.sessions[i].token_id);
        }
    }
}

/// Adding a user of unused id and email keeps the tables well formed.
pub proof fn lemma_wf_push_user(st: StoreView, u: User)
    requires
        store_wf(st),
        user_index_by_id(st.users, u.id) == -1,
        user_index_by_email(st.users, u.email@) == -1,
    ensures
        store_wf(with_users(st, st.users.push(u))),
{
    lemma_user_index_absent(st.users, u.id, u.email@);
    let us = st.users.push(u);
    assert forall|i: int, j: int| #![trigger us[i], us[j]] 0 <= i < us.len() && 0 <= j < us.len() && i != j
        implies us[i].id != us[j].id && us[i].email@ != us[j].email@ by {
        if i < st.users.len() && j < st.users.len() {
            assert(us[i] == st.users[i] && us[j] == st.users[j]);
        } else if i < st.users.len() {
            assert(us[i] == st.users[i]);
        } else {
            assert(us[j] == st.users[j]);
        }
    }
}

/// Changing a user but for its id and email keeps the tables well formed.
pub proof fn lemma_wf_update_user(st: StoreView, i: int, u: User)
    requires
        store_wf(st),
        0 <= i < st.users.len(),
        u.id == st.users[i].id,
        u.email@ == st.users[i].email@,
    ensures
        store_wf(with_users(st, st.users.update(i, u))),
{
    let us = st.users.update(i, u);
    assert forall|a: int, b: int| #![trigger us[a], us[b]] 0 <= a < us.len() && 0 <= b < us.len() && a != b
        implies us[a].id != us[b].id && us[a].email@ != us[b].email@ by {
        assert(us[a].id == st.users[a].id && us[a].email@ == st.users[a].email@);
        assert(us[b].id == st.users[b].id && us[b].email@ == st.users[b].email@);
    }
}
} // verus!
