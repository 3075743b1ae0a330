//! The authentication flows: login, logout, password reset and password
//! change, composed from the credential hasher, the repositories and the
//! audit trail.
use vstd::prelude::*;
use crate::activity::{recorded_as, with_activity, ActivityEntry, ActivityRepo};
use crate::credential::{credential_matches, derived_credential, generate_salt, hash_password, verify_password, SALT_LEN};
use crate::errors::AuthError;
use crate::model::{Timestamp, TokenType, UserId};
use crate::repo::{
    can_create_session, can_insert_token, now_millis, random_token_value, random_uuid, session_row,
    session_user_index, token_row, user_row, with_credential, with_session_pair, with_token,
    with_users, without_session_token, SessionRepo, TokenRepo, UserCreateInput, UserRepo,
};
use crate::store::{
    copy_text, store_wf, lemma_no_token_with_removed_value, lemma_user_index_by_email_bounded,
    lemma_user_index_by_id_bounded, same_user, token_by_value, user_index_by_email,
    user_index_by_id, Activity, AuthStore, DbError, SessionWithToken, StoreView, User,
    PASSWORD_RESET_TOKEN_TTL_MS, SESSION_TOKEN_TTL_MS,
};

verus! {

/// Whether `after` is `before` with the record of `entry` appended, where
/// the audit trail still had identifiers left, and `before` otherwise.
pub open spec fn audit_appended(before: StoreView, after: StoreView, entry: ActivityEntry) -> bool {
    if before.next_activity_id < i32::MAX {
        &&& after.activities.len() == before.activities.len() + 1
        &&& after.activities.drop_last() == before.activities
        &&& recorded_as(after.activities.last(), entry, before.next_activity_id, after.activities.last().action_at)
        &&& after == StoreView {
            activities: after.activities,
            next_activity_id: (before.next_activity_id + 1) as i32,
            ..before
        }
    } else {
        after == before
    }
}

/// Why a login with `email` and `password` is refused before any write, if
/// it is: an unknown email and a wrong password give the same error.
pub open spec fn login_rejection(st: StoreView, email: Seq<char>, password: Seq<char>) -> Option<AuthError> {
    let i = user_index_by_email(st.users, email);
    if i == -1 {
        Some(AuthError::InvalidCredentials)
    } else if !credential_matches(password, st.users[i].salt@, st.users[i].hash@) {
        Some(AuthError::InvalidCredentials)
    } else {
        None
    }
}

/// Whether token value `v` is a password-reset token that is valid at `now`.
pub open spec fn reset_token_valid(st: StoreView, v: Seq<char>, now: Timestamp) -> bool {
    match token_by_value(st.tokens, v) {
        Some(t) => t.token_type == TokenType::PasswordReset && (t.expiration matches Some(e) && now <= e),
        None => false,
    }
}

/// Whether the token of value `v`, of whatever kind, expired before `now`.
pub open spec fn token_expired(st: StoreView, v: Seq<char>, now: Timestamp) -> bool {
    match token_by_value(st.tokens, v) {
        Some(t) => t.expiration matches Some(e) && e < now,
        None => false,
    }
}

/// The tables after checking reset token `v` at `now`: the token of that
/// value, if expired, is deleted with any session bound to it; nothing else
/// changes.
pub open spec fn after_reset_check(st: StoreView, v: Seq<char>, now: Timestamp) -> StoreView {
    if token_expired(st, v, now) {
        without_session_token(st, v)
    } else {
        st
    }
}

/// The users after user `i` got a new credential `hash`/`salt`.
pub open spec fn credential_replaced(st: StoreView, i: int, after: StoreView) -> bool {
    &&& 0 <= i < st.users.len()
    &&& after.users == st.users.update(i, with_credential(st.users[i], after.users[i].hash, after.users[i].salt))
}

proof fn lemma_audit_outcome(before: StoreView, after: StoreView, entry: ActivityEntry, r: Result<Activity, DbError>)
    requires
        r is Ok <==> before.next_activity_id < i32::MAX,
        r is Err ==> after == before,
        r matches Ok(a) ==> recorded_as(a, entry, before.next_activity_id, a.action_at)
            && after == with_activity(before, a),
    ensures
        audit_appended(before, after, entry),
{
    if let Ok(a) = r {
        assert(before.activities.push(a).drop_last() =~= before.activities);
    }
}

/// The authentication flows.
pub struct AuthService {}

impl AuthService {
    /// Creates user `id` from `data`, at `now`, created by
    /// `current_user_id`, with the credential of `password` under `salt`. It
    /// fails exactly when the id or the email is taken.
    pub fn create_user_at(
        data: UserCreateInput,
        password: &str,
        salt: Vec<u8>,
        id: UserId,
        current_user_id: UserId,
        now: Timestamp,
        db: &mut AuthStore,
    ) -> (r: Result<User, AuthError>)
        requires
            store_wf(old(db)@),
        ensures
            store_wf(final(db)@),
            r is Ok <==> (user_index_by_id(old(db)@.users, id) == -1 && user_index_by_email(old(db)@.users, data.email@) == -1),
            r is Err ==> r == Err::<User, AuthError>(AuthError::DatabaseError) && final(db)@ == old(db)@,
            r matches Ok(u) ==> {
                let row = final(db)@.users.last();
                &&& final(db)@ == with_users(old(db)@, old(db)@.users.push(row))
                &&& same_user(u, row)
                &&& row.salt == salt
                &&& row.hash@ == derived_credential(password@, salt@)
                &&& row == user_row((UserCreateInput { salt, hash: row.hash, ..data }), id, current_user_id, now)
            },
    {
        let ghost s0 = salt;
        let (salt, hash) = hash_password(password, Some(salt));
        let input = UserCreateInput { salt, hash, ..data };
        let ghost g = input;
        match UserRepo::create_one(input, id, current_user_id, now, db) {
            Ok(u) => {
                assert(final(db)@.users.last() == user_row(g, id, current_user_id, now));
                Ok(u)
            },
            Err(_) => Err(AuthError::DatabaseError),
        }
    }

    /// Creates a user from `data` with a credential derived from `password`
    /// under a fresh random salt, created by `current_user_id`.
    pub fn create_user(data: UserCreateInput, password: &str, current_user_id: UserId, db: &mut AuthStore) -> (r: Result<User, AuthError>)
        requires
            store_wf(old(db)@),
        ensures
            store_wf(final(db)@),
            r is Err ==> r == Err::<User, AuthError>(AuthError::DatabaseError) && final(db)@ == old(db)@,
            r matches Ok(u) ==> {
                let row = final(db)@.users.last();
                &&& final(db)@ == with_users(old(db)@, old(db)@.users.push(row))
                &&& same_user(u, row)
                &&& row.salt@.len() == SALT_LEN
                &&& row.hash@ == derived_credential(password@, row.salt@)
                &&& row.email == data.email
                &&& row == user_row((UserCreateInput { salt: row.salt, hash: row.hash, ..data }), row.id, current_user_id, row.created_at)
            },
    {
        let salt = generate_salt();
        let id = random_uuid();
        let now = now_millis();
        AuthService::create_user_at(data, password, salt, id, current_user_id, now, db)
    }

    /// Logs in with `email` and `password` at `now`, with `value` as the new
    /// session token's value. Refused credentials change nothing; otherwise
    /// the login succeeds exactly when the session can be stored, and a login
    /// is recorded (if the audit trail accepts it).
    pub fn login_at(
        email: &String,
        password: &str,
        ip: Option<String>,
        user_agent: String,
        value: String,
        now: Timestamp,
        db: &mut AuthStore,
    ) -> (r: Result<(User, SessionWithToken), AuthError>)
        requires
            store_wf(old(db)@),
        ensures
            store_wf(final(db)@),
            login_rejection(old(db)@, email@, password@) matches Some(e) ==> r == Err::<(User, SessionWithToken), AuthError>(e),
            login_rejection(old(db)@, email@, password@) is None ==> (r is Ok <==> can_create_session(old(db)@, value@, now)),
            (login_rejection(old(db)@, email@, password@) is None && r is Err) ==> r == Err::<(User, SessionWithToken), AuthError>(AuthError::SessionCreateFailed),
            r is Err ==> final(db)@ == old(db)@,
            r matches Ok((u, p)) ==> {
                let i = user_index_by_email(old(db)@.users, email@);
                let mid = with_session_pair(old(db)@, p.token, p.session);
                &&& same_user(u, old(db)@.users[i])
                &&& p.token == token_row(old(db)@, u.id, TokenType::Session, value, None, Some((now + SESSION_TOKEN_TTL_MS) as i64), now)
                &&& p.session == session_row(old(db)@, p.token, ip, user_agent, now)
                &&& audit_appended(mid, final(db)@, (ActivityEntry::Login {
                    ip_address: ip,
                    user_agent: Some(user_agent),
                    action_by_id: u.id,
                }))
            },
    {
        let user = match UserRepo::get_by_email(email, db) {
            Ok(u) => u,
            Err(_) => return Err(AuthError::InvalidCredentials),
        };
        if !verify_password(password, user.salt.as_slice(), user.hash.as_slice()) {
            return Err(AuthError::InvalidCredentials);
        }
        let audit_ip = copy_text(&ip);
        let audit_agent = user_agent.clone();
        let session_with_token = match SessionRepo::create_one_with_token_at(&user, ip, user_agent, value, now, db) {
            Ok(p) => p,
            Err(_) => return Err(AuthError::SessionCreateFailed),
        };
        let entry = ActivityEntry::Login { ip_address: audit_ip, user_agent: Some(audit_agent), action_by_id: user.id };
        let ghost e = entry;
        let ghost mid = db@;
        let res = ActivityRepo::create_one_at(entry, now, db);
        proof {
            lemma_audit_outcome(mid, db@, e, res);
            lemma_user_index_by_email_bounded(old(db)@.users, email@);
        }
        Ok((user, session_with_token))
    }

    /// Logs in with `email` and `password`: on success a session and its
    /// token, of fresh random value, are stored and a login is recorded (if
    /// the audit trail accepts it).
    pub fn login(
        email: &String,
        password: &str,
        ip: Option<String>,
        user_agent: String,
        db: &mut AuthStore,
    ) -> (r: Result<(User, SessionWithToken), AuthError>)
        requires
            store_wf(old(db)@),
        ensures
            store_wf(final(db)@),
            login_rejection(old(db)@, email@, password@) matches Some(e) ==> r == Err::<(User, SessionWithToken), AuthError>(e),
            login_rejection(old(db)@, email@, password@) is None ==> (r is Ok || r == Err::<(User, SessionWithToken), AuthError>(AuthError::SessionCreateFailed)),
            r is Err ==> final(db)@ == old(db)@,
            r matches Ok((u, p)) ==> {
                let i = user_index_by_email(old(db)@.users, email@);
                let mid = with_session_pair(old(db)@, p.token, p.session);
                &&& same_user(u, old(db)@.users[i])
                &&& p.token.user_id == u.id
                &&& p.token.token_type == TokenType::Session
                &&& p.token.expiration == Some((p.token.created_at + SESSION_TOKEN_TTL_MS) as i64)
                &&& p.session.token_id == p.token.id
                &&& p.session.ip_address == ip && p.session.user_agent == user_agent
                &&& audit_appended(mid, final(db)@, (ActivityEntry::Login {
                    ip_address: ip,
                    user_agent: Some(user_agent),
                    action_by_id: u.id,
                }))
            },
    {
        let now = now_millis();
        AuthService::login_at(email, password, ip, user_agent, random_token_value(), now, db)
    }

    /// Logs out the session of token value `token`: the token and its
    /// session are deleted, and a logout is recorded for the user the token
    /// authenticated at `now`, if any.
    pub fn logout(token: &String, ip: Option<String>, user_agent: Option<String>, now: Timestamp, db: &mut AuthStore) -> (r: Result<(), AuthError>)
        requires
            store_wf(old(db)@),
        ensures
            store_wf(final(db)@),
            r is Ok <==> token_by_value(old(db)@.tokens, token@) is Some,
            r is Err ==> r == Err::<(), AuthError>(AuthError::NotFound) && final(db)@ == old(db)@,
            r is Ok ==> {
                let mid = without_session_token(old(db)@, token@);
                let i = session_user_index(old(db)@, token@, now);
                if i == -1 {
                    final(db)@ == mid
                } else {
                    audit_appended(mid, final(db)@, (ActivityEntry::Logout {
                        ip_address: ip,
                        user_agent,
                        action_by_id: old(db)@.users[i].id,
                    }))
                }
            },
    {
        let user = UserRepo::get_from_session_token(token, now, db);
        match SessionRepo::delete_with_token(token, db) {
            Ok(()) => {},
            Err(_) => return Err(AuthError::NotFound),
        }
        proof {
            lemma_user_index_by_id_bounded(old(db)@.users, token_by_value(old(db)@.tokens, token@).unwrap().user_id);
        }
        match user {
            Ok(u) => {
                let entry = ActivityEntry::Logout { ip_address: ip, user_agent, action_by_id: u.id };
                let ghost e = entry;
                let ghost mid = db@;
                let res = ActivityRepo::create_one(entry, db);
                proof {
                    lemma_audit_outcome(mid, db@, e, res);
                }
            },
            Err(_) => {},
        }
        Ok(())
    }

    /// Whether `token` is a password-reset token valid at `now`; an expired
    /// token, of any kind, is deleted on the way.
    pub fn check_password_reset_token(token: &String, now: Timestamp, db: &mut AuthStore) -> (r: bool)
        requires
            store_wf(old(db)@),
        ensures
            store_wf(final(db)@),
            r == reset_token_valid(old(db)@, token@, now),
            final(db)@ == after_reset_check(old(db)@, token@, now),
    {
        let t = match TokenRepo::get_by_token(token, db) {
            Ok(t) => t,
            Err(_) => return false,
        };
        match t.expiration {
            Some(e) => {
                if now <= e {
                    return t.token_type == TokenType::PasswordReset;
                }
                let _ = TokenRepo::delete_one_by_token(token, db);
                false
            },
            None => false,
        }
    }

    /// Consumes reset token `token` at `now`: if it is valid, the owner's
    /// credential is re-derived from `new_password` under the existing salt
    /// and the token is deleted. An invalid token gives `Ok(false)`.
    pub fn reset_password(token: &String, new_password: &str, now: Timestamp, db: &mut AuthStore) -> (r: Result<bool, AuthError>)
        requires
            store_wf(old(db)@),
        ensures
            store_wf(final(db)@),
            !reset_token_valid(old(db)@, token@, now) ==> r == Ok::<bool, AuthError>(false)
                && final(db)@ == after_reset_check(old(db)@, token@, now),
            reset_token_valid(old(db)@, token@, now) ==> {
                let t = token_by_value(old(db)@.tokens, token@).unwrap();
                let i = user_index_by_id(old(db)@.users, t.user_id);
                if i == -1 {
                    r == Err::<bool, AuthError>(AuthError::DatabaseError) && final(db)@ == old(db)@
                } else {
                    &&& r == Ok::<bool, AuthError>(true)
                    &&& credential_replaced(old(db)@, i, final(db)@)
                    &&& final(db)@.users[i].salt@ == old(db)@.users[i].salt@
                    &&& final(db)@.users[i].hash@ == derived_credential(new_password@, old(db)@.users[i].salt@)
                    &&& final(db)@ == with_users(without_session_token(old(db)@, token@), final(db)@.users)
                }
            },
    {
        if !AuthService::check_password_reset_token(token, now, db) {
            return Ok(false);
        }
        let t = match TokenRepo::get_by_token(token, db) {
            Ok(t) => t,
            Err(_) => return Err(AuthError::DatabaseError),
        };
        assert(db@ == old(db)@);
        proof {
            lemma_user_index_by_id_bounded(old(db)@.users, t.user_id);
        }
        let user = match UserRepo::get_by_id(t.user_id, db) {
            Ok(u) => u,
            Err(_) => return Err(AuthError::DatabaseError),
        };
        let (salt, hash) = hash_password(new_password, Some(user.salt));
        match UserRepo::update_hash_salt(user.id, hash, salt, db) {
            Ok(_) => {},
            Err(_) => return Err(AuthError::DatabaseError),
        }
        let _ = TokenRepo::delete_one_by_token(token, db);
        Ok(true)
    }

    /// Changes the password of `user_id` after checking `current_password`;
    /// the salt is kept. The change is recorded (if the audit trail accepts
    /// it).
    pub fn update_password(
        user_id: UserId,
        current_password: &str,
        new_password: &str,
        ip: Option<String>,
        user_agent: Option<String>,
        db: &mut AuthStore,
    ) -> (r: Result<User, AuthError>)
        requires
            store_wf(old(db)@),
        ensures
            store_wf(final(db)@),
            ({
                let i = user_index_by_id(old(db)@.users, user_id);
                i == -1 || !credential_matches(current_password@, old(db)@.users[i].salt@, old(db)@.users[i].hash@)
            }) ==> r == Err::<User, AuthError>(AuthError::InvalidCredentials) && final(db)@ == old(db)@,
            ({
                let i = user_index_by_id(old(db)@.users, user_id);
                i != -1 && credential_matches(current_password@, old(db)@.users[i].salt@, old(db)@.users[i].hash@)
            }) ==> r is Ok,
            r matches Ok(u) ==> {
                let i = user_index_by_id(old(db)@.users, user_id);
                let mid = with_users(old(db)@, final(db)@.users);
                &&& credential_replaced(old(db)@, i, final(db)@)
                &&& final(db)@.users[i].salt@ == old(db)@.users[i].salt@
                &&& final(db)@.users[i].hash@ == derived_credential(new_password@, old(db)@.users[i].salt@)
                &&& same_user(u, final(db)@.users[i])
                &&& audit_appended(mid, final(db)@, (ActivityEntry::PasswordChange {
                    ip_address: ip,
                    user_agent,
                    item_id: user_id,
                    action_by_id: user_id,
                }))
            },
    {
        proof {
            lemma_user_index_by_id_bounded(old(db)@.users, user_id);
        }
        let user = match UserRepo::get_by_id(user_id, db) {
            Ok(u) => u,
            Err(_) => return Err(AuthError::InvalidCredentials),
        };
        if !verify_password(current_password, user.salt.as_slice(), user.hash.as_slice()) {
            return Err(AuthError::InvalidCredentials);
        }
        let (salt, hash) = hash_password(new_password, Some(user.salt));
        let updated = match UserRepo::update_hash_salt(user_id, hash, salt, db) {
            Ok(u) => u,
            Err(_) => return Err(AuthError::InternalServerError("user vanished".to_owned())),
        };
        let entry = ActivityEntry::PasswordChange { ip_address: ip, user_agent, item_id: user_id, action_by_id: user_id };
        let ghost e = entry;
        let ghost mid = db@;
        let res = ActivityRepo::create_one(entry, db);
        proof {
            lemma_audit_outcome(mid, db@, e, res);
        }
        Ok(updated)
    }

    /// Starts a password reset for `email` at `now` with `value` as the reset
    /// token's value: for a known user the token is created and
    /// `(email, value)` returned for delivery; an unknown email gives
    /// `Ok(None)` and changes nothing.
    pub fn request_password_reset_at(email: &String, value: String, now: Timestamp, db: &mut AuthStore) -> (r: Result<Option<(String, String)>, AuthError>)
        requires
            store_wf(old(db)@),
        ensures
            store_wf(final(db)@),
            user_index_by_email(old(db)@.users, email@) == -1 ==> r == Ok::<Option<(String, String)>, AuthError>(None)
                && final(db)@ == old(db)@,
            user_index_by_email(old(db)@.users, email@) != -1 ==> (r is Ok <==> can_insert_token(old(db)@, value@, now)),
            (user_index_by_email(old(db)@.users, email@) != -1 && can_insert_token(old(db)@, value@, now))
                ==> r matches Ok(Some(_)),
            r is Err ==> r == Err::<Option<(String, String)>, AuthError>(AuthError::DatabaseError) && final(db)@ == old(db)@,
            r matches Ok(Some((to, v))) ==> {
                let i = user_index_by_email(old(db)@.users, email@);
                let t = final(db)@.tokens.last();
                &&& i != -1
                &&& to == old(db)@.users[i].email
                &&& v@ == value@
                &&& t == token_row(old(db)@, old(db)@.users[i].id, TokenType::PasswordReset, value, None,
                    Some((now + PASSWORD_RESET_TOKEN_TTL_MS) as i64), now)
                &&& final(db)@ == with_token(old(db)@, t)
            },
    {
        proof {
            lemma_user_index_by_email_bounded(old(db)@.users, email@);
        }
        let user = match UserRepo::get_by_email(email, db) {
            Ok(u) => u,
            Err(_) => return Ok(None),
        };
        match TokenRepo::create_one_password_reset_token_at(user.id, value, now, db) {
            Ok(t) => Ok(Some((user.email, t.token))),
            Err(_) => Err(AuthError::DatabaseError),
        }
    }

    /// Starts a password reset for `email`: for a known user a reset token of
    /// fresh random value is created and `(email, token value)` returned for
    /// delivery; an unknown email gives `Ok(None)` and changes nothing.
    pub fn request_password_reset(email: &String, db: &mut AuthStore) -> (r: Result<Option<(String, String)>, AuthError>)
        requires
            store_wf(old(db)@),
        ensures
            store_wf(final(db)@),
            user_index_by_email(old(db)@.users, email@) == -1 ==> r == Ok::<Option<(String, String)>, AuthError>(None)
                && final(db)@ == old(db)@,
            user_index_by_email(old(db)@.users, email@) != -1 ==> !(r matches Ok(None)),
            r is Err ==> r == Err::<Option<(String, String)>, AuthError>(AuthError::DatabaseError) && final(db)@ == old(db)@,
            r matches Ok(Some((to, value))) ==> {
                let i = user_index_by_email(old(db)@.users, email@);
                let t = final(db)@.tokens.last();
                &&& i != -1
                &&& to == old(db)@.users[i].email
                &&& t.token@ == value@
                &&& t.user_id == old(db)@.users[i].id
                &&& t.token_type == TokenType::PasswordReset
                &&& t.expiration == Some((t.created_at + PASSWORD_RESET_TOKEN_TTL_MS) as i64)
                &&& final(db)@ == with_token(old(db)@, t)
            },
    {
        let now = now_millis();
        AuthService::request_password_reset_at(email, random_token_value(), now, db)
    }

    /// The user a session cookie resolves to at `now`; no cookie, or one
    /// that does not authenticate, resolves to no user.
    pub fn resolve_session(cookie: &Option<String>, now: Timestamp, db: &AuthStore) -> (r: Option<User>)
        ensures
            cookie is None ==> r is None,
            cookie matches Some(c) ==> (r is None <==> session_user_index(db@, c@, now) == -1),
            r matches Some(u) ==> (cookie matches Some(c) && same_user(u, db@.users[session_user_index(db@, c@, now)])),
    {
        match cookie {
            Some(c) => match UserRepo::get_from_session_token(c, now, db) {
                Ok(u) => Some(u),
                Err(_) => None,
            },
            None => None,
        }
    }
}


/// A login with an unknown email and a login with a known email but a wrong
/// password are refused with the same error.
pub proof fn lemma_login_failures_alike(st: StoreView, unknown: Seq<char>, known: Seq<char>, password: Seq<char>)
    requires
        user_index_by_email(st.users, unknown) == -1,
        user_index_by_email(st.users, known) != -1,
        !credential_matches(
            password,
            st.users[user_index_by_email(st.users, known)].salt@,
            st.users[user_index_by_email(st.users, known)].hash@,
        ),
    ensures
        login_rejection(st, unknown, password) == Some(AuthError::InvalidCredentials),
        login_rejection(st, known, password) == login_rejection(st, unknown, password),
{
}

/// Checking a reset token after it expired reports it invalid and deletes
/// it; checking again reports it invalid, as not found, and changes nothing.
pub proof fn lemma_expired_reset_check(st: StoreView, v: Seq<char>, now: Timestamp, later: Timestamp)
    requires
        token_expired(st, v, now),
    ensures
        !reset_token_valid(st, v, now),
        token_by_value(after_reset_check(st, v, now).tokens, v) is None,
        !reset_token_valid(after_reset_check(st, v, now), v, later),
        after_reset_check(after_reset_check(st, v, now), v, later) == after_reset_check(st, v, now),
{
    lemma_no_token_with_removed_value(st.tokens, v);
}

/// Once a reset token has been consumed it is gone, so consuming it again
/// finds no valid token.
pub proof fn lemma_reset_token_single_use(st: StoreView, v: Seq<char>, users: Seq<User>, later: Timestamp)
    ensures
        ({
            let consumed = with_users(without_session_token(st, v), users);
            &&& !reset_token_valid(consumed, v, later)
            &&& after_reset_check(consumed, v, later) == consumed
        }),
{
    lemma_no_token_with_removed_value(st.tokens, v);
}
} // verus!
