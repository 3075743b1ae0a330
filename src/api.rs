//! Request bodies of the HTTP interface and the decisions its handlers make
//! before and after calling the services.
use vstd::prelude::*;
use crate::activity::ActivityEntry;
use crate::auth::{after_reset_check, audit_appended, credential_replaced, reset_token_valid, AuthService};
use crate::repo::with_users;
use crate::credential::{credential_matches, derived_credential};
use crate::errors::{AuthError, Metadata, UserError};
use crate::model::{Language, Role, Theme, Timestamp, UserId};
use crate::store::{same_user, store_wf, token_by_value, user_index_by_id, AuthStore, User};

verus! {

/// `{email, password}` of a login.
pub struct LoginPayload {
    pub email: String,
    pub password: String,
}

/// `{success, _metadata}` answered by login, logout and reset.
pub struct AuthResponse {
    pub success: bool,
    pub _metadata: Metadata,
}

/// `{email}` of a password-reset request.
pub struct PasswordResetRequestBody {
    pub email: String,
}

/// `{token}` of a password-reset check.
pub struct PasswordResetCheckTokenBody {
    pub token: String,
}

/// `{token, password, confirmPassword}` of a password reset.
pub struct PasswordResetBody {
    pub token: String,
    pub password: String,
    pub confirm_password: String,
}

/// `{currentPassword, newPassword, confirmNewPassword}` of a password change.
pub struct UpdatePasswordPayload {
    pub current_password: String,
    pub new_password: String,
    pub confirm_new_password: String,
}

/// `{name}` of a new static-access token.
pub struct TokenPostBody {
    pub name: String,
}

/// `{theme?, language?}` of a preferences change.
pub struct PostPreferencesBody {
    pub theme: Option<Theme>,
    pub language: Option<Language>,
}

/// `{email, firstName?, lastName?, password, confirmPassword}` of the first
/// administrator.
pub struct CreateAdminUserPayload {
    pub email: String,
    pub first_name: Option<String>,
    pub last_name: Option<String>,
    pub password: String,
    pub confirm_password: String,
}

/// Handles a password reset: it succeeds only for a valid reset token whose
/// owner exists and a password equal to its confirmation. Checking the token
/// deletes it if it has expired.
pub fn reset(body: &PasswordResetBody, now: Timestamp, db: &mut AuthStore) -> (r: bool)
    requires
        store_wf(old(db)@),
    ensures
        store_wf(final(db)@),
        !(reset_token_valid(old(db)@, body.token@, now) && body.password@ == body.confirm_password@) ==> !r
            && final(db)@ == after_reset_check(old(db)@, body.token@, now),
        (reset_token_valid(old(db)@, body.token@, now) && body.password@ == body.confirm_password@) ==> {
            let t = token_by_value(old(db)@.tokens, body.token@).unwrap();
            let i = user_index_by_id(old(db)@.users, t.user_id);
            &&& r == (i != -1)
            &&& r ==> final(db)@.users[i].hash@ == derived_credential(body.password@, old(db)@.users[i].salt@)
            &&& r ==> token_by_value(final(db)@.tokens, body.token@) is None
        },
{
    let valid = AuthService::check_password_reset_token(&body.token, now, db);
    if !valid || body.password != body.confirm_password {
        return false;
    }
    proof {
        crate::store::lemma_no_token_with_removed_value(old(db)@.tokens, body.token@);
    }
    match AuthService::reset_password(&body.token, body.password.as_str(), now, db) {
        Ok(done) => done,
        Err(_) => false,
    }
}

/// Handles a password change by the signed-in `user`: no user is
/// `Unauthorized`, a confirmation that differs is `PasswordsDontMatch`, a
/// wrong current password is `InvalidCredentials`.
pub fn update_password(
    user: &Option<User>,
    payload: &UpdatePasswordPayload,
    ip: Option<String>,
    user_agent: Option<String>,
    db: &mut AuthStore,
) -> (r: Result<User, UserError>)
    requires
        store_wf(old(db)@),
    ensures
        store_wf(final(db)@),
        user is None ==> r == Err::<User, UserError>(UserError::Unauthorized) && final(db)@ == old(db)@,
        (user is Some && payload.new_password@ != payload.confirm_new_password@) ==> r
            == Err::<User, UserError>(UserError::PasswordsDontMatch) && final(db)@ == old(db)@,
        user matches Some(u) ==> ({
            let i = user_index_by_id(old(db)@.users, u.id);
            (payload.new_password@ == payload.confirm_new_password@ && (i == -1 || !credential_matches(
                payload.current_password@,
                old(db)@.users[i].salt@,
                old(db)@.users[i].hash@,
            ))) ==> r == Err::<User, UserError>(UserError::InvalidCredentials) && final(db)@ == old(db)@
        }),
        user matches Some(u) ==> ({
            let i = user_index_by_id(old(db)@.users, u.id);
            (payload.new_password@ == payload.confirm_new_password@ && i != -1 && credential_matches(
                payload.current_password@,
                old(db)@.users[i].salt@,
                old(db)@.users[i].hash@,
            )) ==> r is Ok
        }),
        r matches Ok(v) ==> (user matches Some(u) && {
            let i = user_index_by_id(old(db)@.users, u.id);
            &&& u.id == v.id
            &&& credential_replaced(old(db)@, i, final(db)@)
            &&& final(db)@.users[i].salt@ == old(db)@.users[i].salt@
            &&& final(db)@.users[i].hash@ == derived_credential(payload.new_password@, old(db)@.users[i].salt@)
            &&& same_user(v, final(db)@.users[i])
            &&& audit_appended(with_users(old(db)@, final(db)@.users), final(db)@, (ActivityEntry::PasswordChange {
                ip_address: ip,
                user_agent,
                item_id: u.id,
                action_by_id: u.id,
            }))
        }),
{
    let current = match user {
        Some(u) => u,
        None => return Err(UserError::Unauthorized),
    };
    if payload.new_password != payload.confirm_new_password {
        return Err(UserError::PasswordsDontMatch);
    }
    let res = AuthService::update_password(
        current.id,
        payload.current_password.as_str(),
        payload.new_password.as_str(),
        ip,
        user_agent,
        db,
    );
    match res {
        Ok(v) => {
            proof {
                crate::store::lemma_user_index_by_id_bounded(old(db)@.users, current.id);
            }
            Ok(v)
        },
        Err(AuthError::InvalidCredentials) => Err(UserError::InvalidCredentials),
        Err(e) => Err(UserError::InternalServerError(e.message())),
    }
}

/// The UUID written as `s`, if `s` is one.
pub uninterp spec fn uuid_of_text(s: Seq<char>) -> Option<u128>;

/// Relies on `uuid::Uuid::parse_str` (read as `as_u128`): whether the text is
/// a UUID, and which, depends on the text alone.
#[verifier::external_body]
fn parse_uuid(s: &str) -> (r: Option<u128>)
    ensures
        r == uuid_of_text(s@),
{
    match uuid::Uuid::parse_str(s) {
        Ok(u) => Some(u.as_u128()),
        Err(_) => None,
    }
}

/// Whether `role` passes the optional role filter `allowed`.
pub open spec fn role_allowed(allowed: Option<Seq<Role>>, role: Role) -> bool {
    match allowed {
        Some(rs) => rs.contains(role),
        None => true,
    }
}

fn contains_role(roles: &Vec<Role>, role: Role) -> (r: bool)
    ensures
        r == roles@.contains(role),
{
    let mut i: usize = 0;
    while i < roles.len()
        invariant
            i <= roles@.len(),
            forall|j: int| 0 <= j < i ==> roles@[j] != role,
        decreases roles@.len() - i,
    {
        if roles[i] == role {
            return true;
        }
        i = i + 1;
    }
    false
}

/// Resolves the user id in a path: `me` is the signed-in user (who must hold
/// one of `allowed_roles`, if given), anything else must be a UUID.
pub fn validate_user_id(id: &String, user: &Option<User>, allowed_roles: &Option<Vec<Role>>) -> (r: Result<UserId, UserError>)
    ensures
        id@ == "me"@ ==> r == (match user {
            None => Err(UserError::Unauthorized),
            Some(u) => if role_allowed(
                match allowed_roles {
                    Some(v) => Some(v@),
                    None => None,
                },
                u.role,
            ) {
                Ok(u.id)
            } else {
                Err(UserError::Forbidden)
            },
        }),
        id@ != "me"@ ==> r == (match uuid_of_text(id@) {
            Some(x) => Ok(x),
            None => Err(UserError::InvalidId(*id)),
        }),
{
    let me = "me".to_owned();
    if *id == me {
        match user {
            None => Err(UserError::Unauthorized),
            Some(u) => {
                let allowed = match allowed_roles {
                    Some(rs) => contains_role(rs, u.role),
                    None => true,
                };
                if allowed {
                    Ok(u.id)
                } else {
                    Err(UserError::Forbidden)
                }
            },
        }
    } else {
        match parse_uuid(id.as_str()) {
            Some(x) => Ok(x),
            None => Err(UserError::InvalidId(id.clone())),
        }
    }
}

/// Builds the text of password-reset emails.
pub struct EmailService {}

impl EmailService {
    /// The link a user follows to reset a password with `token`.
    pub fn reset_link(base_url: &str, token: &str) -> (r: String)
        ensures
            r@ == base_url@ + "/admin/reset-password?token="@ + token@,
    {
        let link = base_url.to_owned();
        let link = link.concat("/admin/reset-password?token=");
        link.concat(token)
    }

    /// The HTML body of a password-reset email carrying `link`.
    pub fn reset_email_body(link: &str) -> (r: String)
        ensures
            r@ == "<p>Reset your password by clicking this link: <a href=\""@ + link@ + "\">"@ + link@ + "</a></p>"@,
    {
        let body = "<p>Reset your password by clicking this link: <a href=\"".to_owned();
        let body = body.concat(link);
        let body = body.concat("\">");
        let body = body.concat(link);
        body.concat("</a></p>")
    }
}

} // verus!
