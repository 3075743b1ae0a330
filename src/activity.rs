//! The audit trail: one immutable record per security-relevant action,
//! listed newest first.
use vstd::prelude::*;
use crate::model::{Timestamp, UserId};
use crate::store::{store_wf, Activity, AuthStore, DbError, StoreView};

verus! {

/// Paging of a listing: at most `limit` rows after skipping `offset`.
#[derive(Clone, Copy, Debug)]
pub struct DatabasePagination {
    pub limit: i64,
    pub offset: i64,
}

impl DatabasePagination {
    /// Paging for page `page` (counted from 1) of `limit` rows: the offset is
    /// `(page - 1) * limit`. `None` when the page is below 1, the limit is
    /// negative, or the offset does not fit an `i64`.
    pub fn for_page(page: i64, limit: i64) -> (r: Option<DatabasePagination>)
        ensures
            (page >= 1 && limit >= 0 && (page - 1) * limit <= i64::MAX) <==> r is Some,
            r matches Some(p) ==> p.limit == limit && p.offset == (page - 1) * limit,
    {
        if page < 1 || limit < 0 {
            return None;
        }
        let skipped = (page - 1) as u64;
        match skipped.checked_mul(limit as u64) {
            Some(offset) => {
                if offset > i64::MAX as u64 {
                    None
                } else {
                    Some(DatabasePagination { limit, offset: offset as i64 })
                }
            },
            None => None,
        }
    }
}

/// What the caller records; each variant has a fixed action label and a
/// fixed set of fields.
pub enum ActivityEntry {
    Update {
        table_name: String,
        item_id: String,
        ip_address: Option<String>,
        user_agent: Option<String>,
        old_data: String,
        new_data: String,
        action_by_id: UserId,
    },
    PasswordResetRequest {
        ip_address: Option<String>,
        user_agent: Option<String>,
        /// The user whose password is to be reset.
        item_id: UserId,
    },
    PasswordReset {
        ip_address: Option<String>,
        user_agent: Option<String>,
        /// The user whose password was reset.
        item_id: UserId,
    },
    PasswordChange {
        ip_address: Option<String>,
        user_agent: Option<String>,
        /// The user whose password was changed.
        item_id: UserId,
        /// The user who changed it.
        action_by_id: UserId,
    },
    Login {
        ip_address: Option<String>,
        user_agent: Option<String>,
        action_by_id: UserId,
    },
    Logout {
        ip_address: Option<String>,
        user_agent: Option<String>,
        action_by_id: UserId,
    },
    Delete {
        ip_address: Option<String>,
        user_agent: Option<String>,
        action_by_id: UserId,
        table_name: String,
        item_id: String,
    },
    HardDelete {
        ip_address: Option<String>,
        user_agent: Option<String>,
        action_by_id: UserId,
        table_name: String,
        item_id: String,
    },
    Create {
        ip_address: Option<String>,
        user_agent: Option<String>,
        action_by_id: UserId,
        table_name: String,
        item_id: String,
        /// The created record, without secrets, as JSON text.
        new_data: String,
    },
    Comment,
}

/// Hexadecimal digit `n` (0 to 15), lower case.
pub open spec fn hex_digit(n: int) -> char {
    "0123456789abcdef"@[n]
}

/// Digit `k` (0 to 31) of `id` in base 16, most significant first.
pub open spec fn nibble(id: u128, k: int) -> int {
    (id as int / vstd::arithmetic::power::pow(16, (31 - k) as nat)) % 16
}

/// Which of the 32 digits stands at position `i` of the hyphenated text.
pub open spec fn digit_at(i: int) -> int {
    if i < 8 {
        i
    } else if i < 13 {
        i - 1
    } else if i < 18 {
        i - 2
    } else if i < 23 {
        i - 3
    } else {
        i - 4
    }
}

/// The canonical hyphenated text of the UUID with value `id`: 36
/// characters, the 32 lower-case hexadecimal digits of `id`, most
/// significant first, with hyphens at positions 8, 13, 18 and 23.
pub open spec fn uuid_text(id: u128) -> Seq<char> {
    Seq::new(36, |i: int| if i == 8 || i == 13 || i == 18 || i == 23 {
        '-'
    } else {
        hex_digit(nibble(id, digit_at(i)))
    })
}

/// Relies on `uuid::Uuid::from_u128` (big-endian bytes) and its `Display`
/// (hyphenated, lower case).
#[verifier::external_body]
pub(crate) fn uuid_to_text(id: u128) -> (r: String)
    ensures
        r@ == uuid_text(id),
{
    uuid::Uuid::from_u128(id).to_string()
}

/// The fixed action label of each kind of entry.
pub open spec fn action_label(e: ActivityEntry) -> Seq<char> {
    match e {
        ActivityEntry::Update { .. } => "update"@,
        ActivityEntry::PasswordResetRequest { .. } => "password_reset_request"@,
        ActivityEntry::PasswordReset { .. } => "password_reset"@,
        ActivityEntry::PasswordChange { .. } => "password_change"@,
        ActivityEntry::Login { .. } => "login"@,
        ActivityEntry::Logout { .. } => "logout"@,
        ActivityEntry::Delete { .. } => "delete"@,
        ActivityEntry::HardDelete { .. } => "hard_delete"@,
        ActivityEntry::Create { .. } => "create"@,
        ActivityEntry::Comment => "comment"@,
    }
}

/// Whether optional text `o` holds exactly the characters `t`.
pub open spec fn text_is(o: Option<String>, t: Seq<char>) -> bool {
    o matches Some(s) && s@ == t
}

/// The fields of `a` other than id, label and time, as entry `e` fixes them.
pub open spec fn fields_recorded(a: Activity, e: ActivityEntry) -> bool {
    match e {
        ActivityEntry::Update { table_name, item_id, ip_address, user_agent, old_data, new_data, action_by_id } => {
            &&& a.action_by_id == Some(action_by_id)
            &&& a.ip_address == ip_address && a.user_agent == user_agent
            &&& a.table_name == Some(table_name) && a.item_id == Some(item_id)
            &&& a.old_data == Some(old_data) && a.new_data == Some(new_data)
        },
        ActivityEntry::PasswordResetRequest { ip_address, user_agent, item_id } => {
            &&& a.action_by_id is None
            &&& a.ip_address == ip_address && a.user_agent == user_agent
            &&& a.table_name is None && text_is(a.item_id, uuid_text(item_id))
            &&& a.old_data is None && a.new_data is None
        },
        ActivityEntry::PasswordReset { ip_address, user_agent, item_id } => {
            &&& a.action_by_id is None
            &&& a.ip_address == ip_address && a.user_agent == user_agent
            &&& a.table_name is None && text_is(a.item_id, uuid_text(item_id))
            &&& a.old_data is None && a.new_data is None
        },
        ActivityEntry::PasswordChange { ip_address, user_agent, item_id, action_by_id } => {
            &&& a.action_by_id == Some(action_by_id)
            &&& a.ip_address == ip_address && a.user_agent == user_agent
            &&& a.table_name is None && text_is(a.item_id, uuid_text(item_id))
            &&& a.old_data is None && a.new_data is None
        },
        ActivityEntry::Login { ip_address, user_agent, action_by_id } => {
            &&& a.action_by_id == Some(action_by_id)
            &&& a.ip_address == ip_address && a.user_agent == user_agent
            &&& a.table_name is None && a.item_id is None
            &&& a.old_data is None && a.new_data is None
        },
        ActivityEntry::Logout { ip_address, user_agent, action_by_id } => {
            &&& a.action_by_id == Some(action_by_id)
            &&& a.ip_address == ip_address && a.user_agent == user_agent
            &&& a.table_name is None && a.item_id is None
            &&& a.old_data is None && a.new_data is None
        },
        ActivityEntry::Delete { ip_address, user_agent, action_by_id, table_name, item_id } => {
            &&& a.action_by_id == Some(action_by_id)
            &&& a.ip_address == ip_address && a.user_agent == user_agent
            &&& a.table_name == Some(table_name) && a.item_id == Some(item_id)
            &&& a.old_data is None && a.new_data is None
        },
        ActivityEntry::HardDelete { ip_address, user_agent, action_by_id, table_name, item_id } => {
            &&& a.action_by_id == Some(action_by_id)
            &&& a.ip_address == ip_address && a.user_agent == user_agent
            &&& a.table_name == Some(table_name) && a.item_id == Some(item_id)
            &&& a.old_data is None && a.new_data is None
        },
        ActivityEntry::Create { ip_address, user_agent, action_by_id, table_name, item_id, new_data } => {
            &&& a.action_by_id == Some(action_by_id)
            &&& a.ip_address == ip_address && a.user_agent == user_agent
            &&& a.table_name == Some(table_name) && a.item_id == Some(item_id)
            &&& a.old_data is None && a.new_data == Some(new_data)
        },
        ActivityEntry::Comment => {
            &&& a.action_by_id is None
            &&& a.ip_address is None && a.user_agent is None
            &&& a.table_name is None && a.item_id is None
            &&& a.old_data is None && a.new_data is None
        },
    }
}

/// Whether `a` is the record of entry `e` with id `id` at time `now`.
pub open spec fn recorded_as(a: Activity, e: ActivityEntry, id: i32, now: Timestamp) -> bool {
    &&& a.id == id
    &&& a.action_at == now
    &&& a.action@ == action_label(e)
    &&& fields_recorded(a, e)
}

/// The tables with record `a` appended.
pub open spec fn with_activity(st: StoreView, a: Activity) -> StoreView {
    StoreView { activities: st.activities.push(a), next_activity_id: (st.next_activity_id + 1) as i32, ..st }
}

/// The records of actor `user`, newest first.
pub open spec fn activities_newest_first(s: Seq<Activity>, user: UserId) -> Seq<Activity>
    decreases s.len(),
{
    if s.len() == 0 {
        Seq::empty()
    } else if s.last().action_by_id == Some(user) {
        seq![s.last()] + activities_newest_first(s.drop_last(), user)
    } else {
        activities_newest_first(s.drop_last(), user)
    }
}

/// At most `limit` items of `s` after the first `offset`.
pub open spec fn page_of<T>(s: Seq<T>, limit: int, offset: int) -> Seq<T> {
    let start = if offset < s.len() { offset } else { s.len() as int };
    let end = if offset + limit < s.len() { offset + limit } else { s.len() as int };
    s.subrange(start, end)
}

/// Records and lists audit entries.
pub struct ActivityRepo {}

impl ActivityRepo {
    fn row_for(entry: ActivityEntry, id: i32, now: Timestamp) -> (r: Activity)
        ensures
            recorded_as(r, entry, id, now),
    {
        let ghost e = entry;
        match entry {
            ActivityEntry::Update { table_name, item_id, ip_address, user_agent, old_data, new_data, action_by_id } => Activity {
                id,
                action: "update".to_owned(),
                action_by_id: Some(action_by_id),
                action_at: now,
                ip_address,
                user_agent,
                table_name: Some(table_name),
                item_id: Some(item_id),
                old_data: Some(old_data),
                new_data: Some(new_data),
            },
            ActivityEntry::PasswordResetRequest { ip_address, user_agent, item_id } => Activity {
                id,
                action: "password_reset_request".to_owned(),
                action_by_id: None,
                action_at: now,
                ip_address,
                user_agent,
                table_name: None,
                item_id: Some(uuid_to_text(item_id)),
                old_data: None,
                new_data: None,
            },
            ActivityEntry::PasswordReset { ip_address, user_agent, item_id } => Activity {
                id,
                action: "password_reset".to_owned(),
                action_by_id: None,
                action_at: now,
                ip_address,
                user_agent,
                table_name: None,
                item_id: Some(uuid_to_text(item_id)),
                old_data: None,
                new_data: None,
            },
            ActivityEntry::PasswordChange { ip_address, user_agent, item_id, action_by_id } => Activity {
                id,
                action: "password_change".to_owned(),
                action_by_id: Some(action_by_id),
                action_at: now,
                ip_address,
                user_agent,
                table_name: None,
                item_id: Some(uuid_to_text(item_id)),
                old_data: None,
                new_data: None,
            },
            ActivityEntry::Login { ip_address, user_agent, action_by_id } => Activity {
                id,
                action: "login".to_owned(),
                action_by_id: Some(action_by_id),
                action_at: now,
                ip_address,
                user_agent,
                table_name: None,
                item_id: None,
                old_data: None,
                new_data: None,
            },
            ActivityEntry::Logout { ip_address, user_agent, action_by_id } => Activity {
                id,
                action: "logout".to_owned(),
                action_by_id: Some(action_by_id),
                action_at: now,
                ip_address,
                user_agent,
                table_name: None,
                item_id: None,
                old_data: None,
                new_data: None,
            },
            ActivityEntry::Delete { ip_address, user_agent, action_by_id, table_name, item_id } => Activity {
                id,
                action: "delete".to_owned(),
                action_by_id: Some(action_by_id),
                action_at: now,
                ip_address,
                user_agent,
                table_name: Some(table_name),
                item_id: Some(item_id),
                old_data: None,
                new_data: None,
            },
            ActivityEntry::HardDelete { ip_address, user_agent, action_by_id, table_name, item_id } => Activity {
                id,
                action: "hard_delete".to_owned(),
                action_by_id: Some(action_by_id),
                action_at: now,
                ip_address,
                user_agent,
                table_name: Some(table_name),
                item_id: Some(item_id),
                old_data: None,
                new_data: None,
            },
            ActivityEntry::Create { ip_address, user_agent, action_by_id, table_name, item_id, new_data } => Activity {
                id,
                action: "create".to_owned(),
                action_by_id: Some(action_by_id),
                action_at: now,
                ip_address,
                user_agent,
                table_name: Some(table_name),
                item_id: Some(item_id),
                old_data: None,
                new_data: Some(new_data),
            },
            ActivityEntry::Comment => Activity {
                id,
                action: "comment".to_owned(),
                action_by_id: None,
                action_at: now,
                ip_address: None,
                user_agent: None,
                table_name: None,
                item_id: None,
                old_data: None,
                new_data: None,
            },
        }
    }

    /// Appends the record of `data` at time `now` and returns it.
    pub fn create_one_at(data: ActivityEntry, now: Timestamp, db: &mut AuthStore) -> (r: Result<Activity, DbError>)
        requires
            store_wf(old(db)@),
        ensures
            store_wf(final(db)@),
            r is Ok <==> old(db)@.next_activity_id < i32::MAX,
            r is Err ==> r == Err::<Activity, DbError>(DbError::IdsExhausted) && final(db)@ == old(db)@,
            r matches Ok(a) ==> recorded_as(a, data, old(db)@.next_activity_id, now)
                && final(db)@ == with_activity(old(db)@, a),
    {
        if db.next_activity_id == i32::MAX {
            return Err(DbError::IdsExhausted);
        }
        let a = ActivityRepo::row_for(data, db.next_activity_id, now);
        db.activities.push(a.copy());
        db.next_activity_id = db.next_activity_id + 1;
        Ok(a)
    }

    /// Appends the record of `data`, stamped with the current time.
    pub fn create_one(data: ActivityEntry, db: &mut AuthStore) -> (r: Result<Activity, DbError>)
        requires
            store_wf(old(db)@),
        ensures
            store_wf(final(db)@),
            r is Ok <==> old(db)@.next_activity_id < i32::MAX,
            r is Err ==> final(db)@ == old(db)@,
            r matches Ok(a) ==> recorded_as(a, data, old(db)@.next_activity_id, a.action_at)
                && final(db)@ == with_activity(old(db)@, a),
    {
        let now = crate::repo::now_millis();
        ActivityRepo::create_one_at(data, now, db)
    }

    /// One page of the records of actor `user_id`, newest first.
    pub fn list_all_for_user_id(user_id: UserId, options: DatabasePagination, db: &AuthStore) -> (r: Result<Vec<Activity>, DbError>)
        ensures
            r is Err <==> (options.limit < 0 || options.offset < 0),
            r is Err ==> r == Err::<Vec<Activity>, DbError>(DbError::InvalidArgument),
            r matches Ok(v) ==> v@ == page_of(activities_newest_first(db@.activities, user_id),
                options.limit as int, options.offset as int),
    {
        if options.limit < 0 || options.offset < 0 {
            return Err(DbError::InvalidArgument);
        }
        let ghost s = db@.activities;
        let n = db.activities.len();
        let mut all: Vec<Activity> = Vec::new();
        let mut k: usize = n;
        assert(s.subrange(0, n as int) =~= s);
        while k > 0
            invariant
                k <= n,
                n == s.len(),
                s == db@.activities,
                activities_newest_first(s, user_id) =~= all@ + activities_newest_first(s.subrange(0, k as int), user_id),
            decreases k,
        {
            proof {
                assert(s.subrange(0, k as int).drop_last() =~= s.subrange(0, k - 1));
            }
            if db.activities[k - 1].action_by_id == Some(user_id) {
                all.push(db.activities[k - 1].copy());
            }
            k = k - 1;
        }
        assert(s.subrange(0, 0) =~= Seq::<Activity>::empty());
        let len = all.len();
        let start: usize = if (options.offset as u64) < (len as u64) { options.offset as usize } else { len };
        let end: usize = if (options.limit as u64) < ((len - start) as u64) { start + options.limit as usize } else { len };
        let mut out: Vec<Activity> = Vec::new();
        let mut i: usize = start;
        while i < end
            invariant
                start <= i <= end,
                end <= all@.len(),
                out@ == all@.subrange(start as int, i as int),
            decreases end - i,
        {
            out.push(all[i].copy());
            i = i + 1;
            assert(out@ =~= all@.subrange(start as int, i as int));
        }
        Ok(out)
    }

    /// How many records actor `user_id` has.
    pub fn count_all_for_user_id(user_id: UserId, db: &AuthStore) -> (r: usize)
        ensures
            r == activities_newest_first(db@.activities, user_id).len(),
    {
        let mut count: usize = 0;
        let mut i: usize = 0;
        while i < db.activities.len()
            invariant
                i <= db@.activities.len(),
                count == activities_newest_first(db@.activities.subrange(0, i as int), user_id).len(),
                count <= i,
            decreases db@.activities.len() - i,
        {
            proof {
                assert(db@.activities.subrange(0, i + 1).drop_last() =~= db@.activities.subrange(0, i as int));
            }
            if db.activities[i].action_by_id == Some(user_id) {
                count = count + 1;
            }
            i = i + 1;
        }
        assert(db@.activities.subrange(0, db@.activities.len() as int) =~= db@.activities);
        count
    }
}

} // verus!
