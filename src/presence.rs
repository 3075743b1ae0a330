//! Per-connection presence sessions. An observer watches one user's status;
//! a self-reporter publishes and persists its owner's status. The
//! connection's reading and writing are done by the caller, which hands each
//! event to the session and carries out what it returns.
use vstd::prelude::*;
use crate::events::{Event, EventChannel};
use crate::model::{status_of_label, Timestamp, UserId, UserStatus};
use crate::repo::{with_status, with_users, UserRepo};
use crate::store::{store_wf, user_index_by_id, AuthStore, StoreView, User};

verus! {

/// Where a connection is in its life.
#[derive(Clone, Copy, Debug, PartialEq, Eq, Structural)]
pub enum Phase {
    Connecting,
    Active,
    Closing,
    Closed,
}

/// The outbound message `{onlineStatus, lastActiveAt?}`.
#[derive(Clone, Copy, Debug, PartialEq, Eq, Structural)]
pub struct StatusMessage {
    pub online_status: UserStatus,
    pub last_active_at: Option<Timestamp>,
}

/// Errors of a self-reporting connection.
#[derive(Clone, Copy, Debug, PartialEq, Eq, Structural)]
pub enum PresenceError {
    /// The inbound status is not one of the four labels.
    InvalidStatus,
    /// The connection is not active.
    NotActive,
    /// The owner no longer exists.
    UnknownUser,
}

/// Whether moving from `previous` to `next` refreshes the last-activity
/// time: any status but offline does, and so does going offline from any
/// other status.
pub open spec fn refreshes_activity(previous: UserStatus, next: UserStatus) -> bool {
    next != UserStatus::Offline || previous != UserStatus::Offline
}

/// Whether a status change refreshes the last-activity time.
pub fn should_refresh_activity(previous: UserStatus, next: UserStatus) -> (r: bool)
    ensures
        r == refreshes_activity(previous, next),
{
    next.is_active() || previous.is_active()
}

/// What an observer of `target` in phase `phase` forwards for `event`.
pub open spec fn forwarded(target: UserId, phase: Phase, event: Event) -> Option<StatusMessage> {
    match event {
        Event::UserStatusUpdate { user_id, new_status } => if phase == Phase::Active && user_id == target {
            Some(StatusMessage { online_status: new_status, last_active_at: None })
        } else {
            None
        },
    }
}

/// A connection watching the status of user `target`.
pub struct ObserverSession {
    pub target: UserId,
    pub phase: Phase,
}

impl ObserverSession {
    /// A session watching `target`, not yet active.
    pub fn new(target: UserId) -> (r: ObserverSession)
        ensures
            r.target == target,
            r.phase == Phase::Connecting,
    {
        ObserverSession { target, phase: Phase::Connecting }
    }

    /// Enters `Active` and gives the initial snapshot of the watched user's
    /// stored status.
    pub fn activate(&mut self, stored: &User) -> (r: StatusMessage)
        requires
            old(self).phase == Phase::Connecting,
            stored.id == old(self).target,
        ensures
            final(self).target == old(self).target,
            final(self).phase == Phase::Active,
            r == (StatusMessage { online_status: stored.online_status, last_active_at: stored.last_active_at }),
    {
        self.phase = Phase::Active;
        StatusMessage { online_status: stored.online_status, last_active_at: stored.last_active_at }
    }

    /// The message to forward for a bus event: one for each event about the
    /// watched user while active, none otherwise.
    pub fn on_event(&self, event: &Event) -> (r: Option<StatusMessage>)
        ensures
            r == forwarded(self.target, self.phase, *event),
    {
        match event {
            Event::UserStatusUpdate { user_id, new_status } => {
                if self.phase == Phase::Active && *user_id == self.target {
                    Some(StatusMessage { online_status: *new_status, last_active_at: None })
                } else {
                    None
                }
            },
        }
    }

    /// One of the connection's two duties ended (peer closed, forwarding
    /// failed): the session closes.
    pub fn on_duty_finished(&mut self)
        ensures
            final(self).target == old(self).target,
            final(self).phase == (if old(self).phase == Phase::Closed { Phase::Closed } else { Phase::Closing }),
    {
        if self.phase != Phase::Closed {
            self.phase = Phase::Closing;
        }
    }

    /// The other duty was cancelled and the socket closed.
    pub fn close(&mut self)
        ensures
            final(self).target == old(self).target,
            final(self).phase == Phase::Closed,
    {
        self.phase = Phase::Closed;
    }
}

/// The event announcing that `owner` now has status `status`.
pub open spec fn status_event(owner: UserId, status: UserStatus) -> Event {
    Event::UserStatusUpdate { user_id: owner, new_status: status }
}

/// A connection through which user `owner` reports its own status.
pub struct SelfReporterSession {
    pub owner: UserId,
    /// The status last persisted for the owner.
    pub status: UserStatus,
    pub phase: Phase,
}

/// The tables after persisting `status` for user `id` (if present), with the
/// activity time set to `at` when given.
pub open spec fn status_persisted(st: StoreView, id: UserId, status: UserStatus, at: Option<Timestamp>) -> StoreView {
    let i = user_index_by_id(st.users, id);
    if i == -1 {
        st
    } else {
        with_users(st, st.users.update(i, with_status(st.users[i], status, at)))
    }
}

impl SelfReporterSession {
    /// A session for `owner`, starting from its stored status.
    pub fn new(owner: &User) -> (r: SelfReporterSession)
        ensures
            r.owner == owner.id,
            r.status == owner.online_status,
            r.phase == Phase::Connecting,
    {
        SelfReporterSession { owner: owner.id, status: owner.online_status, phase: Phase::Connecting }
    }

    /// Enters `Active` and announces the owner online on the bus (the stored
    /// status is left as it is until the owner reports one); the owner's id
    /// is what the peer is sent first.
    pub fn activate(&mut self, bus: &mut EventChannel) -> (r: UserId)
        requires
            old(self).phase == Phase::Connecting,
        ensures
            r == old(self).owner,
            final(self).owner == old(self).owner,
            final(self).status == old(self).status,
            final(self).phase == Phase::Active,
            final(bus).published() == old(bus).published().push(status_event(old(self).owner, UserStatus::Online)),
    {
        self.phase = Phase::Active;
        let _ = bus.publish(Event::UserStatusUpdate { user_id: self.owner, new_status: UserStatus::Online });
        self.owner
    }

    fn persist_and_publish(
        &mut self,
        next: UserStatus,
        at: Option<Timestamp>,
        db: &mut AuthStore,
        bus: &mut EventChannel,
    ) -> (r: Result<Event, PresenceError>)
        requires
            store_wf(old(db)@),
        ensures
            store_wf(final(db)@),
            final(self).owner == old(self).owner,
            final(self).phase == old(self).phase,
            r is Err <==> user_index_by_id(old(db)@.users, old(self).owner) == -1,
            r is Err ==> r == Err::<Event, PresenceError>(PresenceError::UnknownUser)
                && final(bus).published() == old(bus).published(),
            r matches Ok(e) ==> e == status_event(old(self).owner, next)
                && final(bus).published() == old(bus).published().push(e),
            final(db)@ == status_persisted(old(db)@, old(self).owner, next, at),
            final(self).status == (if r is Ok { next } else { old(self).status }),
    {
        match UserRepo::update_status(self.owner, next, at, db) {
            Ok(()) => {},
            Err(_) => return Err(PresenceError::UnknownUser),
        }
        self.status = next;
        let event = Event::UserStatusUpdate { user_id: self.owner, new_status: next };
        let _ = bus.publish(event);
        Ok(event)
    }

    /// Handles an inbound `{onlineStatus}` whose status text is `requested`:
    /// the status is validated, persisted with the activity time `now` where
    /// it refreshes activity, and published on the bus as the one event
    /// returned. A refused message publishes nothing; an unknown status ends
    /// the session (it moves to `Closing`).
    pub fn on_status_message(
        &mut self,
        requested: &String,
        now: Timestamp,
        db: &mut AuthStore,
        bus: &mut EventChannel,
    ) -> (r: Result<Event, PresenceError>)
        requires
            store_wf(old(db)@),
        ensures
            store_wf(final(db)@),
            final(self).owner == old(self).owner,
            final(self).phase == (if old(self).phase == Phase::Active && status_of_label(requested@) is None {
                Phase::Closing
            } else {
                old(self).phase
            }),
            r is Err ==> final(bus).published() == old(bus).published(),
            r matches Ok(e) ==> final(bus).published() == old(bus).published().push(e),
            old(self).phase != Phase::Active ==> r == Err::<Event, PresenceError>(PresenceError::NotActive)
                && final(db)@ == old(db)@ && final(self).status == old(self).status,
            (old(self).phase == Phase::Active && status_of_label(requested@) is None)
                ==> r == Err::<Event, PresenceError>(PresenceError::InvalidStatus)
                && final(db)@ == old(db)@ && final(self).status == old(self).status,
            old(self).phase == Phase::Active ==> (status_of_label(requested@) matches Some(next) ==> {
                let at = if refreshes_activity(old(self).status, next) { Some(now) } else { None };
                &&& final(db)@ == status_persisted(old(db)@, old(self).owner, next, at)
                &&& (r is Ok <==> user_index_by_id(old(db)@.users, old(self).owner) != -1)
                &&& (r is Err ==> r == Err::<Event, PresenceError>(PresenceError::UnknownUser))
                &&& (r is Ok ==> r == Ok::<Event, PresenceError>(status_event(old(self).owner, next))
                    && final(self).status == next)
            }),
    {
        if self.phase != Phase::Active {
            return Err(PresenceError::NotActive);
        }
        let next = match UserStatus::parse_label(requested) {
            Some(s) => s,
            None => {
                self.phase = Phase::Closing;
                return Err(PresenceError::InvalidStatus);
            },
        };
        let at = if should_refresh_activity(self.status, next) { Some(now) } else { None };
        self.persist_and_publish(next, at, db, bus)
    }

    /// The connection ended, gracefully or not: one offline event for the
    /// owner is published, and offline with activity time `now` is persisted.
    /// A closed session does nothing.
    pub fn on_disconnect(&mut self, now: Timestamp, db: &mut AuthStore, bus: &mut EventChannel) -> (r: Result<Event, PresenceError>)
        requires
            store_wf(old(db)@),
        ensures
            store_wf(final(db)@),
            final(self).owner == old(self).owner,
            final(self).phase == Phase::Closed,
            old(self).phase == Phase::Closed ==> r == Err::<Event, PresenceError>(PresenceError::NotActive)
                && final(db)@ == old(db)@ && final(bus).published() == old(bus).published(),
            old(self).phase != Phase::Closed ==> {
                let e = status_event(old(self).owner, UserStatus::Offline);
                &&& final(bus).published() == old(bus).published().push(e)
                &&& final(db)@ == status_persisted(old(db)@, old(self).owner, UserStatus::Offline, Some(now))
                &&& (r is Ok <==> user_index_by_id(old(db)@.users, old(self).owner) != -1)
                &&& (r is Ok ==> r == Ok::<Event, PresenceError>(e))
                &&& (r is Err ==> r == Err::<Event, PresenceError>(PresenceError::UnknownUser))
            },
    {
        if self.phase == Phase::Closed {
            return Err(PresenceError::NotActive);
        }
        let event = Event::UserStatusUpdate { user_id: self.owner, new_status: UserStatus::Offline };
        let _ = bus.publish(event);
        self.phase = Phase::Closed;
        match UserRepo::update_status(self.owner, UserStatus::Offline, Some(now), db) {
            Ok(()) => {
                self.status = UserStatus::Offline;
                Ok(event)
            },
            Err(_) => Err(PresenceError::UnknownUser),
        }
    }
}

} // verus!
