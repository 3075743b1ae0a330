use authcore::events::{Event, EventChannel};
use authcore::model::UserStatus;
use authcore::presence::{should_refresh_activity, ObserverSession, Phase, PresenceError, SelfReporterSession, StatusMessage};
use authcore::repo::{UserCreateInput, UserRepo};
use authcore::store::AuthStore;

fn add_user(db: &mut AuthStore, id: u128, email: &str) {
    let input = UserCreateInput {
        email: email.to_string(),
        salt: vec![0u8; 32],
        hash: vec![0u8; 64],
        first_name: None,
        last_name: None,
        role: None,
        location: None,
        description: None,
        title: None,
    };
    UserRepo::create_one(input, id, 0, 0, db).unwrap();
}

#[test]
fn activity_refresh_rule() {
    assert!(should_refresh_activity(UserStatus::Offline, UserStatus::Online));
    assert!(should_refresh_activity(UserStatus::Online, UserStatus::Away));
    assert!(should_refresh_activity(UserStatus::Away, UserStatus::DoNotDisturb));
    assert!(should_refresh_activity(UserStatus::DoNotDisturb, UserStatus::Offline));
    assert!(!should_refresh_activity(UserStatus::Offline, UserStatus::Offline));
}

#[test]
fn observer_gets_snapshot_then_matching_events_only() {
    let mut db = AuthStore::new();
    add_user(&mut db, 1, "u@x");
    add_user(&mut db, 2, "v@x");
    UserRepo::update_status(1, UserStatus::Online, Some(500), &mut db).unwrap();
    let mut bus = EventChannel::new();

    let stored = UserRepo::get_by_id(1, &db).unwrap();
    let mut observer = ObserverSession::new(1);
    let mut rx = bus.subscribe();
    let snapshot = observer.activate(&stored);
    assert_eq!(snapshot, StatusMessage { online_status: UserStatus::Online, last_active_at: Some(500) });

    let owner = UserRepo::get_by_id(1, &db).unwrap();
    let mut reporter = SelfReporterSession::new(&owner);
    assert_eq!(reporter.activate(&mut bus), 1);
    assert_eq!(
        reporter.on_status_message(&"away".to_string(), 900, &mut db, &mut bus),
        Ok(Event::UserStatusUpdate { user_id: 1, new_status: UserStatus::Away })
    );

    let other_owner = UserRepo::get_by_id(2, &db).unwrap();
    let mut other = SelfReporterSession::new(&other_owner);
    other.activate(&mut bus);
    assert_eq!(
        other.on_status_message(&"online".to_string(), 901, &mut db, &mut bus),
        Ok(Event::UserStatusUpdate { user_id: 2, new_status: UserStatus::Online })
    );

    let mut forwarded = Vec::new();
    while let Ok(event) = rx.try_recv() {
        if let Some(msg) = observer.on_event(&event) {
            forwarded.push(msg);
        }
    }
    assert_eq!(
        forwarded,
        vec![
            StatusMessage { online_status: UserStatus::Online, last_active_at: None },
            StatusMessage { online_status: UserStatus::Away, last_active_at: None },
        ]
    );
    assert_eq!(db.users[0].online_status, UserStatus::Away);
    assert_eq!(db.users[0].last_active_at, Some(900));
}

#[test]
fn reporter_disconnect_goes_offline_once() {
    let mut db = AuthStore::new();
    add_user(&mut db, 1, "u@x");
    let mut bus = EventChannel::new();
    let mut rx = bus.subscribe();
    let owner = UserRepo::get_by_id(1, &db).unwrap();
    let mut reporter = SelfReporterSession::new(&owner);
    reporter.activate(&mut bus);
    assert_eq!(rx.try_recv().unwrap(), Event::UserStatusUpdate { user_id: 1, new_status: UserStatus::Online });
    reporter.on_status_message(&"online".to_string(), 10, &mut db, &mut bus).unwrap();
    assert_eq!(rx.try_recv().unwrap(), Event::UserStatusUpdate { user_id: 1, new_status: UserStatus::Online });

    assert_eq!(
        reporter.on_disconnect(20, &mut db, &mut bus),
        Ok(Event::UserStatusUpdate { user_id: 1, new_status: UserStatus::Offline })
    );
    assert_eq!(reporter.phase, Phase::Closed);
    assert_eq!(db.users[0].online_status, UserStatus::Offline);
    assert_eq!(db.users[0].last_active_at, Some(20));
    assert_eq!(rx.try_recv().unwrap(), Event::UserStatusUpdate { user_id: 1, new_status: UserStatus::Offline });
    assert!(rx.try_recv().is_err());

    assert_eq!(reporter.on_disconnect(30, &mut db, &mut bus), Err(PresenceError::NotActive));
    assert!(rx.try_recv().is_err());
}

#[test]
fn reporter_rejects_bad_status_and_inactive_use() {
    let mut db = AuthStore::new();
    add_user(&mut db, 1, "u@x");
    let mut bus = EventChannel::new();
    let owner = UserRepo::get_by_id(1, &db).unwrap();
    let mut reporter = SelfReporterSession::new(&owner);
    assert_eq!(reporter.on_status_message(&"online".to_string(), 1, &mut db, &mut bus), Err(PresenceError::NotActive));
    reporter.activate(&mut bus);
    assert_eq!(
        reporter.on_status_message(&"offline".to_string(), 2, &mut db, &mut bus),
        Ok(Event::UserStatusUpdate { user_id: 1, new_status: UserStatus::Offline })
    );
    assert_eq!(db.users[0].last_active_at, None);
    assert_eq!(reporter.on_status_message(&"sleeping".to_string(), 3, &mut db, &mut bus), Err(PresenceError::InvalidStatus));
    assert_eq!(db.users[0].online_status, UserStatus::Offline);
    assert_eq!(reporter.phase, Phase::Closing);
    assert_eq!(reporter.on_status_message(&"online".to_string(), 4, &mut db, &mut bus), Err(PresenceError::NotActive));
}

#[test]
fn observer_stops_forwarding_when_closing() {
    let mut observer = ObserverSession::new(4);
    let e = Event::UserStatusUpdate { user_id: 4, new_status: UserStatus::Away };
    assert_eq!(observer.on_event(&e), None);
    let mut db = AuthStore::new();
    add_user(&mut db, 4, "w@x");
    let stored = UserRepo::get_by_id(4, &db).unwrap();
    observer.activate(&stored);
    assert!(observer.on_event(&e).is_some());
    observer.on_duty_finished();
    assert_eq!(observer.phase, Phase::Closing);
    assert_eq!(observer.on_event(&e), None);
    observer.close();
    assert_eq!(observer.phase, Phase::Closed);
}

#[test]
fn publish_without_subscribers_is_harmless() {
    let mut bus = EventChannel::new();
    assert_eq!(bus.publish(Event::UserStatusUpdate { user_id: 1, new_status: UserStatus::Away }), 0);
    let _rx = bus.subscribe();
    let mut shared = bus.clone();
    assert_eq!(shared.publish(Event::UserStatusUpdate { user_id: 1, new_status: UserStatus::Away }), 1);
}

#[test]
fn invalid_status_publishes_nothing() {
    let mut db = AuthStore::new();
    add_user(&mut db, 1, "u@x");
    let mut bus = EventChannel::new();
    let mut rx = bus.subscribe();
    let owner = UserRepo::get_by_id(1, &db).unwrap();
    let mut reporter = SelfReporterSession::new(&owner);
    reporter.activate(&mut bus);
    assert!(rx.try_recv().is_ok());
    assert_eq!(reporter.on_status_message(&"busy".to_string(), 5, &mut db, &mut bus), Err(PresenceError::InvalidStatus));
    assert!(rx.try_recv().is_err());
}

#[test]
fn disconnect_of_unknown_owner_still_announces_offline() {
    let mut db = AuthStore::new();
    add_user(&mut db, 1, "u@x");
    let owner = UserRepo::get_by_id(1, &db).unwrap();
    let mut empty = AuthStore::new();
    let mut bus = EventChannel::new();
    let mut rx = bus.subscribe();
    let mut reporter = SelfReporterSession::new(&owner);
    reporter.activate(&mut bus);
    assert!(rx.try_recv().is_ok());
    assert_eq!(reporter.on_disconnect(7, &mut empty, &mut bus), Err(PresenceError::UnknownUser));
    assert_eq!(rx.try_recv().unwrap(), Event::UserStatusUpdate { user_id: 1, new_status: UserStatus::Offline });
}
