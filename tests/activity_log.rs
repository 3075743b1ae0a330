use authcore::activity::{ActivityEntry, ActivityRepo, DatabasePagination};
use authcore::store::{AuthStore, DbError};

fn login(db: &mut AuthStore, who: u128, at: i64) {
    ActivityRepo::create_one_at(
        ActivityEntry::Login { ip_address: Some("1.2.3.4".to_string()), user_agent: None, action_by_id: who },
        at,
        db,
    )
    .unwrap();
}

#[test]
fn entries_carry_their_label_and_fields() {
    let mut db = AuthStore::new();
    let a = ActivityRepo::create_one_at(
        ActivityEntry::Update {
            table_name: "auth.user".to_string(),
            item_id: "42".to_string(),
            ip_address: None,
            user_agent: Some("ua".to_string()),
            old_data: "{}".to_string(),
            new_data: "{\"a\":1}".to_string(),
            action_by_id: 9,
        },
        50,
        &mut db,
    )
    .unwrap();
    assert_eq!(a.action, "update");
    assert_eq!(a.id, 1);
    assert_eq!(a.action_at, 50);
    assert_eq!(a.table_name, Some("auth.user".to_string()));
    assert_eq!(a.old_data, Some("{}".to_string()));
    let r = ActivityRepo::create_one_at(
        ActivityEntry::PasswordResetRequest { ip_address: None, user_agent: None, item_id: 0x0123_4567_89ab_cdef_0123_4567_89ab_cdef },
        60,
        &mut db,
    )
    .unwrap();
    assert_eq!(r.action, "password_reset_request");
    assert_eq!(r.action_by_id, None);
    assert_eq!(r.item_id, Some("01234567-89ab-cdef-0123-456789abcdef".to_string()));
    let c = ActivityRepo::create_one_at(
        ActivityEntry::Create {
            ip_address: None,
            user_agent: None,
            action_by_id: 1,
            table_name: "auth.user".to_string(),
            item_id: "x".to_string(),
            new_data: "{}".to_string(),
        },
        70,
        &mut db,
    )
    .unwrap();
    assert_eq!(c.action, "create");
    assert_eq!(c.old_data, None);
    assert_eq!(ActivityRepo::create_one_at(ActivityEntry::Comment, 80, &mut db).unwrap().action, "comment");
    assert_eq!(db.activities.len(), 4);
}

#[test]
fn listing_is_newest_first_and_paged() {
    let mut db = AuthStore::new();
    login(&mut db, 1, 10);
    login(&mut db, 2, 20);
    login(&mut db, 1, 30);
    login(&mut db, 1, 40);
    let all = ActivityRepo::list_all_for_user_id(1, DatabasePagination { limit: 10, offset: 0 }, &db).unwrap();
    assert_eq!(all.iter().map(|a| a.action_at).collect::<Vec<_>>(), vec![40, 30, 10]);
    let page = ActivityRepo::list_all_for_user_id(1, DatabasePagination { limit: 1, offset: 1 }, &db).unwrap();
    assert_eq!(page.len(), 1);
    assert_eq!(page[0].action_at, 30);
    let past_end = ActivityRepo::list_all_for_user_id(1, DatabasePagination { limit: 5, offset: 9 }, &db).unwrap();
    assert!(past_end.is_empty());
    assert_eq!(ActivityRepo::count_all_for_user_id(1, &db), 3);
    assert_eq!(ActivityRepo::count_all_for_user_id(3, &db), 0);
}

#[test]
fn negative_paging_is_refused() {
    let db = AuthStore::new();
    let r = ActivityRepo::list_all_for_user_id(1, DatabasePagination { limit: -1, offset: 0 }, &db);
    assert_eq!(r.unwrap_err(), DbError::InvalidArgument);
    let r = ActivityRepo::list_all_for_user_id(1, DatabasePagination { limit: 1, offset: -3 }, &db);
    assert_eq!(r.unwrap_err(), DbError::InvalidArgument);
}

#[test]
fn recording_stamps_current_time() {
    let mut db = AuthStore::new();
    let a = ActivityRepo::create_one(ActivityEntry::Logout { ip_address: None, user_agent: None, action_by_id: 3 }, &mut db).unwrap();
    assert_eq!(a.action, "logout");
    assert!(a.action_at > 1_600_000_000_000);
}

#[test]
fn paging_from_page_number() {
    let p = DatabasePagination::for_page(3, 20).unwrap();
    assert_eq!(p.limit, 20);
    assert_eq!(p.offset, 40);
    assert_eq!(DatabasePagination::for_page(1, 5).unwrap().offset, 0);
    assert!(DatabasePagination::for_page(0, 5).is_none());
    assert!(DatabasePagination::for_page(2, -1).is_none());
    assert!(DatabasePagination::for_page(i64::MAX, i64::MAX).is_none());
}
