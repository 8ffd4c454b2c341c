use memo_events_mgt::errors::{ApplicationError, StoreError};
use memo_events_mgt::keys::{notification_sort_key, user_partition_key};
use memo_events_mgt::notification::classify_create_outcome;
use memo_events_mgt::model::{CreateMessageBody, CreateMessageDetail, NotificationStatus};
use memo_events_mgt::notification::{
    build_notification, NotificationService, NotificationServiceInterface,
};
use memo_events_mgt::store::DatabaseStoreService;
use memo_events_mgt::timeorder::str_lex_lt;

fn detail(user_id: &str, notification_id: &str, content: &str) -> CreateMessageDetail {
    CreateMessageDetail {
        notification_id: notification_id.to_string(),
        event_type: "memo:message.created-1.0.0".to_string(),
        user_id: user_id.to_string(),
        replyer_id: "r1".to_string(),
        topic_id: "t1".to_string(),
        message_id: "m1".to_string(),
        content: content.to_string(),
        created_time: "2020-01-01T00:00:00+00:00".to_string(),
    }
}

fn envelope(user_id: &str, notification_id: &str, content: &str) -> CreateMessageBody {
    CreateMessageBody {
        version: "0".to_string(),
        id: "evt-1".to_string(),
        detail_type: "notification".to_string(),
        source: "memo".to_string(),
        account: "123456789012".to_string(),
        time: "2020-01-01T00:00:00Z".to_string(),
        region: "us-east-1".to_string(),
        resources: vec![],
        detail: detail(user_id, notification_id, content),
    }
}

fn service() -> NotificationService {
    NotificationService::new(DatabaseStoreService::new())
}

#[test]
fn key_construction_uses_namespace_tags() {
    assert_eq!(user_partition_key("u1"), "USR#u1");
    assert_eq!(notification_sort_key("n1"), "NTF#n1");
}

#[test]
fn build_notification_sets_every_field() {
    let d = detail("u1", "n1", "hi");
    let row = build_notification(&d, "2024-05-01T10:00:00+00:00".to_string());
    assert_eq!(row.user_id, "USR#u1");
    assert_eq!(row.notification_id, "NTF#n1");
    assert_eq!(row.replyer_id, "r1");
    assert_eq!(row.topic_id, "t1");
    assert_eq!(row.message_id, "m1");
    assert_eq!(row.content, "hi");
    assert_eq!(row.status, NotificationStatus::UNREAD);
    // The producer's own timestamp is not trusted: the passed stamp wins.
    assert_eq!(row.created_time, "2024-05-01T10:00:00+00:00");
    assert!(row.updated_time.is_none());
}

#[test]
fn conditional_create_rejects_duplicate_pair() {
    let mut store = DatabaseStoreService::new();
    let first = build_notification(&detail("u1", "n1", "first"), "t1".to_string());
    let second = build_notification(&detail("u1", "n1", "second"), "t2".to_string());
    assert!(store.db_create_notification_message(first).is_ok());
    assert!(store.db_create_notification_message(second).is_err());
    let got = store
        .db_get_notification_item_with_pk_sk("USR#u1".to_string(), "NTF#n1".to_string())
        .expect("row must exist");
    assert_eq!(got.content, "first");
}

#[test]
fn idempotent_creation_stores_one_record() {
    let mut svc = service();
    let r1 = svc.create_notification_message_at(
        envelope("u1", "n1", "hi"),
        "2024-01-01T00:00:01+00:00".to_string(),
    );
    let r2 = svc.create_notification_message_at(
        envelope("u1", "n1", "hi again"),
        "2024-01-01T00:00:02+00:00".to_string(),
    );
    assert!(r1.is_ok());
    // The redelivery must not error in a way that would dead-letter it.
    assert!(r2.is_ok());
    let listed = svc.get_notification_by_user_id("u1".to_string()).unwrap();
    assert_eq!(listed.len(), 1);
    assert_eq!(listed[0].content, "hi");
    assert_eq!(listed[0].created_time, "2024-01-01T00:00:01+00:00");
}

#[test]
fn list_unread_returns_newest_first() {
    let mut svc = service();
    for (id, stamp) in [
        ("n1", "2024-01-01T00:00:01+00:00"),
        ("n2", "2024-01-01T00:00:02+00:00"),
        ("n3", "2024-01-01T00:00:03+00:00"),
    ] {
        svc.create_notification_message_at(envelope("u1", id, id), stamp.to_string())
            .unwrap();
    }
    let listed = svc.get_notification_by_user_id("u1".to_string()).unwrap();
    let ids: Vec<&str> = listed.iter().map(|n| n.notification_id.as_str()).collect();
    assert_eq!(ids, vec!["NTF#n3", "NTF#n2", "NTF#n1"]);
}

#[test]
fn list_unread_caps_at_twenty() {
    let mut svc = service();
    for i in 1..=25 {
        let id = format!("n{:02}", i);
        let stamp = format!("2024-01-01T00:00:{:02}+00:00", i);
        svc.create_notification_message_at(envelope("u1", &id, "x"), stamp)
            .unwrap();
    }
    let listed = svc.get_notification_by_user_id("u1".to_string()).unwrap();
    assert_eq!(listed.len(), 20);
    // The newest twenty survive the cap, newest first.
    assert_eq!(listed[0].notification_id, "NTF#n25");
    assert_eq!(listed[19].notification_id, "NTF#n06");
}

#[test]
fn list_unread_is_per_user_and_per_status() {
    let mut svc = service();
    svc.create_notification_message_at(envelope("u1", "n1", "a"), "t1".to_string())
        .unwrap();
    svc.create_notification_message_at(envelope("u2", "n2", "b"), "t2".to_string())
        .unwrap();
    svc.update_notification_message_at("u1".to_string(), "n1".to_string(), "t3".to_string())
        .unwrap();
    // u1's only notification is now read; u2's remains unread.
    assert!(svc.get_notification_by_user_id("u1".to_string()).unwrap().is_empty());
    let of_u2 = svc.get_notification_by_user_id("u2".to_string()).unwrap();
    assert_eq!(of_u2.len(), 1);
    assert_eq!(of_u2[0].user_id, "USR#u2");
}

#[test]
fn list_unread_of_empty_store_is_empty() {
    let svc = service();
    assert!(svc.get_notification_by_user_id("u1".to_string()).unwrap().is_empty());
}

#[test]
fn mark_read_sets_status_and_updated_time() {
    let mut svc = service();
    svc.create_notification_message_at(envelope("u1", "n1", "hi"), "t1".to_string())
        .unwrap();
    svc.update_notification_message_at(
        "u1".to_string(),
        "n1".to_string(),
        "2024-02-02T08:00:00+00:00".to_string(),
    )
    .unwrap();
    let got = svc
        .database_store_service
        .db_get_notification_item_with_pk_sk("USR#u1".to_string(), "NTF#n1".to_string())
        .expect("row must exist");
    assert_eq!(got.status, NotificationStatus::READ);
    assert_eq!(got.updated_time.as_deref(), Some("2024-02-02T08:00:00+00:00"));
    // Creation time is immutable.
    assert_eq!(got.created_time, "t1");
}

#[test]
fn mark_read_of_absent_pair_is_a_successful_noop() {
    let mut svc = service();
    svc.create_notification_message_at(envelope("u1", "n1", "hi"), "t1".to_string())
        .unwrap();
    let r = svc.update_notification_message_at(
        "u1".to_string(),
        "missing".to_string(),
        "t2".to_string(),
    );
    assert!(r.is_ok());
    let listed = svc.get_notification_by_user_id("u1".to_string()).unwrap();
    assert_eq!(listed.len(), 1);
    assert_eq!(listed[0].status, NotificationStatus::UNREAD);
}

#[test]
fn update_via_store_keeps_other_rows() {
    let mut store = DatabaseStoreService::new();
    let a = build_notification(&detail("u1", "n1", "a"), "t1".to_string());
    let b = build_notification(&detail("u1", "n2", "b"), "t2".to_string());
    store.db_create_notification_message(a).unwrap();
    store.db_create_notification_message(b).unwrap();
    store
        .db_update_notification_message(
            "u1".to_string(),
            "n1".to_string(),
            NotificationStatus::READ,
            "t3".to_string(),
        )
        .unwrap();
    let other = store
        .db_get_notification_item_with_pk_sk("USR#u1".to_string(), "NTF#n2".to_string())
        .expect("row must exist");
    assert_eq!(other.status, NotificationStatus::UNREAD);
    assert!(other.updated_time.is_none());
}

#[test]
fn create_outcomes_classify_into_the_two_error_kinds() {
    assert!(classify_create_outcome(Ok(())).is_ok());
    // The idempotency guard firing is success, not an error.
    assert!(classify_create_outcome(Err(StoreError::ConditionFailed)).is_ok());
    let classified = classify_create_outcome(Err(StoreError::Unavailable("throttled".to_string())));
    match classified {
        Err(ApplicationError::RetryableError(e)) => assert_eq!(e.message, "throttled"),
        other => panic!("expected a retryable classification, got {:?}", other),
    }
}

#[test]
fn lexicographic_order_on_timestamps() {
    assert!(str_lex_lt(
        "2024-01-01T00:00:01+00:00",
        "2024-01-01T00:00:02+00:00"
    ));
    assert!(!str_lex_lt(
        "2024-01-01T00:00:02+00:00",
        "2024-01-01T00:00:01+00:00"
    ));
    assert!(!str_lex_lt("same", "same"));
    assert!(str_lex_lt("abc", "abcd"));
    assert!(!str_lex_lt("abcd", "abc"));
    assert!(str_lex_lt("", "a"));
}
