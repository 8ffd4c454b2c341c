use memo_events_mgt::api::{
    authorize_request, get_notification, update_notification_status, ApiServerError, AuthError,
    Claims, UpdateNotificationBody,
};
use memo_events_mgt::errors::{PermanentError, RetryableError, SerializationError};
use memo_events_mgt::model::{CreateMessageBody, CreateMessageDetail, NotificationStatus};
use memo_events_mgt::notification::{NotificationService, NotificationServiceInterface};
use memo_events_mgt::poller::{MessageAction, SQSPoller, SQSPollerOption};
use memo_events_mgt::store::DatabaseStoreService;

fn claims(uid: &str) -> Claims {
    Claims {
        uid: uid.to_string(),
        name: "Name".to_string(),
        email: "name@example.com".to_string(),
        iat: 1_700_000_000,
        exp: 1_800_000_000,
    }
}

fn envelope(user_id: &str, notification_id: &str, content: &str) -> CreateMessageBody {
    CreateMessageBody {
        version: "0".to_string(),
        id: "evt-1".to_string(),
        detail_type: "notification".to_string(),
        source: "memo".to_string(),
        account: "123456789012".to_string(),
        time: "2020-01-01T00:00:00Z".to_string(),
        region: "us-east-1".to_string(),
        resources: vec![],
        detail: CreateMessageDetail {
            notification_id: notification_id.to_string(),
            event_type: "memo:message.created-1.0.0".to_string(),
            user_id: user_id.to_string(),
            replyer_id: "r1".to_string(),
            topic_id: "t1".to_string(),
            message_id: "m1".to_string(),
            content: content.to_string(),
            created_time: "2020-01-01T00:00:00Z".to_string(),
        },
    }
}

fn service_with(user_id: &str, notification_id: &str) -> NotificationService {
    let mut svc = NotificationService::new(DatabaseStoreService::new());
    svc.create_notification_message_at(
        envelope(user_id, notification_id, "hi"),
        "2024-01-01T00:00:01+00:00".to_string(),
    )
    .unwrap();
    svc
}

#[test]
fn authorization_accepts_matching_subject() {
    assert!(authorize_request(&claims("u1"), &"u1".to_string()).is_ok());
}

#[test]
fn authorization_rejects_foreign_subject() {
    let r = authorize_request(&claims("u2"), &"u1".to_string());
    assert!(matches!(r, Err(ApiServerError::UnexpectedError(_))));
}

#[test]
fn list_route_rejects_foreign_subject_before_any_store_access() {
    let svc = service_with("u1", "n1");
    let r = get_notification(&svc, &claims("u2"), "u1".to_string());
    assert!(matches!(r, Err(ApiServerError::UnexpectedError(_))));
}

#[test]
fn update_route_rejects_foreign_subject_and_changes_nothing() {
    let mut svc = service_with("u1", "n1");
    let r = update_notification_status(
        &mut svc,
        &claims("u2"),
        "u1".to_string(),
        "n1".to_string(),
        UpdateNotificationBody { action: NotificationStatus::READ },
    );
    assert!(matches!(r, Err(ApiServerError::UnexpectedError(_))));
    let listed = svc.get_notification_by_user_id("u1".to_string()).unwrap();
    assert_eq!(listed.len(), 1);
    assert_eq!(listed[0].status, NotificationStatus::UNREAD);
}

#[test]
fn list_route_returns_the_unread_rows() {
    let svc = service_with("u1", "n1");
    let listed = get_notification(&svc, &claims("u1"), "u1".to_string()).unwrap();
    assert_eq!(listed.len(), 1);
    assert_eq!(listed[0].user_id, "USR#u1");
    assert_eq!(listed[0].notification_id, "NTF#n1");
}

#[test]
fn update_route_marks_the_notification_read() {
    let mut svc = service_with("u1", "n1");
    let r = update_notification_status(
        &mut svc,
        &claims("u1"),
        "u1".to_string(),
        "n1".to_string(),
        UpdateNotificationBody { action: NotificationStatus::READ },
    );
    assert!(r.is_ok());
    assert!(svc.get_notification_by_user_id("u1".to_string()).unwrap().is_empty());
    let row = svc
        .database_store_service
        .db_get_notification_item_with_pk_sk("USR#u1".to_string(), "NTF#n1".to_string())
        .expect("row must exist");
    assert_eq!(row.status, NotificationStatus::READ);
    assert!(row.updated_time.is_some());
}

#[test]
fn rejection_kinds_map_to_distinct_statuses() {
    assert_eq!(AuthError::WrongCredentials.status_code(), 401);
    assert_eq!(AuthError::InvalidToken.status_code(), 400);
    assert_eq!(AuthError::WrongCredentials.error_message(), "Wrong credentials");
    assert_eq!(AuthError::InvalidToken.error_message(), "Invalid token");
    assert_eq!(
        ApiServerError::InternalServerError("x".to_string()).status_code(),
        500
    );
    assert_eq!(ApiServerError::UnexpectedError("x".to_string()).status_code(), 406);
    assert_eq!(
        ApiServerError::UnexpectedError("why".to_string()).error_message(),
        "why"
    );
}

#[test]
fn error_descriptions_carry_their_messages() {
    assert_eq!(PermanentError::new("p").describe(), "Permanent Error: p");
    assert_eq!(RetryableError::new("r").describe(), "Retryable Error: r");
    assert_eq!(SerializationError::new("s").describe(), "Serialization Error: s");
}

#[test]
fn end_to_end_creation_listing_and_mark_read() {
    // Enqueue-to-read scenario: one creation event flows through the
    // poller's dispatch, lands in the table, is listed, marked read, and
    // disappears from the unread listing.
    let mut p = SQSPoller::new(SQSPollerOption {
        sqs_queue: "source-queue".to_string(),
        failure_queue: "failure-queue".to_string(),
        wait_time_seconds: Some(10),
        max_number_of_messages: Some(10),
        max_retry: Some(5),
        notification_service: NotificationService::new(DatabaseStoreService::new()),
    });
    let body = "{\"detail\":{\"event_type\":\"memo:message.created-1.0.0\",\
                 \"user_id\":\"u1\",\"notification_id\":\"n1\",\"content\":\"hi\"}}"
        .to_string();
    let action =
        p.delegate_event_to_processor(Some(&body), Some(1), Ok(envelope("u1", "n1", "hi")));
    assert_eq!(action, MessageAction::Delete);

    let svc = &mut p.create_message_processor.notification_service;
    let listed = get_notification(svc, &claims("u1"), "u1".to_string()).unwrap();
    assert_eq!(listed.len(), 1);
    assert_eq!(listed[0].user_id, "USR#u1");
    assert_eq!(listed[0].notification_id, "NTF#n1");
    assert_eq!(listed[0].status, NotificationStatus::UNREAD);

    update_notification_status(
        svc,
        &claims("u1"),
        "u1".to_string(),
        "n1".to_string(),
        UpdateNotificationBody { action: NotificationStatus::READ },
    )
    .unwrap();
    let after = get_notification(svc, &claims("u1"), "u1".to_string()).unwrap();
    assert!(after.is_empty());
}
