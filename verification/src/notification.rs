//! Notification service: maps the domain operations — create a notification
//! from a validated event, list a user's unread notifications, mark one
//! read — onto the store operations, and owns key construction and the
//! status transition.
//!
//! Creation stamps the record with a server-generated time rather than the
//! producer's own timestamp, sets the status to `UNREAD`, and writes it
//! conditionally; a condition failure (the pair already stored, i.e. an
//! at-least-once redelivery) is treated as success, not as an error.

use vstd::prelude::*;

use crate::errors::{ApplicationError, RetryableError, StoreError};
use crate::keys::{
    notification_sort_key, notification_sort_key_spec, user_partition_key,
    user_partition_key_spec,
};
use crate::model::{CreateMessageBody, CreateMessageDetail, DBNotifcation, NotificationStatus,
    NotificationType};
use crate::store::{
    contains_key, key_matches, query_results, with_status, DatabaseStoreService,
};

verus! {

/// Relies on chrono's `Utc::now().to_rfc3339()` for the server-generated
/// creation and update timestamps. The clock's value depends on the
/// environment, so nothing is assumed of the returned text.
#[verifier::external_body]
fn current_time_rfc3339() -> (r: String) {
    chrono::Utc::now().to_rfc3339()
}

/// `row` is exactly the record that materializes `detail` at time
/// `created`: namespaced keys, the domain fields copied, status `UNREAD`,
/// and no update time yet.
pub open spec fn is_record_for(
    row: DBNotifcation,
    detail: CreateMessageDetail,
    created: Seq<char>,
) -> bool {
    &&& row.notification_id@ == notification_sort_key_spec(detail.notification_id@)
    &&& row.user_id@ == user_partition_key_spec(detail.user_id@)
    &&& row.replyer_id@ == detail.replyer_id@
    &&& row.notification_type is Message
    &&& row.status is UNREAD
    &&& row.topic_id@ == detail.topic_id@
    &&& row.message_id@ == detail.message_id@
    &&& row.content@ == detail.content@
    &&& row.created_time@ == created
    &&& row.updated_time is None
}

/// Effect of creating a notification from `detail` at time `created` on
/// the table: either the pair was already stored and nothing changes, or
/// exactly the new record is appended.
pub open spec fn create_transition(
    pre: Seq<DBNotifcation>,
    post: Seq<DBNotifcation>,
    detail: CreateMessageDetail,
    created: Seq<char>,
) -> bool {
    if contains_key(
        pre,
        user_partition_key_spec(detail.user_id@),
        notification_sort_key_spec(detail.notification_id@),
    ) {
        post == pre
    } else {
        &&& post.len() == pre.len() + 1
        &&& post.take(pre.len() as int) == pre
        &&& is_record_for(post.last(), detail, created)
    }
}

/// `after` is `before` marked read at time `updated`: status `READ`, the
/// update time set, every other field untouched.
pub open spec fn marked_read(
    before: DBNotifcation,
    after: DBNotifcation,
    updated: Seq<char>,
) -> bool {
    &&& after.status is READ
    &&& after.updated_time matches Some(t) && t@ == updated
    &&& after.notification_id == before.notification_id
    &&& after.user_id == before.user_id
    &&& after.replyer_id == before.replyer_id
    &&& after.notification_type == before.notification_type
    &&& after.topic_id == before.topic_id
    &&& after.message_id == before.message_id
    &&& after.content == before.content
    &&& after.created_time == before.created_time
}

/// Effect of marking (`user_id`, `noti_id`) read at time `updated`: a
/// no-op when nothing is stored under the pair, otherwise exactly that row
/// transitions.
pub open spec fn update_transition(
    pre: Seq<DBNotifcation>,
    post: Seq<DBNotifcation>,
    user_id: Seq<char>,
    noti_id: Seq<char>,
    updated: Seq<char>,
) -> bool {
    let pk = user_partition_key_spec(user_id);
    let sk = notification_sort_key_spec(noti_id);
    if !contains_key(pre, pk, sk) {
        post == pre
    } else {
        exists|i: int|
            {
                &&& 0 <= i < pre.len()
                &&& key_matches(#[trigger] pre[i], pk, sk)
                &&& post.len() == pre.len()
                &&& (forall|j: int| 0 <= j < pre.len() && j != i ==> post[j] == #[trigger] pre[j])
                &&& marked_read(pre[i], post[i], updated)
            }
    }
}

/// The service layer's reading of a conditional-create outcome: a
/// condition failure means the record is already there — an at-least-once
/// redelivery — and counts as success; an unavailable store is a transient
/// condition worth retrying.
pub fn classify_create_outcome(outcome: Result<(), StoreError>) -> (r: Result<
    (),
    ApplicationError,
>)
    ensures
        outcome is Ok ==> r is Ok,
        (outcome matches Err(e) && e is ConditionFailed) ==> r is Ok,
        outcome matches Err(StoreError::Unavailable(m)) ==> (r matches Err(a)
            && a matches ApplicationError::RetryableError(re) && re.message@ == m@),
{
    match outcome {
        Ok(()) => Ok(()),
        Err(StoreError::ConditionFailed) => Ok(()),
        Err(StoreError::Unavailable(m)) => Err(
            ApplicationError::RetryableError(RetryableError::new(m.as_str())),
        ),
    }
}

/// Builds the record that materializes `detail`, stamped with
/// `created_time`. The producer's own `detail.created_time` is deliberately
/// not trusted.
pub fn build_notification(detail: &CreateMessageDetail, created_time: String) -> (r: DBNotifcation)
    ensures
        is_record_for(r, *detail, created_time@),
{
    DBNotifcation {
        notification_id: notification_sort_key(detail.notification_id.as_str()),
        user_id: user_partition_key(detail.user_id.as_str()),
        replyer_id: detail.replyer_id.clone(),
        notification_type: NotificationType::Message,
        status: NotificationStatus::UNREAD,
        topic_id: detail.topic_id.clone(),
        message_id: detail.message_id.clone(),
        content: detail.content.clone(),
        created_time,
        updated_time: None,
    }
}

/// The domain operations, stated over an abstract view of the table so
/// that callers depend only on this contract.
pub trait NotificationServiceInterface: Sized {
    spec fn table(&self) -> Seq<DBNotifcation>;

    spec fn wf(&self) -> bool;

    /// Creates the notification described by the event, stamped with the
    /// server clock. A redelivered event leaves the table unchanged and
    /// still succeeds.
    fn create_notification_message(&mut self, body: CreateMessageBody) -> (r: Result<
        (),
        ApplicationError,
    >)
        requires
            old(self).wf(),
        ensures
            final(self).wf(),
            r is Ok,
            exists|t: Seq<char>|
                create_transition(old(self).table(), final(self).table(), body.detail, t),
    ;

    /// The user's unread notifications, newest first, capped.
    fn get_notification_by_user_id(&self, user_id: String) -> (r: Result<
        Vec<DBNotifcation>,
        ApplicationError,
    >)
        requires
            self.wf(),
        ensures
            r matches Ok(v) && v@ == query_results(
                self.table(),
                user_partition_key_spec(user_id@),
            ),
    ;

    /// Marks the notification read and stamps its update time; succeeds
    /// with no effect when nothing is stored under the pair.
    fn update_notification_message(&mut self, user_id: String, noti_id: String) -> (r: Result<
        (),
        ApplicationError,
    >)
        requires
            old(self).wf(),
        ensures
            final(self).wf(),
            r is Ok,
            exists|t: Seq<char>|
                update_transition(old(self).table(), final(self).table(), user_id@, noti_id@, t),
    ;
}

pub struct NotificationService {
    pub database_store_service: DatabaseStoreService,
}

impl NotificationService {
    pub fn new(database_store_service: DatabaseStoreService) -> (r: Self)
        ensures
            r.database_store_service == database_store_service,
    {
        NotificationService { database_store_service }
    }

    /// Creation with the timestamp passed in, so that the effect is exact;
    /// the trait method supplies the clock.
    pub fn create_notification_message_at(
        &mut self,
        body: CreateMessageBody,
        created_time: String,
    ) -> (r: Result<(), ApplicationError>)
        requires
            old(self).database_store_service.wf(),
        ensures
            final(self).database_store_service.wf(),
            r is Ok,
            create_transition(
                old(self).database_store_service@,
                final(self).database_store_service@,
                body.detail,
                created_time@,
            ),
    {
        let record = build_notification(&body.detail, created_time);
        let ghost pre = self.database_store_service@;
        let outcome = self.database_store_service.db_create_notification_message(record);
        proof {
            if !contains_key(
                pre,
                user_partition_key_spec(body.detail.user_id@),
                notification_sort_key_spec(body.detail.notification_id@),
            ) {
                assert(self.database_store_service@.take(pre.len() as int) =~= pre);
            }
        }
        classify_create_outcome(outcome)
    }

    /// Status transition with the timestamp passed in; the trait method
    /// supplies the clock.
    pub fn update_notification_message_at(
        &mut self,
        user_id: String,
        noti_id: String,
        updated_time: String,
    ) -> (r: Result<(), ApplicationError>)
        requires
            old(self).database_store_service.wf(),
        ensures
            final(self).database_store_service.wf(),
            r is Ok,
            update_transition(
                old(self).database_store_service@,
                final(self).database_store_service@,
                user_id@,
                noti_id@,
                updated_time@,
            ),
    {
        let pk = user_partition_key(user_id.as_str());
        let sk = notification_sort_key(noti_id.as_str());
        let existing = self.database_store_service.db_get_notification_item_with_pk_sk(pk, sk);
        match existing {
            None => Ok(()),
            Some(_) => {
                let ghost pre = self.database_store_service@;
                let outcome = self.database_store_service.db_update_notification_message(
                    user_id,
                    noti_id,
                    NotificationStatus::READ,
                    updated_time,
                );
                match outcome {
                    Ok(()) => Ok(()),
                    Err(StoreError::ConditionFailed) => Ok(()),
                    Err(StoreError::Unavailable(m)) => Err(
                        ApplicationError::RetryableError(RetryableError::new(m.as_str())),
                    ),
                }
            },
        }
    }
}

impl NotificationServiceInterface for NotificationService {
    open spec fn table(&self) -> Seq<DBNotifcation> {
        self.database_store_service@
    }

    open spec fn wf(&self) -> bool {
        self.database_store_service.wf()
    }

    fn create_notification_message(&mut self, body: CreateMessageBody) -> (r: Result<
        (),
        ApplicationError,
    >) {
        let now = current_time_rfc3339();
        let ghost stamp = now@;
        let r = self.create_notification_message_at(body, now);
        proof {
            assert(create_transition(old(self).table(), self.table(), body.detail, stamp));
            assert(exists|t: Seq<char>|
                create_transition(old(self).table(), self.table(), body.detail, t));
        }
        r
    }

    fn get_notification_by_user_id(&self, user_id: String) -> (r: Result<
        Vec<DBNotifcation>,
        ApplicationError,
    >) {
        Ok(self.database_store_service.db_get_notifications_by_user_id(user_id))
    }

    fn update_notification_message(&mut self, user_id: String, noti_id: String) -> (r: Result<
        (),
        ApplicationError,
    >) {
        let now = current_time_rfc3339();
        let ghost stamp = now@;
        let r = self.update_notification_message_at(user_id, noti_id, now);
        proof {
            assert(update_transition(old(self).table(), self.table(), user_id@, noti_id@, stamp));
            assert(exists|t: Seq<char>|
                update_transition(old(self).table(), self.table(), user_id@, noti_id@, t));
        }
        r
    }
}

/// The rows stored under one (partition key, sort key) pair.
pub open spec fn rows_with_key(
    rows: Seq<DBNotifcation>,
    pk: Seq<char>,
    sk: Seq<char>,
) -> Seq<DBNotifcation> {
    rows.filter(|r: DBNotifcation| key_matches(r, pk, sk))
}

/// Idempotent creation: delivering the same creation event twice stores
/// exactly one record — the second delivery changes nothing, and exactly
/// one row carries the pair afterwards.
pub proof fn lemma_idempotent_creation(
    t0: Seq<DBNotifcation>,
    t1: Seq<DBNotifcation>,
    t2: Seq<DBNotifcation>,
    d: CreateMessageDetail,
    time1: Seq<char>,
    time2: Seq<char>,
)
    requires
        !contains_key(
            t0,
            user_partition_key_spec(d.user_id@),
            notification_sort_key_spec(d.notification_id@),
        ),
        create_transition(t0, t1, d, time1),
        create_transition(t1, t2, d, time2),
    ensures
        t2 == t1,
        rows_with_key(
            t2,
            user_partition_key_spec(d.user_id@),
            notification_sort_key_spec(d.notification_id@),
        ).len() == 1,
{
    reveal(Seq::filter);
    let pk = user_partition_key_spec(d.user_id@);
    let sk = notification_sort_key_spec(d.notification_id@);
    let pred = |r: DBNotifcation| key_matches(r, pk, sk);
    assert(key_matches(t1.last(), pk, sk));
    assert(contains_key(t1, pk, sk)) by {
        assert(0 <= t1.len() - 1 < t1.len() && key_matches(t1[t1.len() - 1], pk, sk));
    }
    assert(t2 == t1);
    assert(t1 =~= t0.push(t1.last()));
    assert(t0.push(t1.last()).drop_last() =~= t0);
    assert(forall|i: int| 0 <= i < t0.len() ==> !pred(#[trigger] t0[i]));
    t0.lemma_all_neg_filter_empty(pred);
    assert(rows_with_key(t1, pk, sk) =~= t0.filter(pred).push(t1.last()));
}

} // verus!
