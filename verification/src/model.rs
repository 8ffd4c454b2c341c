//! Data model: the persisted notification record and the inbound event
//! envelope.
//!
//! A [`DBNotifcation`] is the entity materialized in the table. Its
//! `user_id` field holds the namespaced partition key and its
//! `notification_id` field the namespaced sort key (see [`crate::keys`]);
//! the pair is unique per table. `created_time` is set exactly once, at
//! processing time; `updated_time` is set on every later state change.
//!
//! A [`CreateMessageBody`] is the versioned envelope as it travels on the
//! queue, with the domain fields in its [`CreateMessageDetail`]. The
//! `detail.event_type` tag — not the envelope's own `detail_type` — is the
//! key the poller dispatches on.

use vstd::prelude::*;

verus! {

#[derive(Debug, Clone, Copy, PartialEq, Eq, Structural)]
pub enum NotificationType {
    Message,
}

/// Lifecycle status of a stored notification. The only transition this
/// library performs is `UNREAD` to `READ`; `REMOVED` is the soft-delete
/// state, kept for decommissioning without physical deletion.
#[derive(Debug, Clone, Copy, PartialEq, Eq, Structural)]
pub enum NotificationStatus {
    READ,
    UNREAD,
    REMOVED,
}

/// The notification record as stored in the table.
#[derive(Debug)]
pub struct DBNotifcation {
    /// Sort key: the notification id under its namespace tag.
    pub notification_id: String,
    /// Partition key: the owning user id under its namespace tag.
    pub user_id: String,
    pub replyer_id: String,
    pub notification_type: NotificationType,
    pub status: NotificationStatus,
    pub topic_id: String,
    pub message_id: String,
    pub content: String,
    /// Set once at creation, immutable afterwards.
    pub created_time: String,
    /// Set on every state change; `None` until the first one.
    pub updated_time: Option<String>,
}

impl DBNotifcation {
    /// Field-by-field copy, proved equal to the original.
    pub fn duplicate(&self) -> (r: Self)
        ensures
            r == *self,
    {
        DBNotifcation {
            notification_id: self.notification_id.clone(),
            user_id: self.user_id.clone(),
            replyer_id: self.replyer_id.clone(),
            notification_type: self.notification_type,
            status: self.status,
            topic_id: self.topic_id.clone(),
            message_id: self.message_id.clone(),
            content: self.content.clone(),
            created_time: self.created_time.clone(),
            updated_time: match &self.updated_time {
                Some(t) => Some(t.clone()),
                None => None,
            },
        }
    }
}

/// Domain fields of a notification-creation event, carried in the
/// envelope's `detail` object.
#[derive(Debug)]
pub struct CreateMessageDetail {
    pub notification_id: String,
    /// The dispatch tag, e.g. `memo:message.created-1.0.0`.
    pub event_type: String,
    pub user_id: String,
    pub replyer_id: String,
    pub topic_id: String,
    pub message_id: String,
    pub content: String,
    /// The producer's own timestamp. The service does not trust it: the
    /// stored `created_time` is generated at processing time instead.
    pub created_time: String,
}

/// The versioned envelope wrapping a creation event on the queue.
#[derive(Debug)]
pub struct CreateMessageBody {
    pub version: String,
    /// Provider-assigned message id, distinct from the notification id.
    pub id: String,
    /// The envelope's own classification string, distinct from the
    /// `detail.event_type` dispatch tag.
    pub detail_type: String,
    pub source: String,
    pub account: String,
    pub time: String,
    pub region: String,
    pub resources: Vec<String>,
    pub detail: CreateMessageDetail,
}

} // verus!
