//! Core of an event-driven notification system.
//!
//! Domain events arrive on a queue as JSON envelopes. A poller classifies
//! each message by its `detail.event_type` tag, dispatches it to the matching
//! processor, and — depending on the outcome and the message's receive count —
//! acknowledges it, diverts it to a failure destination, or leaves it for
//! redelivery. Validated creation events are materialized as notification
//! records in a table keyed by namespaced (partition key, sort key) pairs,
//! and an authenticated API lists unread notifications and marks them read.
//!
//! This crate holds the verified logic: the error taxonomy, the notification
//! data model and key construction, the store semantics (conditional create,
//! point get, filtered newest-first query, field update), the service layer,
//! the dispatch and retry decisions of the poller, and the API-layer
//! authorization rule. The queue and storage providers themselves are
//! external: callers perform the transport operations that the decision
//! functions here plan.

pub mod api;
pub mod dispatch;
pub mod errors;
pub mod keys;
pub mod model;
pub mod notification;
pub mod poller;
pub mod store;
pub mod timeorder;
