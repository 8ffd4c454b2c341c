//! Error taxonomy.
//!
//! Every fallible step between "message received" and "message acknowledged"
//! is classified into exactly one of two kinds before it reaches the poller:
//! a [`RetryableError`] (a transient condition that redelivery is expected to
//! cure) or a [`PermanentError`] (a message that can never succeed, however
//! often it is retried). The poller consults only this classification and the
//! receive count; it never inspects lower-level failures.
//!
//! [`StoreError`] is the storage-level view of a failed table operation. A
//! `ConditionFailed` is *not* part of the retryable/permanent taxonomy: it is
//! the uniqueness guard firing on a redelivered creation event, and the
//! service layer swallows it as an idempotent no-op.

use vstd::prelude::*;
use vstd::string::StringExecFns;

verus! {

/// A failure that can never succeed regardless of retries, such as a
/// malformed payload. The poller diverts such messages to the failure
/// destination immediately.
#[derive(Debug)]
pub struct PermanentError {
    pub message: String,
}

impl PermanentError {
    pub fn new(message: &str) -> (r: Self)
        ensures
            r.message@ == message@,
    {
        PermanentError { message: message.to_owned() }
    }

    /// Human-readable rendering, in place of a `Display` implementation.
    pub fn describe(&self) -> (r: String)
        ensures
            r@ == "Permanent Error: "@ + self.message@,
    {
        let mut s = String::from_str("Permanent Error: ");
        s.append(self.message.as_str());
        s
    }
}

/// A transient failure, such as a throttled or timed-out storage call.
/// Redelivery is expected to eventually succeed.
#[derive(Debug)]
pub struct RetryableError {
    pub message: String,
}

impl RetryableError {
    pub fn new(message: &str) -> (r: Self)
        ensures
            r.message@ == message@,
    {
        RetryableError { message: message.to_owned() }
    }

    /// Human-readable rendering, in place of a `Display` implementation.
    pub fn describe(&self) -> (r: String)
        ensures
            r@ == "Retryable Error: "@ + self.message@,
    {
        let mut s = String::from_str("Retryable Error: ");
        s.append(self.message.as_str());
        s
    }
}

/// The two-kind classification that every processing failure is reduced to
/// before the poller decides the fate of a message.
#[derive(Debug)]
pub enum ApplicationError {
    RetryableError(RetryableError),
    PermanentError(PermanentError),
}

impl From<RetryableError> for ApplicationError {
    fn from(error: RetryableError) -> (r: Self) {
        ApplicationError::RetryableError(error)
    }
}

impl vstd::std_specs::convert::FromSpecImpl<RetryableError> for ApplicationError {
    open spec fn obeys_from_spec() -> bool {
        true
    }

    open spec fn from_spec(t: RetryableError) -> Self {
        ApplicationError::RetryableError(t)
    }
}

impl From<PermanentError> for ApplicationError {
    fn from(error: PermanentError) -> (r: Self) {
        ApplicationError::PermanentError(error)
    }
}

impl vstd::std_specs::convert::FromSpecImpl<PermanentError> for ApplicationError {
    open spec fn obeys_from_spec() -> bool {
        true
    }

    open spec fn from_spec(t: PermanentError) -> Self {
        ApplicationError::PermanentError(t)
    }
}

/// A failure while turning a record into or out of its stored shape.
#[derive(Debug)]
pub struct SerializationError {
    pub message: String,
}

impl SerializationError {
    pub fn new(message: &str) -> (r: Self)
        ensures
            r.message@ == message@,
    {
        SerializationError { message: message.to_owned() }
    }

    /// Human-readable rendering, in place of a `Display` implementation.
    pub fn describe(&self) -> (r: String)
        ensures
            r@ == "Serialization Error: "@ + self.message@,
    {
        let mut s = String::from_str("Serialization Error: ");
        s.append(self.message.as_str());
        s
    }
}

/// Storage-level outcome of a failed table operation, as the caller of the
/// store sees it before classification.
#[derive(Debug)]
pub enum StoreError {
    /// The conditional write found an item already under the same keys.
    /// This is the idempotency guard, not a processing failure.
    ConditionFailed,
    /// The provider could not serve the call (throttling, timeout, outage).
    Unavailable(String),
}

} // verus!
