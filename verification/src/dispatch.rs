//! Event processors.
//!
//! Each external event type has one processor; the poller selects it by the
//! `detail.event_type` tag and hands it the decoded message body. Every
//! processor obeys the same contract: a body that could not be deserialized
//! is a permanent failure (retrying cannot make it parseable) and leaves
//! the table untouched; a well-formed event takes effect as the processor's
//! declared transition.

use vstd::prelude::*;
use vstd::string::StringExecFns;

use crate::errors::{ApplicationError, PermanentError, SerializationError};
use crate::model::{CreateMessageBody, DBNotifcation};
use crate::notification::{create_transition, NotificationService, NotificationServiceInterface};

verus! {

/// The external event types this consumer understands.
#[derive(Debug, Clone, Copy, PartialEq, Eq, Structural)]
pub enum MemoEventTypes {
    CreateMessage,
}

/// The dispatch tag carried by creation events.
pub open spec fn create_message_tag() -> Seq<char> {
    "memo:message.created-1.0.0"@
}

/// The executable form of [`create_message_tag`].
pub fn create_message_event_tag() -> (r: &'static str)
    ensures
        r@ == create_message_tag(),
{
    "memo:message.created-1.0.0"
}

/// The uniform capability a processor offers the poller.
pub trait EventTypeProcessorInterface: Sized {
    type Input;

    type Event;

    /// The table the processor materializes events into.
    spec fn table(&self) -> Seq<DBNotifcation>;

    spec fn wf(&self) -> bool;

    /// What `new` builds from its input.
    spec fn new_spec(r: Self, input: Self::Input) -> bool;

    /// The declared effect of processing one well-formed event.
    spec fn event_effect(
        pre: Seq<DBNotifcation>,
        post: Seq<DBNotifcation>,
        event: Self::Event,
        r: Result<(), ApplicationError>,
    ) -> bool;

    fn new(input: Self::Input) -> (r: Self)
        ensures
            Self::new_spec(r, input),
    ;

    /// Processes one decoded message body.
    fn process(&mut self, event: Result<Self::Event, SerializationError>) -> (r: Result<
        (),
        ApplicationError,
    >)
        requires
            old(self).wf(),
        ensures
            final(self).wf(),
            event is Err ==> (r matches Err(e) && e is PermanentError) && final(self).table()
                == old(self).table(),
            event matches Ok(ev) ==> Self::event_effect(
                old(self).table(),
                final(self).table(),
                ev,
                r,
            ),
    ;
}

/// Processor for creation events: materializes the event as an unread
/// notification through the notification service.
pub struct CreateMessageProcessor {
    pub event_type: MemoEventTypes,
    pub notification_service: NotificationService,
}

pub struct CreateMessageProcessorOption {
    pub event_type: MemoEventTypes,
    pub notification_service: NotificationService,
}

impl EventTypeProcessorInterface for CreateMessageProcessor {
    type Input = CreateMessageProcessorOption;

    type Event = CreateMessageBody;

    open spec fn table(&self) -> Seq<DBNotifcation> {
        self.notification_service.table()
    }

    open spec fn wf(&self) -> bool {
        self.notification_service.wf()
    }

    open spec fn new_spec(r: Self, input: CreateMessageProcessorOption) -> bool {
        r.event_type == input.event_type && r.notification_service == input.notification_service
    }

    /// A well-formed creation event succeeds and performs the idempotent
    /// creation transition, at a server-chosen time.
    open spec fn event_effect(
        pre: Seq<DBNotifcation>,
        post: Seq<DBNotifcation>,
        event: CreateMessageBody,
        r: Result<(), ApplicationError>,
    ) -> bool {
        r is Ok && exists|t: Seq<char>| create_transition(pre, post, event.detail, t)
    }

    fn new(input: CreateMessageProcessorOption) -> (r: Self) {
        CreateMessageProcessor {
            event_type: input.event_type,
            notification_service: input.notification_service,
        }
    }

    fn process(&mut self, event: Result<CreateMessageBody, SerializationError>) -> (r: Result<
        (),
        ApplicationError,
    >) {
        match event {
            Err(e) => {
                let mut msg = String::from_str("CreateMessageBody was not well-formatted: ");
                msg.append(e.message.as_str());
                Err(ApplicationError::PermanentError(PermanentError::new(msg.as_str())))
            },
            Ok(body) => self.notification_service.create_notification_message(body),
        }
    }
}

} // verus!
