//! The consumption loop's decision core.
//!
//! The consumer receives batches from the queue, and for each message this
//! module decides everything that is not transport: how the body routes by
//! its `detail.event_type` tag, what the processor outcome and the
//! message's receive count imply for the message's fate — acknowledge it,
//! divert it to the failure destination, or leave it for redelivery — and
//! how the provider's receive-count attribute is read. The caller performs
//! the planned transport operation and nothing else.
//!
//! Policy for bodies that route nowhere (no tag, or an unregistered tag):
//! the message is left in place, untouched, for redelivery and manual
//! inspection; it is neither processed, forwarded nor deleted.

use vstd::prelude::*;
use vstd::string::{StringExecFns, StrSliceExecFns};

use crate::dispatch::{
    create_message_tag, create_message_event_tag, CreateMessageProcessor,
    CreateMessageProcessorOption, EventTypeProcessorInterface, MemoEventTypes,
};
use crate::errors::{ApplicationError, PermanentError, RetryableError, SerializationError};
use crate::model::{CreateMessageBody, DBNotifcation};
use crate::notification::{create_transition, NotificationService};

verus! {

/// The `detail.event_type` string of a JSON text, a function of the text
/// alone; no value when the text is not JSON or carries no such string.
pub uninterp spec fn event_type_of(body: Seq<char>) -> Option<Seq<char>>;

/// Relies on serde_json — `from_str::<Value>`, `Value` indexing and
/// `as_str` — to pull `detail.event_type` out of the body. All three are
/// pure functions of the text, so the result is named by [`event_type_of`].
#[verifier::external_body]
fn extract_event_type(body: &str) -> (r: Option<String>)
    ensures
        r is Some <==> event_type_of(body@) is Some,
        r matches Some(s) ==> event_type_of(body@) == Some(s@),
{
    match serde_json::from_str::<serde_json::Value>(body) {
        Ok(json) => json["detail"]["event_type"].as_str().map(|s| s.to_string()),
        Err(_) => None,
    }
}

/// Where a message body routes.
#[derive(Debug, Clone, Copy, PartialEq, Eq, Structural)]
pub enum MessageRoute {
    /// Not JSON, or no `detail.event_type` string: an unrecoverable
    /// envelope that never reaches a processor.
    NoEventType,
    /// A tag no processor is registered for.
    UnknownEventType,
    /// The creation-event tag.
    CreateMessage,
}

/// What the consumer must do with the message on the queue afterwards.
#[derive(Debug, Clone, Copy, PartialEq, Eq, Structural)]
pub enum MessageAction {
    /// Acknowledge: delete the message from the source queue.
    Delete,
    /// Divert: send the body verbatim to the failure destination, then
    /// delete the message from the source queue.
    ForwardThenDelete,
    /// Take no action; the message reappears after its visibility timeout.
    Leave,
}

/// Routes a body by its `detail.event_type` tag.
pub fn route_message(body: &str) -> (r: MessageRoute)
    ensures
        r is NoEventType <==> event_type_of(body@) is None,
        r is CreateMessage <==> event_type_of(body@) == Some(create_message_tag()),
        r is UnknownEventType <==> (event_type_of(body@) matches Some(t) && t
            != create_message_tag()),
{
    match extract_event_type(body) {
        None => MessageRoute::NoEventType,
        Some(tag) => {
            if tag == String::from_str(create_message_event_tag()) {
                MessageRoute::CreateMessage
            } else {
                MessageRoute::UnknownEventType
            }
        },
    }
}

/// A retryable failure is given up on — diverted to the failure
/// destination — once the receive count exceeds the retry bound. A message
/// without the attribute counts as freshly delivered.
pub open spec fn should_dead_letter(receive_count: Option<i32>, max_retry: i32) -> bool {
    receive_count matches Some(c) && c > max_retry
}

/// The fate of a message, from the processing outcome and the retry state:
/// success acknowledges; a permanent failure diverts at once; a retryable
/// failure diverts only past the retry bound and is otherwise left for
/// redelivery.
pub open spec fn message_action_spec(
    outcome: Result<(), ApplicationError>,
    receive_count: Option<i32>,
    max_retry: i32,
) -> MessageAction {
    match outcome {
        Ok(_) => MessageAction::Delete,
        Err(ApplicationError::PermanentError(_)) => MessageAction::ForwardThenDelete,
        Err(ApplicationError::RetryableError(_)) => if should_dead_letter(
            receive_count,
            max_retry,
        ) {
            MessageAction::ForwardThenDelete
        } else {
            MessageAction::Leave
        },
    }
}

/// Retry threshold: a retryable failure leaves the message enqueued while
/// the receive count is within the bound (or absent), and diverts it once
/// the count exceeds the bound.
pub proof fn lemma_retry_threshold(
    e: RetryableError,
    receive_count: Option<i32>,
    max_retry: i32,
)
    ensures
        (receive_count is None || (receive_count matches Some(c) && c <= max_retry))
            ==> message_action_spec(
            Err(ApplicationError::RetryableError(e)),
            receive_count,
            max_retry,
        ) is Leave,
        (receive_count matches Some(c) && c > max_retry) ==> message_action_spec(
            Err(ApplicationError::RetryableError(e)),
            receive_count,
            max_retry,
        ) is ForwardThenDelete,
{
}

/// Permanent failure: diverted and acknowledged whatever the receive
/// count, including a first delivery.
pub proof fn lemma_permanent_always_diverts(
    e: PermanentError,
    receive_count: Option<i32>,
    max_retry: i32,
)
    ensures
        message_action_spec(
            Err(ApplicationError::PermanentError(e)),
            receive_count,
            max_retry,
        ) is ForwardThenDelete,
{
}

/// Decides the fate of one message from the processing outcome, its
/// receive count and the retry bound. The poller never retries on its own
/// judgment: this rule is the only place the receive count is consulted.
pub fn decide_message_action(
    outcome: &Result<(), ApplicationError>,
    receive_count: Option<i32>,
    max_retry: i32,
) -> (r: MessageAction)
    ensures
        r == message_action_spec(*outcome, receive_count, max_retry),
{
    match outcome {
        Ok(_) => MessageAction::Delete,
        Err(ApplicationError::PermanentError(_)) => MessageAction::ForwardThenDelete,
        Err(ApplicationError::RetryableError(_)) => {
            match receive_count {
                Some(c) => {
                    if c > max_retry {
                        MessageAction::ForwardThenDelete
                    } else {
                        MessageAction::Leave
                    }
                },
                None => MessageAction::Leave,
            }
        },
    }
}

/// Configuration for the poller; absent values fall back to the defaults
/// `new` applies.
pub struct SQSPollerOption {
    pub sqs_queue: String,
    pub failure_queue: String,
    pub wait_time_seconds: Option<i32>,
    pub max_number_of_messages: Option<i32>,
    pub max_retry: Option<i32>,
    pub notification_service: NotificationService,
}

/// The poller's state: the running flag, the transport parameters the
/// consumer loop reads, and the registered processor.
pub struct SQSPoller {
    pub processing: bool,
    pub sqs_queue: String,
    pub failure_queue: String,
    pub wait_time_seconds: i32,
    pub max_number_of_messages: i32,
    pub max_retry: i32,
    pub create_message_processor: CreateMessageProcessor,
}

impl SQSPoller {
    /// The table behind the registered processor.
    pub open spec fn table(&self) -> Seq<DBNotifcation> {
        self.create_message_processor.table()
    }

    pub open spec fn wf(&self) -> bool {
        self.create_message_processor.wf()
    }

    pub fn new(option: SQSPollerOption) -> (r: Self)
        ensures
            r.processing == false,
            r.sqs_queue == option.sqs_queue,
            r.failure_queue == option.failure_queue,
            r.wait_time_seconds == option.wait_time_seconds.unwrap_or(10),
            r.max_number_of_messages == option.max_number_of_messages.unwrap_or(10),
            r.max_retry == option.max_retry.unwrap_or(10),
            r.create_message_processor.event_type is CreateMessage,
            r.create_message_processor.notification_service == option.notification_service,
    {
        let create_message_processor = CreateMessageProcessor::new(CreateMessageProcessorOption {
            event_type: MemoEventTypes::CreateMessage,
            notification_service: option.notification_service,
        });
        SQSPoller {
            processing: false,
            sqs_queue: option.sqs_queue,
            failure_queue: option.failure_queue,
            wait_time_seconds: match option.wait_time_seconds {
                Some(w) => w,
                None => 10,
            },
            max_number_of_messages: match option.max_number_of_messages {
                Some(m) => m,
                None => 10,
            },
            max_retry: match option.max_retry {
                Some(m) => m,
                None => 10,
            },
            create_message_processor,
        }
    }

    /// Raises the running flag; the consumer loop polls while it is set.
    pub fn begin_processing(&mut self)
        ensures
            *final(self) == (SQSPoller { processing: true, ..*old(self) }),
    {
        self.processing = true;
    }

    /// Cooperative stop: clears the flag, observed at the top of the next
    /// iteration; in-flight work is not interrupted.
    pub fn stop_processing(&mut self)
        ensures
            *final(self) == (SQSPoller { processing: false, ..*old(self) }),
    {
        self.processing = false;
    }

    pub fn is_processing(&self) -> (r: bool)
        ensures
            r == self.processing,
    {
        self.processing
    }

    /// The fate of a message given the processing outcome and its receive
    /// count, against this poller's retry bound.
    pub fn action_for_outcome(
        &self,
        outcome: &Result<(), ApplicationError>,
        receive_count: Option<i32>,
    ) -> (r: MessageAction)
        ensures
            r == message_action_spec(*outcome, receive_count, self.max_retry),
    {
        decide_message_action(outcome, receive_count, self.max_retry)
    }

    /// Handles one received message: routes the body, runs the matching
    /// processor on the decoded event, and decides the message's fate.
    /// `parsed` is the attempt to decode the body into the creation event;
    /// it is consulted only when the body routes to the creation processor.
    ///
    /// A body that routes nowhere — absent, not JSON, without a tag, or
    /// with a tag nothing is registered for — is left untouched: not
    /// processed, not forwarded, not deleted.
    pub fn delegate_event_to_processor(
        &mut self,
        body: Option<&String>,
        receive_count: Option<i32>,
        parsed: Result<CreateMessageBody, SerializationError>,
    ) -> (r: MessageAction)
        requires
            old(self).wf(),
        ensures
            final(self).wf(),
            final(self).max_retry == old(self).max_retry,
            final(self).processing == old(self).processing,
            body is None ==> r is Leave && final(self).table() == old(self).table(),
            (body matches Some(b) && event_type_of(b@) is None) ==> r is Leave
                && final(self).table() == old(self).table(),
            (body matches Some(b) && event_type_of(b@) matches Some(t) && t
                != create_message_tag()) ==> r is Leave
                && final(self).table() == old(self).table(),
            (body matches Some(b) && event_type_of(b@) == Some(create_message_tag()) && parsed
                is Err) ==> r is ForwardThenDelete
                && final(self).table() == old(self).table(),
            (body matches Some(b) && event_type_of(b@) == Some(create_message_tag()) && parsed
                is Ok) ==> r is Delete && (exists|t: Seq<char>|
                create_transition(old(self).table(), final(self).table(), parsed->Ok_0.detail, t)),
    {
        match body {
            None => MessageAction::Leave,
            Some(b) => {
                match route_message(b.as_str()) {
                    MessageRoute::NoEventType => MessageAction::Leave,
                    MessageRoute::UnknownEventType => MessageAction::Leave,
                    MessageRoute::CreateMessage => {
                        let ghost pre = self.table();
                        let outcome = self.create_message_processor.process(parsed);
                        proof {
                            if parsed is Ok {
                                assert(CreateMessageProcessor::event_effect(
                                    pre,
                                    self.table(),
                                    parsed->Ok_0,
                                    outcome,
                                ));
                                let t = choose|t: Seq<char>|
                                    create_transition(pre, self.table(), parsed->Ok_0.detail, t);
                                assert(create_transition(
                                    pre,
                                    self.table(),
                                    parsed->Ok_0.detail,
                                    t,
                                ));
                            }
                        }
                        self.action_for_outcome(&outcome, receive_count)
                    },
                }
            },
        }
    }
}

/// One decimal digit.
pub open spec fn is_decimal_digit(c: char) -> bool {
    '0' <= c && c <= '9'
}

pub open spec fn all_decimal_digits(s: Seq<char>) -> bool {
    forall|i: int| 0 <= i < s.len() ==> is_decimal_digit(#[trigger] s[i])
}

/// Value of a digit string, most significant first.
pub open spec fn digits_value(s: Seq<char>) -> int
    decreases s.len(),
{
    if s.len() == 0 {
        0
    } else {
        digits_value(s.drop_last()) * 10 + (s.last() as int - '0' as int)
    }
}

/// What parsing a decimal integer into an `i32` yields: an optional sign,
/// then at least one digit, and the value must fit.
pub open spec fn parse_i32_spec(s: Seq<char>) -> Option<i32> {
    let negative = s.len() > 0 && s[0] == '-';
    let digits = if s.len() > 0 && (s[0] == '-' || s[0] == '+') {
        s.skip(1)
    } else {
        s
    };
    if digits.len() == 0 || !all_decimal_digits(digits) {
        None
    } else if negative {
        if -digits_value(digits) >= i32::MIN as int {
            Some((-digits_value(digits)) as i32)
        } else {
            None
        }
    } else {
        if digits_value(digits) <= i32::MAX as int {
            Some(digits_value(digits) as i32)
        } else {
            None
        }
    }
}

proof fn lemma_digits_value_nonneg(s: Seq<char>)
    requires
        all_decimal_digits(s),
    ensures
        digits_value(s) >= 0,
    decreases s.len(),
{
    if s.len() > 0 {
        assert(all_decimal_digits(s.drop_last())) by {
            assert(forall|i: int| 0 <= i < s.len() - 1 ==> s.drop_last()[i] == #[trigger] s[i]);
        }
        lemma_digits_value_nonneg(s.drop_last());
    }
}

/// Reading more digits never shrinks the value.
proof fn lemma_digits_value_prefix_le(s: Seq<char>, i: int)
    requires
        all_decimal_digits(s),
        0 <= i <= s.len(),
    ensures
        digits_value(s.take(i)) <= digits_value(s),
    decreases s.len() - i,
{
    if i == s.len() {
        assert(s.take(i) =~= s);
    } else {
        assert(s.take(i + 1).drop_last() =~= s.take(i));
        assert(s.take(i + 1).last() == s[i]);
        assert(all_decimal_digits(s.take(i))) by {
            assert(forall|k: int| 0 <= k < i ==> s.take(i)[k] == #[trigger] s[k]);
        }
        lemma_digits_value_nonneg(s.take(i));
        assert(digits_value(s.take(i + 1)) == digits_value(s.take(i)) * 10 + (s[i] as int
            - '0' as int));
        lemma_digits_value_prefix_le(s, i + 1);
    }
}

/// Reads the provider's receive-count attribute: a decimal `i32`, as the
/// attribute carries it. `None` when the text is not such a number.
pub fn parse_receive_count(s: &str) -> (r: Option<i32>)
    ensures
        r == parse_i32_spec(s@),
{
    let n = s.unicode_len();
    if n == 0 {
        return None;
    }
    let first = s.get_char(0);
    let negative = first == '-';
    let start: usize = if first == '-' || first == '+' {
        1
    } else {
        0
    };
    let ghost digits = if start == 1 {
        s@.skip(1)
    } else {
        s@
    };
    if n == start {
        return None;
    }
    let mut acc: i64 = 0;
    let mut i: usize = start;
    while i < n
        invariant
            start <= i <= n,
            start <= 1,
            n == s@.len(),
            (start == 1) == (s@.len() > 0 && (s@[0] == '-' || s@[0] == '+')),
            negative == (s@.len() > 0 && s@[0] == '-'),
            digits == if start == 1 {
                s@.skip(1)
            } else {
                s@
            },
            digits.len() == n - start,
            forall|k: int| 0 <= k < digits.len() ==> digits[k] == s@[k + start],
            all_decimal_digits(digits.take(i - start)),
            acc == digits_value(digits.take(i - start)),
            0 <= acc <= 2147483648,
        decreases n - i,
    {
        let c = s.get_char(i);
        if (c as u32) < ('0' as u32) || (c as u32) > ('9' as u32) {
            proof {
                assert(digits[i - start] == c);
                assert(!is_decimal_digit(digits[i - start]));
                assert(!all_decimal_digits(digits));
            }
            return None;
        }
        let d: u32 = (c as u32) - ('0' as u32);
        proof {
            assert(is_decimal_digit(c));
            assert(digits[i - start] == c);
            assert(digits.take(i + 1 - start).drop_last() =~= digits.take(i - start));
            assert(digits.take(i + 1 - start).last() == digits[i - start]);
            assert(all_decimal_digits(digits.take(i + 1 - start))) by {
                assert(forall|k: int|
                    0 <= k < i + 1 - start ==> digits.take(i + 1 - start)[k] == #[trigger] digits[k]);
            }
            assert(digits_value(digits.take(i + 1 - start)) == digits_value(
                digits.take(i - start),
            ) * 10 + (c as int - '0' as int));
            assert(c as int - '0' as int == d as int);
        }
        acc = acc * 10 + (d as i64);
        proof {
            assert(acc == digits_value(digits.take(i + 1 - start)));
        }
        if acc > 2147483648 {
            proof {
                if all_decimal_digits(digits) {
                    lemma_digits_value_prefix_le(digits, i + 1 - start);
                    assert(digits_value(digits) > 2147483648);
                }
            }
            return None;
        }
        i = i + 1;
    }
    proof {
        assert(digits.take(n - start) =~= digits);
    }
    if negative {
        Some((-acc) as i32)
    } else {
        if acc > 2147483647 {
            None
        } else {
            Some(acc as i32)
        }
    }
}

} // verus!
