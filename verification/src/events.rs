use vstd::prelude::*;

use crate::error::{is_invalid_argument, Error};
use crate::ids::{ApplicationId, EndpointId, EventId, MessageId};
use crate::configuration::Topic;
use crate::sender::{same_opt_string, same_status, spec_is_delivered, SentResult, Status};

verus! {

/// What `serde_json` makes of a string: `None` where it is not valid JSON,
/// otherwise the compact serialization of the parsed value (object keys
/// sorted).  A function of the input characters alone.
pub uninterp spec fn json_norm(s: Seq<char>) -> Option<Seq<char>>;

/// Relies on `serde_json::from_str::<Value>` and `Value::to_string`: parsing
/// either fails or yields a value whose compact serialization depends on the
/// input alone (maps are ordered, floats formatted deterministically).
#[verifier::external_body]
fn json_canon(s: &str) -> (r: Option<String>)
    ensures
        r is Some <==> json_norm(s@) is Some,
        r is Some ==> r.unwrap()@ == json_norm(s@).unwrap(),
{
    match serde_json::from_str::<serde_json::Value>(s) {
        Ok(v) => Some(v.to_string()),
        Err(_) => None,
    }
}

/// An event's payload: a syntactically valid JSON document, semantically
/// opaque, kept in its normalized serialization.
#[derive(Debug)]
pub struct Payload {
    body: String,
}

impl View for Payload {
    type V = Seq<char>;

    closed spec fn view(&self) -> Seq<char> {
        self.body@
    }
}

impl Payload {
    /// Accepts exactly the valid JSON documents and keeps the normalized
    /// serialization.
    pub fn from_json(s: &str) -> (r: Result<Payload, Error>)
        ensures
            match r {
                Ok(p) => json_norm(s@) is Some && p@ == json_norm(s@).unwrap(),
                Err(e) => json_norm(s@) is None && is_invalid_argument(
                    e,
                    "Payload should be valid JSON"@,
                ),
            },
    {
        match json_canon(s) {
            Some(body) => Ok(Payload { body }),
            None => Err(Error::InvalidArgument(String::from_str("Payload should be valid JSON"))),
        }
    }

    /// The serialized document.
    pub fn as_str(&self) -> (r: &str)
        ensures
            r@ == self@,
    {
        self.body.as_str()
    }
}

impl Clone for Payload {
    fn clone(&self) -> (r: Self)
        ensures
            r@ == self@,
    {
        Payload { body: self.body.clone() }
    }
}

/// A producer-submitted event: a payload under a topic, stamped with the
/// ingestion wall clock (milliseconds since the epoch).
#[derive(Debug)]
pub struct Event {
    pub id: EventId,
    pub app_id: ApplicationId,
    pub payload: Payload,
    pub topic: Topic,
    pub created_at: u64,
}

impl Event {
    /// A new event with a fresh id, stamped `created_at = now_ms`.
    pub fn new(app_id: ApplicationId, payload: Payload, topic: Topic, now_ms: u64) -> (r: Self)
        ensures
            r.id.wf(),
            r.app_id == app_id,
            r.payload@ == payload@,
            r.topic@ == topic@,
            r.created_at == now_ms,
    {
        Event { id: EventId::new(), app_id, payload, topic, created_at: now_ms }
    }

    /// How long the event has waited since ingestion.  A clock reading before
    /// `created_at` is a clock-skew bug: the caller must abort instead of
    /// calling this.
    pub fn calculate_processing_time(&self, now_ms: u64) -> (r: u64)
        requires
            now_ms >= self.created_at,
        ensures
            r == now_ms - self.created_at,
    {
        now_ms - self.created_at
    }
}

impl Clone for Event {
    fn clone(&self) -> (r: Self)
        ensures
            r.id == self.id,
            r.app_id == self.app_id,
            r.payload@ == self.payload@,
            r.topic@ == self.topic@,
            r.created_at == self.created_at,
    {
        Event {
            id: self.id.clone(),
            app_id: self.app_id.clone(),
            payload: self.payload.clone(),
            topic: self.topic.clone(),
            created_at: self.created_at,
        }
    }
}

/// An attempt's identity: the message it belongs to and its position in that
/// message's attempt sequence, counted from 1.
#[derive(Debug)]
pub struct AttemptId {
    message_id: MessageId,
    attempt_no: u16,
}

impl AttemptId {
    pub closed spec fn spec_message_id(self) -> MessageId {
        self.message_id
    }

    pub closed spec fn spec_attempt_no(self) -> u16 {
        self.attempt_no
    }

    /// Accepts exactly the attempt numbers from 1 up: `attempt_no = 0` is
    /// rejected at construction.
    pub fn new(message_id: MessageId, attempt_no: u16) -> (r: Result<AttemptId, Error>)
        ensures
            match r {
                Ok(id) => attempt_no >= 1 && id.spec_message_id() == message_id
                    && id.spec_attempt_no() == attempt_no,
                Err(e) => attempt_no == 0 && is_invalid_argument(
                    e,
                    "Attempt number should be greater than 0"@,
                ),
            },
    {
        if attempt_no == 0 {
            return Err(
                Error::InvalidArgument(String::from_str("Attempt number should be greater than 0")),
            );
        }
        Ok(AttemptId { message_id, attempt_no })
    }

    /// The position in the message's attempt sequence.
    pub fn attempt_no(&self) -> (r: u16)
        ensures
            r == self.spec_attempt_no(),
    {
        self.attempt_no
    }

    /// The message this attempt belongs to.
    pub fn message_id(&self) -> (r: MessageId)
        ensures
            r == self.spec_message_id(),
    {
        self.message_id.clone()
    }
}

impl Clone for AttemptId {
    fn clone(&self) -> (r: Self)
        ensures
            r == *self,
    {
        AttemptId { message_id: self.message_id.clone(), attempt_no: self.attempt_no }
    }
}

/// One delivery attempt of a message: its number and the status it ended in.
#[derive(Debug)]
pub struct Attempt {
    id: AttemptId,
    status: Status,
}

impl Attempt {
    pub closed spec fn spec_attempt_no(self) -> u16 {
        self.id.spec_attempt_no()
    }

    pub closed spec fn spec_message_id(self) -> MessageId {
        self.id.spec_message_id()
    }

    pub closed spec fn spec_status(self) -> Status {
        self.status
    }

    /// An attempt under the given identity.
    pub fn new(id: AttemptId, status: Status) -> (r: Self)
        ensures
            r.spec_attempt_no() == id.spec_attempt_no(),
            r.spec_message_id() == id.spec_message_id(),
            r.spec_status() == status,
    {
        Attempt { id, status }
    }

    /// The attempt's number within its message.
    pub fn attempt_id(&self) -> (r: u16)
        ensures
            r == self.spec_attempt_no(),
    {
        self.id.attempt_no()
    }

    /// The message the attempt belongs to.
    pub fn message_id(&self) -> (r: MessageId)
        ensures
            r == self.spec_message_id(),
    {
        self.id.message_id()
    }

    /// The status the attempt ended in.
    pub fn status(&self) -> (r: Status)
        ensures
            same_status(r, self.spec_status()),
    {
        self.status.clone()
    }

    /// Delivered exactly when the status is numeric in `[200, 299]`.
    pub fn is_delivered(&self) -> (r: bool)
        ensures
            r == spec_is_delivered(self.spec_status()),
    {
        self.status.is_delivered()
    }
}

impl Clone for Attempt {
    fn clone(&self) -> (r: Self)
        ensures
            r.spec_attempt_no() == self.spec_attempt_no(),
            r.spec_message_id() == self.spec_message_id(),
            same_status(r.spec_status(), self.spec_status()),
    {
        Attempt { id: self.id.clone(), status: self.status.clone() }
    }
}

/// Dense numbering from 1, consistent message ids, and no attempt after a
/// delivered one: what `AttemptCollection` keeps invariant.
pub open spec fn attempts_consistent(message_id: MessageId, s: Seq<Attempt>) -> bool {
    &&& s.len() < 0xffff
    &&& (forall|i: int| 0 <= i < s.len() ==> (#[trigger] s[i]).spec_attempt_no() == i + 1)
    &&& (forall|i: int| 0 <= i < s.len() ==> (#[trigger] s[i]).spec_message_id()@ == message_id@)
    &&& (forall|i: int|
        0 <= i < s.len() && spec_is_delivered((#[trigger] s[i]).spec_status()) ==> i == s.len() - 1)
}

/// A message's attempts, appended in order.  Well-formedness: the attempt
/// numbers are the dense sequence `1..=k` in order, every attempt names the
/// owning message, and only the last attempt may be delivered.
#[derive(Debug)]
pub struct AttemptCollection {
    message_id: MessageId,
    attempts: Vec<Attempt>,
}

impl View for AttemptCollection {
    type V = Seq<Attempt>;

    closed spec fn view(&self) -> Seq<Attempt> {
        self.attempts@
    }
}

impl AttemptCollection {
    pub closed spec fn spec_message_id(self) -> MessageId {
        self.message_id
    }

    /// The collection's invariant: dense numbering from 1, consistent message
    /// ids, and no attempt after a delivered one.
    pub open spec fn wf(self) -> bool {
        attempts_consistent(self.spec_message_id(), self@)
    }

    /// Whether some attempt already delivered.
    pub open spec fn spec_has_delivered(self) -> bool {
        exists|i: int| 0 <= i < self@.len() && spec_is_delivered((#[trigger] self@[i]).spec_status())
    }

    /// An empty collection for the given message.
    pub fn new(message_id: MessageId) -> (r: Self)
        ensures
            r.wf(),
            r@.len() == 0,
            r.spec_message_id() == message_id,
    {
        AttemptCollection { message_id, attempts: Vec::new() }
    }

    /// The identity the next pushed attempt will get: one past the current
    /// count.
    pub fn next_id(&self) -> (r: AttemptId)
        requires
            self@.len() < 0xffff,
        ensures
            r.spec_message_id() == self.spec_message_id(),
            r.spec_attempt_no() == self@.len() + 1,
    {
        let n: u16 = (self.attempts.len() as u16) + 1;
        match AttemptId::new(self.message_id.clone(), n) {
            Ok(id) => id,
            Err(_) => {
                proof {
                    assert(false);
                }
                AttemptId { message_id: self.message_id.clone(), attempt_no: 1 }
            },
        }
    }

    /// Appends an attempt with the given status; its number is the next in
    /// the dense sequence.  Nothing may be pushed once an attempt delivered,
    /// so the invariant is preserved.
    pub fn push(&mut self, status: Status) -> (r: AttemptId)
        requires
            old(self).wf(),
            !old(self).spec_has_delivered(),
            old(self)@.len() < 0xfffe,
        ensures
            final(self).wf(),
            final(self).spec_message_id() == old(self).spec_message_id(),
            final(self)@.len() == old(self)@.len() + 1,
            forall|i: int|
                0 <= i < old(self)@.len() ==> #[trigger] final(self)@[i] == old(self)@[i],
            final(self)@.last().spec_status() == status,
            final(self)@.last().spec_attempt_no() == old(self)@.len() + 1,
            final(self)@.last().spec_message_id() == old(self).spec_message_id(),
            r.spec_message_id() == old(self).spec_message_id(),
            r.spec_attempt_no() == old(self)@.len() + 1,
    {
        let id = self.next_id();
        let attempt = Attempt::new(id.clone(), status);
        self.attempts.push(attempt);
        id
    }

    /// The attempts in order of their numbers (the insertion order).
    pub fn all(&self) -> (r: Vec<Attempt>)
        ensures
            r@.len() == self@.len(),
            forall|i: int|
                0 <= i < self@.len() ==> {
                    &&& (#[trigger] r@[i]).spec_attempt_no() == self@[i].spec_attempt_no()
                    &&& r@[i].spec_message_id() == self@[i].spec_message_id()
                    &&& same_status(r@[i].spec_status(), self@[i].spec_status())
                },
    {
        let mut out: Vec<Attempt> = Vec::new();
        let mut i: usize = 0;
        while i < self.attempts.len()
            invariant
                i <= self.attempts@.len(),
                out@.len() == i,
                forall|j: int|
                    0 <= j < i ==> {
                        &&& (#[trigger] out@[j]).spec_attempt_no() == self@[j].spec_attempt_no()
                        &&& out@[j].spec_message_id() == self@[j].spec_message_id()
                        &&& same_status(out@[j].spec_status(), self@[j].spec_status())
                    },
            decreases self.attempts@.len() - i,
        {
            out.push(self.attempts[i].clone());
            i += 1;
        }
        out
    }

    /// Whether some attempt already delivered.
    pub fn has_delivered(&self) -> (r: bool)
        ensures
            r == self.spec_has_delivered(),
    {
        let mut i: usize = 0;
        while i < self.attempts.len()
            invariant
                i <= self.attempts@.len(),
                forall|j: int|
                    0 <= j < i ==> !spec_is_delivered((#[trigger] self@[j]).spec_status()),
            decreases self.attempts@.len() - i,
        {
            if self.attempts[i].is_delivered() {
                return true;
            }
            i += 1;
        }
        false
    }

    /// Rebuilds a collection from stored attempts, checking the invariant:
    /// accepted exactly when the rows are dense from 1, belong to
    /// `message_id`, and no attempt precedes a delivered one.
    pub fn from_parts(message_id: MessageId, attempts: Vec<Attempt>) -> (r: Result<Self, Error>)
        ensures
            match r {
                Ok(c) => {
                    &&& c.wf()
                    &&& c.spec_message_id() == message_id
                    &&& c@ == attempts@
                },
                Err(e) => {
                    &&& is_invalid_argument(e, "Stored attempts are inconsistent"@)
                    &&& !attempts_consistent(message_id, attempts@)
                },
            },
    {
        if attempts.len() >= 0xffff {
            return Err(Error::InvalidArgument(String::from_str("Stored attempts are inconsistent")));
        }
        let mut i: usize = 0;
        while i < attempts.len()
            invariant
                i <= attempts@.len(),
                attempts@.len() < 0xffff,
                forall|j: int|
                    0 <= j < i ==> (#[trigger] attempts@[j]).spec_attempt_no() == j + 1,
                forall|j: int|
                    0 <= j < i ==> (#[trigger] attempts@[j]).spec_message_id()@ == message_id@,
                forall|j: int|
                    0 <= j < i && spec_is_delivered((#[trigger] attempts@[j]).spec_status()) ==> j
                        == attempts@.len() - 1,
            decreases attempts@.len() - i,
        {
            if attempts[i].attempt_id() as usize != i + 1 {
                return Err(
                    Error::InvalidArgument(String::from_str("Stored attempts are inconsistent")),
                );
            }
            let mid = attempts[i].message_id();
            if !(&mid == &message_id) {
                return Err(
                    Error::InvalidArgument(String::from_str("Stored attempts are inconsistent")),
                );
            }
            if attempts[i].is_delivered() && i + 1 != attempts.len() {
                return Err(
                    Error::InvalidArgument(String::from_str("Stored attempts are inconsistent")),
                );
            }
            i += 1;
        }
        Ok(AttemptCollection { message_id, attempts })
    }
}

/// Law: in a well-formed collection the attempt numbers form the dense
/// sequence `1..=k` in insertion order.
pub proof fn lemma_attempts_dense(c: AttemptCollection)
    requires
        c.wf(),
    ensures
        forall|i: int| 0 <= i < c@.len() ==> (#[trigger] c@[i]).spec_attempt_no() == i + 1,
        forall|i: int, j: int|
            0 <= i < c@.len() && 0 <= j < c@.len() && i != j ==> (#[trigger] c@[i]).spec_attempt_no()
                != (#[trigger] c@[j]).spec_attempt_no(),
{
}

/// Law: if some attempt of a well-formed collection is delivered (numeric
/// status in `[200, 299]`), it is the last one — no later attempt exists.
pub proof fn lemma_delivered_is_last(c: AttemptCollection)
    requires
        c.wf(),
    ensures
        forall|i: int|
            0 <= i < c@.len() && spec_is_delivered((#[trigger] c@[i]).spec_status()) ==> i == c@.len()
                - 1,
{
}

/// The audit record of one attempt: how long the event had been in the
/// pipeline, how long the request took, and the response body if any.
#[derive(Debug)]
pub struct AttemptLog {
    attempt_id: AttemptId,
    processing_time: u64,
    response_time: u64,
    response_body: Option<String>,
}

impl AttemptLog {
    pub closed spec fn spec_attempt_id(self) -> AttemptId {
        self.attempt_id
    }

    pub closed spec fn spec_processing_time(self) -> u64 {
        self.processing_time
    }

    pub closed spec fn spec_response_time(self) -> u64 {
        self.response_time
    }

    pub closed spec fn spec_response_body(self) -> Option<String> {
        self.response_body
    }

    /// A log entry for the given attempt.
    pub fn new(
        attempt_id: AttemptId,
        processing_time: u64,
        response_time: u64,
        response_body: Option<String>,
    ) -> (r: Self)
        ensures
            r.spec_attempt_id() == attempt_id,
            r.spec_processing_time() == processing_time,
            r.spec_response_time() == response_time,
            r.spec_response_body() == response_body,
    {
        AttemptLog { attempt_id, processing_time, response_time, response_body }
    }

    /// The attempt the entry belongs to.
    pub fn attempt_id(&self) -> (r: u16)
        ensures
            r == self.spec_attempt_id().spec_attempt_no(),
    {
        self.attempt_id.attempt_no()
    }

    /// The message the entry belongs to.
    pub fn message_id(&self) -> (r: MessageId)
        ensures
            r == self.spec_attempt_id().spec_message_id(),
    {
        self.attempt_id.message_id()
    }

    /// Milliseconds between ingestion and this attempt.
    pub fn processing_time(&self) -> (r: u64)
        ensures
            r == self.spec_processing_time(),
    {
        self.processing_time
    }

    /// Milliseconds the HTTP request took.
    pub fn response_time(&self) -> (r: u64)
        ensures
            r == self.spec_response_time(),
    {
        self.response_time
    }

    /// The response body, where one was read.
    pub fn response_body(&self) -> (r: Option<String>)
        ensures
            same_opt_string(r, self.spec_response_body()),
    {
        match &self.response_body {
            Some(b) => Some(b.clone()),
            None => None,
        }
    }
}

/// The routed pairing of one event with one subscribing endpoint: the unit
/// of delivery, owning its attempts.
#[derive(Debug)]
pub struct Message {
    pub id: MessageId,
    pub event_id: EventId,
    pub endpoint_id: EndpointId,
    pub attempts: AttemptCollection,
}

impl Message {
    /// The message's invariant: its attempts are well formed and belong to it.
    pub open spec fn wf(self) -> bool {
        self.attempts.wf() && self.attempts.spec_message_id()@ == self.id@
    }

    /// A new message with a fresh id and no attempts yet.
    pub fn new(event_id: EventId, endpoint_id: EndpointId) -> (r: Self)
        ensures
            r.wf(),
            r.id.wf(),
            r.event_id == event_id,
            r.endpoint_id == endpoint_id,
            r.attempts@.len() == 0,
    {
        let id = MessageId::new();
        let attempts = AttemptCollection::new(id.clone());
        Message { id, event_id, endpoint_id, attempts }
    }

    /// Records the outcome of one delivery attempt: appends the next attempt
    /// with the outcome's status and returns the matching audit entry.
    pub fn record_attempt(&mut self, result: SentResult, processing_time: u64) -> (r: AttemptLog)
        requires
            old(self).wf(),
            !old(self).attempts.spec_has_delivered(),
            old(self).attempts@.len() < 0xfffe,
        ensures
            final(self).wf(),
            final(self).id == old(self).id,
            final(self).event_id == old(self).event_id,
            final(self).endpoint_id == old(self).endpoint_id,
            final(self).attempts@.len() == old(self).attempts@.len() + 1,
            forall|i: int|
                0 <= i < old(self).attempts@.len() ==> #[trigger] final(self).attempts@[i] == old(
                    self,
                ).attempts@[i],
            final(self).attempts@.last().spec_status() == result.status,
            final(self).attempts@.last().spec_attempt_no() == old(self).attempts@.len() + 1,
            r.spec_attempt_id().spec_message_id()@ == old(self).id@,
            r.spec_attempt_id().spec_attempt_no() == old(self).attempts@.len() + 1,
            r.spec_processing_time() == processing_time,
            r.spec_response_time() == result.response_time,
            r.spec_response_body() == result.body,
    {
        let id = self.attempts.push(result.status);
        AttemptLog::new(id, processing_time, result.response_time, result.body)
    }

    /// The attempts so far, in order.
    pub fn attempts(&self) -> (r: Vec<Attempt>)
        ensures
            r@.len() == self.attempts@.len(),
            forall|i: int|
                0 <= i < self.attempts@.len() ==> {
                    &&& (#[trigger] r@[i]).spec_attempt_no()
                        == self.attempts@[i].spec_attempt_no()
                    &&& r@[i].spec_message_id() == self.attempts@[i].spec_message_id()
                    &&& same_status(r@[i].spec_status(), self.attempts@[i].spec_status())
                },
    {
        self.attempts.all()
    }
}

} // verus!
