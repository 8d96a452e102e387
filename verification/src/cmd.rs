use vstd::prelude::*;

use crate::ids::MessageId;

verus! {

/// A delivery task on the work queue: which message to deliver and which
/// attempt this would be, counted from 1.
#[derive(Debug)]
pub struct SentMessage {
    pub msg_id: MessageId,
    pub attempt: usize,
}

impl SentMessage {
    pub open spec fn spec_msg_id(&self) -> MessageId {
        self.msg_id
    }

    /// The first delivery task for a freshly routed message.
    pub fn new(message_id: MessageId) -> (r: Self)
        ensures
            r.spec_msg_id() == message_id,
            r.attempt == 1,
    {
        SentMessage { msg_id: message_id, attempt: 1 }
    }

    /// The redelivery task that follows this one: same message, next attempt.
    pub fn with_increased_attempt(&self) -> (r: Self)
        requires
            self.attempt < usize::MAX,
        ensures
            r.spec_msg_id() == self.spec_msg_id(),
            r.attempt == self.attempt + 1,
    {
        SentMessage { msg_id: self.msg_id.clone(), attempt: self.attempt + 1 }
    }

    /// The message the task asks to deliver.
    pub fn msg_id(&self) -> (r: MessageId)
        ensures
            r == self.spec_msg_id(),
    {
        self.msg_id.clone()
    }
}

impl Clone for SentMessage {
    fn clone(&self) -> (r: Self)
        ensures
            r.spec_msg_id() == self.spec_msg_id(),
            r.attempt == self.attempt,
    {
        SentMessage { msg_id: self.msg_id.clone(), attempt: self.attempt }
    }
}

/// The union of tasks the work queue carries, one variant per task kind;
/// delivery is the only kind today.
#[derive(Debug)]
pub enum AsyncMessage {
    SentMessage(SentMessage),
}

} // verus!
