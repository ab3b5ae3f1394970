//! The ledger entries that tie chat messages to tasks, so that a task's
//! messages can be deleted together.

use crate::database::{DbRecord, Layout};
use crate::ident::{ChatId, MessageId, TaskId};
use crate::traits::{HasChatId, HasTaskId};
use vstd::prelude::*;

verus! {

/// The fact that a message belongs to a task.
#[derive(Debug, Clone, Copy, PartialEq, Eq, Structural)]
pub struct TrackedMessage {
    pub task_id: TaskId,
    pub message_id: MessageId,
    pub chat_id: ChatId,
}

/// The place of a message: its conversation and its number there.
pub open spec fn places(messages: Seq<TrackedMessage>) -> Seq<(ChatId, MessageId)> {
    messages.map_values(|message: TrackedMessage| (message.chat_id, message.message_id))
}

impl TrackedMessage {
    /// Records that the message `message_id` of conversation `chat_id`
    /// belongs to `task_id`. A message without a conversation cannot be
    /// recorded.
    pub fn try_from(task_id: TaskId, message_id: MessageId, chat_id: Option<ChatId>) -> (entry:
        Result<TrackedMessage, String>)
        ensures
            match entry {
                Ok(entry) => chat_id == Some(entry.chat_id) && entry.task_id == task_id
                    && entry.message_id == message_id,
                Err(reason) => chat_id is None && reason@ == "Message has no chat_id"@,
            },
    {
        match chat_id {
            Some(chat_id) => Ok(TrackedMessage { task_id, message_id, chat_id }),
            None => Err("Message has no chat_id".to_owned()),
        }
    }

    /// The messages to delete from the chat when `messages` are the ledger
    /// entries of a task: each entry's place, in order.
    pub fn deletions(messages: &Vec<TrackedMessage>) -> (targets: Vec<(ChatId, MessageId)>)
        ensures
            targets@ == places(messages@),
    {
        let mut targets: Vec<(ChatId, MessageId)> = Vec::new();
        let mut i: usize = 0;
        while i < messages.len()
            invariant
                i <= messages.len(),
                targets@ == places(messages@.take(i as int)),
            decreases messages.len() - i,
        {
            targets.push((messages[i].chat_id, messages[i].message_id));
            assert(messages@.take(i as int + 1) =~= messages@.take(i as int).push(
                messages@[i as int],
            ));
            assert(targets@ =~= places(messages@.take(i as int + 1)));
            i += 1;
        }
        assert(messages@.take(messages.len() as int) =~= messages@);
        targets
    }
}

impl HasTaskId for TrackedMessage {
    open spec fn owner(&self) -> TaskId {
        self.task_id
    }

    fn task_id(&self) -> (id: TaskId) {
        self.task_id
    }
}

impl HasChatId for TrackedMessage {
    open spec fn conversation(&self) -> ChatId {
        self.chat_id
    }

    fn chat_id(&self) -> (id: ChatId) {
        self.chat_id
    }
}

impl DbRecord for TrackedMessage {
    open spec fn kind() -> Seq<char> {
        "TrackedMessage"@
    }

    open spec fn stored_as() -> Layout {
        Layout::Flat
    }

    fn record_name() -> (name: &'static str) {
        "TrackedMessage"
    }

    fn layout() -> (layout: Layout) {
        Layout::Flat
    }
}

} // verus!
