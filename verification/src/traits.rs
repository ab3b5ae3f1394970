//! What every task-scoped record can tell about itself.

use crate::ident::{ChatId, TaskId};
use vstd::prelude::*;

verus! {

/// A record that belongs to one task.
pub trait HasTaskId {
    /// The task this record belongs to.
    spec fn owner(&self) -> TaskId;

    fn task_id(&self) -> (id: TaskId)
        ensures
            id == self.owner(),
    ;
}

/// A record that belongs to one conversation.
pub trait HasChatId {
    /// The conversation this record belongs to.
    spec fn conversation(&self) -> ChatId;

    fn chat_id(&self) -> (id: ChatId)
        ensures
            id == self.conversation(),
    ;
}

/// A task record: it names its task and its conversation.
pub trait Task: HasTaskId + HasChatId {

}

} // verus!
