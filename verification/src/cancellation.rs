//! The registry of cancellation handles of the tasks that are running.

use crate::ident::TaskId;
use std::collections::HashMap;
use tokio_util::sync::CancellationToken;
use vstd::prelude::*;

verus! {

broadcast use vstd::std_specs::hash::group_hash_axioms;

/// `tokio_util::sync::CancellationToken`: a handle on which a task's download
/// can be told to stop. Its state lives outside the library's model; values
/// of it are only carried and compared.
#[verifier::external_type_specification]
#[verifier::external_body]
pub struct ExCancellationToken(CancellationToken);

/// `CancellationToken::clone`: the copy is the same token as the one it was made of;
/// cancelling either cancels both.
pub assume_specification[ <CancellationToken as Clone>::clone ](token: &CancellationToken) -> (copy:
    CancellationToken)
    ensures
        copy == *token,
;

/// `CancellationToken::cancel`: signals the token. The signal itself is not
/// part of this library's model.
pub assume_specification[ CancellationToken::cancel ](token: &CancellationToken)
;

/// Maps the identity of each running task to its cancellation handle.
pub struct CancellationRegistry {
    tasks: HashMap<u128, CancellationToken>,
}

impl CancellationRegistry {
    /// The handles that are registered, by task identity.
    pub closed spec fn handles(&self) -> Map<TaskId, CancellationToken> {
        Map::new(
            |id: TaskId| self.tasks@.contains_key(id.uuid),
            |id: TaskId| self.tasks@[id.uuid],
        )
    }

    /// Whether a handle is registered for `task_id`.
    pub open spec fn is_registered(&self, task_id: TaskId) -> bool {
        self.handles().contains_key(task_id)
    }

    /// An empty registry.
    pub fn new() -> (registry: CancellationRegistry)
        ensures
            registry.handles() == Map::<TaskId, CancellationToken>::empty(),
    {
        let registry = CancellationRegistry { tasks: HashMap::new() };
        assert(registry.handles() =~= Map::<TaskId, CancellationToken>::empty());
        registry
    }

    /// Registers `token` for `task_id`, in place of any handle that was there.
    pub fn register_task(&mut self, task_id: TaskId, token: CancellationToken)
        ensures
            final(self).handles() == old(self).handles().insert(task_id, token),
    {
        self.tasks.insert(task_id.uuid, token);
        assert(self.handles() =~= old(self).handles().insert(task_id, token));
    }

    /// Removes the handle of `task_id` and signals it. Returns whether there
    /// was one; where there was none, nothing changes.
    pub fn cancel_task(&mut self, task_id: TaskId) -> (found: bool)
        ensures
            found == old(self).is_registered(task_id),
            final(self).handles() == old(self).handles().remove(task_id),
            !found ==> final(self).handles() == old(self).handles(),
    {
        let removed = self.tasks.remove(&task_id.uuid);
        assert(self.handles() =~= old(self).handles().remove(task_id));
        match removed {
            Some(token) => {
                token.cancel();
                true
            },
            None => {
                assert(old(self).handles().remove(task_id) =~= old(self).handles());
                false
            },
        }
    }

    /// The handle registered for `task_id`, if there is one.
    pub fn get_token(&self, task_id: TaskId) -> (token: Option<CancellationToken>)
        ensures
            token == if self.is_registered(task_id) {
                Some(self.handles()[task_id])
            } else {
                None
            },
    {
        match self.tasks.get(&task_id.uuid) {
            Some(token) => Some(token.clone()),
            None => None,
        }
    }

    /// Forgets the handle of `task_id` without signalling it. Where there is
    /// none, nothing changes.
    pub fn remove_task(&mut self, task_id: TaskId)
        ensures
            final(self).handles() == old(self).handles().remove(task_id),
            !final(self).is_registered(task_id),
    {
        self.tasks.remove(&task_id.uuid);
        assert(self.handles() =~= old(self).handles().remove(task_id));
    }
}

} // verus!
