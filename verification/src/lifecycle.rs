//! What holds of every task over its whole life: the order of its stored
//! records, and when its cancellation handle is registered.

use crate::ident::TaskId;
use crate::state::{Phase, TaskModel};
use tokio_util::sync::CancellationToken;
use vstd::prelude::*;

verus! {

/// The records stored for one task, oldest first: the first is `New`, and
/// each later one is what a transition made of the one before it.
pub open spec fn is_history(records: Seq<TaskModel>) -> bool {
    &&& records.len() > 0
    &&& records[0].phase == Phase::New
    &&& forall|i: int|
        0 <= i < records.len() - 1 ==> (#[trigger] records[i]).advances_to(records[i + 1])
}

/// The stages that a sequence of records went through.
pub open spec fn phases(records: Seq<TaskModel>) -> Seq<Phase> {
    Seq::new(records.len(), |i: int| records[i].phase)
}

/// The stored records of a task run through the stages in order and never
/// branch: the stages are `New`; or `New, WaitingForUrl`; or
/// `New, WaitingForUrl, Running`; or these three followed by `Success`; or
/// these three followed by `Failure`. All records name the same task and
/// conversation.
pub proof fn history_is_linear(records: Seq<TaskModel>)
    requires
        is_history(records),
    ensures
        phases(records) == seq![Phase::New] || phases(records) == seq![
            Phase::New,
            Phase::WaitingForUrl,
        ] || phases(records) == seq![Phase::New, Phase::WaitingForUrl, Phase::Running]
            || phases(records) == seq![
            Phase::New,
            Phase::WaitingForUrl,
            Phase::Running,
            Phase::Success,
        ] || phases(records) == seq![
            Phase::New,
            Phase::WaitingForUrl,
            Phase::Running,
            Phase::Failure,
        ],
        forall|i: int|
            0 <= i < records.len() ==> (#[trigger] records[i]).task_id == records[0].task_id
                && records[i].chat_id == records[0].chat_id,
{
    let stages = phases(records);
    if records.len() >= 2 {
        assert(records[0].advances_to(records[1]));
    }
    if records.len() >= 3 {
        assert(records[1].advances_to(records[2]));
    }
    if records.len() >= 4 {
        assert(records[2].advances_to(records[3]));
    }
    if records.len() >= 5 {
        assert(records[3].advances_to(records[4]));
        assert(false);
    }
    if records.len() == 1 {
        assert(stages =~= seq![Phase::New]);
    } else if records.len() == 2 {
        assert(stages =~= seq![Phase::New, Phase::WaitingForUrl]);
    } else if records.len() == 3 {
        assert(stages =~= seq![Phase::New, Phase::WaitingForUrl, Phase::Running]);
    } else if records[3].phase == Phase::Success {
        assert(stages =~= seq![
            Phase::New,
            Phase::WaitingForUrl,
            Phase::Running,
            Phase::Success,
        ]);
    } else {
        assert(stages =~= seq![
            Phase::New,
            Phase::WaitingForUrl,
            Phase::Running,
            Phase::Failure,
        ]);
    }
}

/// Every record of a history is well formed: the media kind is known from
/// `WaitingForUrl` on and the address from `Running` on.
pub proof fn history_is_well_formed(records: Seq<TaskModel>)
    requires
        is_history(records),
        records[0].wf(),
    ensures
        forall|i: int| 0 <= i < records.len() ==> (#[trigger] records[i]).wf(),
{
    history_is_linear(records);
    if records.len() >= 2 {
        assert(records[0].advances_to(records[1]));
    }
    if records.len() >= 3 {
        assert(records[1].advances_to(records[2]));
    }
    if records.len() >= 4 {
        assert(records[2].advances_to(records[3]));
    }
    assert(phases(records).len() == records.len());
}

/// One moment in the life of a task: its record, and the handles that the
/// registry holds at that moment.
pub struct Moment {
    pub task: TaskModel,
    pub handles: Map<TaskId, CancellationToken>,
}

/// What one operation makes of a moment: a transition of the task, with its
/// effect on the registry, or the cancellation of the task, which takes its
/// handle away and leaves the record as it is.
pub open spec fn follows(before: Moment, after: Moment) -> bool {
    let id = before.task.task_id;
    ||| before.task.phase == Phase::New && before.task.advances_to(after.task) && after.handles
        == before.handles
    ||| before.task.phase == Phase::WaitingForUrl && before.task.advances_to(after.task)
        && exists|token: CancellationToken| after.handles == before.handles.insert(id, token)
    ||| before.task.phase == Phase::Running && before.task.advances_to(after.task)
        && after.handles == before.handles.remove(id)
    ||| after.task == before.task && after.handles == before.handles.remove(id)
}

/// The moments of one task, oldest first: it starts `New` with no handle
/// registered, and each later moment follows from the one before it.
pub open spec fn is_trace(moments: Seq<Moment>) -> bool {
    &&& moments.len() > 0
    &&& moments[0].task.phase == Phase::New
    &&& !moments[0].handles.contains_key(moments[0].task.task_id)
    &&& forall|i: int| 0 <= i < moments.len() - 1 ==> follows(#[trigger] moments[i], moments[i + 1])
}

/// A task's cancellation handle is registered only while the task is
/// `Running`: at no moment before it runs, and at no moment after it has
/// ended in `Success` or `Failure`.
pub proof fn handle_only_while_running(moments: Seq<Moment>, at: int)
    requires
        is_trace(moments),
        0 <= at < moments.len(),
    ensures
        moments[at].task.task_id == moments[0].task.task_id,
        moments[at].handles.contains_key(moments[at].task.task_id) ==> moments[at].task.phase
            == Phase::Running,
    decreases at,
{
    if at > 0 {
        handle_only_while_running(moments, at - 1);
        assert(follows(moments[at - 1], moments[at]));
    }
}

} // verus!
