//! The dispatcher's decisions: which tasks an inbound event concerns and what
//! becomes of them. Sending, storing and waiting are the caller's part.

use crate::cancellation::CancellationRegistry;
use crate::ident::TaskId;
use crate::mediatype::MediaType;
use crate::state::{Phase, TaskModel, TaskState, TransitionError};
use crate::traits::HasTaskId;
use tokio_util::sync::CancellationToken;
use vstd::prelude::*;
use vstd::string::StringExecFns;

verus! {

/// What parsing an address gives: the address in its normal form, or the
/// parser's complaint. The grammar is the `url` crate's.
pub uninterp spec fn parsed_url(raw: Seq<char>) -> Result<Seq<char>, Seq<char>>;

/// `url::Url::parse`, with the address handed back as the text that the
/// parser normalised it to and a failure as the parser's own wording.
#[verifier::external_body]
fn parse_url(raw: &str) -> (parsed: Result<String, String>)
    ensures
        match parsed {
            Ok(url) => parsed_url(raw@) == Ok::<Seq<char>, Seq<char>>(url@),
            Err(complaint) => parsed_url(raw@) == Err::<Seq<char>, Seq<char>>(complaint@),
        },
{
    match url::Url::parse(raw) {
        Ok(url) => Ok(String::from(url)),
        Err(complaint) => Err(complaint.to_string()),
    }
}

/// The prompt above the media keyboard.
pub const KEYBOARD_PROMPT: &'static str = "Select content type:";

/// The media keyboard: its rows of buttons, each button by its caption,
/// which is also the payload that a press on it carries.
pub open spec fn keyboard_rows() -> Seq<Seq<Seq<char>>> {
    seq![seq!["Audio"@, "Video"@], seq!["Audio as voice message"@]]
}

/// The rows of the media keyboard. Every button's payload names a media
/// kind.
pub fn make_keyboard() -> (rows: Vec<Vec<String>>)
    ensures
        rows@.len() == keyboard_rows().len(),
        forall|r: int|
            0 <= r < rows@.len() ==> crate::text::texts((#[trigger] rows@[r])@) == keyboard_rows()[r],
        forall|r: int, b: int|
            0 <= r < rows@.len() && 0 <= b < rows@[r]@.len() ==> MediaType::of_callback_data(
                (#[trigger] rows@[r]@[b])@,
            ) is Some,
{
    let first = vec!["Audio".to_owned(), "Video".to_owned()];
    let second = vec!["Audio as voice message".to_owned()];
    assert(crate::text::texts(first@) =~= keyboard_rows()[0]);
    assert(crate::text::texts(second@) =~= keyboard_rows()[1]);
    vec![first, second]
}

/// The records as the contracts read them.
pub open spec fn models(states: Seq<TaskState>) -> Seq<TaskModel> {
    states.map_values(|state: TaskState| state@)
}

/// The records of `records` that are in stage `phase`, in their order.
pub open spec fn in_phase(records: Seq<TaskModel>, phase: Phase) -> Seq<TaskModel> {
    records.filter(|record: TaskModel| record.phase == phase)
}

/// A record that `/clear` removes: one that never ran, or one that failed.
pub open spec fn is_clearable(record: TaskModel) -> bool {
    record.phase == Phase::New || record.phase == Phase::WaitingForUrl || record.phase
        == Phase::Failure
}

/// The reply to an address that does not parse.
pub open spec fn invalid_url_text(complaint: Seq<char>) -> Seq<char> {
    "Invalid URL: "@ + complaint + ". Please try again"@
}

/// The prompt shown once the media kind is chosen.
pub open spec fn selected_text(media_type: MediaType) -> Seq<char> {
    "Selected "@ + media_type.label() + ". Please send the content URL."@
}

/// The records of `states` that are in stage `phase`, in their order.
pub fn select_phase(states: &Vec<TaskState>, phase: Phase) -> (chosen: Vec<TaskState>)
    ensures
        models(chosen@) == in_phase(models(states@), phase),
{
    let mut chosen: Vec<TaskState> = Vec::new();
    let mut i: usize = 0;
    assert(models(states@.take(0)) =~= Seq::<TaskModel>::empty());
    assert(models(chosen@) =~= Seq::<TaskModel>::empty());
    proof {
        reveal(Seq::filter);
    }
    while i < states.len()
        invariant
            i <= states.len(),
            models(chosen@) == in_phase(models(states@.take(i as int)), phase),
        decreases states.len() - i,
    {
        let ghost before = models(states@.take(i as int));
        let ghost kept = chosen@;
        proof {
            assert(states@.take(i as int + 1) =~= states@.take(i as int).push(states@[i as int]));
            assert(models(states@.take(i as int + 1)) =~= before.push(states@[i as int]@));
            Seq::lemma_filter_push(
                before,
                states@[i as int]@,
                |record: TaskModel| record.phase == phase,
            );
        }
        if states[i].phase() == phase {
            chosen.push(states[i].duplicate());
            assert(models(chosen@) =~= models(kept).push(states@[i as int]@));
        }
        i += 1;
    }
    assert(states@.take(states.len() as int) =~= states@);
    chosen
}

/// The records that `/clear` removes, in their order: those that are `New`,
/// `WaitingForUrl` or `Failure`.
pub fn clearable_tasks(states: &Vec<TaskState>) -> (chosen: Vec<TaskState>)
    ensures
        models(chosen@) == models(states@).filter(|record: TaskModel| is_clearable(record)),
{
    let mut chosen: Vec<TaskState> = Vec::new();
    let mut i: usize = 0;
    assert(models(states@.take(0)) =~= Seq::<TaskModel>::empty());
    assert(models(chosen@) =~= Seq::<TaskModel>::empty());
    proof {
        reveal(Seq::filter);
    }
    while i < states.len()
        invariant
            i <= states.len(),
            models(chosen@) == models(states@.take(i as int)).filter(
                |record: TaskModel| is_clearable(record),
            ),
        decreases states.len() - i,
    {
        let ghost before = models(states@.take(i as int));
        let ghost kept = chosen@;
        proof {
            assert(states@.take(i as int + 1) =~= states@.take(i as int).push(states@[i as int]));
            assert(models(states@.take(i as int + 1)) =~= before.push(states@[i as int]@));
            Seq::lemma_filter_push(
                before,
                states@[i as int]@,
                |record: TaskModel| is_clearable(record),
            );
        }
        let phase = states[i].phase();
        if phase == Phase::New || phase == Phase::WaitingForUrl || phase == Phase::Failure {
            chosen.push(states[i].duplicate());
            assert(models(chosen@) =~= models(kept).push(states@[i as int]@));
        }
        i += 1;
    }
    assert(states@.take(states.len() as int) =~= states@);
    chosen
}

/// The identities of the tasks that `records` speak of.
pub open spec fn task_ids(records: Seq<TaskModel>) -> Set<TaskId> {
    records.map_values(|record: TaskModel| record.task_id).to_set()
}

/// What one more record adds to the identities spoken of.
proof fn lemma_task_ids_push(records: Seq<TaskModel>, record: TaskModel)
    ensures
        task_ids(records.push(record)) == task_ids(records).insert(record.task_id),
{
    let id_of = |record: TaskModel| record.task_id;
    assert(records.push(record).map_values(id_of) =~= records.map_values(id_of).push(
        record.task_id,
    ));
    records.map_values(id_of).lemma_push_to_set_commute(record.task_id);
}

/// `/stop`: signals and drops the handle of every `Running` record among
/// `states`. Handles of other tasks stay; a running record whose handle is
/// already gone is passed over.
pub fn stop_tasks(states: &Vec<TaskState>, registry: &mut CancellationRegistry)
    ensures
        final(registry).handles() == old(registry).handles().remove_keys(
            task_ids(in_phase(models(states@), Phase::Running)),
        ),
{
    let running = select_phase(states, Phase::Running);
    let mut i: usize = 0;
    assert(models(running@.take(0)) =~= Seq::<TaskModel>::empty());
    assert(task_ids(Seq::<TaskModel>::empty()) =~= Set::<TaskId>::empty());
    assert(registry.handles() =~= old(registry).handles().remove_keys(Set::<TaskId>::empty()));
    while i < running.len()
        invariant
            i <= running.len(),
            registry.handles() == old(registry).handles().remove_keys(
                task_ids(models(running@.take(i as int))),
            ),
        decreases running.len() - i,
    {
        let ghost done = models(running@.take(i as int));
        proof {
            assert(running@.take(i as int + 1) =~= running@.take(i as int).push(
                running@[i as int],
            ));
            assert(models(running@.take(i as int + 1)) =~= done.push(running@[i as int]@));
            lemma_task_ids_push(done, running@[i as int]@);
        }
        registry.cancel_task(running[i].task_id());
        assert(registry.handles() =~= old(registry).handles().remove_keys(
            task_ids(done).insert(running@[i as int]@.task_id),
        ));
        i += 1;
    }
    assert(running@.take(running.len() as int) =~= running@);
}

/// Each record of `records`, ended in `Failure`.
pub open spec fn all_failed(records: Seq<TaskModel>) -> Seq<TaskModel> {
    records.map_values(|record: TaskModel| record.finished(Phase::Failure))
}

/// The closing records of orphans: each running record of `records`, failed.
pub open spec fn failed_orphans(records: Seq<TaskModel>) -> Seq<TaskModel> {
    all_failed(in_phase(records, Phase::Running))
}

/// Recovery at start-up: no task can still be running, so every `Running`
/// record among `states` is moved to `Failure`. Returns the failed records,
/// in their order, for the caller to store in place of the running ones; any
/// handle registered for them is dropped.
pub fn recover_orphans(states: &Vec<TaskState>, registry: &mut CancellationRegistry) -> (failed:
    Vec<TaskState>)
    requires
        forall|i: int| 0 <= i < states.len() ==> (#[trigger] states[i]).wf(),
    ensures
        models(failed@) == failed_orphans(models(states@)),
        final(registry).handles() == old(registry).handles().remove_keys(
            task_ids(in_phase(models(states@), Phase::Running)),
        ),
{
    let mut running = select_phase(states, Phase::Running);
    let ghost orphans = models(running@);
    proof {
        assert forall|k: int| 0 <= k < orphans.len() implies (#[trigger] orphans[k]).phase
            == Phase::Running && orphans[k].wf() by {
            let keep = |record: TaskModel| record.phase == Phase::Running;
            models(states@).lemma_filter_pred(keep, k);
            models(states@).lemma_filter_contains_rev(keep, orphans[k]);
            let j = choose|j: int| 0 <= j < models(states@).len() && models(states@)[j] == orphans[k];
            assert(states[j].wf());
        }
    }
    let mut failed: Vec<TaskState> = Vec::new();
    let mut i: usize = 0;
    assert(models(failed@) =~= all_failed(orphans.take(0)));
    assert(task_ids(Seq::<TaskModel>::empty()) =~= Set::<TaskId>::empty());
    assert(orphans.take(0) =~= Seq::<TaskModel>::empty());
    assert(registry.handles() =~= old(registry).handles().remove_keys(Set::<TaskId>::empty()));
    while i < running.len()
        invariant
            i <= running.len(),
            models(running@) == orphans,
            forall|k: int|
                0 <= k < orphans.len() ==> (#[trigger] orphans[k]).phase == Phase::Running
                    && orphans[k].wf(),
            models(failed@) == all_failed(orphans.take(i as int)),
            registry.handles() == old(registry).handles().remove_keys(
                task_ids(orphans.take(i as int)),
            ),
        decreases running.len() - i,
    {
        let ghost done = orphans.take(i as int);
        let ghost kept = failed@;
        let mut state = running[i].duplicate();
        proof {
            assert(state@ == orphans[i as int]);
            assert(orphans.take(i as int + 1) =~= done.push(orphans[i as int]));
            lemma_task_ids_push(done, orphans[i as int]);
        }
        let closed = state.to_failure(registry);
        assert(closed is Ok);
        failed.push(state);
        assert(models(failed@) =~= models(kept).push(orphans[i as int].finished(Phase::Failure)));
        assert(models(failed@) =~= all_failed(orphans.take(i as int + 1)));
        assert(registry.handles() =~= old(registry).handles().remove_keys(
            task_ids(done).insert(orphans[i as int].task_id),
        ));
        i += 1;
    }
    assert(orphans.take(orphans.len() as int) =~= orphans);
    failed
}

/// What a press on the media keyboard leads to.
#[derive(Debug)]
pub enum Selection {
    /// The press carried no payload: nothing is done.
    Ignored,
    /// The payload names no media kind: the press is answered as invalid.
    Invalid,
    /// The conversation has no `New` task that the choice could belong to.
    NoTask,
    /// The first `New` task, moved to `WaitingForUrl`, and the prompt to show.
    Chosen { state: TaskState, text: String },
}

/// The decision on a keyboard press with payload `data` in a conversation
/// whose stored records are `states`.
pub fn choose_media(states: &Vec<TaskState>, data: Option<&str>) -> (selection: Selection)
    ensures
        match data {
            None => selection is Ignored,
            Some(payload) => match MediaType::of_callback_data(payload@) {
                None => selection is Invalid,
                Some(media_type) => if in_phase(models(states@), Phase::New).len() == 0 {
                    selection is NoTask
                } else {
                    &&& selection is Chosen
                    &&& selection->state@ == in_phase(models(states@), Phase::New)[0].with_media(
                        media_type,
                    )
                    &&& selection->text@ == selected_text(media_type)
                },
            },
        },
{
    let payload = match data {
        Some(payload) => payload,
        None => {
            return Selection::Ignored;
        },
    };
    let media_type = match MediaType::from_callback_data(payload) {
        Some(media_type) => media_type,
        None => {
            return Selection::Invalid;
        },
    };
    let fresh = select_phase(states, Phase::New);
    if fresh.len() == 0 {
        return Selection::NoTask;
    }
    proof {
        models(states@).lemma_filter_pred(|record: TaskModel| record.phase == Phase::New, 0);
    }
    let mut state = fresh[0].duplicate();
    let moved = state.to_waiting_for_url(media_type);
    assert(moved is Ok);
    let text = "Selected ".to_owned().concat(media_type.to_string().as_str()).concat(
        ". Please send the content URL.",
    );
    Selection::Chosen { state, text }
}

/// Where a plain text message belongs.
#[derive(Debug)]
pub enum TextRoute {
    /// No task of the conversation waits for an address. The message is kept
    /// on record under a task of its own unless it carries audio.
    Stray { track: bool },
    /// The message is the address that the first waiting task asked
    /// for.
    Address { state: TaskState },
}

/// The decision on a text message that is no command, in a conversation
/// whose stored records are `states`.
pub fn route_text(states: &Vec<TaskState>, has_audio: bool) -> (route: TextRoute)
    ensures
        if in_phase(models(states@), Phase::WaitingForUrl).len() == 0 {
            route is Stray && route->track == !has_audio
        } else {
            route is Address && route->state@ == in_phase(models(states@), Phase::WaitingForUrl)[0]
        },
{
    let waiting = select_phase(states, Phase::WaitingForUrl);
    if waiting.len() == 0 {
        TextRoute::Stray { track: !has_audio }
    } else {
        TextRoute::Address { state: waiting[0].duplicate() }
    }
}

/// Why an address was not taken.
#[derive(Debug)]
pub enum Rejection {
    /// The text is no address; the sentence is the reply for the user.
    InvalidUrl(String),
    /// The task is in no stage to take an address.
    Refused(TransitionError),
}

/// What `accept_url` makes of a task and the registry, given what parsing
/// the user's text gave.
pub open spec fn url_outcome(
    before: TaskModel,
    handles_before: Map<TaskId, CancellationToken>,
    parsed: Result<Seq<char>, Seq<char>>,
    token: CancellationToken,
    after: TaskModel,
    handles_after: Map<TaskId, CancellationToken>,
    done: Result<(), Rejection>,
) -> bool {
    match parsed {
        Ok(url) => if before.phase == Phase::WaitingForUrl {
            &&& done is Ok
            &&& after == before.started(url)
            &&& handles_after == handles_before.insert(before.task_id, token)
        } else {
            &&& done matches Err(Rejection::Refused(reason))
            &&& reason == TransitionError::NotWaitingForUrl
            &&& after == before
            &&& handles_after == handles_before
        },
        Err(complaint) => {
            &&& done matches Err(Rejection::InvalidUrl(reply))
            &&& reply@ == invalid_url_text(complaint)
            &&& after == before
            &&& handles_after == handles_before
        },
    }
}

/// Acts on a parsed address. A valid one starts a waiting task: it becomes
/// `Running` and `cancellation_token` is registered for it. An invalid one
/// changes nothing, so that the user can try again, and yields the reply to
/// send.
pub fn accept_url(
    state: &mut TaskState,
    parsed: Result<String, String>,
    registry: &mut CancellationRegistry,
    cancellation_token: CancellationToken,
) -> (done: Result<(), Rejection>)
    ensures
        url_outcome(
            old(state)@,
            old(registry).handles(),
            match parsed {
                Ok(url) => Ok(url@),
                Err(complaint) => Err(complaint@),
            },
            cancellation_token,
            final(state)@,
            final(registry).handles(),
            done,
        ),
        done is Err ==> *final(state) == *old(state),
{
    match parsed {
        Ok(url) => match state.to_running(url, registry, cancellation_token) {
            Ok(()) => Ok(()),
            Err(reason) => Err(Rejection::Refused(reason)),
        },
        Err(complaint) => {
            let reply = "Invalid URL: ".to_owned().concat(complaint.as_str()).concat(
                ". Please try again",
            );
            Err(Rejection::InvalidUrl(reply))
        },
    }
}

/// Takes the user's text as the address of a waiting task: parses it and
/// acts as `accept_url` does on the result.
pub fn submit_url(
    state: &mut TaskState,
    raw_url: &str,
    registry: &mut CancellationRegistry,
    cancellation_token: CancellationToken,
) -> (done: Result<(), Rejection>)
    ensures
        url_outcome(
            old(state)@,
            old(registry).handles(),
            parsed_url(raw_url@),
            cancellation_token,
            final(state)@,
            final(registry).handles(),
            done,
        ),
        done is Err ==> *final(state) == *old(state),
{
    accept_url(state, parse_url(raw_url), registry, cancellation_token)
}

/// Ends a running task by how its request went: `Success` where everything
/// was delivered, `Failure` otherwise.
pub fn conclude(state: &mut TaskState, delivered: bool, registry: &mut CancellationRegistry) -> (done:
    Result<(), TransitionError>)
    ensures
        done is Ok <==> old(state)@.phase == Phase::Running && old(state)@.url is Some,
        done is Ok ==> final(state)@ == old(state)@.finished(
            if delivered {
                Phase::Success
            } else {
                Phase::Failure
            },
        ),
        done is Ok ==> final(registry).handles() == old(registry).handles().remove(
            old(state)@.task_id,
        ),
        done is Err ==> *final(state) == *old(state),
        done is Err ==> final(registry).handles() == old(registry).handles(),
        done is Err ==> done->Err_0 == (if old(state)@.phase == Phase::Running {
            TransitionError::MissingUrl
        } else {
            TransitionError::NotRunning
        }),
{
    if delivered {
        state.to_success(registry)
    } else {
        state.to_failure(registry)
    }
}

} // verus!
