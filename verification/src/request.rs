//! One request from the first reply to the closing of the task, as a machine
//! that answers each event with the steps to take next. The caller carries
//! the steps out, in order, and comes back with what happened.

use crate::delivery::{abandon_text, after_attempt, attempt_report, DeliveryStep, COOLDOWN_SECS, MAX_RETRIES};
use crate::download::{
    construct_destination_path, destination_path, generate_yt_dlp_args, yt_dlp_args, DownloadError,
    DownloadErrorModel, Harvest, HarvestModel, Rename,
};
use crate::ident::{hyphenated, TaskId};
use crate::mediatype::MediaType;
use crate::text::texts;
use vstd::prelude::*;

verus! {

/// One step for the caller to carry out.
#[derive(Debug)]
pub enum Effect {
    /// Send this text to the conversation and keep the message on record.
    Tell(String),
    /// Start the progress poller on the message just sent.
    StartPoller,
    /// Empty the working directory, creating it where it is missing.
    ResetFolder(String),
    /// Run the downloader in `folder` with `args`, under the task's
    /// cancellation signal, and come back with how it ended.
    RunDownloader { folder: String, args: Vec<String> },
    /// Signal the progress poller to stop.
    StopPoller,
    /// Move a file.
    Rename { from: String, to: String },
    /// Offer this file to the transport, as the kind of media it is, and come
    /// back with the answer.
    Send { path: String, media_type: MediaType },
    /// Wait this many seconds.
    Cooldown(u32),
    /// Delete the working directory with all it holds.
    RemoveFolder(String),
    /// Delete every message on record for the task from the conversation.
    PurgeMessages,
    /// Close the task: `Success` where `delivered`, `Failure` otherwise.
    Conclude { delivered: bool },
}

/// A step as the contracts read it.
pub enum EffectModel {
    Tell(Seq<char>),
    StartPoller,
    ResetFolder(Seq<char>),
    RunDownloader { folder: Seq<char>, args: Seq<Seq<char>> },
    StopPoller,
    Rename { from: Seq<char>, to: Seq<char> },
    Send { path: Seq<char>, media_type: MediaType },
    Cooldown(u32),
    RemoveFolder(Seq<char>),
    PurgeMessages,
    Conclude { delivered: bool },
}

impl View for Effect {
    type V = EffectModel;

    open spec fn view(&self) -> EffectModel {
        match self {
            Effect::Tell(text) => EffectModel::Tell(text@),
            Effect::StartPoller => EffectModel::StartPoller,
            Effect::ResetFolder(folder) => EffectModel::ResetFolder(folder@),
            Effect::RunDownloader { folder, args } => EffectModel::RunDownloader {
                folder: folder@,
                args: texts(args@),
            },
            Effect::StopPoller => EffectModel::StopPoller,
            Effect::Rename { from, to } => EffectModel::Rename { from: from@, to: to@ },
            Effect::Send { path, media_type } => EffectModel::Send {
                path: path@,
                media_type: *media_type,
            },
            Effect::Cooldown(secs) => EffectModel::Cooldown(*secs),
            Effect::RemoveFolder(folder) => EffectModel::RemoveFolder(folder@),
            Effect::PurgeMessages => EffectModel::PurgeMessages,
            Effect::Conclude { delivered } => EffectModel::Conclude { delivered: *delivered },
        }
    }
}

/// The steps as the contracts read them.
pub open spec fn steps(effects: Seq<Effect>) -> Seq<EffectModel> {
    effects.map_values(|effect: Effect| effect@)
}

/// How far a request has come.
#[derive(Debug, Clone, Copy, PartialEq, Eq, Structural)]
pub enum Stage {
    /// The downloader runs.
    Downloading,
    /// File number `index` is on offer, for the `attempt`-th time.
    Delivering { index: usize, attempt: u32 },
    /// The request has ended and the task is closed.
    Finished,
}

/// The transport's answer to an offered file.
#[derive(Debug)]
pub enum Attempt {
    /// The file went out.
    Sent,
    /// The transport refused; this is its complaint.
    Refused(String),
    /// The file could not be made ready to send, a video's thumbnail for
    /// instance; this is why.
    Unprepared(String),
}

/// What happened since the last steps were handed out.
#[derive(Debug)]
pub enum Event {
    /// The downloader's run was summed up.
    DownloadEnded(Result<Harvest, DownloadError>),
    /// The file on offer was answered.
    Attempted(Attempt),
}

/// An event as the contracts read it.
pub enum EventModel {
    Harvested(HarvestModel),
    DownloadFailed(DownloadErrorModel),
    Sent,
    Refused(Seq<char>),
    Unprepared(Seq<char>),
}

impl View for Event {
    type V = EventModel;

    open spec fn view(&self) -> EventModel {
        match self {
            Event::DownloadEnded(Ok(harvest)) => EventModel::Harvested(harvest@),
            Event::DownloadEnded(Err(error)) => EventModel::DownloadFailed(error@),
            Event::Attempted(Attempt::Sent) => EventModel::Sent,
            Event::Attempted(Attempt::Refused(complaint)) => EventModel::Refused(complaint@),
            Event::Attempted(Attempt::Unprepared(reason)) => EventModel::Unprepared(reason@),
        }
    }
}

/// A request in flight.
pub struct RequestFlow {
    media_type: MediaType,
    folder: String,
    paths: Vec<String>,
    stage: Stage,
}

/// A request as the contracts read it.
pub struct FlowModel {
    pub media_type: MediaType,
    pub folder: Seq<char>,
    pub paths: Seq<Seq<char>>,
    pub stage: Stage,
}

/// The first reply to a request.
pub open spec fn preparing_text() -> Seq<char> {
    "Preparing the download..."@
}

/// What is told where a run is summed up as a success without any file.
pub open spec fn nothing_to_send_text() -> Seq<char> {
    "No files to send."@
}

/// The moves of a harvest, as steps.
pub open spec fn rename_steps(renames: Seq<(Seq<char>, Seq<char>)>) -> Seq<EffectModel> {
    renames.map_values(
        |rename: (Seq<char>, Seq<char>)| EffectModel::Rename { from: rename.0, to: rename.1 },
    )
}

impl FlowModel {
    /// A request that delivers has a file on offer and attempts left.
    pub open spec fn wf(self) -> bool {
        match self.stage {
            Stage::Delivering { index, attempt } => index < self.paths.len() && 1 <= attempt
                <= MAX_RETRIES,
            _ => true,
        }
    }

    /// The request with its stage changed.
    pub open spec fn at(self, stage: Stage) -> FlowModel {
        FlowModel { media_type: self.media_type, folder: self.folder, paths: self.paths, stage }
    }

    /// The steps that end a request without success: the working directory
    /// goes at once, the user is told why, and the task is closed as failed.
    pub open spec fn giving_up(self, reason: Seq<char>) -> Seq<EffectModel> {
        seq![
            EffectModel::RemoveFolder(self.folder),
            EffectModel::Tell(reason),
            EffectModel::Conclude { delivered: false },
        ]
    }

    /// The step that offers file number `index`.
    pub open spec fn offer(self, index: int) -> EffectModel {
        EffectModel::Send { path: self.paths[index], media_type: self.media_type }
    }

    /// What the request becomes on `event`, and the steps to take, in order.
    ///
    /// While the downloader runs, only its end counts. A failed run stops
    /// the poller and gives up with the run's diagnostic; nothing is sent. A
    /// harvest stops the poller, makes its moves and offers its first file.
    /// While a file is on offer, only its answer counts. A file that went
    /// out is followed by the next one, and the last one by the removal of
    /// the working directory, the purge of the task's messages and the
    /// closing of the task as a success. A refusal is followed by the
    /// cooldown and then, while attempts are left, by a report to the user
    /// and the same file again; after the last attempt the request gives up.
    /// A file that cannot be made ready gives up at once. An event that does
    /// not fit the stage changes nothing and asks for nothing.
    pub open spec fn next(self, event: EventModel) -> (FlowModel, Seq<EffectModel>) {
        match (self.stage, event) {
            (Stage::Downloading, EventModel::DownloadFailed(error)) => (
                self.at(Stage::Finished),
                seq![EffectModel::StopPoller] + self.giving_up(error.text()),
            ),
            (Stage::Downloading, EventModel::Harvested(harvest)) => if harvest.paths.len() == 0 {
                (
                    self.at(Stage::Finished),
                    seq![EffectModel::StopPoller] + self.giving_up(nothing_to_send_text()),
                )
            } else {
                let delivering = FlowModel {
                    media_type: self.media_type,
                    folder: self.folder,
                    paths: harvest.paths,
                    stage: Stage::Delivering { index: 0, attempt: 1 },
                };
                (
                    delivering,
                    seq![EffectModel::StopPoller] + rename_steps(harvest.renames) + seq![
                        delivering.offer(0),
                    ],
                )
            },
            (Stage::Delivering { index, attempt }, EventModel::Sent) => if index + 1
                < self.paths.len() {
                (
                    self.at(Stage::Delivering { index: (index + 1) as usize, attempt: 1 }),
                    seq![self.offer(index + 1)],
                )
            } else {
                (
                    self.at(Stage::Finished),
                    seq![
                        EffectModel::RemoveFolder(self.folder),
                        EffectModel::PurgeMessages,
                        EffectModel::Conclude { delivered: true },
                    ],
                )
            },
            (Stage::Delivering { index, attempt }, EventModel::Refused(complaint)) => if attempt
                < MAX_RETRIES {
                (
                    self.at(Stage::Delivering { index, attempt: (attempt + 1) as u32 }),
                    seq![
                        EffectModel::Cooldown(COOLDOWN_SECS),
                        EffectModel::Tell(
                            attempt_report(attempt as nat, self.paths[index as int], complaint),
                        ),
                        self.offer(index as int),
                    ],
                )
            } else {
                (
                    self.at(Stage::Finished),
                    seq![EffectModel::Cooldown(COOLDOWN_SECS)] + self.giving_up(
                        abandon_text(self.paths[index as int]),
                    ),
                )
            },
            (Stage::Delivering { index, attempt }, EventModel::Unprepared(reason)) => (
                self.at(Stage::Finished),
                self.giving_up(reason),
            ),
            _ => (self, seq![]),
        }
    }
}

/// The steps that open the request of the task `task_id` for `media_type`
/// from `url`: the first reply, the poller on it, a clean working directory,
/// and the downloader.
pub open spec fn opening_steps(task_id: TaskId, media_type: MediaType, url: Seq<char>) -> Seq<
    EffectModel,
> {
    let folder = destination_path(hyphenated(task_id.uuid));
    seq![
        EffectModel::Tell(preparing_text()),
        EffectModel::StartPoller,
        EffectModel::ResetFolder(folder),
        EffectModel::RunDownloader { folder, args: yt_dlp_args(media_type, url) },
    ]
}

impl View for RequestFlow {
    type V = FlowModel;

    closed spec fn view(&self) -> FlowModel {
        FlowModel {
            media_type: self.media_type,
            folder: self.folder@,
            paths: texts(self.paths@),
            stage: self.stage,
        }
    }
}

impl RequestFlow {
    /// Opens the request of a running task.
    pub fn begin(task_id: TaskId, media_type: MediaType, url: String) -> (opened: (
        RequestFlow,
        Vec<Effect>,
    ))
        ensures
            opened.0@ == (FlowModel {
                media_type,
                folder: destination_path(hyphenated(task_id.uuid)),
                paths: Seq::<Seq<char>>::empty(),
                stage: Stage::Downloading,
            }),
            opened.0@.wf(),
            steps(opened.1@) == opening_steps(task_id, media_type, url@),
    {
        let folder = construct_destination_path(task_id.to_string());
        let args = generate_yt_dlp_args(media_type, url);
        let effects = vec![
            Effect::Tell("Preparing the download...".to_owned()),
            Effect::StartPoller,
            Effect::ResetFolder(folder.clone()),
            Effect::RunDownloader { folder: folder.clone(), args },
        ];
        let flow = RequestFlow { media_type, folder, paths: Vec::new(), stage: Stage::Downloading };
        assert(steps(effects@) =~= opening_steps(task_id, media_type, url@));
        assert(texts(flow.paths@) =~= Seq::<Seq<char>>::empty());
        (flow, effects)
    }

    /// How far the request has come.
    pub fn stage(&self) -> (stage: Stage)
        ensures
            stage == self@.stage,
    {
        self.stage
    }

    /// The working directory of the request.
    pub fn folder(&self) -> (folder: &str)
        ensures
            folder@ == self@.folder,
    {
        self.folder.as_str()
    }

    /// The steps that end the request without success.
    fn give_up(&mut self, mut effects: Vec<Effect>, reason: String) -> (all: Vec<Effect>)
        ensures
            final(self)@ == old(self)@.at(Stage::Finished),
            steps(all@) == steps(effects@) + old(self)@.giving_up(reason@),
    {
        let ghost before = steps(effects@);
        effects.push(Effect::RemoveFolder(self.folder.clone()));
        effects.push(Effect::Tell(reason));
        effects.push(Effect::Conclude { delivered: false });
        self.stage = Stage::Finished;
        assert(steps(effects@) =~= before + old(self)@.giving_up(reason@));
        effects
    }

    /// The step that offers file number `index`.
    fn offer(&self, index: usize) -> (effect: Effect)
        requires
            index < self@.paths.len(),
        ensures
            effect@ == self@.offer(index as int),
    {
        assert(texts(self.paths@)[index as int] == self.paths@[index as int]@);
        Effect::Send { path: self.paths[index].clone(), media_type: self.media_type }
    }

    /// Answers `event` with the steps to take next, in order, and moves the
    /// request on.
    pub fn step(&mut self, event: Event) -> (effects: Vec<Effect>)
        requires
            old(self)@.wf(),
        ensures
            final(self)@ == old(self)@.next(event@).0,
            steps(effects@) == old(self)@.next(event@).1,
            final(self)@.wf(),
    {
        let ghost before = self@;
        match (self.stage, event) {
            (Stage::Downloading, Event::DownloadEnded(Err(error))) => {
                let effects = vec![Effect::StopPoller];
                assert(steps(effects@) =~= seq![EffectModel::StopPoller]);
                let reason = error.to_string();
                self.give_up(effects, reason)
            },
            (Stage::Downloading, Event::DownloadEnded(Ok(harvest))) => {
                let mut effects = vec![Effect::StopPoller];
                assert(steps(effects@) =~= seq![EffectModel::StopPoller]);
                if harvest.downloads.paths.len() == 0 {
                    assert(texts(harvest.downloads.paths@).len() == 0);
                    return self.give_up(effects, "No files to send.".to_owned());
                }
                assert(texts(harvest.downloads.paths@).len() > 0);
                let ghost found = harvest@;
                let Harvest { downloads, renames, skipped: _ } = harvest;
                let mut i: usize = 0;
                assert(rename_steps(found.renames.take(0)) =~= Seq::<EffectModel>::empty());
                while i < renames.len()
                    invariant
                        i <= renames.len(),
                        crate::download::moves(renames@) == found.renames,
                        steps(effects@) == seq![EffectModel::StopPoller] + rename_steps(
                            found.renames.take(i as int),
                        ),
                    decreases renames.len() - i,
                {
                    let ghost had = steps(effects@);
                    effects.push(
                        Effect::Rename { from: renames[i].from.clone(), to: renames[i].to.clone() },
                    );
                    assert(found.renames.take(i as int + 1) =~= found.renames.take(i as int).push(
                        found.renames[i as int],
                    ));
                    assert(steps(effects@) =~= had.push(
                        EffectModel::Rename {
                            from: found.renames[i as int].0,
                            to: found.renames[i as int].1,
                        },
                    ));
                    assert(steps(effects@) =~= seq![EffectModel::StopPoller] + rename_steps(
                        found.renames.take(i as int + 1),
                    ));
                    i += 1;
                }
                assert(found.renames.take(renames.len() as int) =~= found.renames);
                self.paths = downloads.paths;
                self.stage = Stage::Delivering { index: 0, attempt: 1 };
                let ghost had = steps(effects@);
                effects.push(self.offer(0));
                assert(steps(effects@) =~= had + seq![self@.offer(0)]);
                effects
            },
            (Stage::Delivering { index, attempt }, Event::Attempted(Attempt::Sent)) => {
                let count = self.paths.len();
                assert(texts(self.paths@).len() == count);
                if index + 1 < count {
                    self.stage = Stage::Delivering { index: index + 1, attempt: 1 };
                    let effects = vec![self.offer(index + 1)];
                    assert(steps(effects@) =~= seq![before.offer(index + 1)]);
                    effects
                } else {
                    self.stage = Stage::Finished;
                    let effects = vec![
                        Effect::RemoveFolder(self.folder.clone()),
                        Effect::PurgeMessages,
                        Effect::Conclude { delivered: true },
                    ];
                    assert(steps(effects@) =~= seq![
                        EffectModel::RemoveFolder(before.folder),
                        EffectModel::PurgeMessages,
                        EffectModel::Conclude { delivered: true },
                    ]);
                    effects
                }
            },
            (Stage::Delivering { index, attempt }, Event::Attempted(Attempt::Refused(complaint))) => {
                assert(texts(self.paths@)[index as int] == self.paths@[index as int]@);
                match after_attempt(attempt, Some(complaint.as_str()), self.paths[index].as_str()) {
                    DeliveryStep::Retry { report } => {
                        self.stage = Stage::Delivering { index, attempt: attempt + 1 };
                        let effects = vec![
                            Effect::Cooldown(COOLDOWN_SECS),
                            Effect::Tell(report),
                            self.offer(index),
                        ];
                        assert(steps(effects@) =~= seq![
                            EffectModel::Cooldown(COOLDOWN_SECS),
                            EffectModel::Tell(
                                attempt_report(attempt as nat, before.paths[index as int], complaint@),
                            ),
                            before.offer(index as int),
                        ]);
                        effects
                    },
                    DeliveryStep::Abandon { error } => {
                        let effects = vec![Effect::Cooldown(COOLDOWN_SECS)];
                        assert(steps(effects@) =~= seq![EffectModel::Cooldown(COOLDOWN_SECS)]);
                        self.give_up(effects, error)
                    },
                    DeliveryStep::Delivered => {
                        proof {
                            assert(false);
                        }
                        Vec::new()
                    },
                }
            },
            (Stage::Delivering { index, attempt }, Event::Attempted(Attempt::Unprepared(reason))) => {
                let effects: Vec<Effect> = Vec::new();
                assert(steps(effects@) =~= Seq::<EffectModel>::empty());
                let all = self.give_up(effects, reason);
                assert(steps(all@) =~= before.giving_up(reason@));
                all
            },
            (_, _) => {
                let effects: Vec<Effect> = Vec::new();
                assert(steps(effects@) =~= Seq::<EffectModel>::empty());
                effects
            },
        }
    }
}

/// Whether `step` offers a file to the transport.
pub open spec fn is_send(step: EffectModel) -> bool {
    step is Send
}

/// A download that failed, was cancelled or left only oversized files is
/// followed by no delivery at all: the poller is stopped, the working
/// directory removed, the user told the diagnostic, and the task closed as
/// failed.
pub proof fn failed_download_sends_nothing(flow: FlowModel, error: DownloadErrorModel)
    requires
        flow.stage == Stage::Downloading,
    ensures
        flow.next(EventModel::DownloadFailed(error)).0.stage == Stage::Finished,
        flow.next(EventModel::DownloadFailed(error)).1 == seq![
            EffectModel::StopPoller,
            EffectModel::RemoveFolder(flow.folder),
            EffectModel::Tell(error.text()),
            EffectModel::Conclude { delivered: false },
        ],
        forall|i: int|
            0 <= i < flow.next(EventModel::DownloadFailed(error)).1.len() ==> !is_send(
                #[trigger] flow.next(EventModel::DownloadFailed(error)).1[i],
            ),
{
    let taken = flow.next(EventModel::DownloadFailed(error)).1;
    assert(taken =~= seq![
        EffectModel::StopPoller,
        EffectModel::RemoveFolder(flow.folder),
        EffectModel::Tell(error.text()),
        EffectModel::Conclude { delivered: false },
    ]);
}

/// Whenever a task is closed, it is closed by the last step, the request is
/// then finished, and its working directory was removed by an earlier step
/// of the same answer. A task is closed as a success only when the last
/// file went out, and then the task's messages are purged too.
pub proof fn closing_follows_cleanup(flow: FlowModel, event: EventModel, at: int)
    requires
        flow.wf(),
        0 <= at < flow.next(event).1.len(),
        flow.next(event).1[at] is Conclude,
    ensures
        at == flow.next(event).1.len() - 1,
        flow.next(event).0.stage == Stage::Finished,
        exists|k: int|
            0 <= k < at && #[trigger] flow.next(event).1[k] == EffectModel::RemoveFolder(
                flow.folder,
            ),
        flow.next(event).1[at]->delivered ==> {
            &&& event is Sent
            &&& flow.stage matches Stage::Delivering { index, attempt }
            &&& index + 1 == flow.paths.len()
            &&& flow.next(event).1[at - 1] is PurgeMessages
        },
{
    let taken = flow.next(event).1;
    match (flow.stage, event) {
        (Stage::Downloading, EventModel::DownloadFailed(error)) => {
            assert(taken[1] == EffectModel::RemoveFolder(flow.folder));
        },
        (Stage::Downloading, EventModel::Harvested(harvest)) => {
            if harvest.paths.len() == 0 {
                assert(taken[1] == EffectModel::RemoveFolder(flow.folder));
            } else {
                let count = harvest.renames.len() as int;
                assert(taken.len() == count + 2);
                if at == 0 {
                } else if at <= count {
                    assert(taken[at] == rename_steps(harvest.renames)[at - 1]);
                } else {
                    assert(taken[at] is Send);
                }
            }
        },
        (Stage::Delivering { index, attempt }, EventModel::Sent) => {
            if index + 1 < flow.paths.len() {
            } else {
                assert(taken[0] == EffectModel::RemoveFolder(flow.folder));
            }
        },
        (Stage::Delivering { index, attempt }, EventModel::Refused(complaint)) => {
            if attempt < MAX_RETRIES {
            } else {
                assert(taken[1] == EffectModel::RemoveFolder(flow.folder));
            }
        },
        (Stage::Delivering { index, attempt }, EventModel::Unprepared(reason)) => {
            assert(taken[0] == EffectModel::RemoveFolder(flow.folder));
        },
        _ => {},
    }
}

} // verus!
