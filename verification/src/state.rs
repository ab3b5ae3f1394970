//! The lifecycle of a task: `New`, `WaitingForUrl`, `Running`, then `Success`
//! or `Failure`, always forward and one step at a time.

use crate::cancellation::CancellationRegistry;
use crate::database::{DbRecord, Layout};
use crate::ident::{ChatId, TaskId};
use crate::mediatype::MediaType;
use crate::traits::{HasChatId, HasTaskId, Task};
use tokio_util::sync::CancellationToken;
use vstd::prelude::*;

verus! {

/// The five stages of a task's life.
#[derive(Debug, Clone, Copy, PartialEq, Eq, Structural, Hash)]
pub enum Phase {
    New,
    WaitingForUrl,
    Running,
    Success,
    Failure,
}

/// Why a transition was refused. The state is left as it was.
#[derive(Debug, Clone, Copy, PartialEq, Eq, Structural, Hash)]
pub enum TransitionError {
    /// `to_waiting_for_url` was asked of a task that is not `New`.
    NotNew,
    /// `to_running` was asked of a task that is not `WaitingForUrl`.
    NotWaitingForUrl,
    /// `to_success` or `to_failure` was asked of a task that is not `Running`.
    NotRunning,
    /// A `Running` record without an address: it cannot be finished.
    MissingUrl,
}

/// A task as created: known by its identity and its conversation only.
#[derive(Debug, Clone)]
pub struct TaskSimple {
    pub task_id: TaskId,
    pub chat_id: ChatId,
}

/// A task whose media kind is chosen. The address is absent while the task
/// waits for it and present once it runs.
#[derive(Debug, Clone)]
pub struct TaskDownload {
    pub task_id: TaskId,
    pub chat_id: ChatId,
    pub media_type: MediaType,
    pub url: Option<String>,
}

/// A task that has ended, with everything that was known of it.
#[derive(Debug, Clone)]
pub struct TaskStats {
    pub task_id: TaskId,
    pub chat_id: ChatId,
    pub media_type: MediaType,
    pub url: String,
}

/// The one record that is stored per task.
#[derive(Debug, Clone)]
pub enum TaskState {
    New(TaskSimple),
    WaitingForUrl(TaskDownload),
    Running(TaskDownload),
    Success(TaskStats),
    Failure(TaskStats),
}

/// What a task record says, with its texts as sequences of characters.
pub struct TaskModel {
    pub phase: Phase,
    pub task_id: TaskId,
    pub chat_id: ChatId,
    pub media_type: Option<MediaType>,
    pub url: Option<Seq<char>>,
}

impl TaskModel {
    /// The media kind is known from `WaitingForUrl` on, and the address is
    /// known exactly in `Running`, `Success` and `Failure`.
    pub open spec fn wf(self) -> bool {
        &&& self.media_type is Some <==> self.phase != Phase::New
        &&& self.url is Some <==> (self.phase == Phase::Running || self.phase == Phase::Success
            || self.phase == Phase::Failure)
    }

    /// The record after the media kind was chosen.
    pub open spec fn with_media(self, media_type: MediaType) -> TaskModel {
        TaskModel {
            phase: Phase::WaitingForUrl,
            task_id: self.task_id,
            chat_id: self.chat_id,
            media_type: Some(media_type),
            url: None,
        }
    }

    /// The record after the address was supplied.
    pub open spec fn started(self, url: Seq<char>) -> TaskModel {
        TaskModel {
            phase: Phase::Running,
            task_id: self.task_id,
            chat_id: self.chat_id,
            media_type: self.media_type,
            url: Some(url),
        }
    }

    /// The record after the run ended in `outcome`, which is `Success` or
    /// `Failure`.
    pub open spec fn finished(self, outcome: Phase) -> TaskModel {
        TaskModel {
            phase: outcome,
            task_id: self.task_id,
            chat_id: self.chat_id,
            media_type: self.media_type,
            url: self.url,
        }
    }

    /// Whether `next` is what one transition makes of `self`.
    pub open spec fn advances_to(self, next: TaskModel) -> bool {
        match self.phase {
            Phase::New => exists|media_type: MediaType| next == self.with_media(media_type),
            Phase::WaitingForUrl => exists|url: Seq<char>| next == self.started(url),
            Phase::Running => next == self.finished(Phase::Success) || next == self.finished(
                Phase::Failure,
            ),
            Phase::Success | Phase::Failure => false,
        }
    }
}

impl View for TaskDownload {
    type V = TaskModel;

    /// Read as a record that waits for its address or runs, by whether the
    /// address is there.
    open spec fn view(&self) -> TaskModel {
        TaskModel {
            phase: if self.url is Some {
                Phase::Running
            } else {
                Phase::WaitingForUrl
            },
            task_id: self.task_id,
            chat_id: self.chat_id,
            media_type: Some(self.media_type),
            url: match self.url {
                Some(url) => Some(url@),
                None => None,
            },
        }
    }
}

impl View for TaskState {
    type V = TaskModel;

    open spec fn view(&self) -> TaskModel {
        match self {
            TaskState::New(task) => TaskModel {
                phase: Phase::New,
                task_id: task.task_id,
                chat_id: task.chat_id,
                media_type: None,
                url: None,
            },
            TaskState::WaitingForUrl(task) => TaskModel {
                phase: Phase::WaitingForUrl,
                task_id: task.task_id,
                chat_id: task.chat_id,
                media_type: Some(task.media_type),
                url: match task.url {
                    Some(url) => Some(url@),
                    None => None,
                },
            },
            TaskState::Running(task) => TaskModel {
                phase: Phase::Running,
                task_id: task.task_id,
                chat_id: task.chat_id,
                media_type: Some(task.media_type),
                url: match task.url {
                    Some(url) => Some(url@),
                    None => None,
                },
            },
            TaskState::Success(task) => TaskModel {
                phase: Phase::Success,
                task_id: task.task_id,
                chat_id: task.chat_id,
                media_type: Some(task.media_type),
                url: Some(task.url@),
            },
            TaskState::Failure(task) => TaskModel {
                phase: Phase::Failure,
                task_id: task.task_id,
                chat_id: task.chat_id,
                media_type: Some(task.media_type),
                url: Some(task.url@),
            },
        }
    }
}

impl TransitionError {
    /// The sentence that names the refused transition.
    pub open spec fn text(self) -> Seq<char> {
        match self {
            TransitionError::NotNew => "Only TaskState::New can use to_waiting_for_url method."@,
            TransitionError::NotWaitingForUrl =>
                "Only TaskState::WaitingForUrl can use to_running method."@,
            TransitionError::NotRunning =>
                "Only TaskState::Running can finish with to_success or to_failure."@,
            TransitionError::MissingUrl => "A running task must carry its URL."@,
        }
    }

    pub fn to_string(&self) -> (text: String)
        ensures
            text@ == self.text(),
    {
        match self {
            TransitionError::NotNew =>
                "Only TaskState::New can use to_waiting_for_url method.".to_owned(),
            TransitionError::NotWaitingForUrl =>
                "Only TaskState::WaitingForUrl can use to_running method.".to_owned(),
            TransitionError::NotRunning =>
                "Only TaskState::Running can finish with to_success or to_failure.".to_owned(),
            TransitionError::MissingUrl => "A running task must carry its URL.".to_owned(),
        }
    }
}

impl TaskSimple {
    /// A task for the conversation of an inbound message, under a fresh
    /// identity. A message without a conversation starts nothing.
    pub fn try_from(chat_id: Option<ChatId>) -> (task: Result<TaskSimple, String>)
        ensures
            match task {
                Ok(task) => chat_id == Some(task.chat_id) && crate::ident::is_random_uuid(
                    task.task_id.uuid,
                ),
                Err(reason) => chat_id is None && reason@ == "Message has no chat_id"@,
            },
    {
        match chat_id {
            Some(chat_id) => Ok(TaskSimple { task_id: TaskId::new(), chat_id }),
            None => Err("Message has no chat_id".to_owned()),
        }
    }

    /// The same task with its media kind chosen and no address yet.
    pub fn to_task_download(&self, media_type: MediaType) -> (task: TaskDownload)
        ensures
            task.task_id == self.task_id,
            task.chat_id == self.chat_id,
            task.media_type == media_type,
            task.url is None,
    {
        TaskDownload { task_id: self.task_id, chat_id: self.chat_id, media_type, url: None }
    }
}

impl TaskDownload {
    /// A copy of the address, where there is one.
    pub fn url(&self) -> (url: Option<String>)
        ensures
            match url {
                Some(url) => self.url is Some && url@ == self.url->0@,
                None => self.url is None,
            },
    {
        match &self.url {
            Some(url) => Some(url.clone()),
            None => None,
        }
    }

    pub fn set_url(&mut self, url: String)
        ensures
            final(self).url == Some(url),
            final(self).task_id == old(self).task_id,
            final(self).chat_id == old(self).chat_id,
            final(self).media_type == old(self).media_type,
    {
        self.url = Some(url);
    }

    pub fn media_type(&self) -> (media_type: MediaType)
        ensures
            media_type == self.media_type,
    {
        self.media_type
    }

    /// The closing record. Only a task with an address has one.
    pub fn to_task_stats(&self) -> (stats: TaskStats)
        requires
            self.url is Some,
        ensures
            stats.task_id == self.task_id,
            stats.chat_id == self.chat_id,
            stats.media_type == self.media_type,
            stats.url@ == self.url->0@,
    {
        match &self.url {
            Some(url) => TaskStats {
                task_id: self.task_id,
                chat_id: self.chat_id,
                media_type: self.media_type,
                url: url.clone(),
            },
            None => {
                proof {
                    assert(false);
                }
                TaskStats {
                    task_id: self.task_id,
                    chat_id: self.chat_id,
                    media_type: self.media_type,
                    url: String::new(),
                }
            },
        }
    }
}

impl TaskState {
    /// The stage this record is in.
    pub open spec fn stage(&self) -> Phase {
        self@.phase
    }

    /// A record is well formed when it carries an address exactly from
    /// `Running` on.
    pub open spec fn wf(&self) -> bool {
        self@.wf()
    }

    /// The first record of a task that an inbound message starts.
    pub fn try_from(chat_id: Option<ChatId>) -> (state: Result<TaskState, String>)
        ensures
            match state {
                Ok(state) => state@.phase == Phase::New && chat_id == Some(state@.chat_id)
                    && state.wf() && crate::ident::is_random_uuid(state@.task_id.uuid),
                Err(reason) => chat_id is None && reason@ == "Message has no chat_id"@,
            },
    {
        match TaskSimple::try_from(chat_id) {
            Ok(task) => Ok(TaskState::New(task)),
            Err(reason) => Err(reason),
        }
    }

    pub fn phase(&self) -> (phase: Phase)
        ensures
            phase == self@.phase,
    {
        match self {
            TaskState::New(_) => Phase::New,
            TaskState::WaitingForUrl(_) => Phase::WaitingForUrl,
            TaskState::Running(_) => Phase::Running,
            TaskState::Success(_) => Phase::Success,
            TaskState::Failure(_) => Phase::Failure,
        }
    }

    /// Whether the record carries what its stage asks for.
    pub fn is_well_formed(&self) -> (ok: bool)
        ensures
            ok == self.wf(),
    {
        match self {
            TaskState::WaitingForUrl(task) => task.url.is_none(),
            TaskState::Running(task) => task.url.is_some(),
            _ => true,
        }
    }

    /// A copy of the record.
    pub fn duplicate(&self) -> (copy: TaskState)
        ensures
            copy@ == self@,
    {
        match self {
            TaskState::New(task) => TaskState::New(
                TaskSimple { task_id: task.task_id, chat_id: task.chat_id },
            ),
            TaskState::WaitingForUrl(task) => TaskState::WaitingForUrl(
                TaskDownload {
                    task_id: task.task_id,
                    chat_id: task.chat_id,
                    media_type: task.media_type,
                    url: task.url(),
                },
            ),
            TaskState::Running(task) => TaskState::Running(
                TaskDownload {
                    task_id: task.task_id,
                    chat_id: task.chat_id,
                    media_type: task.media_type,
                    url: task.url(),
                },
            ),
            TaskState::Success(task) => TaskState::Success(
                TaskStats {
                    task_id: task.task_id,
                    chat_id: task.chat_id,
                    media_type: task.media_type,
                    url: task.url.clone(),
                },
            ),
            TaskState::Failure(task) => TaskState::Failure(
                TaskStats {
                    task_id: task.task_id,
                    chat_id: task.chat_id,
                    media_type: task.media_type,
                    url: task.url.clone(),
                },
            ),
        }
    }

    /// `New` to `WaitingForUrl`: the user chose the media kind. Any other
    /// stage is refused and left as it was.
    pub fn to_waiting_for_url(&mut self, media_type: MediaType) -> (done: Result<
        (),
        TransitionError,
    >)
        ensures
            done is Ok <==> old(self)@.phase == Phase::New,
            done is Ok ==> final(self)@ == old(self)@.with_media(media_type),
            done is Ok ==> old(self)@.advances_to(final(self)@),
            done is Err ==> *final(self) == *old(self),
            done is Err ==> done == Err::<(), TransitionError>(TransitionError::NotNew),
    {
        let next = match &*self {
            TaskState::New(task) => TaskState::WaitingForUrl(task.to_task_download(media_type)),
            _ => {
                return Err(TransitionError::NotNew);
            },
        };
        *self = next;
        Ok(())
    }

    /// `WaitingForUrl` to `Running`: the address arrived. The task's
    /// cancellation handle is registered under its identity. Any other stage
    /// is refused; state and registry are then left as they were.
    pub fn to_running(
        &mut self,
        url: String,
        registry: &mut CancellationRegistry,
        cancellation_token: CancellationToken,
    ) -> (done: Result<(), TransitionError>)
        ensures
            done is Ok <==> old(self)@.phase == Phase::WaitingForUrl,
            done is Ok ==> final(self)@ == old(self)@.started(url@),
            done is Ok ==> final(registry).handles() == old(registry).handles().insert(
                old(self)@.task_id,
                cancellation_token,
            ),
            done is Ok ==> old(self)@.advances_to(final(self)@),
            done is Err ==> *final(self) == *old(self),
            done is Err ==> final(registry).handles() == old(registry).handles(),
            done is Err ==> done == Err::<(), TransitionError>(TransitionError::NotWaitingForUrl),
    {
        let next = match &*self {
            TaskState::WaitingForUrl(task) => TaskState::Running(
                TaskDownload {
                    task_id: task.task_id,
                    chat_id: task.chat_id,
                    media_type: task.media_type,
                    url: Some(url),
                },
            ),
            _ => {
                return Err(TransitionError::NotWaitingForUrl);
            },
        };
        *self = next;
        registry.register_task(self.task_id(), cancellation_token);
        Ok(())
    }

    /// The closing record of a running task, or why there is none.
    fn closing(&self) -> (stats: Result<TaskStats, TransitionError>)
        ensures
            match stats {
                Ok(stats) => self@.phase == Phase::Running && self@.url == Some(stats.url@)
                    && stats.task_id == self@.task_id && stats.chat_id == self@.chat_id && Some(
                    stats.media_type,
                ) == self@.media_type,
                Err(TransitionError::MissingUrl) => self@.phase == Phase::Running && self@.url
                    is None,
                Err(reason) => self@.phase != Phase::Running && reason
                    == TransitionError::NotRunning,
            },
    {
        match self {
            TaskState::Running(task) => {
                if task.url.is_some() {
                    Ok(task.to_task_stats())
                } else {
                    Err(TransitionError::MissingUrl)
                }
            },
            _ => Err(TransitionError::NotRunning),
        }
    }

    /// `Running` to `Success`: everything was delivered. The task's
    /// cancellation handle is dropped from the registry; its absence is no
    /// error. Any other stage is refused; state and registry are then left as
    /// they were.
    pub fn to_success(&mut self, registry: &mut CancellationRegistry) -> (done: Result<
        (),
        TransitionError,
    >)
        ensures
            done is Ok <==> old(self)@.phase == Phase::Running && old(self)@.url is Some,
            done is Ok ==> final(self)@ == old(self)@.finished(Phase::Success),
            done is Ok ==> final(registry).handles() == old(registry).handles().remove(
                old(self)@.task_id,
            ),
            done is Ok ==> old(self)@.advances_to(final(self)@),
            done is Ok ==> !final(registry).is_registered(old(self)@.task_id),
            done is Err ==> *final(self) == *old(self),
            done is Err ==> final(registry).handles() == old(registry).handles(),
            done is Err ==> done->Err_0 == (if old(self)@.phase == Phase::Running {
                TransitionError::MissingUrl
            } else {
                TransitionError::NotRunning
            }),
    {
        match self.closing() {
            Ok(stats) => {
                *self = TaskState::Success(stats);
                registry.remove_task(self.task_id());
                Ok(())
            },
            Err(reason) => Err(reason),
        }
    }

    /// `Running` to `Failure`: the download failed, was cancelled, or was
    /// found orphaned. The task's cancellation handle is dropped from the
    /// registry; its absence is no error. Any other stage is refused; state
    /// and registry are then left as they were.
    pub fn to_failure(&mut self, registry: &mut CancellationRegistry) -> (done: Result<
        (),
        TransitionError,
    >)
        ensures
            done is Ok <==> old(self)@.phase == Phase::Running && old(self)@.url is Some,
            done is Ok ==> final(self)@ == old(self)@.finished(Phase::Failure),
            done is Ok ==> final(registry).handles() == old(registry).handles().remove(
                old(self)@.task_id,
            ),
            done is Ok ==> old(self)@.advances_to(final(self)@),
            done is Ok ==> !final(registry).is_registered(old(self)@.task_id),
            done is Err ==> *final(self) == *old(self),
            done is Err ==> final(registry).handles() == old(registry).handles(),
            done is Err ==> done->Err_0 == (if old(self)@.phase == Phase::Running {
                TransitionError::MissingUrl
            } else {
                TransitionError::NotRunning
            }),
    {
        match self.closing() {
            Ok(stats) => {
                *self = TaskState::Failure(stats);
                registry.remove_task(self.task_id());
                Ok(())
            },
            Err(reason) => Err(reason),
        }
    }

    pub fn get_inner_task_simple(&self) -> (task: Option<&TaskSimple>)
        ensures
            task == match *self {
                TaskState::New(inner) => Some(&inner),
                _ => None,
            },
    {
        match self {
            TaskState::New(inner) => Some(inner),
            _ => None,
        }
    }

    pub fn get_inner_task_download(&self) -> (task: Option<&TaskDownload>)
        ensures
            task == match *self {
                TaskState::WaitingForUrl(inner) | TaskState::Running(inner) => Some(&inner),
                _ => None,
            },
    {
        match self {
            TaskState::WaitingForUrl(inner) | TaskState::Running(inner) => Some(inner),
            _ => None,
        }
    }

    pub fn get_inner_task_stats(&self) -> (task: Option<&TaskStats>)
        ensures
            task == match *self {
                TaskState::Success(inner) | TaskState::Failure(inner) => Some(&inner),
                _ => None,
            },
    {
        match self {
            TaskState::Success(inner) | TaskState::Failure(inner) => Some(inner),
            _ => None,
        }
    }
}

impl HasTaskId for TaskSimple {
    open spec fn owner(&self) -> TaskId {
        self.task_id
    }

    fn task_id(&self) -> (id: TaskId) {
        self.task_id
    }
}

impl HasChatId for TaskSimple {
    open spec fn conversation(&self) -> ChatId {
        self.chat_id
    }

    fn chat_id(&self) -> (id: ChatId) {
        self.chat_id
    }
}

impl Task for TaskSimple {

}

impl HasTaskId for TaskDownload {
    open spec fn owner(&self) -> TaskId {
        self.task_id
    }

    fn task_id(&self) -> (id: TaskId) {
        self.task_id
    }
}

impl HasChatId for TaskDownload {
    open spec fn conversation(&self) -> ChatId {
        self.chat_id
    }

    fn chat_id(&self) -> (id: ChatId) {
        self.chat_id
    }
}

impl Task for TaskDownload {

}

impl HasTaskId for TaskStats {
    open spec fn owner(&self) -> TaskId {
        self.task_id
    }

    fn task_id(&self) -> (id: TaskId) {
        self.task_id
    }
}

impl HasChatId for TaskStats {
    open spec fn conversation(&self) -> ChatId {
        self.chat_id
    }

    fn chat_id(&self) -> (id: ChatId) {
        self.chat_id
    }
}

impl Task for TaskStats {

}

impl HasTaskId for TaskState {
    open spec fn owner(&self) -> TaskId {
        self@.task_id
    }

    fn task_id(&self) -> (id: TaskId) {
        match self {
            TaskState::New(task) => task.task_id,
            TaskState::WaitingForUrl(task) => task.task_id,
            TaskState::Running(task) => task.task_id,
            TaskState::Success(task) => task.task_id,
            TaskState::Failure(task) => task.task_id,
        }
    }
}

impl HasChatId for TaskState {
    open spec fn conversation(&self) -> ChatId {
        self@.chat_id
    }

    fn chat_id(&self) -> (id: ChatId) {
        match self {
            TaskState::New(task) => task.chat_id,
            TaskState::WaitingForUrl(task) => task.chat_id,
            TaskState::Running(task) => task.chat_id,
            TaskState::Success(task) => task.chat_id,
            TaskState::Failure(task) => task.chat_id,
        }
    }
}

impl DbRecord for TaskState {
    open spec fn kind() -> Seq<char> {
        "TaskState"@
    }

    open spec fn stored_as() -> Layout {
        Layout::Tagged
    }

    fn record_name() -> (name: &'static str) {
        "TaskState"
    }

    fn layout() -> (layout: Layout) {
        Layout::Tagged
    }
}

} // verus!
