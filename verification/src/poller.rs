//! The progress poller: what to show while a download runs, and when to
//! touch the progress message at all.

use crate::folder::{megabytes_text, FolderData};
use crate::text::{decimal, push_decimal};
use vstd::prelude::*;
use vstd::string::StringExecFns;

verus! {

/// Seconds between two looks into the working directory. A shorter pause
/// would run into the chat's limit on edits.
pub const POLL_INTERVAL_SECS: u32 = 5;

/// The status line for a working directory that holds `count` qualifying
/// files of `bytes` bytes together.
pub open spec fn progress_text(count: nat, bytes: nat) -> Seq<char> {
    "Downloading... Please wait.\nFiles to send: "@ + decimal(count) + ".\nTotal size: "@
        + megabytes_text(bytes) + "."@
}

/// The line that closes the progress message.
pub open spec fn finalized_text() -> Seq<char> {
    "Downloading finalized."@
}

/// What woke the poller.
#[derive(Debug, Clone, Copy)]
pub enum PollEvent {
    /// The pause is over; this is what the working directory holds now.
    Tick(FolderData),
    /// The shared signal fired: the download ended or was cancelled.
    Cancelled,
}

/// What the poller asks of the transport.
#[derive(Debug)]
pub enum PollAction {
    /// Edit the progress message to this text, then wait for the next event.
    Edit(String),
    /// Leave the message alone and wait for the next event.
    Skip,
    /// Edit the progress message to this closing text and stop.
    Finish(String),
}

/// The poller's memory: the status text it last asked to be shown.
pub struct ProgressPoller {
    previous_update_text: String,
}

/// What a tick with status `text` makes of a poller that last showed
/// `shown`: the edit to issue, if any, and what is then shown.
pub open spec fn tick(shown: Seq<char>, text: Seq<char>) -> (Option<Seq<char>>, Seq<char>) {
    if text == shown {
        (None, shown)
    } else {
        (Some(text), text)
    }
}

impl ProgressPoller {
    /// The status text that was last asked to be shown; empty at the start.
    pub closed spec fn shown(&self) -> Seq<char> {
        self.previous_update_text@
    }

    /// A poller that has shown nothing yet.
    pub fn new() -> (poller: ProgressPoller)
        ensures
            poller.shown() == Seq::<char>::empty(),
    {
        ProgressPoller { previous_update_text: String::new() }
    }

    /// The status line for `data`.
    pub fn format(data: &FolderData) -> (text: String)
        ensures
            text@ == progress_text(data.file_count as nat, data.size_in_bytes as nat),
    {
        let mut text = "Downloading... Please wait.\nFiles to send: ".to_owned();
        push_decimal(&mut text, data.file_count as u128);
        let text = text.concat(".\nTotal size: ").concat(
            data.format_bytes_to_megabytes().as_str(),
        ).concat(".");
        assert(text@ =~= progress_text(data.file_count as nat, data.size_in_bytes as nat));
        text
    }

    /// Reacts to one event. On a tick the status line is formed, and an edit
    /// is asked for if and only if the line differs from the one last shown.
    /// On cancellation the closing edit is asked for, whatever was shown.
    pub fn step(&mut self, event: PollEvent) -> (action: PollAction)
        ensures
            match event {
                PollEvent::Tick(data) => {
                    let text = progress_text(data.file_count as nat, data.size_in_bytes as nat);
                    &&& final(self).shown() == tick(old(self).shown(), text).1
                    &&& match tick(old(self).shown(), text).0 {
                        Some(edit) => action matches PollAction::Edit(sent) && sent@ == edit,
                        None => action is Skip,
                    }
                },
                PollEvent::Cancelled => {
                    &&& final(self).shown() == old(self).shown()
                    &&& action matches PollAction::Finish(sent) && sent@ == finalized_text()
                },
            },
    {
        match event {
            PollEvent::Tick(data) => {
                let text = Self::format(&data);
                if text == self.previous_update_text {
                    PollAction::Skip
                } else {
                    self.previous_update_text = text.clone();
                    PollAction::Edit(text)
                }
            },
            PollEvent::Cancelled => PollAction::Finish("Downloading finalized.".to_owned()),
        }
    }
}

/// The edits that a run of ticks with the status lines `lines` leads to,
/// starting from a poller that last showed `shown`: for each tick the edit
/// issued, or `None`.
pub open spec fn edits(shown: Seq<char>, lines: Seq<Seq<char>>) -> Seq<Option<Seq<char>>>
    decreases lines.len(),
{
    if lines.len() == 0 {
        seq![]
    } else {
        seq![tick(shown, lines[0]).0] + edits(tick(shown, lines[0]).1, lines.drop_first())
    }
}

/// Over any run of ticks, each tick leads to exactly one edit where its
/// status line differs from the line of the tick before it, and to none
/// where the two are the same. The first tick is measured against what was
/// shown before the run.
pub proof fn edit_exactly_on_change(shown: Seq<char>, lines: Seq<Seq<char>>, at: int)
    requires
        0 <= at < lines.len(),
    ensures
        edits(shown, lines).len() == lines.len(),
        edits(shown, lines)[at] == if lines[at] == (if at == 0 {
            shown
        } else {
            lines[at - 1]
        }) {
            None
        } else {
            Some(lines[at])
        },
    decreases lines.len(),
{
    lemma_edits_len(shown, lines);
    if at > 0 {
        let next = tick(shown, lines[0]).1;
        edit_exactly_on_change(next, lines.drop_first(), at - 1);
        assert(next == lines[0]);
    }
}

/// Every tick is answered: by an edit or by none.
pub proof fn lemma_edits_len(shown: Seq<char>, lines: Seq<Seq<char>>)
    ensures
        edits(shown, lines).len() == lines.len(),
    decreases lines.len(),
{
    if lines.len() > 0 {
        lemma_edits_len(tick(shown, lines[0]).1, lines.drop_first());
    }
}

} // verus!
