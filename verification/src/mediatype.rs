//! The kinds of media a task can ask for.

use vstd::prelude::*;

verus! {

/// `str::eq` compares two string slices character by character.
pub assume_specification[ <str as PartialEq>::eq ](a: &str, b: &str) -> (same: bool)
    ensures
        same == (a@ == b@),
;

/// What the user asked to receive.
#[derive(Debug, Clone, Copy, PartialEq, Eq, Structural)]
pub enum MediaType {
    Mp3,
    Mp4,
    Voice,
}

impl MediaType {
    /// The suffix that selects this kind's files in a working directory.
    pub open spec fn extension(self) -> Seq<char> {
        match self {
            MediaType::Mp3 => "mp3"@,
            MediaType::Mp4 => "mp4"@,
            MediaType::Voice => "opus"@,
        }
    }

    /// The wording shown to the user for this kind.
    pub open spec fn label(self) -> Seq<char> {
        match self {
            MediaType::Mp3 => "audio"@,
            MediaType::Mp4 => "video"@,
            MediaType::Voice => "audio as voice message"@,
        }
    }

    /// The kind that a keyboard button's payload selects, if any.
    pub open spec fn of_callback_data(data: Seq<char>) -> Option<MediaType> {
        if data == "Audio"@ {
            Some(MediaType::Mp3)
        } else if data == "Video"@ {
            Some(MediaType::Mp4)
        } else if data == "Audio as voice message"@ {
            Some(MediaType::Voice)
        } else {
            None
        }
    }

    pub fn as_str(&self) -> (ext: &'static str)
        ensures
            ext@ == self.extension(),
    {
        match self {
            MediaType::Mp3 => "mp3",
            MediaType::Mp4 => "mp4",
            MediaType::Voice => "opus",
        }
    }

    pub fn from_callback_data(data: &str) -> (kind: Option<MediaType>)
        ensures
            kind == Self::of_callback_data(data@),
    {
        if data.eq("Audio") {
            Some(MediaType::Mp3)
        } else if data.eq("Video") {
            Some(MediaType::Mp4)
        } else if data.eq("Audio as voice message") {
            Some(MediaType::Voice)
        } else {
            None
        }
    }

    /// The user-facing name of this kind.
    pub fn to_string(&self) -> (text: String)
        ensures
            text@ == self.label(),
    {
        match self {
            MediaType::Mp3 => "audio".to_owned(),
            MediaType::Mp4 => "video".to_owned(),
            MediaType::Voice => "audio as voice message".to_owned(),
        }
    }
}

impl Default for MediaType {
    fn default() -> (kind: MediaType)
        ensures
            kind == MediaType::Mp3,
    {
        MediaType::Mp3
    }
}

} // verus!
