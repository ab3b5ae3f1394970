//! The download supervisor's decisions: where a task's files go, how the
//! downloader is invoked, and what a finished run amounts to.

use crate::folder::{qualifying_count, FileEntry, SIZE_CEILING};
use crate::mediatype::MediaType;
use crate::text::{ends_with, has_suffix, texts};
use vstd::prelude::*;
use vstd::string::StrSliceExecFns;
use vstd::string::StringExecFns;

verus! {

/// The directory under which every task has its working directory.
pub const FILE_STORAGE: &'static str = "/tmp/telepirate-downloads";

/// The first second that cannot be written as a timestamp: the start of the
/// year 10000.
pub const TIMESTAMP_LIMIT: u64 = 253_402_300_800;

/// The second `secs` after the start of 1970, in UTC, written as
/// `YYYY-MM-DDTHH:MM:SSZ`.
pub uninterp spec fn rfc3339_seconds(secs: u64) -> Seq<char>;

/// `humantime::format_rfc3339_seconds`, of the moment `secs` seconds after
/// the epoch, as text. Moments from the year 10000 on cannot be formatted
/// and are left out.
#[verifier::external_body]
fn format_timestamp(secs: u64) -> (text: String)
    requires
        secs < TIMESTAMP_LIMIT,
    ensures
        text@ == rfc3339_seconds(secs),
{
    let moment = std::time::UNIX_EPOCH + std::time::Duration::from_secs(secs);
    humantime::format_rfc3339_seconds(moment).to_string()
}

/// What a character of a timestamp becomes in a file name: `:` becomes `-`,
/// `T` becomes `_`, and `Z` is dropped.
pub open spec fn stamp_char(c: char) -> Seq<char> {
    if c == ':' {
        seq!['-']
    } else if c == 'T' {
        seq!['_']
    } else if c == 'Z' {
        seq![]
    } else {
        seq![c]
    }
}

/// A timestamp as it stands in a file name.
pub open spec fn stamp_of(timestamp: Seq<char>) -> Seq<char>
    decreases timestamp.len(),
{
    if timestamp.len() == 0 {
        seq![]
    } else {
        stamp_of(timestamp.drop_last()) + stamp_char(timestamp.last())
    }
}

/// The working directory of the task whose identity reads `task_id`.
pub open spec fn destination_path(task_id: Seq<char>) -> Seq<char> {
    FILE_STORAGE@ + "/"@ + task_id
}

/// The pattern that lists the output files of `media_type` in `dest`.
pub open spec fn output_pattern(dest: Seq<char>, media_type: MediaType) -> Seq<char> {
    dest + "/*"@ + media_type.extension()
}

/// The name under which a voice note is delivered from `dest` at the moment
/// `now_secs`.
pub open spec fn voice_note_path(dest: Seq<char>, now_secs: u64) -> Seq<char> {
    dest + "/audio_"@ + stamp_of(rfc3339_seconds(now_secs)) + ".ogg"@
}

/// The downloader's arguments for `media_type` and `url`: one fragment at a
/// time, tolerance for broken playlist entries, file names that every file
/// system takes, no side files but a JPEG thumbnail, then the format
/// selection of the kind, and the address last.
pub open spec fn yt_dlp_args(media_type: MediaType, url: Seq<char>) -> Seq<Seq<char>> {
    match media_type {
        MediaType::Mp3 => seq![
            "--concurrent-fragments"@,
            "1"@,
            "--skip-playlist-after-errors"@,
            "5000"@,
            "--output"@,
            "%(title)s.mp3"@,
            "--windows-filenames"@,
            "--no-write-info-json"@,
            "--no-embed-metadata"@,
            "--extract-audio"@,
            "--write-thumbnail"@,
            "--convert-thumbnails"@,
            "jpg"@,
            "--audio-format"@,
            "mp3"@,
            "--audio-quality"@,
            "0"@,
            url,
        ],
        MediaType::Mp4 => seq![
            "--concurrent-fragments"@,
            "1"@,
            "--skip-playlist-after-errors"@,
            "5000"@,
            "--max-filesize"@,
            "2000M"@,
            "--output"@,
            "%(title)s.mp4"@,
            "--windows-filenames"@,
            "--no-write-info-json"@,
            "--no-embed-metadata"@,
            "--write-thumbnail"@,
            "--convert-thumbnails"@,
            "jpg"@,
            "--format"@,
            "bv*[ext=mp4]+ba[ext=m4a]/b[ext=mp4]"@,
            url,
        ],
        MediaType::Voice => seq![
            "--concurrent-fragments"@,
            "1"@,
            "--skip-playlist-after-errors"@,
            "5000"@,
            "--windows-filenames"@,
            "--no-write-info-json"@,
            "--no-embed-metadata"@,
            "--extract-audio"@,
            "--write-thumbnail"@,
            "--convert-thumbnails"@,
            "jpg"@,
            "--audio-format"@,
            "opus"@,
            "--audio-quality"@,
            "64K"@,
            url,
        ],
    }
}

pub fn construct_destination_path(task_id: String) -> (path: String)
    ensures
        path@ == destination_path(task_id@),
{
    FILE_STORAGE.to_owned().concat("/").concat(task_id.as_str())
}

/// The pattern that lists the output files of `media_type` in `dest`.
pub fn glob_pattern(dest: &str, media_type: MediaType) -> (pattern: String)
    ensures
        pattern@ == output_pattern(dest@, media_type),
{
    dest.to_owned().concat("/*").concat(media_type.as_str())
}

pub fn generate_yt_dlp_args(media_type: MediaType, url: String) -> (args: Vec<String>)
    ensures
        texts(args@) == yt_dlp_args(media_type, url@),
{
    let args = match media_type {
        MediaType::Mp3 => vec![
            "--concurrent-fragments".to_owned(),
            "1".to_owned(),
            "--skip-playlist-after-errors".to_owned(),
            "5000".to_owned(),
            "--output".to_owned(),
            "%(title)s.mp3".to_owned(),
            "--windows-filenames".to_owned(),
            "--no-write-info-json".to_owned(),
            "--no-embed-metadata".to_owned(),
            "--extract-audio".to_owned(),
            "--write-thumbnail".to_owned(),
            "--convert-thumbnails".to_owned(),
            "jpg".to_owned(),
            "--audio-format".to_owned(),
            "mp3".to_owned(),
            "--audio-quality".to_owned(),
            "0".to_owned(),
            url,
        ],
        MediaType::Mp4 => vec![
            "--concurrent-fragments".to_owned(),
            "1".to_owned(),
            "--skip-playlist-after-errors".to_owned(),
            "5000".to_owned(),
            "--max-filesize".to_owned(),
            "2000M".to_owned(),
            "--output".to_owned(),
            "%(title)s.mp4".to_owned(),
            "--windows-filenames".to_owned(),
            "--no-write-info-json".to_owned(),
            "--no-embed-metadata".to_owned(),
            "--write-thumbnail".to_owned(),
            "--convert-thumbnails".to_owned(),
            "jpg".to_owned(),
            "--format".to_owned(),
            "bv*[ext=mp4]+ba[ext=m4a]/b[ext=mp4]".to_owned(),
            url,
        ],
        MediaType::Voice => vec![
            "--concurrent-fragments".to_owned(),
            "1".to_owned(),
            "--skip-playlist-after-errors".to_owned(),
            "5000".to_owned(),
            "--windows-filenames".to_owned(),
            "--no-write-info-json".to_owned(),
            "--no-embed-metadata".to_owned(),
            "--extract-audio".to_owned(),
            "--write-thumbnail".to_owned(),
            "--convert-thumbnails".to_owned(),
            "jpg".to_owned(),
            "--audio-format".to_owned(),
            "opus".to_owned(),
            "--audio-quality".to_owned(),
            "64K".to_owned(),
            url,
        ],
    };
    assert(texts(args@) =~= yt_dlp_args(media_type, url@));
    args
}

/// A timestamp in the form it takes inside a file name.
pub fn file_stamp(timestamp: &str) -> (stamp: String)
    ensures
        stamp@ == stamp_of(timestamp@),
{
    let n = timestamp.unicode_len();
    let mut stamp = String::new();
    let mut i: usize = 0;
    assert(timestamp@.take(0) =~= Seq::<char>::empty());
    while i < n
        invariant
            n == timestamp@.len(),
            i <= n,
            stamp@ == stamp_of(timestamp@.take(i as int)),
        decreases n - i,
    {
        let c = timestamp.get_char(i);
        assert(timestamp@.take(i as int + 1).drop_last() =~= timestamp@.take(i as int));
        assert(timestamp@.take(i as int + 1).last() == c);
        let ghost before = stamp@;
        if c == ':' {
            stamp.push('-');
        } else if c == 'T' {
            stamp.push('_');
        } else if c != 'Z' {
            stamp.push(c);
        }
        assert(stamp@ =~= before + stamp_char(c));
        i += 1;
    }
    assert(timestamp@.take(n as int) =~= timestamp@);
    stamp
}

/// The name under which a voice note is delivered from `dest` at the moment
/// `now_secs` seconds after the epoch.
pub fn voice_note_name(dest: &str, now_secs: u64) -> (path: String)
    requires
        now_secs < TIMESTAMP_LIMIT,
    ensures
        path@ == voice_note_path(dest@, now_secs),
{
    let stamp = file_stamp(format_timestamp(now_secs).as_str());
    dest.to_owned().concat("/audio_").concat(stamp.as_str()).concat(".ogg")
}

/// The files of a finished run that go out to the user.
#[derive(Debug, Clone)]
pub struct Downloads {
    /// The files to deliver, in the order in which they were listed.
    pub paths: Vec<String>,
    /// The working directory they lie in.
    pub folder: String,
}

/// A file that must be moved before it is delivered.
#[derive(Debug, Clone)]
pub struct Rename {
    pub from: String,
    pub to: String,
}

/// What a successful run left behind.
#[derive(Debug)]
pub struct Harvest {
    /// What is handed to delivery.
    pub downloads: Downloads,
    /// The moves to make first, in order.
    pub renames: Vec<Rename>,
    /// The matching files that were left out for their size.
    pub skipped: Vec<String>,
}

/// A harvest as the contracts read it.
pub struct HarvestModel {
    pub paths: Seq<Seq<char>>,
    pub folder: Seq<char>,
    pub renames: Seq<(Seq<char>, Seq<char>)>,
    pub skipped: Seq<Seq<char>>,
}

impl View for Harvest {
    type V = HarvestModel;

    open spec fn view(&self) -> HarvestModel {
        HarvestModel {
            paths: texts(self.downloads.paths@),
            folder: self.downloads.folder@,
            renames: moves(self.renames@),
            skipped: texts(self.skipped@),
        }
    }
}

/// How the downloader's run ended.
#[derive(Debug)]
pub enum RunOutcome {
    /// The process ran and exited; this is what it wrote.
    Exited(String),
    /// The process could not be started or waited for; this is why.
    Failed(String),
    /// The task's cancellation signal fired and the process was killed.
    Cancelled,
}

/// Why a run gave nothing to deliver.
#[derive(Debug)]
pub enum DownloadError {
    /// The run was cancelled. Whatever it had written does not count.
    Cancelled,
    /// Every matching file is too large to be delivered.
    TooLarge { output: String },
    /// The run exited without a single matching file.
    NoFiles { output: String },
    /// The process did not run, and no file qualifies.
    ProcessFailed { reason: String },
}

/// The sentence appended to the downloader's output when only the size of
/// the files stands in the way.
pub open spec fn too_large_note() -> Seq<char> {
    "\n\nFiles larger than 2GB are not supported."@
}

/// A download error as the contracts read it.
pub enum DownloadErrorModel {
    Cancelled,
    TooLarge { output: Seq<char> },
    NoFiles { output: Seq<char> },
    ProcessFailed { reason: Seq<char> },
}

impl View for DownloadError {
    type V = DownloadErrorModel;

    open spec fn view(&self) -> DownloadErrorModel {
        match self {
            DownloadError::Cancelled => DownloadErrorModel::Cancelled,
            DownloadError::TooLarge { output } => DownloadErrorModel::TooLarge { output: output@ },
            DownloadError::NoFiles { output } => DownloadErrorModel::NoFiles { output: output@ },
            DownloadError::ProcessFailed { reason } => DownloadErrorModel::ProcessFailed {
                reason: reason@,
            },
        }
    }
}

impl DownloadErrorModel {
    /// The diagnostic shown to the user.
    pub open spec fn text(self) -> Seq<char> {
        match self {
            DownloadErrorModel::Cancelled => "Operation cancelled."@,
            DownloadErrorModel::TooLarge { output } => output + too_large_note(),
            DownloadErrorModel::NoFiles { output } => output,
            DownloadErrorModel::ProcessFailed { reason } => reason,
        }
    }
}

impl DownloadError {
    /// The diagnostic shown to the user.
    pub fn to_string(&self) -> (text: String)
        ensures
            text@ == self@.text(),
    {
        match self {
            DownloadError::Cancelled => "Operation cancelled.".to_owned(),
            DownloadError::TooLarge { output } => output.clone().concat(
                "\n\nFiles larger than 2GB are not supported.",
            ),
            DownloadError::NoFiles { output } => output.clone(),
            DownloadError::ProcessFailed { reason } => reason.clone(),
        }
    }
}

/// Whether a file is an intermediate voice artifact, to be delivered under
/// another name: only a voice task has such files, and they end in `.opus`.
pub open spec fn needs_rename(path: Seq<char>, media_type: MediaType) -> bool {
    media_type == MediaType::Voice && has_suffix(path, ".opus"@)
}

/// The path under which a qualifying file is delivered.
pub open spec fn delivered_path(path: Seq<char>, media_type: MediaType, voice_name: Seq<char>) -> Seq<
    char,
> {
    if needs_rename(path, media_type) {
        voice_name
    } else {
        path
    }
}

/// The paths to deliver: the qualifying files of `entries`, in order, each
/// under the path it is delivered by.
pub open spec fn harvest_paths(
    entries: Seq<FileEntry>,
    media_type: MediaType,
    voice_name: Seq<char>,
) -> Seq<Seq<char>>
    decreases entries.len(),
{
    if entries.len() == 0 {
        seq![]
    } else {
        let rest = harvest_paths(entries.drop_last(), media_type, voice_name);
        if entries.last().qualifies(media_type) {
            rest.push(delivered_path(entries.last().path@, media_type, voice_name))
        } else {
            rest
        }
    }
}

/// The moves to make: for each qualifying file of `entries` that needs
/// another name, in order, its path and the new one.
pub open spec fn harvest_renames(
    entries: Seq<FileEntry>,
    media_type: MediaType,
    voice_name: Seq<char>,
) -> Seq<(Seq<char>, Seq<char>)>
    decreases entries.len(),
{
    if entries.len() == 0 {
        seq![]
    } else {
        let rest = harvest_renames(entries.drop_last(), media_type, voice_name);
        if entries.last().qualifies(media_type) && needs_rename(entries.last().path@, media_type) {
            rest.push((entries.last().path@, voice_name))
        } else {
            rest
        }
    }
}

/// The matching files of `entries` that are too large, in order.
pub open spec fn oversized_paths(entries: Seq<FileEntry>, media_type: MediaType) -> Seq<Seq<char>>
    decreases entries.len(),
{
    if entries.len() == 0 {
        seq![]
    } else {
        let rest = oversized_paths(entries.drop_last(), media_type);
        if entries.last().is_oversized(media_type) {
            rest.push(entries.last().path@)
        } else {
            rest
        }
    }
}

/// The moves of a harvest as the contracts read them.
pub open spec fn moves(renames: Seq<Rename>) -> Seq<(Seq<char>, Seq<char>)> {
    renames.map_values(|rename: Rename| (rename.from@, rename.to@))
}

/// What `outcome` says when nothing qualifies.
pub open spec fn empty_handed(outcome: RunOutcome, any_oversized: bool) -> DownloadErrorModel {
    match outcome {
        RunOutcome::Cancelled => DownloadErrorModel::Cancelled,
        RunOutcome::Failed(reason) => DownloadErrorModel::ProcessFailed { reason: reason@ },
        RunOutcome::Exited(output) => if any_oversized {
            DownloadErrorModel::TooLarge { output: output@ }
        } else {
            DownloadErrorModel::NoFiles { output: output@ }
        },
    }
}

/// As many paths are delivered as files qualify.
pub proof fn lemma_harvest_len(entries: Seq<FileEntry>, media_type: MediaType, voice_name: Seq<char>)
    ensures
        harvest_paths(entries, media_type, voice_name).len() == qualifying_count(
            entries,
            media_type,
        ),
    decreases entries.len(),
{
    if entries.len() > 0 {
        lemma_harvest_len(entries.drop_last(), media_type, voice_name);
    }
}

/// Every delivered path stands for a qualifying file: one that matches the
/// filter and is under the size ceiling. No oversized file is among them,
/// however many files qualify.
pub proof fn harvest_excludes_oversized(
    entries: Seq<FileEntry>,
    media_type: MediaType,
    voice_name: Seq<char>,
    at: int,
)
    requires
        0 <= at < harvest_paths(entries, media_type, voice_name).len(),
    ensures
        exists|i: int|
            0 <= i < entries.len() && (#[trigger] entries[i]).qualifies(media_type)
                && !entries[i].is_oversized(media_type) && harvest_paths(
                entries,
                media_type,
                voice_name,
            )[at] == delivered_path(entries[i].path@, media_type, voice_name),
    decreases entries.len(),
{
    let rest = harvest_paths(entries.drop_last(), media_type, voice_name);
    if entries.last().qualifies(media_type) && at == rest.len() {
        assert(entries[entries.len() - 1].qualifies(media_type));
    } else {
        harvest_excludes_oversized(entries.drop_last(), media_type, voice_name, at);
        let i = choose|i: int|
            0 <= i < entries.drop_last().len() && (#[trigger] entries.drop_last()[i]).qualifies(
                media_type,
            ) && rest[at] == delivered_path(entries.drop_last()[i].path@, media_type, voice_name);
        assert(entries[i] == entries.drop_last()[i]);
    }
}

/// A file is delivered under a voice note's name exactly when the task is
/// a voice task and the file ends in `.opus`; every other file, and every
/// file of a task of another kind, is delivered under its own name.
pub proof fn rename_only_for_voice(path: Seq<char>, media_type: MediaType, voice_name: Seq<char>)
    ensures
        media_type == MediaType::Voice && has_suffix(path, ".opus"@) ==> delivered_path(
            path,
            media_type,
            voice_name,
        ) == voice_name,
        media_type != MediaType::Voice ==> delivered_path(path, media_type, voice_name) == path,
        !has_suffix(path, ".opus"@) ==> delivered_path(path, media_type, voice_name) == path,
{
}

/// Sums up a finished run. `entries` are the regular files found in the
/// working directory `dest`, in the order in which they are to go out, and
/// `now_secs` is the moment of the look, in seconds since the epoch.
///
/// A cancelled run yields nothing, whatever it wrote. Otherwise the run
/// succeeds if and only if at least one file qualifies; what the process
/// itself reported does not decide. The qualifying files are delivered in
/// order, a voice task's `.opus` files under the name of a voice note; the
/// matching files at or over the size ceiling are listed as skipped. With
/// no qualifying file the error says why: only oversized files, no files at
/// all, or a process that did not run.
pub fn collect(
    outcome: RunOutcome,
    entries: &Vec<FileEntry>,
    media_type: MediaType,
    dest: &str,
    now_secs: u64,
) -> (harvest: Result<Harvest, DownloadError>)
    requires
        now_secs < TIMESTAMP_LIMIT,
    ensures
        harvest is Ok <==> !(outcome is Cancelled) && qualifying_count(entries@, media_type) > 0,
        match harvest {
            Ok(found) => {
                let voice_name = voice_note_path(dest@, now_secs);
                &&& texts(found.downloads.paths@) == harvest_paths(
                    entries@,
                    media_type,
                    voice_name,
                )
                &&& found.downloads.paths@.len() == qualifying_count(entries@, media_type)
                &&& found.downloads.folder@ == dest@
                &&& moves(found.renames@) == harvest_renames(entries@, media_type, voice_name)
                &&& texts(found.skipped@) == oversized_paths(entries@, media_type)
            },
            Err(error) => error@ == empty_handed(
                outcome,
                oversized_paths(entries@, media_type).len() > 0,
            ),
        },
{
    let output = match outcome {
        RunOutcome::Cancelled => {
            return Err(DownloadError::Cancelled);
        },
        RunOutcome::Exited(output) => Ok(output),
        RunOutcome::Failed(reason) => Err(reason),
    };
    let voice_name = voice_note_name(dest, now_secs);
    let mut paths: Vec<String> = Vec::new();
    let mut renames: Vec<Rename> = Vec::new();
    let mut skipped: Vec<String> = Vec::new();
    let mut i: usize = 0;
    assert(entries@.take(0) =~= Seq::<FileEntry>::empty());
    assert(texts(paths@) =~= Seq::<Seq<char>>::empty());
    assert(texts(skipped@) =~= Seq::<Seq<char>>::empty());
    assert(moves(renames@) =~= Seq::<(Seq<char>, Seq<char>)>::empty());
    while i < entries.len()
        invariant
            i <= entries.len(),
            voice_name@ == voice_note_path(dest@, now_secs),
            texts(paths@) == harvest_paths(entries@.take(i as int), media_type, voice_name@),
            moves(renames@) == harvest_renames(entries@.take(i as int), media_type, voice_name@),
            texts(skipped@) == oversized_paths(entries@.take(i as int), media_type),
        decreases entries.len() - i,
    {
        assert(entries@.take(i as int + 1).drop_last() =~= entries@.take(i as int));
        assert(entries@.take(i as int + 1).last() == entries@[i as int]);
        let ghost had_paths = paths@;
        let ghost had_renames = renames@;
        let ghost had_skipped = skipped@;
        let entry = &entries[i];
        if entry.has_extension_of(media_type) {
            if entry.size < SIZE_CEILING {
                let voice = match media_type {
                    MediaType::Voice => true,
                    _ => false,
                };
                if voice && ends_with(entry.path.as_str(), ".opus") {
                    renames.push(Rename { from: entry.path.clone(), to: voice_name.clone() });
                    paths.push(voice_name.clone());
                    assert(moves(renames@) =~= moves(had_renames).push(
                        (entry.path@, voice_name@),
                    ));
                    assert(texts(paths@) =~= texts(had_paths).push(voice_name@));
                } else {
                    paths.push(entry.path.clone());
                    assert(texts(paths@) =~= texts(had_paths).push(entry.path@));
                }
            } else {
                skipped.push(entry.path.clone());
                assert(texts(skipped@) =~= texts(had_skipped).push(entry.path@));
            }
        }
        i += 1;
    }
    assert(entries@.take(entries.len() as int) =~= entries@);
    proof {
        lemma_harvest_len(entries@, media_type, voice_name@);
        assert(texts(paths@).len() == paths@.len());
        assert(texts(skipped@).len() == skipped@.len());
    }
    if paths.len() > 0 {
        Ok(Harvest { downloads: Downloads { paths, folder: dest.to_owned() }, renames, skipped })
    } else {
        match output {
            Ok(output) => if skipped.len() > 0 {
                Err(DownloadError::TooLarge { output })
            } else {
                Err(DownloadError::NoFiles { output })
            },
            Err(reason) => Err(DownloadError::ProcessFailed { reason }),
        }
    }
}

} // verus!
