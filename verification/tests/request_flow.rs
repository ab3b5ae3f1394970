use telepirate::download::{collect, DownloadError, Downloads, Harvest, Rename, RunOutcome};
use telepirate::folder::FileEntry;
use telepirate::ident::TaskId;
use telepirate::mediatype::MediaType;
use telepirate::request::{Attempt, Effect, Event, RequestFlow, Stage};

const DEST: &str = "/tmp/telepirate-downloads/00000000-0000-0000-0000-000000000007";
const NOW: u64 = 1_518_568_087;

fn entry(name: &str, size: u64) -> FileEntry {
    FileEntry { path: format!("{DEST}/{name}"), size }
}

fn show(effects: &Vec<Effect>) -> Vec<String> {
    effects.iter().map(|effect| format!("{effect:?}")).collect()
}

fn begin(media_type: MediaType) -> RequestFlow {
    let (flow, _) = RequestFlow::begin(TaskId { uuid: 7 }, media_type, "https://example.net/".to_string());
    flow
}

fn harvest(paths: &[&str]) -> Harvest {
    Harvest {
        downloads: Downloads {
            paths: paths.iter().map(|path| path.to_string()).collect(),
            folder: DEST.to_string(),
        },
        renames: Vec::new(),
        skipped: Vec::new(),
    }
}

fn refused() -> Event {
    Event::Attempted(Attempt::Refused("flood".to_string()))
}

#[test]
fn request_opens_with_reply_poller_folder_and_downloader() {
    let (flow, effects) =
        RequestFlow::begin(TaskId { uuid: 7 }, MediaType::Mp3, "https://example.net/a".to_string());
    assert_eq!(flow.stage(), Stage::Downloading);
    assert_eq!(flow.folder(), DEST);
    assert_eq!(effects.len(), 4);
    assert!(matches!(&effects[0], Effect::Tell(text) if text == "Preparing the download..."));
    assert!(matches!(&effects[1], Effect::StartPoller));
    assert!(matches!(&effects[2], Effect::ResetFolder(folder) if folder == DEST));
    match &effects[3] {
        Effect::RunDownloader { folder, args } => {
            assert_eq!(folder, DEST);
            assert_eq!(args.len(), 18);
            assert_eq!(args[0], "--concurrent-fragments");
            assert_eq!(args[17], "https://example.net/a");
        }
        other => panic!("unexpected {other:?}"),
    }
}

#[test]
fn failed_download_gives_up_without_sending() {
    let mut flow = begin(MediaType::Mp4);
    let error = DownloadError::TooLarge { output: "log".to_string() };
    let effects = flow.step(Event::DownloadEnded(Err(error)));
    assert_eq!(flow.stage(), Stage::Finished);
    assert_eq!(effects.len(), 4);
    assert!(matches!(&effects[0], Effect::StopPoller));
    assert!(matches!(&effects[1], Effect::RemoveFolder(folder) if folder == DEST));
    assert!(matches!(&effects[2], Effect::Tell(text)
        if text == "log\n\nFiles larger than 2GB are not supported."));
    assert!(matches!(&effects[3], Effect::Conclude { delivered: false }));
    assert!(!effects.iter().any(|effect| matches!(effect, Effect::Send { .. })));
}

#[test]
fn cancelled_download_cleans_up() {
    let mut flow = begin(MediaType::Mp3);
    let partial = vec![entry("half.mp3", 10)];
    let summed = collect(RunOutcome::Cancelled, &partial, MediaType::Mp3, DEST, NOW);
    let effects = flow.step(Event::DownloadEnded(summed));
    assert_eq!(flow.stage(), Stage::Finished);
    assert_eq!(
        show(&effects),
        vec![
            "StopPoller".to_string(),
            format!("RemoveFolder({DEST:?})"),
            "Tell(\"Operation cancelled.\")".to_string(),
            "Conclude { delivered: false }".to_string(),
        ]
    );
}

#[test]
fn harvest_stops_poller_then_offers_first_file() {
    let mut flow = begin(MediaType::Mp3);
    let effects = flow.step(Event::DownloadEnded(Ok(harvest(&["/w/a.mp3", "/w/b.mp3"]))));
    assert_eq!(flow.stage(), Stage::Delivering { index: 0, attempt: 1 });
    assert_eq!(effects.len(), 2);
    assert!(matches!(&effects[0], Effect::StopPoller));
    assert!(matches!(&effects[1], Effect::Send { path, media_type: MediaType::Mp3 } if path == "/w/a.mp3"));
}

#[test]
fn voice_harvest_moves_before_it_offers() {
    let mut flow = begin(MediaType::Voice);
    let files = vec![entry("talk.opus", 10), entry("talk.jpg", 1)];
    let summed = collect(RunOutcome::Exited(String::new()), &files, MediaType::Voice, DEST, NOW);
    let effects = flow.step(Event::DownloadEnded(summed));
    let target = format!("{DEST}/audio_2018-02-14_00-28-07.ogg");
    assert_eq!(effects.len(), 3);
    assert!(matches!(&effects[0], Effect::StopPoller));
    assert!(matches!(&effects[1], Effect::Rename { from, to }
        if *from == format!("{DEST}/talk.opus") && *to == target));
    assert!(matches!(&effects[2], Effect::Send { path, media_type: MediaType::Voice } if *path == target));
}

#[test]
fn several_moves_keep_their_order() {
    let mut flow = begin(MediaType::Voice);
    let found = Harvest {
        downloads: Downloads { paths: vec!["x.ogg".to_string(), "y.ogg".to_string()], folder: DEST.to_string() },
        renames: vec![
            Rename { from: "a.opus".to_string(), to: "x.ogg".to_string() },
            Rename { from: "b.opus".to_string(), to: "y.ogg".to_string() },
        ],
        skipped: vec!["big.opus".to_string()],
    };
    let effects = flow.step(Event::DownloadEnded(Ok(found)));
    assert_eq!(effects.len(), 4);
    assert!(matches!(&effects[1], Effect::Rename { from, to } if from == "a.opus" && to == "x.ogg"));
    assert!(matches!(&effects[2], Effect::Rename { from, to } if from == "b.opus" && to == "y.ogg"));
    assert!(matches!(&effects[3], Effect::Send { path, .. } if path == "x.ogg"));
}

#[test]
fn empty_harvest_is_a_failure() {
    let mut flow = begin(MediaType::Mp3);
    let effects = flow.step(Event::DownloadEnded(Ok(harvest(&[]))));
    assert_eq!(flow.stage(), Stage::Finished);
    assert_eq!(effects.len(), 4);
    assert!(matches!(&effects[2], Effect::Tell(text) if text == "No files to send."));
    assert!(matches!(&effects[3], Effect::Conclude { delivered: false }));
}

#[test]
fn files_go_out_one_after_another() {
    let mut flow = begin(MediaType::Mp3);
    flow.step(Event::DownloadEnded(Ok(harvest(&["a", "b", "c"]))));
    let effects = flow.step(Event::Attempted(Attempt::Sent));
    assert_eq!(flow.stage(), Stage::Delivering { index: 1, attempt: 1 });
    assert_eq!(effects.len(), 1);
    assert!(matches!(&effects[0], Effect::Send { path, .. } if path == "b"));
    let effects = flow.step(Event::Attempted(Attempt::Sent));
    assert_eq!(flow.stage(), Stage::Delivering { index: 2, attempt: 1 });
    assert!(matches!(&effects[0], Effect::Send { path, .. } if path == "c"));
    let effects = flow.step(Event::Attempted(Attempt::Sent));
    assert_eq!(flow.stage(), Stage::Finished);
    assert_eq!(effects.len(), 3);
    assert!(matches!(&effects[0], Effect::RemoveFolder(folder) if folder == DEST));
    assert!(matches!(&effects[1], Effect::PurgeMessages));
    assert!(matches!(&effects[2], Effect::Conclude { delivered: true }));
}

#[test]
fn refusal_cools_down_reports_and_offers_again() {
    let mut flow = begin(MediaType::Mp3);
    flow.step(Event::DownloadEnded(Ok(harvest(&["/w/a.mp3"]))));
    let effects = flow.step(refused());
    assert_eq!(flow.stage(), Stage::Delivering { index: 0, attempt: 2 });
    assert_eq!(effects.len(), 3);
    assert!(matches!(&effects[0], Effect::Cooldown(10)));
    assert!(matches!(&effects[1], Effect::Tell(text)
        if text == "Attempt 1/10 at sending '/w/a.mp3' failed: flood"));
    assert!(matches!(&effects[2], Effect::Send { path, .. } if path == "/w/a.mp3"));
}

#[test]
fn tenth_attempt_can_still_deliver() {
    let mut flow = begin(MediaType::Mp3);
    flow.step(Event::DownloadEnded(Ok(harvest(&["/w/a.mp3"]))));
    for attempt in 1..=9u32 {
        assert_eq!(flow.stage(), Stage::Delivering { index: 0, attempt });
        let effects = flow.step(refused());
        assert_eq!(effects.len(), 3);
    }
    assert_eq!(flow.stage(), Stage::Delivering { index: 0, attempt: 10 });
    let effects = flow.step(Event::Attempted(Attempt::Sent));
    assert_eq!(flow.stage(), Stage::Finished);
    assert!(matches!(effects.last(), Some(Effect::Conclude { delivered: true })));
    assert!(!effects.iter().any(|effect| matches!(effect, Effect::Tell(_))));
}

#[test]
fn ten_refusals_abandon_the_file() {
    let mut flow = begin(MediaType::Mp3);
    flow.step(Event::DownloadEnded(Ok(harvest(&["/w/a.mp3", "/w/b.mp3"]))));
    let mut sends = 1;
    for _ in 1..=9 {
        let effects = flow.step(refused());
        sends += effects.iter().filter(|effect| matches!(effect, Effect::Send { .. })).count();
    }
    assert_eq!(sends, 10);
    let effects = flow.step(refused());
    assert_eq!(flow.stage(), Stage::Finished);
    assert_eq!(effects.len(), 4);
    assert!(matches!(&effects[0], Effect::Cooldown(10)));
    assert!(matches!(&effects[1], Effect::RemoveFolder(folder) if folder == DEST));
    assert!(matches!(&effects[2], Effect::Tell(text)
        if text == "Failed to send file after 10 attempts: /w/a.mp3"));
    assert!(matches!(&effects[3], Effect::Conclude { delivered: false }));
    assert!(flow.step(refused()).is_empty());
    assert!(flow.step(Event::Attempted(Attempt::Sent)).is_empty());
    assert_eq!(flow.stage(), Stage::Finished);
}

#[test]
fn attempts_start_over_for_the_next_file() {
    let mut flow = begin(MediaType::Mp3);
    flow.step(Event::DownloadEnded(Ok(harvest(&["a", "b"]))));
    flow.step(refused());
    flow.step(refused());
    assert_eq!(flow.stage(), Stage::Delivering { index: 0, attempt: 3 });
    flow.step(Event::Attempted(Attempt::Sent));
    assert_eq!(flow.stage(), Stage::Delivering { index: 1, attempt: 1 });
    let effects = flow.step(refused());
    assert!(matches!(&effects[1], Effect::Tell(text) if text == "Attempt 1/10 at sending 'b' failed: flood"));
}

#[test]
fn unprepared_file_is_a_hard_error() {
    let mut flow = begin(MediaType::Mp4);
    flow.step(Event::DownloadEnded(Ok(harvest(&["/w/a.mp4", "/w/b.mp4"]))));
    let reason = "Processing failed with exit code: 1".to_string();
    let effects = flow.step(Event::Attempted(Attempt::Unprepared(reason)));
    assert_eq!(flow.stage(), Stage::Finished);
    assert_eq!(effects.len(), 3);
    assert!(matches!(&effects[0], Effect::RemoveFolder(folder) if folder == DEST));
    assert!(matches!(&effects[1], Effect::Tell(text) if text == "Processing failed with exit code: 1"));
    assert!(matches!(&effects[2], Effect::Conclude { delivered: false }));
}

#[test]
fn events_that_do_not_fit_are_ignored() {
    let mut flow = begin(MediaType::Mp3);
    assert!(flow.step(Event::Attempted(Attempt::Sent)).is_empty());
    assert!(flow.step(refused()).is_empty());
    assert_eq!(flow.stage(), Stage::Downloading);
    flow.step(Event::DownloadEnded(Ok(harvest(&["a"]))));
    assert!(flow.step(Event::DownloadEnded(Ok(harvest(&["z"])))).is_empty());
    assert!(flow.step(Event::DownloadEnded(Err(DownloadError::Cancelled))).is_empty());
    assert_eq!(flow.stage(), Stage::Delivering { index: 0, attempt: 1 });
    flow.step(Event::Attempted(Attempt::Sent));
    assert_eq!(flow.stage(), Stage::Finished);
    assert!(flow.step(Event::DownloadEnded(Ok(harvest(&["z"])))).is_empty());
    assert_eq!(flow.stage(), Stage::Finished);
}

#[test]
fn scenario_video_request_runs_to_success() {
    let mut flow = begin(MediaType::Mp4);
    let files = vec![entry("clip.jpg", 40_000), entry("clip.mp4", 50 * 1024 * 1024)];
    let summed = collect(RunOutcome::Exited("ok".to_string()), &files, MediaType::Mp4, DEST, NOW);
    let mut sends = Vec::new();
    let mut log = Vec::new();
    let mut pending = flow.step(Event::DownloadEnded(summed));
    loop {
        let mut offered = false;
        for effect in pending {
            if let Effect::Send { path, media_type } = &effect {
                assert_eq!(*media_type, MediaType::Mp4);
                sends.push(path.clone());
                offered = true;
            }
            log.push(format!("{effect:?}"));
        }
        if !offered {
            break;
        }
        pending = flow.step(Event::Attempted(Attempt::Sent));
    }
    assert_eq!(sends, vec![format!("{DEST}/clip.mp4")]);
    assert_eq!(flow.stage(), Stage::Finished);
    assert_eq!(
        log[log.len() - 3..].to_vec(),
        vec![
            format!("RemoveFolder({DEST:?})"),
            "PurgeMessages".to_string(),
            "Conclude { delivered: true }".to_string(),
        ]
    );
}

#[test]
fn scenario_oversized_only_never_delivers() {
    let mut flow = begin(MediaType::Mp4);
    let files = vec![entry("film.mp4", 2_500_000_000)];
    let summed = collect(RunOutcome::Exited("done".to_string()), &files, MediaType::Mp4, DEST, NOW);
    let effects = flow.step(Event::DownloadEnded(summed));
    assert!(!effects.iter().any(|effect| matches!(effect, Effect::Send { .. })));
    assert!(effects.iter().any(|effect| matches!(effect, Effect::Tell(text)
        if text.contains("Files larger than 2GB are not supported."))));
    assert!(matches!(effects.last(), Some(Effect::Conclude { delivered: false })));
}
