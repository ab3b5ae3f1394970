use telepirate::database::{
    delete_by_task_id, select_all, select_by_chat_id, select_by_task_id, table_name,
    update_by_task_id, Layout,
};
use telepirate::folder::{FileEntry, FolderData, Metadata, SIZE_CEILING};
use telepirate::mediatype::MediaType;
use telepirate::poller::{PollAction, PollEvent, ProgressPoller, POLL_INTERVAL_SECS};
use telepirate::text::{decimal_text, ends_with, split_text, MESSAGE_LIMIT, TOO_LARGE_NOTICE, TRACEBACK_LIMIT};

fn entry(path: &str, size: u64) -> FileEntry {
    FileEntry { path: path.to_string(), size }
}

fn mb(bytes: usize) -> String {
    FolderData { size_in_bytes: bytes, file_count: 0 }.format_bytes_to_megabytes()
}

#[test]
fn decimal_text_of_edges() {
    assert_eq!(decimal_text(0), "0");
    assert_eq!(decimal_text(9), "9");
    assert_eq!(decimal_text(10), "10");
    assert_eq!(decimal_text(4096), "4096");
    assert_eq!(decimal_text(1234567890), "1234567890");
    assert_eq!(decimal_text(u128::MAX), u128::MAX.to_string());
}

#[test]
fn ends_with_tests_the_tail() {
    assert!(ends_with("song.mp3", "mp3"));
    assert!(ends_with("song.mp3", ".mp3"));
    assert!(ends_with("mp3", "mp3"));
    assert!(ends_with("anything", ""));
    assert!(!ends_with("p3", "mp3"));
    assert!(!ends_with("song.mp3.part", "mp3"));
    assert!(!ends_with("song.MP3", "mp3"));
    assert!(ends_with("пісня.opus", ".opus"));
    assert!(ends_with("x.песня", "песня"));
    assert!(!ends_with("", "a"));
}

#[test]
fn short_text_is_one_message() {
    assert_eq!(split_text("hello"), vec!["hello".to_string()]);
    assert_eq!(split_text(""), vec![String::new()]);
}

#[test]
fn text_at_the_limit_is_one_message() {
    let text = "a".repeat(MESSAGE_LIMIT);
    assert_eq!(split_text(&text), vec![text.clone()]);
}

#[test]
fn text_over_the_limit_is_cut_every_4096_bytes() {
    let text = "a".repeat(4096) + "b";
    assert_eq!(split_text(&text), vec!["a".repeat(4096), "b".to_string()]);
    let text = "a".repeat(4096) + &"b".repeat(4096) + &"c".repeat(100);
    assert_eq!(
        split_text(&text),
        vec!["a".repeat(4096), "b".repeat(4096), "c".repeat(100)]
    );
}

#[test]
fn longest_text_that_is_still_sent() {
    let text = "x".repeat(TRACEBACK_LIMIT);
    let chunks = split_text(&text);
    assert_eq!(chunks.len(), 4);
    for chunk in &chunks {
        assert_eq!(chunk.len(), 4096);
    }
    assert_eq!(chunks.concat(), text);
}

#[test]
fn text_over_the_large_limit_becomes_a_notice() {
    let text = "x".repeat(TRACEBACK_LIMIT + 1);
    assert_eq!(
        split_text(&text),
        vec!["Error traceback is too large. Read the logs for more info.".to_string()]
    );
    assert_eq!(split_text(&"y".repeat(100_000)), vec![TOO_LARGE_NOTICE.to_string()]);
}

#[test]
fn limits_count_bytes_not_characters() {
    let text = "é".repeat(2048);
    assert_eq!(text.len(), 4096);
    assert_eq!(split_text(&text), vec![text.clone()]);
    let text = "é".repeat(2049);
    assert_eq!(split_text(&text), vec!["é".repeat(2048), "é".to_string()]);
    let text = "é".repeat(8193);
    assert_eq!(text.len(), 16386);
    assert_eq!(split_text(&text), vec![TOO_LARGE_NOTICE.to_string()]);
}

#[test]
fn character_cut_in_two_shows_as_replacement() {
    let text = "a".repeat(4095) + "é" + "b";
    assert_eq!(text.len(), 4098);
    let chunks = split_text(&text);
    assert_eq!(chunks.len(), 2);
    assert_eq!(chunks[0], "a".repeat(4095) + "\u{FFFD}");
    assert_eq!(chunks[1], "\u{FFFD}b");
}

#[test]
fn megabytes_of_round_sizes() {
    assert_eq!(mb(0), "0.00 MB");
    assert_eq!(mb(1_048_576), "1.00 MB");
    assert_eq!(mb(1_572_864), "1.50 MB");
    assert_eq!(mb(52_428_800), "50.00 MB");
    assert_eq!(mb(2_000_000_000), "1907.35 MB");
    assert_eq!(mb(1), "0.00 MB");
    assert_eq!(mb(5_242), "0.00 MB");
    assert_eq!(mb(5_243), "0.01 MB");
    assert_eq!(mb(1_048_575), "1.00 MB");
    assert_eq!(mb(10_485_760), "10.00 MB");
    assert_eq!(mb(104_857), "0.10 MB");
}

#[test]
fn megabytes_of_sizes_beyond_exact_counting() {
    assert_eq!(mb((1 << 53) + 1), "8589934592.00 MB");
    assert_eq!(mb(usize::MAX), "17592186044416.00 MB");
    assert_eq!(mb((1 << 60) + 131072 + 128), "1099511627776.12 MB");
    assert_eq!(mb((1 << 60) + 131072 + 129), "1099511627776.13 MB");
}

#[test]
fn megabytes_halfway_goes_to_even() {
    assert_eq!(mb(131_072), "0.12 MB");
    assert_eq!(mb(393_216), "0.38 MB");
    assert_eq!(mb(655_360), "0.62 MB");
    assert_eq!(mb(917_504), "0.88 MB");
}

#[test]
fn megabytes_agree_with_floating_point_formatting() {
    let mut samples: Vec<usize> = vec![
        0, 1, 2, 999, 1023, 1024, 5242, 5243, 10485, 10486, 52428, 52429, 131071, 131072, 131073,
        393215, 393216, 393217, 1048575, 1048576, 1048577, 1999999999, 2000000000, 2500000000,
        4294967295, 4294967296, 1 << 40, (1 << 40) + 131072, (1 << 52) + 131072, (1 << 53) - 1,
        1 << 53, (1 << 53) + 1, (1 << 53) + 2, (1 << 53) + 3, (1 << 54) + 2, (1 << 54) + 6,
        (1 << 60) + 12345, (1 << 63) + 1024, (1 << 63) + 1025, usize::MAX - 1024, usize::MAX,
    ];
    let mut x: u64 = 0x9E37_79B9_7F4A_7C15;
    for _ in 0..20000 {
        x ^= x << 13;
        x ^= x >> 7;
        x ^= x << 17;
        samples.push((x >> 20) as usize);
        samples.push((x >> 40) as usize);
        samples.push(((x >> 44) as usize) * 131072);
        samples.push(x as usize);
        samples.push((x >> 5) as usize);
    }
    for bytes in samples {
        let expected = format!("{:.2} MB", bytes as f64 / (1024.0 * 1024.0));
        assert_eq!(mb(bytes), expected, "for {bytes} bytes");
    }
}

#[test]
fn folder_counts_qualifying_files_only() {
    let entries = vec![
        entry("/w/a.mp3", 100),
        entry("/w/b.mp3", 200),
        entry("/w/b.jpg", 50),
        entry("/w/c.mp3.part", 1_000),
        entry("/w/huge.mp3", SIZE_CEILING),
        entry("/w/d.mp4", 70),
    ];
    let data = FolderData::from(&entries, MediaType::Mp3);
    assert_eq!(data, FolderData { size_in_bytes: 300, file_count: 2 });
    let data = FolderData::from(&entries, MediaType::Mp4);
    assert_eq!(data, FolderData { size_in_bytes: 70, file_count: 1 });
    let data = FolderData::from(&entries, MediaType::Voice);
    assert_eq!(data, FolderData { size_in_bytes: 0, file_count: 0 });
}

#[test]
fn empty_folder_is_empty() {
    let data = FolderData::from(&Vec::new(), MediaType::Mp3);
    assert_eq!(data, FolderData { size_in_bytes: 0, file_count: 0 });
}

#[test]
fn size_ceiling_is_exclusive() {
    assert_eq!(SIZE_CEILING, 2_000_000_000);
    assert!(entry("a.mp3", SIZE_CEILING - 1).is_qualifying(MediaType::Mp3));
    assert!(!entry("a.mp3", SIZE_CEILING).is_qualifying(MediaType::Mp3));
    assert!(!entry("a.mp3", 2_500_000_000).is_qualifying(MediaType::Mp3));
    assert!(!entry("a.mp4", 1).is_qualifying(MediaType::Mp3));
    assert!(entry("a.mp3", SIZE_CEILING).has_extension_of(MediaType::Mp3));
    assert!(entry("a.opus", 0).is_qualifying(MediaType::Voice));
}

#[test]
fn folder_sums_many_large_files() {
    let entries: Vec<FileEntry> =
        (0..10).map(|i| entry(&format!("/w/{i}.mp4"), SIZE_CEILING - 1)).collect();
    let data = FolderData::from(&entries, MediaType::Mp4);
    assert_eq!(data.file_count, 10);
    assert_eq!(data.size_in_bytes, 19_999_999_990);
}

#[test]
fn metadata_defaults_to_zero() {
    assert_eq!(Metadata::default(), Metadata { width: 0, height: 0, duration: 0 });
    assert_eq!(Metadata::from_probe(None, None, None), Metadata::default());
}

#[test]
fn metadata_from_a_probe() {
    assert_eq!(
        Metadata::from_probe(Some(1920), Some(1080), Some(213)),
        Metadata { width: 1920, height: 1080, duration: 213 }
    );
    assert_eq!(
        Metadata::from_probe(Some(1920), None, Some(1)),
        Metadata { width: 1920, height: 0, duration: 1 }
    );
    assert_eq!(
        Metadata::from_probe(Some(0x1_0000_0005), Some(u64::MAX), None),
        Metadata { width: 5, height: u32::MAX, duration: 0 }
    );
}

#[test]
fn progress_line_wording() {
    let data = FolderData { size_in_bytes: 1_572_864, file_count: 3 };
    assert_eq!(
        ProgressPoller::format(&data),
        "Downloading... Please wait.\nFiles to send: 3.\nTotal size: 1.50 MB."
    );
    let data = FolderData { size_in_bytes: 0, file_count: 0 };
    assert_eq!(
        ProgressPoller::format(&data),
        "Downloading... Please wait.\nFiles to send: 0.\nTotal size: 0.00 MB."
    );
}

#[test]
fn poll_interval_is_five_seconds() {
    assert_eq!(POLL_INTERVAL_SECS, 5);
}

#[test]
fn first_tick_edits() {
    let mut poller = ProgressPoller::new();
    let data = FolderData { size_in_bytes: 0, file_count: 0 };
    match poller.step(PollEvent::Tick(data)) {
        PollAction::Edit(text) => assert_eq!(text, ProgressPoller::format(&data)),
        other => panic!("unexpected {other:?}"),
    }
}

#[test]
fn same_status_twice_edits_once() {
    let mut poller = ProgressPoller::new();
    let data = FolderData { size_in_bytes: 2_097_152, file_count: 1 };
    assert!(matches!(poller.step(PollEvent::Tick(data)), PollAction::Edit(_)));
    assert!(matches!(poller.step(PollEvent::Tick(data)), PollAction::Skip));
    assert!(matches!(poller.step(PollEvent::Tick(data)), PollAction::Skip));
}

#[test]
fn same_text_from_other_sizes_is_no_edit() {
    let mut poller = ProgressPoller::new();
    let a = FolderData { size_in_bytes: 2_097_152, file_count: 1 };
    let b = FolderData { size_in_bytes: 2_097_153, file_count: 1 };
    assert_eq!(ProgressPoller::format(&a), ProgressPoller::format(&b));
    assert!(matches!(poller.step(PollEvent::Tick(a)), PollAction::Edit(_)));
    assert!(matches!(poller.step(PollEvent::Tick(b)), PollAction::Skip));
}

#[test]
fn changed_status_edits_exactly_once() {
    let mut poller = ProgressPoller::new();
    let a = FolderData { size_in_bytes: 1_048_576, file_count: 1 };
    let b = FolderData { size_in_bytes: 3_145_728, file_count: 2 };
    let mut edits = Vec::new();
    for data in [a, a, b, b, b, a, b] {
        match poller.step(PollEvent::Tick(data)) {
            PollAction::Edit(text) => edits.push(text),
            PollAction::Skip => {}
            other => panic!("unexpected {other:?}"),
        }
    }
    assert_eq!(
        edits,
        vec![
            ProgressPoller::format(&a),
            ProgressPoller::format(&b),
            ProgressPoller::format(&a),
            ProgressPoller::format(&b),
        ]
    );
    for pair in edits.windows(2) {
        assert_ne!(pair[0], pair[1]);
    }
}

#[test]
fn cancellation_closes_the_message() {
    let mut poller = ProgressPoller::new();
    match poller.step(PollEvent::Cancelled) {
        PollAction::Finish(text) => assert_eq!(text, "Downloading finalized."),
        other => panic!("unexpected {other:?}"),
    }
    let data = FolderData { size_in_bytes: 1, file_count: 1 };
    assert!(matches!(poller.step(PollEvent::Tick(data)), PollAction::Edit(_)));
    assert!(matches!(poller.step(PollEvent::Cancelled), PollAction::Finish(_)));
    assert!(matches!(poller.step(PollEvent::Tick(data)), PollAction::Skip));
}

#[test]
fn tables_of_development_builds_are_apart() {
    assert_eq!(table_name("TaskState", true), "TaskState_dev");
    assert_eq!(table_name("TaskState", false), "TaskState");
    assert_eq!(table_name("", true), "_dev");
}

#[test]
fn queries_for_flat_records() {
    assert_eq!(select_all("TrackedMessage_dev"), "SELECT * FROM TrackedMessage_dev");
    assert_eq!(
        select_by_task_id("TrackedMessage", Layout::Flat),
        "SELECT * FROM TrackedMessage WHERE task_id = $task_id_object"
    );
    assert_eq!(
        select_by_chat_id("TrackedMessage", Layout::Flat),
        "SELECT * FROM TrackedMessage WHERE chat_id = $chat_id_object"
    );
    assert_eq!(
        delete_by_task_id("TrackedMessage", Layout::Flat),
        "DELETE FROM TrackedMessage WHERE task_id = $task_id_object"
    );
    assert_eq!(
        update_by_task_id("TrackedMessage", Layout::Flat),
        "UPDATE TrackedMessage CONTENT $self_object WHERE task_id = $task_id_object"
    );
}

#[test]
fn queries_for_tagged_records() {
    assert_eq!(
        select_by_task_id("TaskState", Layout::Tagged),
        "SELECT * FROM TaskState WHERE data.task_id = $task_id_object"
    );
    assert_eq!(
        select_by_chat_id("TaskState", Layout::Tagged),
        "SELECT * FROM TaskState WHERE data.chat_id = $chat_id_object"
    );
    assert_eq!(
        delete_by_task_id("TaskState", Layout::Tagged),
        "DELETE FROM TaskState WHERE data.task_id = $task_id_object"
    );
    assert_eq!(
        update_by_task_id("TaskState", Layout::Tagged),
        "UPDATE TaskState CONTENT $self_object WHERE data.task_id = $task_id_object"
    );
    assert_eq!(Layout::Flat.field_prefix(), "");
    assert_eq!(Layout::Tagged.field_prefix(), "data.");
}
