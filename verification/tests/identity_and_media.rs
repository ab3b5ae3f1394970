use telepirate::ident::{ChatId, MessageId, TaskId};
use telepirate::mediatype::MediaType;
use telepirate::trackedmessage::TrackedMessage;
use telepirate::traits::{HasChatId, HasTaskId};

#[test]
fn media_type_extensions() {
    assert_eq!(MediaType::Mp3.as_str(), "mp3");
    assert_eq!(MediaType::Mp4.as_str(), "mp4");
    assert_eq!(MediaType::Voice.as_str(), "opus");
}

#[test]
fn media_type_from_keyboard_payload() {
    assert_eq!(MediaType::from_callback_data("Audio"), Some(MediaType::Mp3));
    assert_eq!(MediaType::from_callback_data("Video"), Some(MediaType::Mp4));
    assert_eq!(
        MediaType::from_callback_data("Audio as voice message"),
        Some(MediaType::Voice)
    );
}

#[test]
fn media_type_rejects_unknown_payload() {
    assert_eq!(MediaType::from_callback_data(""), None);
    assert_eq!(MediaType::from_callback_data("audio"), None);
    assert_eq!(MediaType::from_callback_data("Video "), None);
    assert_eq!(MediaType::from_callback_data("mp3"), None);
}

#[test]
fn media_type_labels() {
    assert_eq!(MediaType::Mp3.to_string(), "audio");
    assert_eq!(MediaType::Mp4.to_string(), "video");
    assert_eq!(MediaType::Voice.to_string(), "audio as voice message");
}

#[test]
fn media_type_default_is_audio() {
    assert_eq!(MediaType::default(), MediaType::Mp3);
}

#[test]
fn task_id_text_is_hyphenated_lower_hex() {
    let id = TaskId { uuid: 0xa1a2a3a4b1b2c1c2d1d2d3d4d5d6d7d8u128 };
    assert_eq!(id.to_string(), "a1a2a3a4-b1b2-c1c2-d1d2-d3d4d5d6d7d8");
}

#[test]
fn task_id_text_keeps_leading_zeros() {
    assert_eq!(
        TaskId { uuid: 0 }.to_string(),
        "00000000-0000-0000-0000-000000000000"
    );
    assert_eq!(
        TaskId { uuid: 0xABCDEF }.to_string(),
        "00000000-0000-0000-0000-000000abcdef"
    );
    assert_eq!(
        TaskId { uuid: u128::MAX }.to_string(),
        "ffffffff-ffff-ffff-ffff-ffffffffffff"
    );
}

#[test]
fn fresh_task_ids_carry_version_and_variant() {
    for _ in 0..32 {
        let id = TaskId::new();
        assert_eq!((id.uuid >> 76) & 0xF, 4);
        assert_eq!((id.uuid >> 62) & 0x3, 2);
        assert_eq!(
            id.uuid & 0xF000_C000_0000_0000_0000u128,
            0x4000_8000_0000_0000_0000u128
        );
        assert_eq!(id.to_string().len(), 36);
    }
}

#[test]
fn fresh_task_ids_differ() {
    let a = TaskId::new();
    let b = TaskId::new();
    assert_ne!(a, b);
}

#[test]
fn task_ids_compare_by_value() {
    assert_eq!(TaskId { uuid: 7 }, TaskId { uuid: 7 });
    assert_ne!(TaskId { uuid: 7 }, TaskId { uuid: 8 });
    assert_eq!(ChatId(-100), ChatId(-100));
    assert_ne!(MessageId(1), MessageId(2));
}

#[test]
fn tracked_message_needs_a_conversation() {
    let task_id = TaskId { uuid: 1 };
    let entry = TrackedMessage::try_from(task_id, MessageId(42), Some(ChatId(7))).unwrap();
    assert_eq!(entry.task_id(), task_id);
    assert_eq!(entry.chat_id(), ChatId(7));
    assert_eq!(entry.message_id, MessageId(42));
    let refused = TrackedMessage::try_from(task_id, MessageId(42), None);
    assert_eq!(refused, Err("Message has no chat_id".to_string()));
}

#[test]
fn tracked_messages_give_their_places_in_order() {
    let task_id = TaskId { uuid: 1 };
    let entries = vec![
        TrackedMessage { task_id, message_id: MessageId(3), chat_id: ChatId(9) },
        TrackedMessage { task_id, message_id: MessageId(1), chat_id: ChatId(9) },
        TrackedMessage { task_id, message_id: MessageId(2), chat_id: ChatId(8) },
    ];
    assert_eq!(
        TrackedMessage::deletions(&entries),
        vec![
            (ChatId(9), MessageId(3)),
            (ChatId(9), MessageId(1)),
            (ChatId(8), MessageId(2)),
        ]
    );
    assert_eq!(TrackedMessage::deletions(&Vec::new()), Vec::new());
}
