use sticker_webhook::dispatch::dispatch;
use sticker_webhook::model::{Chat, Message, Sticker, Update};
use sticker_webhook::outbound::{OutboundPhoto, SendPhoto};

fn sticker_update(chat_id: i64, file_id: &str) -> Update {
    Update {
        message: Some(Message {
            chat: Chat { id: chat_id },
            sticker: Some(Sticker { file_id: file_id.to_string() }),
        }),
    }
}

#[test]
fn update_without_message_asks_for_nothing() {
    assert_eq!(dispatch(Update { message: None }), None);
}

#[test]
fn message_without_sticker_asks_for_nothing() {
    let update = Update { message: Some(Message { chat: Chat { id: 42 }, sticker: None }) };
    assert_eq!(dispatch(update), None);
}

#[test]
fn sticker_is_sent_to_the_chat_it_came_from() {
    assert_eq!(
        dispatch(sticker_update(42, "ABC")),
        Some(SendPhoto { chat_id: 42, photo: OutboundPhoto::FileId("ABC".to_string()) })
    );
}

#[test]
fn photo_is_referred_to_by_file_identifier_not_by_address() {
    let call = dispatch(sticker_update(7, "https://example.com/cat.webp")).unwrap();
    assert_eq!(call.photo, OutboundPhoto::FileId("https://example.com/cat.webp".to_string()));
    assert_ne!(call.photo, OutboundPhoto::FileUrl("https://example.com/cat.webp".to_string()));
}

#[test]
fn chat_identifiers_keep_their_full_range() {
    assert_eq!(dispatch(sticker_update(i64::MIN, "a")).unwrap().chat_id, i64::MIN);
    assert_eq!(dispatch(sticker_update(i64::MAX, "a")).unwrap().chat_id, i64::MAX);
    assert_eq!(dispatch(sticker_update(-1001234567890, "a")).unwrap().chat_id, -1001234567890);
}

#[test]
fn empty_file_identifier_is_still_a_sticker() {
    assert_eq!(
        dispatch(sticker_update(1, "")),
        Some(SendPhoto { chat_id: 1, photo: OutboundPhoto::FileId(String::new()) })
    );
}
