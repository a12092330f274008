use chat_transport::backup::{Backup, BackupInfo, CallError, CallFrame, CallFrameError};
use chat_transport::backup::{ChatError, ChatFrame, ChatFrameError, ChatItemError, ChatItemFrame};
use chat_transport::backup::{Frame, FrameItem, Method, PartialBackup, RecipientError};
use chat_transport::backup::{RecipientFrame, RecipientFrameError, StickerError};
use chat_transport::backup::{read_pack_id, StickerPackFrame, ValidationError};

const RECIPIENT_ID: u64 = 11111;
const CHAT_ID: u64 = 22222;
const CALL_ID: u64 = 33333;

fn empty(method: Method) -> PartialBackup {
    PartialBackup::new(BackupInfo { version: 1, backup_time_ms: 1000 }, method)
}

fn recipient() -> FrameItem {
    FrameItem::Recipient(RecipientFrame { id: RECIPIENT_ID })
}

fn chat() -> FrameItem {
    FrameItem::Chat(ChatFrame { id: CHAT_ID, recipient_id: RECIPIENT_ID })
}

fn call() -> FrameItem {
    FrameItem::Call(CallFrame { call_id: CALL_ID, recipient_id: RECIPIENT_ID })
}

fn chat_item() -> FrameItem {
    FrameItem::ChatItem(ChatItemFrame { chat_id: CHAT_ID, author_id: RECIPIENT_ID })
}

fn fake(method: Method) -> PartialBackup {
    let mut backup = empty(method);
    for item in [recipient(), chat(), call(), chat_item()] {
        backup.add_frame_item(item).expect("can add one");
    }
    backup
}

#[test]
fn rejects_duplicate_id() {
    for method in [Method::ValidateOnly, Method::Store] {
        let mut partial = fake(method);
        assert_eq!(
            partial.add_frame_item(recipient()),
            Err(ValidationError::RecipientError(RecipientFrameError(
                RECIPIENT_ID,
                RecipientError::DuplicateRecipient
            )))
        );
        assert_eq!(
            partial.add_frame_item(chat()),
            Err(ValidationError::ChatError(ChatFrameError(CHAT_ID, ChatError::DuplicateId)))
        );
        assert_eq!(
            partial.add_frame_item(call()),
            Err(ValidationError::CallError(CallFrameError(CALL_ID, CallError::DuplicateId)))
        );
    }
}

#[test]
fn rejects_missing_foreign_key() {
    for method in [Method::ValidateOnly, Method::Store] {
        let mut partial = empty(method);
        assert_eq!(
            partial.add_frame(Frame { item: Some(chat()) }),
            Err(ValidationError::ChatError(ChatFrameError(
                CHAT_ID,
                ChatError::NoRecipient(RECIPIENT_ID)
            )))
        );
        assert_eq!(
            partial.add_frame(Frame { item: Some(call()) }),
            Err(ValidationError::CallError(CallFrameError(
                CALL_ID,
                CallError::NoRecipient(RECIPIENT_ID)
            )))
        );

        let mut partial = fake(method);
        let wrong_author = ChatItemFrame { chat_id: CHAT_ID, author_id: RECIPIENT_ID + 1 };
        assert_eq!(
            partial.add_frame(Frame { item: Some(FrameItem::ChatItem(wrong_author)) }),
            Err(ValidationError::ChatError(ChatFrameError(
                CHAT_ID,
                ChatError::ChatItem(ChatItemError::AuthorNotFound(RECIPIENT_ID + 1))
            )))
        );
    }
    // An item of a chat that is not there.
    let mut partial = empty(Method::ValidateOnly);
    partial.add_frame_item(recipient()).expect("can add one");
    assert_eq!(
        partial.add_frame(Frame { item: Some(chat_item()) }),
        Err(ValidationError::ChatError(ChatFrameError(
            CHAT_ID,
            ChatError::ChatItem(ChatItemError::NoChatForItem)
        )))
    );
}

#[test]
fn rejects_multiple_account_data() {
    let backups = vec![
        PartialBackup::new_validator(BackupInfo { version: 1, backup_time_ms: 0 }),
        PartialBackup::new_store(BackupInfo { version: 1, backup_time_ms: 0 }),
    ];
    for mut partial in backups {
        partial.add_frame_item(FrameItem::Account).expect("accepts first");
        assert_eq!(
            partial.add_frame_item(FrameItem::Account),
            Err(ValidationError::MultipleAccountData)
        );
    }
}

#[test]
fn rejects_empty_frame() {
    let mut partial = empty(Method::Store);
    assert_eq!(partial.add_frame(Frame { item: None }), Err(ValidationError::EmptyFrame));
}

#[test]
fn sticker_pack_identifiers() {
    let id: Vec<u8> = (1..=16).collect();
    assert_eq!(read_pack_id(&id), Some(0x0102_0304_0506_0708_090a_0b0c_0d0e_0f10));
    assert_eq!(read_pack_id(&vec![0xff; 16]), Some(u128::MAX));
    assert_eq!(read_pack_id(&vec![0; 15]), None);
    assert_eq!(read_pack_id(&vec![0; 17]), None);
    assert_eq!(read_pack_id(&Vec::new()), None);

    let mut partial = empty(Method::Store);
    let pack = |bytes: Vec<u8>| FrameItem::StickerPack(StickerPackFrame { pack_id: bytes });
    assert_eq!(partial.add_frame_item(pack(id.clone())), Ok(()));
    assert_eq!(
        partial.add_frame_item(pack(id.clone())),
        Err(ValidationError::StickerError(StickerError::DuplicateId(
            0x0102_0304_0506_0708_090a_0b0c_0d0e_0f10
        )))
    );
    assert_eq!(
        partial.add_frame_item(pack(vec![1, 2, 3])),
        Err(ValidationError::StickerError(StickerError::InvalidId))
    );
    assert_eq!(partial.add_frame_item(pack(vec![0; 16])), Ok(()));
}

#[test]
fn stored_backup_keeps_what_arrived() {
    let mut partial =
        PartialBackup::new_store(BackupInfo { version: 3, backup_time_ms: 123_456 });
    let items = vec![
        FrameItem::Account,
        recipient(),
        FrameItem::Recipient(RecipientFrame { id: 5 }),
        chat(),
        chat_item(),
        FrameItem::ChatItem(ChatItemFrame { chat_id: CHAT_ID, author_id: 5 }),
        call(),
        FrameItem::StickerPack(StickerPackFrame { pack_id: vec![7; 16] }),
    ];
    for item in items {
        partial.add_frame(Frame { item: Some(item) }).expect("valid");
    }
    // A refused frame leaves no trace.
    assert!(partial
        .add_frame_item(FrameItem::Chat(ChatFrame { id: 9, recipient_id: 404 }))
        .is_err());

    let backup = Backup::from(partial);
    assert_eq!(backup.version, 3);
    assert_eq!(backup.backup_time_ms, 123_456);
    assert!(backup.account_data);
    assert_eq!(backup.recipients.len(), 2);
    assert!(backup.recipients.contains(&RECIPIENT_ID) && backup.recipients.contains(&5));
    assert_eq!(backup.chats.len(), 1);
    let chat = backup.chats.get(&CHAT_ID).expect("the chat");
    assert_eq!(chat.recipient, RECIPIENT_ID);
    assert_eq!(chat.items, vec![RECIPIENT_ID, 5]);
    assert_eq!(backup.calls.len(), 1);
    assert!(backup.calls.contains(&CALL_ID));
    assert_eq!(backup.sticker_packs.len(), 1);
    assert!(backup.sticker_packs.contains(&u128::from_be_bytes([7; 16])));
}
