//! A backup that is put together frame by frame, with the references between
//! its frames checked as they arrive: a chat names a recipient that is
//! there, a chat item names a chat and an author that are there, a call
//! names a recipient that is there, and no identifier comes twice.

use std::collections::HashMap;
use std::collections::HashSet;
use vstd::prelude::*;

verus! {

/// The head of a backup.
#[derive(Clone, Copy, Debug)]
pub struct BackupInfo {
    pub version: u64,
    pub backup_time_ms: u64,
}

/// A recipient as it arrives.
#[derive(Clone, Copy, Debug)]
pub struct RecipientFrame {
    pub id: u64,
}

/// A chat as it arrives.
#[derive(Clone, Copy, Debug)]
pub struct ChatFrame {
    pub id: u64,
    pub recipient_id: u64,
}

/// An item of a chat as it arrives.
#[derive(Clone, Copy, Debug)]
pub struct ChatItemFrame {
    pub chat_id: u64,
    pub author_id: u64,
}

/// A call as it arrives.
#[derive(Clone, Copy, Debug)]
pub struct CallFrame {
    pub call_id: u64,
    pub recipient_id: u64,
}

/// A sticker pack as it arrives; its identifier must be 16 bytes long.
#[derive(Debug)]
pub struct StickerPackFrame {
    pub pack_id: Vec<u8>,
}

/// What a frame holds.
#[derive(Debug)]
pub enum FrameItem {
    Account,
    Recipient(RecipientFrame),
    Chat(ChatFrame),
    ChatItem(ChatItemFrame),
    Call(CallFrame),
    StickerPack(StickerPackFrame),
}

/// A frame of a backup.
#[derive(Debug)]
pub struct Frame {
    pub item: Option<FrameItem>,
}

/// Whether a backup is only checked or also kept.
#[derive(Clone, Copy, Debug, PartialEq, Eq, Structural)]
pub enum Method {
    ValidateOnly,
    Store,
}

/// Why a recipient is refused.
#[derive(Clone, Copy, Debug, PartialEq, Eq, Structural)]
pub enum RecipientError {
    DuplicateRecipient,
}

/// Why an item of a chat is refused.
#[derive(Clone, Copy, Debug, PartialEq, Eq, Structural)]
pub enum ChatItemError {
    NoChatForItem,
    AuthorNotFound(u64),
}

/// Why a chat or one of its items is refused.
#[derive(Clone, Copy, Debug, PartialEq, Eq, Structural)]
pub enum ChatError {
    NoRecipient(u64),
    DuplicateId,
    ChatItem(ChatItemError),
}

/// Why a call is refused.
#[derive(Clone, Copy, Debug, PartialEq, Eq, Structural)]
pub enum CallError {
    DuplicateId,
    NoRecipient(u64),
}

/// The error of a recipient frame, with the recipient's identifier.
#[derive(Clone, Copy, Debug, PartialEq, Eq, Structural)]
pub struct RecipientFrameError(pub u64, pub RecipientError);

/// The error of a chat frame or chat item frame, with the chat's identifier.
#[derive(Clone, Copy, Debug, PartialEq, Eq, Structural)]
pub struct ChatFrameError(pub u64, pub ChatError);

/// The error of a call frame, with the call's identifier.
#[derive(Clone, Copy, Debug, PartialEq, Eq, Structural)]
pub struct CallFrameError(pub u64, pub CallError);

/// Why a sticker pack is refused.
#[derive(Clone, Copy, Debug, PartialEq, Eq, Structural)]
pub enum StickerError {
    /// The pack's identifier is not 16 bytes long.
    InvalidId,
    /// There is a pack with this identifier already.
    DuplicateId(u128),
}

/// Why a frame is refused.
#[derive(Clone, Copy, Debug, PartialEq, Eq, Structural)]
pub enum ValidationError {
    /// There is no item in the frame.
    EmptyFrame,
    /// There is account data already.
    MultipleAccountData,
    RecipientError(RecipientFrameError),
    ChatError(ChatFrameError),
    CallError(CallFrameError),
    StickerError(StickerError),
}

/// A chat of a backup: its recipient, and the authors of its items in the
/// order in which they arrived.
#[derive(Debug)]
pub struct ChatData {
    pub recipient: u64,
    pub items: Vec<u64>,
}

/// What a backup holds so far.
pub struct BackupState {
    pub version: u64,
    pub backup_time_ms: u64,
    pub method: Method,
    pub account_data: bool,
    pub recipients: Set<u64>,
    pub chats: Map<u64, (u64, Seq<u64>)>,
    pub calls: Set<u64>,
    pub sticker_packs: Set<u128>,
}

/// The number that bytes stand for, most significant byte first.
pub open spec fn be_value(bytes: Seq<u8>) -> nat
    decreases bytes.len(),
{
    if bytes.len() == 0 {
        0
    } else {
        be_value(bytes.drop_last()) * 256 + bytes.last() as nat
    }
}

/// The identifier of a sticker pack: its 16 bytes as one number.
pub open spec fn pack_id_of(bytes: Seq<u8>) -> Option<u128> {
    if bytes.len() == 16 {
        Some(be_value(bytes) as u128)
    } else {
        None
    }
}

/// The number of values that `n` bytes can stand for.
pub open spec fn be_bound(n: nat) -> nat
    decreases n,
{
    if n == 0 {
        1
    } else {
        256 * be_bound((n - 1) as nat)
    }
}

/// Sixteen bytes fit 128 bits.
proof fn lemma_be_bound_16()
    ensures
        be_bound(16) == 0x1_0000_0000_0000_0000_0000_0000_0000_0000,
{
    reveal_with_fuel(be_bound, 17);
}

/// More bytes stand for more values.
proof fn lemma_be_bound_mono(a: nat, b: nat)
    requires
        a <= b,
    ensures
        be_bound(a) <= be_bound(b),
        be_bound(a) >= 1,
    decreases b,
{
    if a < b {
        lemma_be_bound_mono(a, (b - 1) as nat);
    } else if a > 0 {
        lemma_be_bound_mono((a - 1) as nat, (a - 1) as nat);
    }
}

/// Reads the identifier of a sticker pack.
pub fn read_pack_id(bytes: &Vec<u8>) -> (id: Option<u128>)
    ensures
        id == pack_id_of(bytes@),
{
    if bytes.len() != 16 {
        return None;
    }
    let mut key: u128 = 0;
    let mut i: usize = 0;
    assert(bytes@.take(0) =~= Seq::<u8>::empty());
    while i < 16
        invariant
            i <= 16,
            bytes.len() == 16,
            key == be_value(bytes@.take(i as int)),
            key < be_bound(i as nat),
        decreases 16 - i,
    {
        proof {
            lemma_be_bound_16();
            lemma_be_bound_mono((i + 1) as nat, 16);
            let next = bytes@.take(i + 1);
            assert(next.drop_last() =~= bytes@.take(i as int));
            assert(next.last() == bytes@[i as int]);
            assert(key * 256 + 255 < be_bound((i + 1) as nat)) by (nonlinear_arith)
                requires
                    key < be_bound(i as nat),
                    be_bound((i + 1) as nat) == 256 * be_bound(i as nat),
            ;
        }
        key = key * 256 + bytes[i] as u128;
        i = i + 1;
    }
    assert(bytes@.take(16) =~= bytes@);
    Some(key)
}

impl BackupState {
    /// Whether every chat names a recipient that is there.
    pub open spec fn wf(self) -> bool {
        forall|id: u64| #[trigger]
            self.chats.contains_key(id) ==> self.recipients.contains(self.chats[id].0)
    }

    /// The backup after account data arrived.
    pub open spec fn with_account_data(self) -> Result<BackupState, ValidationError> {
        if self.account_data {
            Err(ValidationError::MultipleAccountData)
        } else {
            Ok(BackupState { account_data: true, ..self })
        }
    }

    /// The backup after a recipient arrived.
    pub open spec fn with_recipient(self, r: RecipientFrame) -> Result<
        BackupState,
        RecipientFrameError,
    > {
        if self.recipients.contains(r.id) {
            Err(RecipientFrameError(r.id, RecipientError::DuplicateRecipient))
        } else {
            Ok(BackupState { recipients: self.recipients.insert(r.id), ..self })
        }
    }

    /// The backup after a chat arrived.
    pub open spec fn with_chat(self, c: ChatFrame) -> Result<BackupState, ChatFrameError> {
        if !self.recipients.contains(c.recipient_id) {
            Err(ChatFrameError(c.id, ChatError::NoRecipient(c.recipient_id)))
        } else if self.chats.contains_key(c.id) {
            Err(ChatFrameError(c.id, ChatError::DuplicateId))
        } else {
            Ok(
                BackupState {
                    chats: self.chats.insert(c.id, (c.recipient_id, Seq::empty())),
                    ..self
                },
            )
        }
    }

    /// The backup after an item of a chat arrived. The item is kept only
    /// where the backup is kept.
    pub open spec fn with_chat_item(self, item: ChatItemFrame) -> Result<
        BackupState,
        ChatFrameError,
    > {
        if !self.chats.contains_key(item.chat_id) {
            Err(ChatFrameError(item.chat_id, ChatError::ChatItem(ChatItemError::NoChatForItem)))
        } else if !self.recipients.contains(item.author_id) {
            Err(
                ChatFrameError(
                    item.chat_id,
                    ChatError::ChatItem(ChatItemError::AuthorNotFound(item.author_id)),
                ),
            )
        } else if self.method == Method::Store {
            let chat = self.chats[item.chat_id];
            Ok(
                BackupState {
                    chats: self.chats.insert(item.chat_id, (chat.0, chat.1.push(item.author_id))),
                    ..self
                },
            )
        } else {
            Ok(self)
        }
    }

    /// The backup after a call arrived.
    pub open spec fn with_call(self, c: CallFrame) -> Result<BackupState, CallFrameError> {
        if !self.recipients.contains(c.recipient_id) {
            Err(CallFrameError(c.call_id, CallError::NoRecipient(c.recipient_id)))
        } else if self.calls.contains(c.call_id) {
            Err(CallFrameError(c.call_id, CallError::DuplicateId))
        } else {
            Ok(BackupState { calls: self.calls.insert(c.call_id), ..self })
        }
    }

    /// The backup after a sticker pack arrived.
    pub open spec fn with_sticker_pack(self, pack_id: Seq<u8>) -> Result<
        BackupState,
        StickerError,
    > {
        match pack_id_of(pack_id) {
            None => Err(StickerError::InvalidId),
            Some(id) => if self.sticker_packs.contains(id) {
                Err(StickerError::DuplicateId(id))
            } else {
                Ok(BackupState { sticker_packs: self.sticker_packs.insert(id), ..self })
            },
        }
    }

    /// The backup after the item of a frame arrived.
    pub open spec fn with_item(self, item: FrameItem) -> Result<BackupState, ValidationError> {
        match item {
            FrameItem::Account => self.with_account_data(),
            FrameItem::Recipient(r) => match self.with_recipient(r) {
                Ok(s) => Ok(s),
                Err(e) => Err(ValidationError::RecipientError(e)),
            },
            FrameItem::Chat(c) => match self.with_chat(c) {
                Ok(s) => Ok(s),
                Err(e) => Err(ValidationError::ChatError(e)),
            },
            FrameItem::ChatItem(i) => match self.with_chat_item(i) {
                Ok(s) => Ok(s),
                Err(e) => Err(ValidationError::ChatError(e)),
            },
            FrameItem::Call(c) => match self.with_call(c) {
                Ok(s) => Ok(s),
                Err(e) => Err(ValidationError::CallError(e)),
            },
            FrameItem::StickerPack(p) => match self.with_sticker_pack(p.pack_id@) {
                Ok(s) => Ok(s),
                Err(e) => Err(ValidationError::StickerError(e)),
            },
        }
    }

    /// The backup after a frame arrived.
    pub open spec fn with_frame(self, frame: Frame) -> Result<BackupState, ValidationError> {
        match frame.item {
            None => Err(ValidationError::EmptyFrame),
            Some(item) => self.with_item(item),
        }
    }
}

/// The backup with which a frame leaves `state`: the new one where the frame
/// is accepted, the old one where it is refused.
pub open spec fn state_after<E>(state: BackupState, r: Result<BackupState, E>) -> BackupState {
    match r {
        Ok(s) => s,
        Err(_) => state,
    }
}

/// What `r` says of a frame, without the backup.
pub open spec fn verdict<E>(r: Result<BackupState, E>) -> Result<(), E> {
    match r {
        Ok(_) => Ok(()),
        Err(e) => Err(e),
    }
}

/// A backup in the making.
pub struct PartialBackup {
    version: u64,
    backup_time_ms: u64,
    method: Method,
    account_data: bool,
    recipients: HashSet<u64>,
    chats: HashMap<u64, ChatData>,
    calls: HashSet<u64>,
    sticker_packs: HashSet<u128>,
}

impl View for PartialBackup {
    type V = BackupState;

    closed spec fn view(&self) -> BackupState {
        BackupState {
            version: self.version,
            backup_time_ms: self.backup_time_ms,
            method: self.method,
            account_data: self.account_data,
            recipients: self.recipients@,
            chats: Map::new(
                |id: u64| self.chats@.contains_key(id),
                |id: u64| (self.chats@[id].recipient, self.chats@[id].items@),
            ),
            calls: self.calls@,
            sticker_packs: self.sticker_packs@,
        }
    }
}

/// A backup with nothing in it.
pub open spec fn empty_backup(info: BackupInfo, method: Method) -> BackupState {
    BackupState {
        version: info.version,
        backup_time_ms: info.backup_time_ms,
        method,
        account_data: false,
        recipients: Set::empty(),
        chats: Map::empty(),
        calls: Set::empty(),
        sticker_packs: Set::empty(),
    }
}

impl PartialBackup {
    /// A backup that is only checked.
    pub fn new_validator(value: BackupInfo) -> (backup: Self)
        ensures
            backup@ == empty_backup(value, Method::ValidateOnly),
            backup@.wf(),
    {
        Self::new(value, Method::ValidateOnly)
    }

    /// A backup that is checked and kept.
    pub fn new_store(value: BackupInfo) -> (backup: Self)
        ensures
            backup@ == empty_backup(value, Method::Store),
            backup@.wf(),
    {
        Self::new(value, Method::Store)
    }

    /// A backup with nothing in it.
    pub fn new(value: BackupInfo, method: Method) -> (backup: Self)
        ensures
            backup@ == empty_backup(value, method),
            backup@.wf(),
    {
        let BackupInfo { version, backup_time_ms } = value;
        let backup = PartialBackup {
            version,
            backup_time_ms,
            method,
            account_data: false,
            recipients: HashSet::new(),
            chats: HashMap::new(),
            calls: HashSet::new(),
            sticker_packs: HashSet::new(),
        };
        assert(backup@.chats =~= Map::empty());
        backup
    }

    /// Takes a frame into the backup, or refuses it and leaves the backup
    /// as it was.
    pub fn add_frame(&mut self, frame: Frame) -> (r: Result<(), ValidationError>)
        requires
            old(self)@.wf(),
        ensures
            r == verdict(old(self)@.with_frame(frame)),
            final(self)@ == state_after(old(self)@, old(self)@.with_frame(frame)),
            final(self)@.wf(),
    {
        match frame.item {
            None => Err(ValidationError::EmptyFrame),
            Some(item) => self.add_frame_item(item),
        }
    }

    /// Takes the item of a frame into the backup.
    pub fn add_frame_item(&mut self, item: FrameItem) -> (r: Result<(), ValidationError>)
        requires
            old(self)@.wf(),
        ensures
            r == verdict(old(self)@.with_item(item)),
            final(self)@ == state_after(old(self)@, old(self)@.with_item(item)),
            final(self)@.wf(),
    {
        match item {
            FrameItem::Account => self.add_account_data(),
            FrameItem::Recipient(recipient) => match self.add_recipient(recipient) {
                Ok(()) => Ok(()),
                Err(e) => Err(ValidationError::RecipientError(e)),
            },
            FrameItem::Chat(chat) => match self.add_chat(chat) {
                Ok(()) => Ok(()),
                Err(e) => Err(ValidationError::ChatError(e)),
            },
            FrameItem::ChatItem(chat_item) => match self.add_chat_item(chat_item) {
                Ok(()) => Ok(()),
                Err(e) => Err(ValidationError::ChatError(e)),
            },
            FrameItem::Call(call) => match self.add_call(call) {
                Ok(()) => Ok(()),
                Err(e) => Err(ValidationError::CallError(e)),
            },
            FrameItem::StickerPack(sticker_pack) => match self.add_sticker_pack(sticker_pack) {
                Ok(()) => Ok(()),
                Err(e) => Err(ValidationError::StickerError(e)),
            },
        }
    }

    /// Takes account data; there may be none before.
    pub fn add_account_data(&mut self) -> (r: Result<(), ValidationError>)
        requires
            old(self)@.wf(),
        ensures
            r == verdict(old(self)@.with_account_data()),
            final(self)@ == state_after(old(self)@, old(self)@.with_account_data()),
            final(self)@.wf(),
    {
        if self.account_data {
            return Err(ValidationError::MultipleAccountData);
        }
        self.account_data = true;
        Ok(())
    }

    /// Takes a recipient; its identifier must be new.
    pub fn add_recipient(&mut self, recipient: RecipientFrame) -> (r: Result<
        (),
        RecipientFrameError,
    >)
        requires
            old(self)@.wf(),
        ensures
            r == verdict(old(self)@.with_recipient(recipient)),
            final(self)@ == state_after(old(self)@, old(self)@.with_recipient(recipient)),
            final(self)@.wf(),
    {
        let id: u64 = recipient.id;
        if self.recipients.contains(&id) {
            return Err(RecipientFrameError(id, RecipientError::DuplicateRecipient));
        }
        self.recipients.insert(id);
        Ok(())
    }

    /// Takes a chat; its recipient must be there and its identifier new.
    pub fn add_chat(&mut self, chat: ChatFrame) -> (r: Result<(), ChatFrameError>)
        requires
            old(self)@.wf(),
        ensures
            r == verdict(old(self)@.with_chat(chat)),
            final(self)@ == state_after(old(self)@, old(self)@.with_chat(chat)),
            final(self)@.wf(),
    {
        let id: u64 = chat.id;
        let recipient_id: u64 = chat.recipient_id;
        if !self.recipients.contains(&recipient_id) {
            return Err(ChatFrameError(id, ChatError::NoRecipient(recipient_id)));
        }
        if self.chats.contains_key(&id) {
            return Err(ChatFrameError(id, ChatError::DuplicateId));
        }
        self.chats.insert(id, ChatData { recipient: recipient_id, items: Vec::new() });
        assert(self@.chats =~= old(self)@.chats.insert(id, (recipient_id, Seq::empty())));
        Ok(())
    }

    /// Takes an item of a chat; the chat and the item's author must be
    /// there.
    pub fn add_chat_item(&mut self, chat_item: ChatItemFrame) -> (r: Result<(), ChatFrameError>)
        requires
            old(self)@.wf(),
        ensures
            r == verdict(old(self)@.with_chat_item(chat_item)),
            final(self)@ == state_after(old(self)@, old(self)@.with_chat_item(chat_item)),
            final(self)@.wf(),
    {
        let chat_id: u64 = chat_item.chat_id;
        let author_id: u64 = chat_item.author_id;
        if !self.chats.contains_key(&chat_id) {
            return Err(ChatFrameError(chat_id, ChatError::ChatItem(ChatItemError::NoChatForItem)));
        }
        if !self.recipients.contains(&author_id) {
            return Err(
                ChatFrameError(
                    chat_id,
                    ChatError::ChatItem(ChatItemError::AuthorNotFound(author_id)),
                ),
            );
        }
        match self.method {
            Method::Store => {
                match self.chats.remove(&chat_id) {
                    Some(chat_data) => {
                        let ChatData { recipient, items } = chat_data;
                        let mut items = items;
                        items.push(author_id);
                        self.chats.insert(chat_id, ChatData { recipient, items });
                        assert(self@.chats =~= old(self)@.chats.insert(
                            chat_id,
                            (
                                old(self)@.chats[chat_id].0,
                                old(self)@.chats[chat_id].1.push(author_id),
                            ),
                        ));
                    },
                    None => {},
                }
            },
            Method::ValidateOnly => {},
        }
        Ok(())
    }

    /// Takes a call; its recipient must be there and its identifier new.
    pub fn add_call(&mut self, call: CallFrame) -> (r: Result<(), CallFrameError>)
        requires
            old(self)@.wf(),
        ensures
            r == verdict(old(self)@.with_call(call)),
            final(self)@ == state_after(old(self)@, old(self)@.with_call(call)),
            final(self)@.wf(),
    {
        let call_id: u64 = call.call_id;
        if !self.recipients.contains(&call.recipient_id) {
            return Err(CallFrameError(call_id, CallError::NoRecipient(call.recipient_id)));
        }
        if self.calls.contains(&call_id) {
            return Err(CallFrameError(call_id, CallError::DuplicateId));
        }
        self.calls.insert(call_id);
        Ok(())
    }

    /// Takes a sticker pack; its identifier must be 16 bytes long and new.
    pub fn add_sticker_pack(&mut self, sticker_pack: StickerPackFrame) -> (r: Result<
        (),
        StickerError,
    >)
        requires
            old(self)@.wf(),
        ensures
            r == verdict(old(self)@.with_sticker_pack(sticker_pack.pack_id@)),
            final(self)@ == state_after(
                old(self)@,
                old(self)@.with_sticker_pack(sticker_pack.pack_id@),
            ),
            final(self)@.wf(),
    {
        let id: u128 = match read_pack_id(&sticker_pack.pack_id) {
            Some(id) => id,
            None => {
                return Err(StickerError::InvalidId);
            },
        };
        if self.sticker_packs.contains(&id) {
            return Err(StickerError::DuplicateId(id));
        }
        self.sticker_packs.insert(id);
        Ok(())
    }
}

/// A backup that was kept, whole.
#[derive(Debug)]
pub struct Backup {
    pub version: u64,
    pub backup_time_ms: u64,
    pub account_data: bool,
    pub recipients: HashSet<u64>,
    pub chats: HashMap<u64, ChatData>,
    pub calls: HashSet<u64>,
    pub sticker_packs: HashSet<u128>,
}

impl Backup {
    /// The backup that `value` has come to be.
    pub fn from(value: PartialBackup) -> (backup: Backup)
        requires
            value@.method == Method::Store,
        ensures
            backup.version == value@.version,
            backup.backup_time_ms == value@.backup_time_ms,
            backup.account_data == value@.account_data,
            backup.recipients@ == value@.recipients,
            backup.calls@ == value@.calls,
            backup.sticker_packs@ == value@.sticker_packs,
            forall|id: u64|
                backup.chats@.contains_key(id) <==> #[trigger] value@.chats.contains_key(id),
            forall|id: u64| #[trigger]
                value@.chats.contains_key(id) ==> value@.chats[id] == (
                    backup.chats@[id].recipient,
                    backup.chats@[id].items@,
                ),
    {
        let PartialBackup {
            version,
            backup_time_ms,
            method: _,
            account_data,
            recipients,
            chats,
            calls,
            sticker_packs,
        } = value;
        Backup { version, backup_time_ms, account_data, recipients, chats, calls, sticker_packs }
    }
}

} // verus!
