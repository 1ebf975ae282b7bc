//! The incoming update, reduced to what the adapter reads of it.

use vstd::prelude::*;

verus! {

/// A chat, known by its integer identifier.
#[derive(Clone, Copy, Debug, PartialEq, Eq)]
pub struct Chat {
    pub id: i64,
}

/// A sticker attachment, known by the identifier of its file.
#[derive(Debug, PartialEq, Eq)]
pub struct Sticker {
    pub file_id: String,
}

/// A message: the chat it belongs to and the sticker it carries, if any.
#[derive(Debug, PartialEq, Eq)]
pub struct Message {
    pub chat: Chat,
    pub sticker: Option<Sticker>,
}

/// One webhook delivery.
#[derive(Debug, PartialEq, Eq)]
pub struct Update {
    pub message: Option<Message>,
}

/// What a message is to the adapter: a chat identifier and, where a sticker is
/// attached, the identifier of its file.
pub struct MessageView {
    pub chat_id: int,
    pub sticker: Option<Seq<char>>,
}

impl View for Sticker {
    type V = Seq<char>;

    open spec fn view(&self) -> Seq<char> {
        self.file_id@
    }
}

impl View for Message {
    type V = MessageView;

    open spec fn view(&self) -> MessageView {
        MessageView {
            chat_id: self.chat.id as int,
            sticker: match self.sticker {
                Some(s) => Some(s@),
                None => None,
            },
        }
    }
}

impl View for Update {
    type V = Option<MessageView>;

    open spec fn view(&self) -> Option<MessageView> {
        match self.message {
            Some(m) => Some(m@),
            None => None,
        }
    }
}

} // verus!
