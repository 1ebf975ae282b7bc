//! The calls the adapter asks to have made to the bot API.

use vstd::prelude::*;

verus! {

/// A reference to media that Telegram is asked to send as a photo.
#[derive(Debug, PartialEq, Eq)]
pub enum OutboundPhoto {
    /// A file that Telegram already holds, by its identifier. Nothing is
    /// uploaded again.
    FileId(String),
    /// A file that Telegram fetches from an address.
    FileUrl(String),
}

/// An [`OutboundPhoto`] with its text as a sequence of characters.
pub enum OutboundPhotoView {
    FileId(Seq<char>),
    FileUrl(Seq<char>),
}

impl View for OutboundPhoto {
    type V = OutboundPhotoView;

    open spec fn view(&self) -> OutboundPhotoView {
        match self {
            OutboundPhoto::FileId(id) => OutboundPhotoView::FileId(id@),
            OutboundPhoto::FileUrl(url) => OutboundPhotoView::FileUrl(url@),
        }
    }
}

/// A send-photo call: the chat that is to receive the photo, and the photo.
#[derive(Debug, PartialEq, Eq)]
pub struct SendPhoto {
    pub chat_id: i64,
    pub photo: OutboundPhoto,
}

/// A [`SendPhoto`] over mathematical values.
pub struct SendPhotoView {
    pub chat_id: int,
    pub photo: OutboundPhotoView,
}

impl View for SendPhoto {
    type V = SendPhotoView;

    open spec fn view(&self) -> SendPhotoView {
        SendPhotoView { chat_id: self.chat_id as int, photo: self.photo@ }
    }
}

/// One call to the bot API.
#[derive(Debug, PartialEq, Eq)]
pub enum BotCall {
    /// Fetch the bot's own identity record.
    GetMe,
    /// Register `url` as the address that updates are pushed to.
    SetWebhook { url: String },
    /// Send a photo to a chat.
    SendPhoto(SendPhoto),
}

/// A [`BotCall`] over mathematical values.
pub enum BotCallView {
    GetMe,
    SetWebhook { url: Seq<char> },
    SendPhoto(SendPhotoView),
}

impl View for BotCall {
    type V = BotCallView;

    open spec fn view(&self) -> BotCallView {
        match self {
            BotCall::GetMe => BotCallView::GetMe,
            BotCall::SetWebhook { url } => BotCallView::SetWebhook { url: url@ },
            BotCall::SendPhoto(call) => BotCallView::SendPhoto(call@),
        }
    }
}

} // verus!
