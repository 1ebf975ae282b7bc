//! The update dispatcher: which call, if any, an update asks for.

use vstd::prelude::*;
use crate::lift::option_view;
use crate::model::{MessageView, Update};
use crate::outbound::{OutboundPhoto, OutboundPhotoView, SendPhoto, SendPhotoView};

verus! {

/// The call that an update asks for: a message with a sticker has the sticker's
/// file sent back, as a photo, to the chat the message came from. Any other
/// update asks for nothing.
pub open spec fn planned(update: Option<MessageView>) -> Option<SendPhotoView> {
    match update {
        Some(MessageView { chat_id, sticker: Some(file_id) }) => Some(
            SendPhotoView { chat_id, photo: OutboundPhotoView::FileId(file_id) },
        ),
        _ => None,
    }
}

/// Decides what to send for one update.
///
/// A message is looked at only where there is one, and its sticker only where
/// the message is there. With both present the result is the one call to make;
/// otherwise there is nothing to do, which is no failure.
pub fn dispatch(update: Update) -> (call: Option<SendPhoto>)
    ensures
        option_view(call) == planned(update@),
{
    match update.message {
        Some(message) => match message.sticker {
            Some(sticker) => Some(
                SendPhoto { chat_id: message.chat.id, photo: OutboundPhoto::FileId(sticker.file_id) },
            ),
            None => None,
        },
        None => None,
    }
}

} // verus!
