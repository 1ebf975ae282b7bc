//! What passes between the adapter and its host: the outside work the adapter
//! asks for, and what the host reports of it.
//!
//! The adapter itself reads no secret, opens no connection and sends nothing.
//! It names the work, one piece at a time, and decides on the report.

use vstd::prelude::*;
use crate::config::Secret;
use crate::error::{AppError, AppErrorView};
use crate::lift::option_view;
use crate::model::{MessageView, Update};
use crate::outbound::{BotCall, BotCallView};

verus! {

/// A piece of outside work.
#[derive(Debug, PartialEq, Eq)]
pub enum Request {
    /// Look a secret up in the configuration store. Answered by
    /// [`Event::Secret`].
    Secret(Secret),
    /// Set up the bot API client with this token. Answered by
    /// [`Event::Connected`] or [`Event::Failed`].
    Connect { token: String },
    /// Decode the body of the HTTP request as an update. Answered by
    /// [`Event::Decoded`] or [`Event::Failed`].
    Decode,
    /// Make this call through the client. Answered by [`Event::Identity`] for
    /// [`BotCall::GetMe`], by [`Event::Accepted`] for the other calls, or by
    /// [`Event::Failed`].
    Call(BotCall),
}

/// A [`Request`] over mathematical values.
pub enum RequestView {
    Secret(Secret),
    Connect { token: Seq<char> },
    Decode,
    Call(BotCallView),
}

impl View for Request {
    type V = RequestView;

    open spec fn view(&self) -> RequestView {
        match self {
            Request::Secret(secret) => RequestView::Secret(*secret),
            Request::Connect { token } => RequestView::Connect { token: token@ },
            Request::Decode => RequestView::Decode,
            Request::Call(call) => RequestView::Call(call@),
        }
    }
}

/// What the host reports of the work it was last asked for.
#[derive(Debug, PartialEq, Eq)]
pub enum Event {
    /// The value of the secret, or `None` where it is not configured.
    Secret(Option<String>),
    /// The client stands.
    Connected,
    /// The update that the request body holds.
    Decoded(Update),
    /// The bot's identity record, laid out for a human reader.
    Identity(String),
    /// The bot API accepted the call.
    Accepted,
    /// The work failed.
    Failed(AppError),
}

/// An [`Event`] over mathematical values.
pub enum EventView {
    Secret(Option<Seq<char>>),
    Connected,
    Decoded(Option<MessageView>),
    Identity(Seq<char>),
    Accepted,
    Failed(AppErrorView),
}

impl View for Event {
    type V = EventView;

    open spec fn view(&self) -> EventView {
        match self {
            Event::Secret(value) => EventView::Secret(option_view(*value)),
            Event::Connected => EventView::Connected,
            Event::Decoded(update) => EventView::Decoded(update@),
            Event::Identity(text) => EventView::Identity(text@),
            Event::Accepted => EventView::Accepted,
            Event::Failed(error) => EventView::Failed(error@),
        }
    }
}

} // verus!
