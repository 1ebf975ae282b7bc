//! The three handlers, each as a function from where it stands and what the
//! host reports to where it stands next and what it wants.
//!
//! A handler hands a failure up as it got it. It neither retries nor recovers:
//! what becomes of a failure is decided in one place, above the handlers.

use vstd::prelude::*;
use crate::config::{ConfigError, Secret};
use crate::dispatch::{dispatch, planned};
use crate::error::{AppError, AppErrorView};
use crate::lift::result_view;
use crate::outbound::{BotCall, BotCallView};
use crate::protocol::{Event, EventView, Request, RequestView};
use crate::response::{acknowledgment, html, Response, ResponseView};

verus! {

/// What a handler wants after an event.
#[derive(Debug, PartialEq, Eq)]
pub enum Turn {
    /// More outside work, before it can return.
    Ask(Request),
    /// To return: a response, or the failure that stopped it.
    Return(Result<Response, AppError>),
    /// Nothing more: a secret that it needs is not configured.
    Misconfigured(ConfigError),
    /// Nothing: the event answers no work that it waits for.
    Ignored,
}

/// A [`Turn`] over mathematical values.
pub enum TurnView {
    Ask(RequestView),
    Return(Result<ResponseView, AppErrorView>),
    Misconfigured(ConfigError),
    Ignored,
}

impl View for Turn {
    type V = TurnView;

    open spec fn view(&self) -> TurnView {
        match self {
            Turn::Ask(request) => TurnView::Ask(request@),
            Turn::Return(outcome) => TurnView::Return(result_view(*outcome)),
            Turn::Misconfigured(error) => TurnView::Misconfigured(*error),
            Turn::Ignored => TurnView::Ignored,
        }
    }
}

/// Where the identity handler stands, by what it waits for.
#[derive(Clone, Copy, Debug, PartialEq, Eq)]
pub enum GetMeStage {
    /// The bot token.
    Token,
    /// The client.
    Client,
    /// The identity record.
    Identity,
    /// Nothing: it has returned.
    Done,
}

/// Where the webhook-registration handler stands, by what it waits for, with
/// what it has got so far and still needs.
#[derive(Debug, PartialEq, Eq)]
pub enum InitWebhookStage {
    /// The bot token.
    Token,
    /// The address to register.
    Url { token: String },
    /// The client.
    Client { url: String },
    /// The bot API's word on the registration.
    Registration { url: String },
    /// Nothing: it has returned.
    Done,
}

/// An [`InitWebhookStage`] over mathematical values.
pub enum InitWebhookStageView {
    Token,
    Url { token: Seq<char> },
    Client { url: Seq<char> },
    Registration { url: Seq<char> },
    Done,
}

impl View for InitWebhookStage {
    type V = InitWebhookStageView;

    open spec fn view(&self) -> InitWebhookStageView {
        match self {
            InitWebhookStage::Token => InitWebhookStageView::Token,
            InitWebhookStage::Url { token } => InitWebhookStageView::Url { token: token@ },
            InitWebhookStage::Client { url } => InitWebhookStageView::Client { url: url@ },
            InitWebhookStage::Registration { url } => InitWebhookStageView::Registration {
                url: url@,
            },
            InitWebhookStage::Done => InitWebhookStageView::Done,
        }
    }
}

/// Where the update handler stands, by what it waits for.
#[derive(Clone, Copy, Debug, PartialEq, Eq)]
pub enum UpdateStage {
    /// The bot token.
    Token,
    /// The client.
    Client,
    /// The decoded update.
    Update,
    /// The bot API's word on the photo.
    Delivery,
    /// Nothing: it has returned.
    Done,
}

/// The first thing every handler asks for: the bot token.
pub open spec fn first_request() -> RequestView {
    RequestView::Secret(Secret::BotToken)
}

/// The page that confirms a registration: it repeats the address.
pub open spec fn confirmation(url: Seq<char>) -> ResponseView {
    html("Set webhook to "@ + url)
}

/// The identity handler, one event on.
///
/// It asks for the token, then for the client, then for the identity record,
/// and returns the record as a page.
pub open spec fn get_me_step(stage: GetMeStage, event: EventView) -> (GetMeStage, TurnView) {
    match (stage, event) {
        (GetMeStage::Token, EventView::Secret(Some(token))) => (
            GetMeStage::Client,
            TurnView::Ask(RequestView::Connect { token }),
        ),
        (GetMeStage::Token, EventView::Secret(None)) => (
            GetMeStage::Done,
            TurnView::Misconfigured(ConfigError { missing: Secret::BotToken }),
        ),
        (GetMeStage::Client, EventView::Connected) => (
            GetMeStage::Identity,
            TurnView::Ask(RequestView::Call(BotCallView::GetMe)),
        ),
        (GetMeStage::Identity, EventView::Identity(text)) => (
            GetMeStage::Done,
            TurnView::Return(Ok(html(text))),
        ),
        (GetMeStage::Client | GetMeStage::Identity, EventView::Failed(error)) => (
            GetMeStage::Done,
            TurnView::Return(Err(error)),
        ),
        _ => (stage, TurnView::Ignored),
    }
}

/// The webhook-registration handler, one event on.
///
/// It asks for the token, for the address, for the client and for the
/// registration of the address, in that order, and returns a page that
/// confirms the address.
pub open spec fn init_webhook_step(stage: InitWebhookStageView, event: EventView) -> (
    InitWebhookStageView,
    TurnView,
) {
    match (stage, event) {
        (InitWebhookStageView::Token, EventView::Secret(Some(token))) => (
            InitWebhookStageView::Url { token },
            TurnView::Ask(RequestView::Secret(Secret::WebhookUrl)),
        ),
        (InitWebhookStageView::Token, EventView::Secret(None)) => (
            InitWebhookStageView::Done,
            TurnView::Misconfigured(ConfigError { missing: Secret::BotToken }),
        ),
        (InitWebhookStageView::Url { token }, EventView::Secret(Some(url))) => (
            InitWebhookStageView::Client { url },
            TurnView::Ask(RequestView::Connect { token }),
        ),
        (InitWebhookStageView::Url { token }, EventView::Secret(None)) => (
            InitWebhookStageView::Done,
            TurnView::Misconfigured(ConfigError { missing: Secret::WebhookUrl }),
        ),
        (InitWebhookStageView::Client { url }, EventView::Connected) => (
            InitWebhookStageView::Registration { url },
            TurnView::Ask(RequestView::Call(BotCallView::SetWebhook { url })),
        ),
        (InitWebhookStageView::Registration { url }, EventView::Accepted) => (
            InitWebhookStageView::Done,
            TurnView::Return(Ok(confirmation(url))),
        ),
        (
            InitWebhookStageView::Client { .. } | InitWebhookStageView::Registration { .. },
            EventView::Failed(error),
        ) => (InitWebhookStageView::Done, TurnView::Return(Err(error))),
        _ => (stage, TurnView::Ignored),
    }
}

/// The update handler, one event on.
///
/// It asks for the token, for the client and for the update. Where the update
/// asks for a photo to be sent it asks for that call, and for nothing
/// otherwise. Either way it returns the fixed acknowledgment.
pub open spec fn handle_update_step(stage: UpdateStage, event: EventView) -> (
    UpdateStage,
    TurnView,
) {
    match (stage, event) {
        (UpdateStage::Token, EventView::Secret(Some(token))) => (
            UpdateStage::Client,
            TurnView::Ask(RequestView::Connect { token }),
        ),
        (UpdateStage::Token, EventView::Secret(None)) => (
            UpdateStage::Done,
            TurnView::Misconfigured(ConfigError { missing: Secret::BotToken }),
        ),
        (UpdateStage::Client, EventView::Connected) => (
            UpdateStage::Update,
            TurnView::Ask(RequestView::Decode),
        ),
        (UpdateStage::Update, EventView::Decoded(update)) => match planned(update) {
            Some(call) => (
                UpdateStage::Delivery,
                TurnView::Ask(RequestView::Call(BotCallView::SendPhoto(call))),
            ),
            None => (UpdateStage::Done, TurnView::Return(Ok(acknowledgment()))),
        },
        (UpdateStage::Delivery, EventView::Accepted) => (
            UpdateStage::Done,
            TurnView::Return(Ok(acknowledgment())),
        ),
        (
            UpdateStage::Client | UpdateStage::Update | UpdateStage::Delivery,
            EventView::Failed(error),
        ) => (UpdateStage::Done, TurnView::Return(Err(error))),
        _ => (stage, TurnView::Ignored),
    }
}

/// Takes the identity handler one event on.
pub fn get_me(stage: GetMeStage, event: Event) -> (next: (GetMeStage, Turn))
    ensures
        (next.0, next.1@) == get_me_step(stage, event@),
{
    match (stage, event) {
        (GetMeStage::Token, Event::Secret(Some(token))) => (
            GetMeStage::Client,
            Turn::Ask(Request::Connect { token }),
        ),
        (GetMeStage::Token, Event::Secret(None)) => (
            GetMeStage::Done,
            Turn::Misconfigured(ConfigError { missing: Secret::BotToken }),
        ),
        (GetMeStage::Client, Event::Connected) => (
            GetMeStage::Identity,
            Turn::Ask(Request::Call(BotCall::GetMe)),
        ),
        (GetMeStage::Identity, Event::Identity(text)) => (
            GetMeStage::Done,
            Turn::Return(Ok(Response::from_html(text))),
        ),
        (GetMeStage::Client, Event::Failed(error)) => (GetMeStage::Done, Turn::Return(Err(error))),
        (GetMeStage::Identity, Event::Failed(error)) => (
            GetMeStage::Done,
            Turn::Return(Err(error)),
        ),
        (stage, _) => (stage, Turn::Ignored),
    }
}

/// The page that confirms the registration of `url`.
fn confirm(url: String) -> (page: Response)
    ensures
        page@ == confirmation(url@),
{
    Response::from_html("Set webhook to ".to_owned().concat(url.as_str()))
}

/// Takes the webhook-registration handler one event on.
pub fn init_webhook(stage: InitWebhookStage, event: Event) -> (next: (InitWebhookStage, Turn))
    ensures
        (next.0@, next.1@) == init_webhook_step(stage@, event@),
{
    match (stage, event) {
        (InitWebhookStage::Token, Event::Secret(Some(token))) => (
            InitWebhookStage::Url { token },
            Turn::Ask(Request::Secret(Secret::WebhookUrl)),
        ),
        (InitWebhookStage::Token, Event::Secret(None)) => (
            InitWebhookStage::Done,
            Turn::Misconfigured(ConfigError { missing: Secret::BotToken }),
        ),
        (InitWebhookStage::Url { token }, Event::Secret(Some(url))) => (
            InitWebhookStage::Client { url },
            Turn::Ask(Request::Connect { token }),
        ),
        (InitWebhookStage::Url { token: _ }, Event::Secret(None)) => (
            InitWebhookStage::Done,
            Turn::Misconfigured(ConfigError { missing: Secret::WebhookUrl }),
        ),
        (InitWebhookStage::Client { url }, Event::Connected) => {
            let registered = url.clone();
            (
                InitWebhookStage::Registration { url },
                Turn::Ask(Request::Call(BotCall::SetWebhook { url: registered })),
            )
        },
        (InitWebhookStage::Registration { url }, Event::Accepted) => (
            InitWebhookStage::Done,
            Turn::Return(Ok(confirm(url))),
        ),
        (InitWebhookStage::Client { url: _ }, Event::Failed(error)) => (
            InitWebhookStage::Done,
            Turn::Return(Err(error)),
        ),
        (InitWebhookStage::Registration { url: _ }, Event::Failed(error)) => (
            InitWebhookStage::Done,
            Turn::Return(Err(error)),
        ),
        (stage, _) => (stage, Turn::Ignored),
    }
}

/// Takes the update handler one event on.
pub fn handle_update(stage: UpdateStage, event: Event) -> (next: (UpdateStage, Turn))
    ensures
        (next.0, next.1@) == handle_update_step(stage, event@),
{
    match (stage, event) {
        (UpdateStage::Token, Event::Secret(Some(token))) => (
            UpdateStage::Client,
            Turn::Ask(Request::Connect { token }),
        ),
        (UpdateStage::Token, Event::Secret(None)) => (
            UpdateStage::Done,
            Turn::Misconfigured(ConfigError { missing: Secret::BotToken }),
        ),
        (UpdateStage::Client, Event::Connected) => (
            UpdateStage::Update,
            Turn::Ask(Request::Decode),
        ),
        (UpdateStage::Update, Event::Decoded(update)) => match dispatch(update) {
            Some(call) => (
                UpdateStage::Delivery,
                Turn::Ask(Request::Call(BotCall::SendPhoto(call))),
            ),
            None => (UpdateStage::Done, Turn::Return(Ok(Response::acknowledgment()))),
        },
        (UpdateStage::Delivery, Event::Accepted) => (
            UpdateStage::Done,
            Turn::Return(Ok(Response::acknowledgment())),
        ),
        (UpdateStage::Client, Event::Failed(error)) => (
            UpdateStage::Done,
            Turn::Return(Err(error)),
        ),
        (UpdateStage::Update, Event::Failed(error)) => (
            UpdateStage::Done,
            Turn::Return(Err(error)),
        ),
        (UpdateStage::Delivery, Event::Failed(error)) => (
            UpdateStage::Done,
            Turn::Return(Err(error)),
        ),
        (stage, _) => (stage, Turn::Ignored),
    }
}

} // verus!
