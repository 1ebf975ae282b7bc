//! One invocation, from the HTTP request to its answer.
//!
//! An invocation belongs to one route. It starts by asking for the bot token
//! and is then taken on, event by event, by [`Invocation::step`], which lets the
//! route's handler decide and turns what the handler returns into the answer.
//! The host does the work between two steps and runs nothing else.

use vstd::prelude::*;
use crate::config::{ConfigError, Secret};
use crate::handlers::{
    first_request, get_me, get_me_step, handle_update, handle_update_step, init_webhook,
    init_webhook_step, GetMeStage, InitWebhookStage, InitWebhookStageView, Turn, TurnView,
    UpdateStage,
};
use crate::lift::option_view;
use crate::normalize::{convert_err, normalized, Reply, ReplyView};
use crate::protocol::{Event, EventView, Request, RequestView};

verus! {

/// The three endpoints.
#[derive(Clone, Copy, Debug, PartialEq, Eq)]
pub enum Route {
    /// `POST /webhook`: one update is delivered.
    Webhook,
    /// `GET /get_me`: the bot's identity, for a look by hand.
    GetMe,
    /// `GET /init_webhook`: the webhook address is registered.
    InitWebhook,
}

impl Route {
    /// The path of the endpoint.
    pub open spec fn spec_path(self) -> Seq<char> {
        match self {
            Route::Webhook => "/webhook"@,
            Route::GetMe => "/get_me"@,
            Route::InitWebhook => "/init_webhook"@,
        }
    }

    /// Whether the endpoint takes `POST`; the others take `GET`.
    pub open spec fn spec_is_post(self) -> bool {
        self == Route::Webhook
    }

    /// The path of the endpoint.
    pub fn path(self) -> (path: &'static str)
        ensures
            path@ == self.spec_path(),
    {
        match self {
            Route::Webhook => "/webhook",
            Route::GetMe => "/get_me",
            Route::InitWebhook => "/init_webhook",
        }
    }

    /// Whether the endpoint takes `POST`; the others take `GET`.
    pub fn is_post(self) -> (post: bool)
        ensures
            post == self.spec_is_post(),
    {
        match self {
            Route::Webhook => true,
            Route::GetMe => false,
            Route::InitWebhook => false,
        }
    }
}

/// What the host is to do next.
#[derive(Debug, PartialEq, Eq)]
pub enum Action {
    /// Do this work and report on it.
    Perform(Request),
    /// Answer the HTTP caller with the response, and write the log line where
    /// there is one. The invocation is over.
    Reply(Reply),
    /// Fail the invocation as misconfigured, without an acknowledgment. The
    /// invocation is over.
    Abort(ConfigError),
}

/// An [`Action`] over mathematical values.
pub enum ActionView {
    Perform(RequestView),
    Reply(ReplyView),
    Abort(ConfigError),
}

impl View for Action {
    type V = ActionView;

    open spec fn view(&self) -> ActionView {
        match self {
            Action::Perform(request) => ActionView::Perform(request@),
            Action::Reply(reply) => ActionView::Reply(reply@),
            Action::Abort(error) => ActionView::Abort(*error),
        }
    }
}

/// An invocation: the route it belongs to, and where the route's handler
/// stands.
#[derive(Debug, PartialEq, Eq)]
pub enum Invocation {
    Webhook(UpdateStage),
    GetMe(GetMeStage),
    InitWebhook(InitWebhookStage),
}

/// An [`Invocation`] over mathematical values.
pub enum InvocationView {
    Webhook(UpdateStage),
    GetMe(GetMeStage),
    InitWebhook(InitWebhookStageView),
}

impl View for Invocation {
    type V = InvocationView;

    open spec fn view(&self) -> InvocationView {
        match self {
            Invocation::Webhook(stage) => InvocationView::Webhook(*stage),
            Invocation::GetMe(stage) => InvocationView::GetMe(*stage),
            Invocation::InitWebhook(stage) => InvocationView::InitWebhook(stage@),
        }
    }
}

impl InvocationView {
    /// The route the invocation belongs to.
    pub open spec fn route(self) -> Route {
        match self {
            InvocationView::Webhook(_) => Route::Webhook,
            InvocationView::GetMe(_) => Route::GetMe,
            InvocationView::InitWebhook(_) => Route::InitWebhook,
        }
    }

    /// Whether the invocation is over.
    pub open spec fn is_over(self) -> bool {
        match self {
            InvocationView::Webhook(stage) => stage == UpdateStage::Done,
            InvocationView::GetMe(stage) => stage == GetMeStage::Done,
            InvocationView::InitWebhook(stage) => stage == InitWebhookStageView::Done,
        }
    }
}

/// The invocation of a route as it starts: its handler waits for the bot
/// token.
pub open spec fn started(route: Route) -> InvocationView {
    match route {
        Route::Webhook => InvocationView::Webhook(UpdateStage::Token),
        Route::GetMe => InvocationView::GetMe(GetMeStage::Token),
        Route::InitWebhook => InvocationView::InitWebhook(InitWebhookStageView::Token),
    }
}

/// What the host is to do for what the handler wants, if anything.
///
/// Outside work is passed on. What the handler returns goes through the
/// normalizer, and there only. A missing secret does not: it ends the
/// invocation as a fault of its own kind.
pub open spec fn action_for(turn: TurnView) -> Option<ActionView> {
    match turn {
        TurnView::Ask(request) => Some(ActionView::Perform(request)),
        TurnView::Return(outcome) => Some(ActionView::Reply(normalized(outcome))),
        TurnView::Misconfigured(error) => Some(ActionView::Abort(error)),
        TurnView::Ignored => None,
    }
}

/// An invocation, one event on: the route's handler moves, and what it wants
/// becomes the host's next action.
pub open spec fn step(invocation: InvocationView, event: EventView) -> (
    InvocationView,
    Option<ActionView>,
) {
    match invocation {
        InvocationView::Webhook(stage) => {
            let (next, turn) = handle_update_step(stage, event);
            (InvocationView::Webhook(next), action_for(turn))
        },
        InvocationView::GetMe(stage) => {
            let (next, turn) = get_me_step(stage, event);
            (InvocationView::GetMe(next), action_for(turn))
        },
        InvocationView::InitWebhook(stage) => {
            let (next, turn) = init_webhook_step(stage, event);
            (InvocationView::InitWebhook(next), action_for(turn))
        },
    }
}

/// The host's action for what the handler wants.
fn act(turn: Turn) -> (action: Option<Action>)
    ensures
        option_view(action) == action_for(turn@),
{
    match turn {
        Turn::Ask(request) => Some(Action::Perform(request)),
        Turn::Return(outcome) => Some(Action::Reply(convert_err(outcome))),
        Turn::Misconfigured(error) => Some(Action::Abort(error)),
        Turn::Ignored => None,
    }
}

impl Invocation {
    /// Starts an invocation of `route`. The second component is the first
    /// piece of work for the host: to look up the bot token.
    pub fn start(route: Route) -> (begun: (Invocation, Request))
        ensures
            begun.0@ == started(route),
            begun.1@ == first_request(),
    {
        let invocation = match route {
            Route::Webhook => Invocation::Webhook(UpdateStage::Token),
            Route::GetMe => Invocation::GetMe(GetMeStage::Token),
            Route::InitWebhook => Invocation::InitWebhook(InitWebhookStage::Token),
        };
        (invocation, Request::Secret(Secret::BotToken))
    }

    /// Takes the invocation one event on.
    ///
    /// The result is the invocation after the event and the host's next
    /// action. There is no action where the event answers no work that the
    /// invocation waits for: the invocation is then returned as it was.
    pub fn step(self, event: Event) -> (next: (Invocation, Option<Action>))
        ensures
            (next.0@, option_view(next.1)) == step(self@, event@),
    {
        match self {
            Invocation::Webhook(stage) => {
                let (next, turn) = handle_update(stage, event);
                (Invocation::Webhook(next), act(turn))
            },
            Invocation::GetMe(stage) => {
                let (next, turn) = get_me(stage, event);
                (Invocation::GetMe(next), act(turn))
            },
            Invocation::InitWebhook(stage) => {
                let (next, turn) = init_webhook(stage, event);
                (Invocation::InitWebhook(next), act(turn))
            },
        }
    }

    /// The route the invocation belongs to.
    pub fn route(&self) -> (route: Route)
        ensures
            route == self@.route(),
    {
        match self {
            Invocation::Webhook(_) => Route::Webhook,
            Invocation::GetMe(_) => Route::GetMe,
            Invocation::InitWebhook(_) => Route::InitWebhook,
        }
    }

    /// Whether the invocation is over: it has been answered or has failed as
    /// misconfigured, and every further event is left aside.
    pub fn is_over(&self) -> (over: bool)
        ensures
            over == self@.is_over(),
    {
        match self {
            Invocation::Webhook(UpdateStage::Done) => true,
            Invocation::GetMe(GetMeStage::Done) => true,
            Invocation::InitWebhook(InitWebhookStage::Done) => true,
            _ => false,
        }
    }
}

} // verus!
