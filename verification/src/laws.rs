//! What holds of every invocation, whatever the host reports.

use vstd::prelude::*;
use crate::config::{ConfigError, Secret};
use crate::dispatch::planned;
use crate::error::AppErrorView;
use crate::handlers::{GetMeStage, InitWebhookStageView, UpdateStage};
use crate::invocation::{started, step, ActionView, InvocationView, Route};
use crate::model::MessageView;
use crate::normalize::ReplyView;
use crate::outbound::{BotCallView, OutboundPhotoView, SendPhotoView};
use crate::protocol::{EventView, RequestView};
use crate::response::{acknowledgment, html};

verus! {

/// An invocation after a sequence of events, with the actions that the host
/// was given on the way, in their order.
pub open spec fn run(invocation: InvocationView, events: Seq<EventView>) -> (
    InvocationView,
    Seq<ActionView>,
)
    decreases events.len(),
{
    if events.len() == 0 {
        (invocation, Seq::empty())
    } else {
        let (before, actions) = run(invocation, events.drop_last());
        let (after, action) = step(before, events.last());
        match action {
            Some(action) => (after, actions.push(action)),
            None => (after, actions),
        }
    }
}

/// Whether the action has the host call the bot API.
pub open spec fn is_call(action: ActionView) -> bool {
    action matches ActionView::Perform(RequestView::Call(_))
}

/// The number of calls to the bot API among the actions.
pub open spec fn calls(actions: Seq<ActionView>) -> nat
    decreases actions.len(),
{
    if actions.len() == 0 {
        0
    } else if is_call(actions.last()) {
        calls(actions.drop_last()) + 1
    } else {
        calls(actions.drop_last())
    }
}

/// The number of calls to the bot API that the invocation may still ask for.
pub open spec fn calls_ahead(invocation: InvocationView) -> nat {
    match invocation {
        InvocationView::Webhook(UpdateStage::Delivery) => 0,
        InvocationView::Webhook(UpdateStage::Done) => 0,
        InvocationView::GetMe(GetMeStage::Identity) => 0,
        InvocationView::GetMe(GetMeStage::Done) => 0,
        InvocationView::InitWebhook(InitWebhookStageView::Registration { .. }) => 0,
        InvocationView::InitWebhook(InitWebhookStageView::Done) => 0,
        _ => 1,
    }
}

/// The action that has the host do a piece of work.
pub open spec fn perform(request: RequestView) -> ActionView {
    ActionView::Perform(request)
}

/// The action that has the host send the file `file_id` as a photo to the chat
/// `chat_id`.
pub open spec fn send_photo(chat_id: int, file_id: Seq<char>) -> ActionView {
    ActionView::Perform(
        RequestView::Call(
            BotCallView::SendPhoto(
                SendPhotoView { chat_id, photo: OutboundPhotoView::FileId(file_id) },
            ),
        ),
    )
}

/// The action that answers the HTTP caller with the fixed acknowledgment, and
/// leaves `log` for the operator.
pub open spec fn acknowledge(log: Option<Seq<char>>) -> ActionView {
    ActionView::Reply(ReplyView { response: acknowledgment(), log })
}

/// The action that answers the HTTP caller with a page, and logs nothing.
pub open spec fn show(body: Seq<char>) -> ActionView {
    ActionView::Reply(ReplyView { response: html(body), log: None })
}

/// The action that ends the invocation for want of a secret.
pub open spec fn misconfigured(missing: Secret) -> ActionView {
    ActionView::Abort(ConfigError { missing })
}

/// An update with a message from the chat `chat_id`, with the sticker
/// `sticker` where there is one.
pub open spec fn message(chat_id: int, sticker: Option<Seq<char>>) -> Option<MessageView> {
    Some(MessageView { chat_id, sticker })
}

/// What the host reports on the webhook route where nothing fails, up to the
/// decoded update.
pub open spec fn delivery(token: Seq<char>, update: Option<MessageView>) -> Seq<EventView> {
    seq![EventView::Secret(Some(token)), EventView::Connected, EventView::Decoded(update)]
}

/// The line that the action leaves for the log, if it leaves one.
pub open spec fn logged(action: Option<ActionView>) -> Option<Seq<char>> {
    match action {
        Some(ActionView::Reply(reply)) => reply.log,
        _ => None,
    }
}

/// The failure that the event reports, where it reports one.
pub open spec fn reported(event: EventView) -> AppErrorView {
    event->Failed_0
}

/// Whether the action, where it answers the HTTP caller, answers with success:
/// status 200 and an HTML body; and on the webhook route with the fixed
/// acknowledgment.
pub open spec fn answers_with_success(route: Route, action: ActionView) -> bool {
    action matches ActionView::Reply(reply) ==> {
        &&& reply.response.status == 200
        &&& reply.response.content_type == "text/html"@
        &&& route == Route::Webhook ==> reply.response == acknowledgment()
    }
}

/// A run that goes one event further is the run so far and one step.
proof fn lemma_run_push(invocation: InvocationView, events: Seq<EventView>, event: EventView)
    ensures
        run(invocation, events.push(event)) == ({
            let (before, actions) = run(invocation, events);
            let (after, action) = step(before, event);
            match action {
                Some(action) => (after, actions.push(action)),
                None => (after, actions),
            }
        }),
{
    assert(events.push(event).drop_last() =~= events);
}

/// One more action counts for one call if it is a call, and for none
/// otherwise.
proof fn lemma_calls_push(actions: Seq<ActionView>, action: ActionView)
    ensures
        calls(actions.push(action)) == calls(actions) + (if is_call(action) {
            1nat
        } else {
            0nat
        }),
{
    assert(actions.push(action).drop_last() =~= actions);
}

/// The webhook route, where nothing fails, asks for the client and for the
/// update, in that order, and then waits for the update.
proof fn lemma_webhook_reaches_update(token: Seq<char>)
    ensures
        run(
            started(Route::Webhook),
            seq![EventView::Secret(Some(token)), EventView::Connected],
        ) == (
            InvocationView::Webhook(UpdateStage::Update),
            seq![perform(RequestView::Connect { token }), perform(RequestView::Decode)],
        ),
{
    let start = started(Route::Webhook);
    let none = Seq::<EventView>::empty();
    let one = none.push(EventView::Secret(Some(token)));
    let two = one.push(EventView::Connected);
    assert(run(start, none) == (start, Seq::<ActionView>::empty()));
    lemma_run_push(start, none, EventView::Secret(Some(token)));
    lemma_run_push(start, one, EventView::Connected);
    assert(two =~= seq![EventView::Secret(Some(token)), EventView::Connected]);
    assert(run(start, two).1 =~= seq![
        perform(RequestView::Connect { token }),
        perform(RequestView::Decode),
    ]);
}

/// Without the bot token no route does anything: the invocation ends as
/// misconfigured. That is no reply, so it cannot pass for an acknowledgment.
pub proof fn lemma_missing_token_is_misconfiguration(route: Route)
    ensures
        step(started(route), EventView::Secret(None)).1 == Some(misconfigured(Secret::BotToken)),
        !(misconfigured(Secret::BotToken) is Reply),
        step(started(route), EventView::Secret(None)).0.is_over(),
{
}

/// Without the address to register, the registration route ends as
/// misconfigured before anything is sent.
pub proof fn lemma_missing_url_is_misconfiguration(token: Seq<char>)
    ensures
        ({
            let (asked, first) = step(started(Route::InitWebhook), EventView::Secret(Some(token)));
            let (ended, second) = step(asked, EventView::Secret(None));
            &&& first == Some(perform(RequestView::Secret(Secret::WebhookUrl)))
            &&& second == Some(misconfigured(Secret::WebhookUrl))
            &&& ended.is_over()
        }),
{
}

/// The dispatcher asks for a call exactly where the update has a message and
/// the message has a sticker.
pub proof fn lemma_planned_iff_sticker(update: Option<MessageView>)
    ensures
        planned(update) is Some <==> (update matches Some(message) && message.sticker is Some),
{
}

/// An update that asks for nothing, be it without a message or with a message
/// without a sticker, has nothing sent: the webhook route ends with the
/// acknowledgment, without a call and with nothing for the log.
pub proof fn lemma_nothing_to_send(token: Seq<char>, update: Option<MessageView>)
    requires
        planned(update) is None,
    ensures
        run(started(Route::Webhook), delivery(token, update)) == (
            InvocationView::Webhook(UpdateStage::Done),
            seq![
                perform(RequestView::Connect { token }),
                perform(RequestView::Decode),
                acknowledge(None),
            ],
        ),
        calls(run(started(Route::Webhook), delivery(token, update)).1) == 0,
{
    let start = started(Route::Webhook);
    let before = seq![EventView::Secret(Some(token)), EventView::Connected];
    let asked = seq![perform(RequestView::Connect { token }), perform(RequestView::Decode)];
    lemma_webhook_reaches_update(token);
    lemma_run_push(start, before, EventView::Decoded(update));
    assert(before.push(EventView::Decoded(update)) =~= delivery(token, update));
    assert(asked.push(acknowledge(None)) =~= seq![
        perform(RequestView::Connect { token }),
        perform(RequestView::Decode),
        acknowledge(None),
    ]);
    lemma_calls_of_preparation(token);
    lemma_calls_push(asked, acknowledge(None));
}

/// An update without a message has nothing sent and is acknowledged.
pub proof fn lemma_update_without_message(token: Seq<char>)
    ensures
        run(started(Route::Webhook), delivery(token, None)).1.last() == acknowledge(None),
        calls(run(started(Route::Webhook), delivery(token, None)).1) == 0,
{
    lemma_nothing_to_send(token, None);
}

/// A message without a sticker has nothing sent and is acknowledged.
pub proof fn lemma_message_without_sticker(token: Seq<char>, chat_id: int)
    ensures
        run(started(Route::Webhook), delivery(token, message(chat_id, None))).1.last()
            == acknowledge(None),
        calls(run(started(Route::Webhook), delivery(token, message(chat_id, None))).1) == 0,
{
    lemma_nothing_to_send(token, message(chat_id, None));
}

/// Asking for the client and for the update is no call to the bot API.
proof fn lemma_calls_of_preparation(token: Seq<char>)
    ensures
        calls(seq![perform(RequestView::Connect { token }), perform(RequestView::Decode)]) == 0,
{
    let none = Seq::<ActionView>::empty();
    let one = none.push(perform(RequestView::Connect { token }));
    lemma_calls_push(none, perform(RequestView::Connect { token }));
    lemma_calls_push(one, perform(RequestView::Decode));
    assert(one.push(perform(RequestView::Decode)) =~= seq![
        perform(RequestView::Connect { token }),
        perform(RequestView::Decode),
    ]);
}

/// A message with a sticker has that sticker's file sent, as a photo and by
/// its identifier, to the chat of the message: that one call and no other.
/// Whatever the bot API says to it, the answer is the acknowledgment; where
/// the call failed, the failure goes to the log by its description.
pub proof fn lemma_sticker_is_sent_back(
    token: Seq<char>,
    chat_id: int,
    file_id: Seq<char>,
    outcome: Result<(), AppErrorView>,
)
    ensures
        ({
            let update = message(chat_id, Some(file_id));
            let (sending, asked) = run(started(Route::Webhook), delivery(token, update));
            let report = match outcome {
                Ok(_) => EventView::Accepted,
                Err(error) => EventView::Failed(error),
            };
            let log = match outcome {
                Ok(_) => None,
                Err(error) => Some(error.message()),
            };
            &&& asked == seq![
                perform(RequestView::Connect { token }),
                perform(RequestView::Decode),
                send_photo(chat_id, file_id),
            ]
            &&& calls(asked) == 1
            &&& step(sending, report) == (
                InvocationView::Webhook(UpdateStage::Done),
                Some(acknowledge(log)),
            )
        }),
{
    let start = started(Route::Webhook);
    let update = message(chat_id, Some(file_id));
    let before = seq![EventView::Secret(Some(token)), EventView::Connected];
    let asked = seq![perform(RequestView::Connect { token }), perform(RequestView::Decode)];
    lemma_webhook_reaches_update(token);
    lemma_run_push(start, before, EventView::Decoded(update));
    assert(before.push(EventView::Decoded(update)) =~= delivery(token, update));
    assert(asked.push(send_photo(chat_id, file_id)) =~= seq![
        perform(RequestView::Connect { token }),
        perform(RequestView::Decode),
        send_photo(chat_id, file_id),
    ]);
    lemma_calls_of_preparation(token);
    lemma_calls_push(asked, send_photo(chat_id, file_id));
}

/// The registration route registers the address it was configured with, and
/// once the bot API has accepted it, answers with a page that repeats it.
pub proof fn lemma_registration_confirms_url(token: Seq<char>, url: Seq<char>)
    ensures
        ({
            let (s1, _) = step(started(Route::InitWebhook), EventView::Secret(Some(token)));
            let (s2, connect) = step(s1, EventView::Secret(Some(url)));
            let (s3, register) = step(s2, EventView::Connected);
            let (s4, answer) = step(s3, EventView::Accepted);
            &&& connect == Some(perform(RequestView::Connect { token }))
            &&& register == Some(perform(RequestView::Call(BotCallView::SetWebhook { url })))
            &&& answer == Some(show("Set webhook to "@ + url))
            &&& s4.is_over()
        }),
{
}

/// The identity route asks for the identity record and answers with it as a
/// page.
pub proof fn lemma_identity_is_shown(token: Seq<char>, identity: Seq<char>)
    ensures
        ({
            let (s1, connect) = step(started(Route::GetMe), EventView::Secret(Some(token)));
            let (s2, ask) = step(s1, EventView::Connected);
            let (s3, answer) = step(s2, EventView::Identity(identity));
            &&& connect == Some(perform(RequestView::Connect { token }))
            &&& ask == Some(perform(RequestView::Call(BotCallView::GetMe)))
            &&& answer == Some(show(identity))
            &&& s3.is_over()
        }),
{
}

/// A failure that the host reports, where the invocation waits for that work,
/// is never handed on to the HTTP caller: on every route and at every stage
/// it is answered with the fixed acknowledgment and logged by its description.
pub proof fn lemma_failure_never_surfaces(invocation: InvocationView, error: AppErrorView)
    ensures
        ({
            let (after, action) = step(invocation, EventView::Failed(error));
            action is Some ==> action == Some(acknowledge(Some(error.message()))) && after.is_over()
        }),
{
}

/// What goes to the log is the description of a failure that the host
/// reported, and nothing else: no secret and nothing of the update.
pub proof fn lemma_log_is_reported_failure(invocation: InvocationView, event: EventView)
    ensures
        logged(step(invocation, event).1) matches Some(line) ==> event == EventView::Failed(
            reported(event),
        ) && line == reported(event).message(),
{
}

/// An invocation that is over stays as it is: every event is left aside.
pub proof fn lemma_over_is_final(invocation: InvocationView, event: EventView)
    requires
        invocation.is_over(),
    ensures
        step(invocation, event) == (invocation, None::<ActionView>),
{
}

/// An answer or a misconfiguration ends the invocation, and only they do. The
/// invocation stays on its route throughout.
pub proof fn lemma_ends_with_its_answer(invocation: InvocationView, event: EventView)
    requires
        !invocation.is_over(),
    ensures
        step(invocation, event).0.is_over() <==> (step(invocation, event).1 matches Some(
            action,
        ) && !(action is Perform)),
        step(invocation, event).0.route() == invocation.route(),
{
}

/// A step that asks for a call uses up the one call the invocation had ahead.
proof fn lemma_step_spends_call(invocation: InvocationView, event: EventView)
    ensures
        ({
            let (after, action) = step(invocation, event);
            match action {
                Some(action) => calls_ahead(after) + (if is_call(action) {
                    1nat
                } else {
                    0nat
                }) <= calls_ahead(invocation),
                None => calls_ahead(after) == calls_ahead(invocation),
            }
        }),
{
}

/// The calls made and the calls still ahead never come to more than were ahead
/// at the start.
proof fn lemma_calls_bounded(invocation: InvocationView, events: Seq<EventView>)
    ensures
        calls(run(invocation, events).1) + calls_ahead(run(invocation, events).0) <= calls_ahead(
            invocation,
        ),
    decreases events.len(),
{
    if events.len() > 0 {
        lemma_calls_bounded(invocation, events.drop_last());
        let (before, actions) = run(invocation, events.drop_last());
        lemma_step_spends_call(before, events.last());
        match step(before, events.last()).1 {
            Some(action) => lemma_calls_push(actions, action),
            None => {},
        }
    }
}

/// Whatever the host reports, and in whatever order, one invocation asks for
/// one call to the bot API at most.
pub proof fn lemma_at_most_one_call(route: Route, events: Seq<EventView>)
    ensures
        calls(run(started(route), events).1) <= 1,
{
    lemma_calls_bounded(started(route), events);
}

/// A step that answers the HTTP caller answers with success.
proof fn lemma_step_answers_with_success(invocation: InvocationView, event: EventView)
    ensures
        step(invocation, event).1 matches Some(action) ==> answers_with_success(
            invocation.route(),
            action,
        ),
{
}

/// A run keeps the invocation on its route.
proof fn lemma_run_keeps_route(invocation: InvocationView, events: Seq<EventView>)
    ensures
        run(invocation, events).0.route() == invocation.route(),
    decreases events.len(),
{
    if events.len() > 0 {
        lemma_run_keeps_route(invocation, events.drop_last());
    }
}

/// Whatever the host reports, the HTTP caller is never answered with anything
/// but success, and on the webhook route never with anything but the fixed
/// acknowledgment.
pub proof fn lemma_always_success(route: Route, events: Seq<EventView>, i: int)
    requires
        0 <= i < run(started(route), events).1.len(),
    ensures
        answers_with_success(route, run(started(route), events).1[i]),
    decreases events.len(),
{
    if events.len() > 0 {
        let (before, actions) = run(started(route), events.drop_last());
        lemma_run_keeps_route(started(route), events.drop_last());
        lemma_step_answers_with_success(before, events.last());
        if i < actions.len() {
            lemma_always_success(route, events.drop_last(), i);
        }
    }
}

} // verus!
