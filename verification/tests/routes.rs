use sticker_webhook::config::{ConfigError, Secret};
use sticker_webhook::error::AppError;
use sticker_webhook::handlers::{
    get_me, handle_update, init_webhook, GetMeStage, InitWebhookStage, Turn, UpdateStage,
};
use sticker_webhook::invocation::{Action, Invocation, Route};
use sticker_webhook::model::{Chat, Message, Sticker, Update};
use sticker_webhook::normalize::Reply;
use sticker_webhook::outbound::{BotCall, OutboundPhoto, SendPhoto};
use sticker_webhook::protocol::{Event, Request};
use sticker_webhook::response::Response;

fn acknowledged() -> Action {
    Action::Reply(Reply { response: Response::acknowledgment(), log: None })
}

fn token() -> Event {
    Event::Secret(Some("123:token".to_string()))
}

/// Starts an invocation of `route` and feeds it `events`; gives back the
/// invocation and every action on the way, the first request included.
fn drive(route: Route, events: Vec<Event>) -> (Invocation, Vec<Action>) {
    let (mut invocation, first) = Invocation::start(route);
    let mut actions = vec![Action::Perform(first)];
    for event in events {
        let (next, action) = invocation.step(event);
        invocation = next;
        if let Some(action) = action {
            actions.push(action);
        }
    }
    (invocation, actions)
}

fn outbound_calls(actions: &[Action]) -> usize {
    actions.iter().filter(|action| matches!(action, Action::Perform(Request::Call(_)))).count()
}

fn decoded(body: Option<Message>) -> Event {
    Event::Decoded(Update { message: body })
}

#[test]
fn every_route_starts_by_asking_for_the_bot_token() {
    for route in [Route::Webhook, Route::GetMe, Route::InitWebhook] {
        let (invocation, first) = Invocation::start(route);
        assert_eq!(first, Request::Secret(Secret::BotToken));
        assert_eq!(invocation.route(), route);
        assert!(!invocation.is_over());
    }
}

#[test]
fn missing_bot_token_is_a_configuration_error_on_every_route() {
    for route in [Route::Webhook, Route::GetMe, Route::InitWebhook] {
        let (invocation, actions) = drive(route, vec![Event::Secret(None)]);
        assert_eq!(
            actions,
            vec![
                Action::Perform(Request::Secret(Secret::BotToken)),
                Action::Abort(ConfigError { missing: Secret::BotToken }),
            ]
        );
        assert_ne!(actions[1], acknowledged());
        assert!(invocation.is_over());
    }
}

#[test]
fn missing_webhook_url_is_a_configuration_error() {
    let (invocation, actions) = drive(Route::InitWebhook, vec![token(), Event::Secret(None)]);
    assert_eq!(
        actions,
        vec![
            Action::Perform(Request::Secret(Secret::BotToken)),
            Action::Perform(Request::Secret(Secret::WebhookUrl)),
            Action::Abort(ConfigError { missing: Secret::WebhookUrl }),
        ]
    );
    assert_eq!(outbound_calls(&actions), 0);
    assert!(invocation.is_over());
}

#[test]
fn webhook_with_sticker_sends_one_photo_and_acknowledges() {
    let update = Some(Message {
        chat: Chat { id: 42 },
        sticker: Some(Sticker { file_id: "ABC".to_string() }),
    });
    let (invocation, actions) =
        drive(Route::Webhook, vec![token(), Event::Connected, decoded(update), Event::Accepted]);
    assert_eq!(
        actions,
        vec![
            Action::Perform(Request::Secret(Secret::BotToken)),
            Action::Perform(Request::Connect { token: "123:token".to_string() }),
            Action::Perform(Request::Decode),
            Action::Perform(Request::Call(BotCall::SendPhoto(SendPhoto {
                chat_id: 42,
                photo: OutboundPhoto::FileId("ABC".to_string()),
            }))),
            Action::Reply(Reply {
                response: Response {
                    status: 200,
                    content_type: "text/html".to_string(),
                    body: "true".to_string(),
                },
                log: None,
            }),
        ]
    );
    assert_eq!(outbound_calls(&actions), 1);
    assert!(invocation.is_over());
}

#[test]
fn webhook_with_text_message_sends_nothing_and_acknowledges() {
    let update = Some(Message { chat: Chat { id: 42 }, sticker: None });
    let (invocation, actions) =
        drive(Route::Webhook, vec![token(), Event::Connected, decoded(update)]);
    assert_eq!(
        actions,
        vec![
            Action::Perform(Request::Secret(Secret::BotToken)),
            Action::Perform(Request::Connect { token: "123:token".to_string() }),
            Action::Perform(Request::Decode),
            acknowledged(),
        ]
    );
    assert_eq!(outbound_calls(&actions), 0);
    assert!(invocation.is_over());
}

#[test]
fn webhook_without_message_sends_nothing_and_acknowledges() {
    let (invocation, actions) =
        drive(Route::Webhook, vec![token(), Event::Connected, decoded(None)]);
    assert_eq!(outbound_calls(&actions), 0);
    assert_eq!(actions.last(), Some(&acknowledged()));
    assert_eq!(actions.len(), 4);
    assert!(invocation.is_over());
}

#[test]
fn init_webhook_registers_the_url_and_confirms_it() {
    let url = "https://example.com/webhook";
    let (invocation, actions) = drive(
        Route::InitWebhook,
        vec![token(), Event::Secret(Some(url.to_string())), Event::Connected, Event::Accepted],
    );
    assert_eq!(
        actions,
        vec![
            Action::Perform(Request::Secret(Secret::BotToken)),
            Action::Perform(Request::Secret(Secret::WebhookUrl)),
            Action::Perform(Request::Connect { token: "123:token".to_string() }),
            Action::Perform(Request::Call(BotCall::SetWebhook { url: url.to_string() })),
            Action::Reply(Reply {
                response: Response {
                    status: 200,
                    content_type: "text/html".to_string(),
                    body: "Set webhook to https://example.com/webhook".to_string(),
                },
                log: None,
            }),
        ]
    );
    assert_eq!(outbound_calls(&actions), 1);
    assert!(invocation.is_over());
}

#[test]
fn failed_send_is_acknowledged_and_logged() {
    let update = Some(Message {
        chat: Chat { id: 42 },
        sticker: Some(Sticker { file_id: "ABC".to_string() }),
    });
    let (invocation, actions) = drive(
        Route::Webhook,
        vec![
            token(),
            Event::Connected,
            decoded(update),
            Event::Failed(AppError::ReqwestError("error sending request".to_string())),
        ],
    );
    assert_eq!(
        actions.last(),
        Some(&Action::Reply(Reply {
            response: Response {
                status: 200,
                content_type: "text/html".to_string(),
                body: "true".to_string(),
            },
            log: Some("error sending request".to_string()),
        }))
    );
    assert_eq!(outbound_calls(&actions), 1);
    assert!(invocation.is_over());
}

#[test]
fn rejected_send_is_acknowledged_and_logged() {
    let update = Some(Message {
        chat: Chat { id: 5 },
        sticker: Some(Sticker { file_id: "bad".to_string() }),
    });
    let (_, actions) = drive(
        Route::Webhook,
        vec![
            token(),
            Event::Connected,
            decoded(update),
            Event::Failed(AppError::BoxError("Bad Request: wrong file identifier".to_string())),
        ],
    );
    assert_eq!(
        actions.last(),
        Some(&Action::Reply(Reply {
            response: Response::acknowledgment(),
            log: Some("Bad Request: wrong file identifier".to_string()),
        }))
    );
}

#[test]
fn undecodable_update_is_acknowledged_and_logged() {
    let (invocation, actions) = drive(
        Route::Webhook,
        vec![
            token(),
            Event::Connected,
            Event::Failed(AppError::WorkerError("expected value at line 1 column 1".to_string())),
        ],
    );
    assert_eq!(
        actions.last(),
        Some(&Action::Reply(Reply {
            response: Response::acknowledgment(),
            log: Some("expected value at line 1 column 1".to_string()),
        }))
    );
    assert_eq!(outbound_calls(&actions), 0);
    assert!(invocation.is_over());
}

#[test]
fn failed_client_is_acknowledged_before_the_update_is_read() {
    let (invocation, actions) = drive(
        Route::Webhook,
        vec![token(), Event::Failed(AppError::BoxError("Unauthorized".to_string()))],
    );
    assert_eq!(
        actions,
        vec![
            Action::Perform(Request::Secret(Secret::BotToken)),
            Action::Perform(Request::Connect { token: "123:token".to_string() }),
            Action::Reply(Reply {
                response: Response::acknowledgment(),
                log: Some("Unauthorized".to_string()),
            }),
        ]
    );
    assert!(invocation.is_over());
}

#[test]
fn get_me_returns_the_identity_as_a_page() {
    let dump = "User {\n    id: 1,\n    is_bot: true,\n}";
    let (invocation, actions) = drive(
        Route::GetMe,
        vec![token(), Event::Connected, Event::Identity(dump.to_string())],
    );
    assert_eq!(
        actions,
        vec![
            Action::Perform(Request::Secret(Secret::BotToken)),
            Action::Perform(Request::Connect { token: "123:token".to_string() }),
            Action::Perform(Request::Call(BotCall::GetMe)),
            Action::Reply(Reply {
                response: Response {
                    status: 200,
                    content_type: "text/html".to_string(),
                    body: dump.to_string(),
                },
                log: None,
            }),
        ]
    );
    assert_eq!(outbound_calls(&actions), 1);
    assert!(invocation.is_over());
}

#[test]
fn failed_get_me_is_answered_with_true() {
    let (_, actions) = drive(
        Route::GetMe,
        vec![token(), Event::Connected, Event::Failed(AppError::BoxError("not found".to_string()))],
    );
    assert_eq!(
        actions.last(),
        Some(&Action::Reply(Reply {
            response: Response::acknowledgment(),
            log: Some("not found".to_string()),
        }))
    );
}

#[test]
fn failed_registration_is_answered_with_true() {
    let (invocation, actions) = drive(
        Route::InitWebhook,
        vec![
            token(),
            Event::Secret(Some("https://example.com/webhook".to_string())),
            Event::Connected,
            Event::Failed(AppError::BoxError("Bad Request: bad webhook".to_string())),
        ],
    );
    assert_eq!(
        actions.last(),
        Some(&Action::Reply(Reply {
            response: Response::acknowledgment(),
            log: Some("Bad Request: bad webhook".to_string()),
        }))
    );
    assert!(invocation.is_over());
}

#[test]
fn event_that_answers_nothing_is_left_aside() {
    let (invocation, _) = Invocation::start(Route::Webhook);
    let (invocation, action) = invocation.step(Event::Accepted);
    assert_eq!(action, None);
    assert_eq!(invocation, Invocation::Webhook(UpdateStage::Token));
    let (invocation, action) = invocation.step(Event::Failed(AppError::WorkerError("x".to_string())));
    assert_eq!(action, None);
    assert_eq!(invocation, Invocation::Webhook(UpdateStage::Token));
    let (invocation, action) = invocation.step(token());
    assert_eq!(action, Some(Action::Perform(Request::Connect { token: "123:token".to_string() })));
    let (invocation, action) = invocation.step(Event::Identity("me".to_string()));
    assert_eq!(action, None);
    assert_eq!(invocation, Invocation::Webhook(UpdateStage::Client));
}

#[test]
fn finished_invocation_takes_no_more_events() {
    let (invocation, _) = drive(Route::Webhook, vec![token(), Event::Connected, decoded(None)]);
    assert!(invocation.is_over());
    let update = Some(Message {
        chat: Chat { id: 42 },
        sticker: Some(Sticker { file_id: "ABC".to_string() }),
    });
    let (invocation, action) = invocation.step(decoded(update));
    assert_eq!(action, None);
    let (invocation, action) = invocation.step(Event::Accepted);
    assert_eq!(action, None);
    assert_eq!(invocation, Invocation::Webhook(UpdateStage::Done));
}

#[test]
fn repeated_events_never_cause_a_second_call() {
    let sticker = || Some(Message {
        chat: Chat { id: 42 },
        sticker: Some(Sticker { file_id: "ABC".to_string() }),
    });
    let (_, actions) = drive(
        Route::Webhook,
        vec![
            token(),
            token(),
            Event::Connected,
            Event::Connected,
            decoded(sticker()),
            decoded(sticker()),
            Event::Accepted,
            decoded(sticker()),
            Event::Accepted,
        ],
    );
    assert_eq!(outbound_calls(&actions), 1);
    assert_eq!(actions.len(), 5);
}

#[test]
fn handlers_hand_failures_up_unchanged() {
    let error = || AppError::BoxError("boom".to_string());
    assert_eq!(
        get_me(GetMeStage::Identity, Event::Failed(error())),
        (GetMeStage::Done, Turn::Return(Err(error())))
    );
    assert_eq!(
        handle_update(UpdateStage::Delivery, Event::Failed(error())),
        (UpdateStage::Done, Turn::Return(Err(error())))
    );
    assert_eq!(
        init_webhook(
            InitWebhookStage::Registration { url: "https://example.com".to_string() },
            Event::Failed(error())
        ),
        (InitWebhookStage::Done, Turn::Return(Err(error())))
    );
}

#[test]
fn handlers_report_missing_secrets_as_misconfiguration() {
    assert_eq!(
        get_me(GetMeStage::Token, Event::Secret(None)),
        (GetMeStage::Done, Turn::Misconfigured(ConfigError { missing: Secret::BotToken }))
    );
    assert_eq!(
        handle_update(UpdateStage::Token, Event::Secret(None)),
        (UpdateStage::Done, Turn::Misconfigured(ConfigError { missing: Secret::BotToken }))
    );
    assert_eq!(
        init_webhook(InitWebhookStage::Url { token: "t".to_string() }, Event::Secret(None)),
        (InitWebhookStage::Done, Turn::Misconfigured(ConfigError { missing: Secret::WebhookUrl }))
    );
}

#[test]
fn handlers_ignore_what_they_do_not_wait_for() {
    assert_eq!(
        get_me(GetMeStage::Client, Event::Accepted),
        (GetMeStage::Client, Turn::Ignored)
    );
    assert_eq!(
        handle_update(UpdateStage::Update, Event::Connected),
        (UpdateStage::Update, Turn::Ignored)
    );
    assert_eq!(
        init_webhook(InitWebhookStage::Client { url: "u".to_string() }, Event::Accepted),
        (InitWebhookStage::Client { url: "u".to_string() }, Turn::Ignored)
    );
}

#[test]
fn secret_names_and_route_paths() {
    assert_eq!(Secret::BotToken.name(), "BOT_TOKEN");
    assert_eq!(Secret::WebhookUrl.name(), "WEBHOOK_URL");
    assert_eq!(Route::Webhook.path(), "/webhook");
    assert_eq!(Route::GetMe.path(), "/get_me");
    assert_eq!(Route::InitWebhook.path(), "/init_webhook");
    assert!(Route::Webhook.is_post());
    assert!(!Route::GetMe.is_post());
    assert!(!Route::InitWebhook.is_post());
}

#[test]
fn nothing_is_logged_unless_the_host_reports_a_failure() {
    let update = Some(Message {
        chat: Chat { id: 42 },
        sticker: Some(Sticker { file_id: "ABC".to_string() }),
    });
    let (_, actions) = drive(
        Route::Webhook,
        vec![
            Event::Secret(Some("123:very-secret".to_string())),
            Event::Connected,
            decoded(update),
            Event::Accepted,
        ],
    );
    for action in &actions {
        if let Action::Reply(reply) = action {
            assert_eq!(reply.log, None);
        }
    }
    let (_, actions) = drive(
        Route::InitWebhook,
        vec![
            Event::Secret(Some("123:very-secret".to_string())),
            Event::Secret(Some("https://example.com/webhook".to_string())),
            Event::Failed(AppError::BoxError("Unauthorized".to_string())),
        ],
    );
    assert_eq!(
        actions.last(),
        Some(&Action::Reply(Reply {
            response: Response::acknowledgment(),
            log: Some("Unauthorized".to_string()),
        }))
    );
}

#[test]
fn every_answer_is_a_success() {
    let failure = || Event::Failed(AppError::WorkerError("down".to_string()));
    for route in [Route::Webhook, Route::GetMe, Route::InitWebhook] {
        for failing_at in 1..4 {
            let mut events = vec![
                token(),
                Event::Secret(Some("https://example.com/webhook".to_string())),
                Event::Connected,
                decoded(None),
                Event::Identity("me".to_string()),
                Event::Accepted,
            ];
            events.insert(failing_at, failure());
            let (_, actions) = drive(route, events);
            for action in &actions {
                if let Action::Reply(reply) = action {
                    assert_eq!(reply.response.status, 200);
                    assert_eq!(reply.response.content_type, "text/html");
                    if route == Route::Webhook {
                        assert_eq!(reply.response.body, "true");
                    }
                }
            }
            assert!(outbound_calls(&actions) <= 1);
        }
    }
}
