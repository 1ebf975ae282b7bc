use sticker_webhook::error::AppError;
use sticker_webhook::normalize::{convert_err, Reply};
use sticker_webhook::response::Response;

fn acknowledgment() -> Response {
    Response { status: 200, content_type: "text/html".to_string(), body: "true".to_string() }
}

#[test]
fn acknowledgment_is_200_html_true() {
    assert_eq!(Response::acknowledgment(), acknowledgment());
}

#[test]
fn from_html_sets_status_and_media_type() {
    let page = Response::from_html("<p>hello</p>".to_string());
    assert_eq!(page.status, 200);
    assert_eq!(page.content_type, "text/html");
    assert_eq!(page.body, "<p>hello</p>");
}

#[test]
fn response_passes_unchanged() {
    let page = Response {
        status: 404,
        content_type: "text/plain".to_string(),
        body: "nothing here".to_string(),
    };
    let reply = convert_err(Ok(page));
    assert_eq!(
        reply,
        Reply {
            response: Response {
                status: 404,
                content_type: "text/plain".to_string(),
                body: "nothing here".to_string(),
            },
            log: None,
        }
    );
}

#[test]
fn worker_error_is_acknowledged_and_logged() {
    let reply = convert_err(Err(AppError::WorkerError("connection reset".to_string())));
    assert_eq!(reply.response, acknowledgment());
    assert_eq!(reply.log, Some("connection reset".to_string()));
}

#[test]
fn reqwest_error_is_acknowledged_and_logged() {
    let reply = convert_err(Err(AppError::ReqwestError("tls handshake failed".to_string())));
    assert_eq!(reply.response, acknowledgment());
    assert_eq!(reply.log, Some("tls handshake failed".to_string()));
}

#[test]
fn box_error_is_acknowledged_and_logged() {
    let reply = convert_err(Err(AppError::BoxError("Bad Request: wrong file_id".to_string())));
    assert_eq!(reply.response, acknowledgment());
    assert_eq!(reply.log, Some("Bad Request: wrong file_id".to_string()));
}

#[test]
fn normalizing_twice_changes_nothing() {
    let once = convert_err(Err(AppError::BoxError("boom".to_string())));
    let twice = convert_err(Ok(once.response));
    assert_eq!(twice.response, acknowledgment());
    assert_eq!(twice.log, None);
}

#[test]
fn error_message_is_the_description_of_its_cause() {
    assert_eq!(AppError::WorkerError("a".to_string()).message(), "a");
    assert_eq!(AppError::ReqwestError("b".to_string()).message(), "b");
    assert_eq!(AppError::BoxError("c".to_string()).message(), "c");
    assert_eq!(AppError::BoxError("c".to_string()).into_message(), "c".to_string());
}
