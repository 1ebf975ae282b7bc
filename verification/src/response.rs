//! The HTTP response an invocation ends with.

use vstd::prelude::*;

verus! {

/// An HTTP response: status, media type and body.
#[derive(Debug, PartialEq, Eq)]
pub struct Response {
    pub status: u16,
    pub content_type: String,
    pub body: String,
}

/// A [`Response`] with its texts as sequences of characters.
pub struct ResponseView {
    pub status: int,
    pub content_type: Seq<char>,
    pub body: Seq<char>,
}

impl View for Response {
    type V = ResponseView;

    open spec fn view(&self) -> ResponseView {
        ResponseView {
            status: self.status as int,
            content_type: self.content_type@,
            body: self.body@,
        }
    }
}

/// The successful HTML response with the given body.
pub open spec fn html(body: Seq<char>) -> ResponseView {
    ResponseView { status: 200, content_type: "text/html"@, body }
}

/// The fixed acknowledgment of a webhook delivery.
pub open spec fn acknowledgment() -> ResponseView {
    html("true"@)
}

impl Response {
    /// A successful response with `body` as its HTML page.
    pub fn from_html(body: String) -> (response: Response)
        ensures
            response@ == html(body@),
    {
        Response { status: 200, content_type: "text/html".to_owned(), body }
    }

    /// The fixed acknowledgment of a webhook delivery: whatever became of the
    /// update, the caller is told that it was received.
    pub fn acknowledgment() -> (response: Response)
        ensures
            response@ == acknowledgment(),
    {
        Response::from_html("true".to_owned())
    }
}

} // verus!
