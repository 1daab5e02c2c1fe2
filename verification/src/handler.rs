//! The request handler: one pass from a fetch outcome to exactly one HTTP
//! reply. A successful fetch becomes a 200 HTML reply whose body is the
//! rendered widget; a failed fetch becomes a 500 plain-text reply whose
//! body carries the error's description. There is no retry and no other
//! terminal state.

use vstd::prelude::*;
use crate::render::{render_widget, rendered};
use crate::weather::{FetchError, WeatherObservation};

verus! {

/// The media kind of a reply body.
#[derive(Clone, Copy, Debug, PartialEq, Eq, Structural)]
pub enum ContentType {
    Html,
    PlainText,
}

/// One HTTP reply: status code, body media kind, and body text. The
/// hosting server turns this into the wire response.
#[derive(Debug)]
pub struct HttpReply {
    pub status: u16,
    pub content_type: ContentType,
    pub body: String,
}

/// The status a fetch outcome is answered with: 200 on success, 500 on
/// failure.
pub open spec fn reply_status(outcome: Result<WeatherObservation, FetchError>) -> int {
    match outcome {
        Ok(_) => 200,
        Err(_) => 500,
    }
}

/// The media kind a fetch outcome is answered with: HTML on success,
/// plain text on failure.
pub open spec fn reply_content_type(
    outcome: Result<WeatherObservation, FetchError>,
) -> ContentType {
    match outcome {
        Ok(_) => ContentType::Html,
        Err(_) => ContentType::PlainText,
    }
}

/// The body of a failure reply: a fixed prefix followed by the error's
/// description.
pub open spec fn error_body(e: FetchError) -> Seq<char> {
    "Error: "@ + e.desc()
}

/// The body a fetch outcome is answered with: the rendered widget on
/// success, the error text on failure.
pub open spec fn reply_body(outcome: Result<WeatherObservation, FetchError>) -> Seq<char> {
    match outcome {
        Ok(obs) => rendered(obs),
        Err(e) => error_body(e),
    }
}

/// Decides the one reply for a request, from the outcome of the fetch for
/// the request's place. On success the renderer runs and its output is the
/// whole body; on failure the renderer does not run and the body is the
/// error text.
pub fn handle_request(outcome: Result<WeatherObservation, FetchError>) -> (reply: HttpReply)
    ensures
        reply.status as int == reply_status(outcome),
        reply.content_type == reply_content_type(outcome),
        reply.body@ == reply_body(outcome),
{
    match outcome {
        Ok(obs) => HttpReply {
            status: 200,
            content_type: ContentType::Html,
            body: render_widget(&obs),
        },
        Err(e) => {
            let mut body = String::from_str("Error: ");
            let d = e.description();
            body.append(d.as_str());
            HttpReply { status: 500, content_type: ContentType::PlainText, body }
        },
    }
}

/// Whether `needle` occurs contiguously inside `hay`.
pub open spec fn has_substring(hay: Seq<char>, needle: Seq<char>) -> bool {
    exists|i: int|
        0 <= i && i + needle.len() <= hay.len() && #[trigger] hay.subrange(
            i,
            i + needle.len(),
        ) == needle
}

/// Law: a failed fetch is answered with exactly one reply, of status 500
/// and plain text, whose body contains the error's description; the body
/// is the error text alone, never rendered widget HTML.
pub proof fn lemma_error_reply(e: FetchError)
    ensures
        reply_status(Err(e)) == 500,
        reply_content_type(Err(e)) is PlainText,
        reply_body(Err(e)) == error_body(e),
        has_substring(reply_body(Err(e)), e.desc()),
{
    let body = reply_body(Err(e));
    let prefix_len = "Error: "@.len() as int;
    assert(body.subrange(prefix_len, prefix_len + e.desc().len() as int) =~= e.desc());
}

/// Law: a successful fetch is answered with exactly one reply, of status
/// 200 and HTML media kind, whose body equals the rendered widget of the
/// fetched observation.
pub proof fn lemma_ok_reply(obs: WeatherObservation)
    ensures
        reply_status(Ok(obs)) == 200,
        reply_content_type(Ok(obs)) is Html,
        reply_body(Ok(obs)) == rendered(obs),
{
}

/// Law: each reply is a function of its own request's fetch outcome alone.
/// Requests sharing an outcome get identical replies, and no reply can
/// carry data from another request's outcome: status, media kind and body
/// are all pinned to the outcome given here.
pub proof fn lemma_replies_independent(
    o1: Result<WeatherObservation, FetchError>,
    o2: Result<WeatherObservation, FetchError>,
)
    requires
        o1 == o2,
    ensures
        reply_status(o1) == reply_status(o2),
        reply_content_type(o1) == reply_content_type(o2),
        reply_body(o1) == reply_body(o2),
{
}

} // verus!
