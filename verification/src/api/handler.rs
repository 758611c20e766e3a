//! The response to each outcome of a handler. A reply is made in one piece
//! from a result that is complete, so a client never sees part of one.
use crate::model::error::DbError;
use vstd::prelude::*;
use vstd::string::StringExecFns;

verus! {

/// The body of a reply.
#[derive(Debug)]
pub enum Body {
    /// No body.
    Empty,
    /// A body that is there in full.
    Text(String),
    /// The output of a stream session, sent chunk by chunk as it comes.
    Stream,
}

/// A response, as far as the service decides it: the transport adds the
/// rest.
#[derive(Debug)]
pub struct Reply {
    pub status: u16,
    /// Header names and values, in the order in which they are set.
    pub headers: Vec<(String, String)>,
    pub body: Body,
}

/// What the encoder made of a value.
#[derive(Debug)]
pub enum Encoded {
    /// The value as JSON.
    Json(String),
    /// The value could not be encoded.
    Failed,
}

/// The body of a reply as a mathematical value.
pub enum BodyView {
    Empty,
    Text(Seq<char>),
    Stream,
}

/// A reply as a mathematical value.
pub struct ReplyView {
    pub status: u16,
    pub headers: Seq<(Seq<char>, Seq<char>)>,
    pub body: BodyView,
}

impl View for Body {
    type V = BodyView;

    open spec fn view(&self) -> BodyView {
        match self {
            Body::Empty => BodyView::Empty,
            Body::Text(text) => BodyView::Text(text@),
            Body::Stream => BodyView::Stream,
        }
    }
}

impl View for Reply {
    type V = ReplyView;

    open spec fn view(&self) -> ReplyView {
        ReplyView {
            status: self.status,
            headers: Seq::new(
                self.headers@.len(),
                |i: int| (self.headers@[i].0@, self.headers@[i].1@),
            ),
            body: self.body@,
        }
    }
}

/// The header that lets pages of any origin read a reply.
pub open spec fn any_origin() -> (Seq<char>, Seq<char>) {
    ("Access-Control-Allow-Origin"@, "*"@)
}

/// The reply that carries `text` as JSON.
pub open spec fn json_reply(text: Seq<char>) -> ReplyView {
    ReplyView {
        status: 200,
        headers: seq![("content-type"@, "application/json"@), any_origin()],
        body: BodyView::Text(text),
    }
}

/// The reply to a request for an entry that is not there: as for one that
/// is there, but without a body.
pub open spec fn empty_reply() -> ReplyView {
    ReplyView {
        status: 200,
        headers: seq![("content-type"@, "application/json"@), any_origin()],
        body: BodyView::Empty,
    }
}

/// The reply where the service failed on its side, with `text` as body.
pub open spec fn failure_reply(text: Seq<char>) -> ReplyView {
    ReplyView { status: 500, headers: seq![any_origin()], body: BodyView::Text(text) }
}

/// The reply that carries a stream of video.
pub open spec fn stream_reply() -> ReplyView {
    ReplyView {
        status: 200,
        headers: seq![
            ("Content-Type"@, "video/mp4"@),
            ("Content-Disposition"@, "inline"@),
            ("Content-Transfer-Enconding"@, "binary"@),
        ],
        body: BodyView::Stream,
    }
}

/// The reply to a request that no route is for.
pub open spec fn not_found_reply() -> ReplyView {
    ReplyView { status: 404, headers: Seq::empty(), body: BodyView::Text("Not Found"@) }
}

/// The reply to a request whose parameter is no id.
pub open spec fn bad_request_reply() -> ReplyView {
    ReplyView { status: 400, headers: Seq::empty(), body: BodyView::Text("Bad Request"@) }
}

/// The reply for what the encoder made of a value.
pub open spec fn encoded_reply(encoded: Encoded) -> ReplyView {
    match encoded {
        Encoded::Json(text) => json_reply(text@),
        Encoded::Failed => failure_reply("INTERNAL_SERVER_ERROR"@),
    }
}

/// A header with `name` and `value`.
fn header(name: &str, value: &str) -> (h: (String, String))
    ensures
        h.0@ == name@,
        h.1@ == value@,
{
    (String::from_str(name), String::from_str(value))
}

/// The reply where the service failed on its side, with `text` as body.
fn failure(text: &str) -> (reply: Reply)
    ensures
        reply@ == failure_reply(text@),
{
    let mut headers: Vec<(String, String)> = Vec::new();
    headers.push(header("Access-Control-Allow-Origin", "*"));
    let reply = Reply { status: 500, headers, body: Body::Text(String::from_str(text)) };
    assert(reply@.headers =~= failure_reply(text@).headers);
    reply
}

/// The reply of a JSON response, with `body` as its body.
fn json_with(body: Body) -> (reply: Reply)
    ensures
        reply@ == (ReplyView { body: body@, ..empty_reply() }),
{
    let mut headers: Vec<(String, String)> = Vec::new();
    headers.push(header("content-type", "application/json"));
    headers.push(header("Access-Control-Allow-Origin", "*"));
    let reply = Reply { status: 200, headers, body };
    assert(reply@.headers =~= empty_reply().headers);
    reply
}

/// The reply for what the encoder made of a value: the JSON with its
/// headers, or a failure of the service with a fixed body.
pub fn json(encoded: Encoded) -> (reply: Reply)
    ensures
        reply@ == encoded_reply(encoded),
{
    match encoded {
        Encoded::Json(text) => json_with(Body::Text(text)),
        Encoded::Failed => failure("INTERNAL_SERVER_ERROR"),
    }
}

/// The reply to a request for the list of movies. `listed` is what the
/// database answered, with the list already encoded. An error of the
/// database is a failure of the service, with the error's text as body.
pub fn get_movies(listed: Result<Encoded, DbError>) -> (reply: Reply)
    ensures
        reply@ == match listed {
            Ok(encoded) => encoded_reply(encoded),
            Err(_) => failure_reply("Custom Error"@),
        },
{
    match listed {
        Ok(encoded) => json(encoded),
        Err(e) => failure(e.message().as_str()),
    }
}

/// The reply to a request for one movie. `found` is what the database
/// answered, with the movie already encoded where there is one. No movie is
/// no error: the reply is that of a movie without its body.
pub fn get_movie(found: Result<Option<Encoded>, DbError>) -> (reply: Reply)
    ensures
        reply@ == match found {
            Ok(Some(encoded)) => encoded_reply(encoded),
            Ok(None) => empty_reply(),
            Err(_) => failure_reply("Custom Error"@),
        },
{
    match found {
        Ok(Some(encoded)) => json(encoded),
        Ok(None) => json_with(Body::Empty),
        Err(e) => failure(e.message().as_str()),
    }
}

/// The reply to a request for a stream. Where the transcoder could not be
/// started the request fails, and only this request.
pub fn get_stream(started: bool) -> (reply: Reply)
    ensures
        reply@ == if started {
            stream_reply()
        } else {
            failure_reply("INTERNAL_SERVER_ERROR"@)
        },
{
    if started {
        let mut headers: Vec<(String, String)> = Vec::new();
        headers.push(header("Content-Type", "video/mp4"));
        headers.push(header("Content-Disposition", "inline"));
        headers.push(header("Content-Transfer-Enconding", "binary"));
        let reply = Reply { status: 200, headers, body: Body::Stream };
        assert(reply@.headers =~= stream_reply().headers);
        reply
    } else {
        failure("INTERNAL_SERVER_ERROR")
    }
}

/// The reply to a request that no route is for.
pub fn not_found() -> (reply: Reply)
    ensures
        reply@ == not_found_reply(),
{
    let reply = Reply {
        status: 404,
        headers: Vec::new(),
        body: Body::Text(String::from_str("Not Found")),
    };
    assert(reply@.headers =~= not_found_reply().headers);
    reply
}

/// The reply to a request whose parameter is no id.
pub fn bad_request() -> (reply: Reply)
    ensures
        reply@ == bad_request_reply(),
{
    let reply = Reply {
        status: 400,
        headers: Vec::new(),
        body: Body::Text(String::from_str("Bad Request")),
    };
    assert(reply@.headers =~= bad_request_reply().headers);
    reply
}

} // verus!
