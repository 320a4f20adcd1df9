//! Replies: a status and a body that is JSON text, or empty.

use crate::json;
use crate::json::{json_text, no_members, value_content, Json};
use crate::post::{encode_post, encode_posts, posts_json, posts_view, post_json, Post, PostView};
use crate::status::Status;
use vstd::prelude::*;
use vstd::string::*;

verus! {

/// A reply as contracts speak of it.
pub struct ResponseView {
    pub status: Status,
    pub body: Seq<char>,
}

/// What a handler sends back.
#[derive(Clone, Debug, PartialEq, Eq)]
pub struct Response {
    pub status: Status,
    /// JSON text, or nothing where only the status speaks.
    pub body: String,
}

impl View for Response {
    type V = ResponseView;

    open spec fn view(&self) -> ResponseView {
        ResponseView { status: self.status, body: self.body@ }
    }
}

/// The object with the one member `key`, a string.
pub open spec fn envelope(key: Seq<char>, message: Seq<char>) -> Json {
    Json::Object(no_members().insert(key, Json::Text(message)))
}

/// The document that reports a failure: `{"error": message}`.
pub open spec fn error_document(message: Seq<char>) -> Json {
    envelope("error"@, message)
}

/// The document that reports a change that was made: `{"message": message}`.
pub open spec fn message_document(message: Seq<char>) -> Json {
    envelope("message"@, message)
}

/// The document that lists posts: `{"posts": [...]}`.
pub open spec fn posts_document(posts: Seq<PostView>) -> Json {
    Json::Object(no_members().insert("posts"@, Json::List(posts_json(posts))))
}

/// The reply that reports a failure under `status`.
pub open spec fn failure(status: Status, message: Seq<char>) -> ResponseView {
    ResponseView { status, body: json_text(error_document(message)) }
}

/// The reply that reports a change that was made.
pub open spec fn acknowledgement(message: Seq<char>) -> ResponseView {
    ResponseView { status: Status::Success, body: json_text(message_document(message)) }
}

/// The reply that lists posts.
pub open spec fn listing(posts: Seq<PostView>) -> ResponseView {
    ResponseView { status: Status::Success, body: json_text(posts_document(posts)) }
}

/// The reply that shows one post.
pub open spec fn detail(post: PostView) -> ResponseView {
    ResponseView { status: Status::Success, body: json_text(post_json(post)) }
}

/// The reply that is a status and nothing else.
pub open spec fn bare(status: Status) -> ResponseView {
    ResponseView { status, body: Seq::empty() }
}

/// The shape that every reply of a listing or changing handler has: its body
/// is a JSON object with one member, `message` or `posts` under a success
/// status, `error` under any other.
pub open spec fn is_envelope(reply: ResponseView) -> bool {
    ||| exists|message: Seq<char>| reply == #[trigger] acknowledgement(message)
    ||| exists|posts: Seq<PostView>| reply == #[trigger] listing(posts)
    ||| !reply.status.is_success() && exists|message: Seq<char>|
        reply.body == json_text(#[trigger] error_document(message))
}

/// Writes the object with the one member `key`.
fn write_envelope(key: &str, member: serde_json::Value) -> (text: String)
    ensures
        text@ == json_text(Json::Object(no_members().insert(key@, value_content(member)))),
{
    let mut members = json::new_map();
    json::insert(&mut members, key.to_owned(), member);
    json::to_string(&json::object(members)).unwrap()
}

impl Response {
    /// The reply that reports a failure under `status`.
    pub fn failure(status: Status, message: String) -> (reply: Response)
        ensures
            reply@ == failure(status, message@),
    {
        Response { status, body: write_envelope("error", json::string(message)) }
    }

    /// The reply that reports a change that was made.
    pub fn acknowledgement(message: &str) -> (reply: Response)
        ensures
            reply@ == acknowledgement(message@),
    {
        Response {
            status: Status::Success,
            body: write_envelope("message", json::string(message.to_owned())),
        }
    }

    /// The reply that lists posts.
    pub fn listing(posts: &Vec<Post>) -> (reply: Response)
        ensures
            reply@ == listing(posts_view(posts@)),
    {
        Response { status: Status::Success, body: write_envelope("posts", encode_posts(posts)) }
    }

    /// The reply that shows one post.
    pub fn detail(post: &Post) -> (reply: Response)
        ensures
            reply@ == detail(post@),
    {
        Response { status: Status::Success, body: json::to_string(&encode_post(post)).unwrap() }
    }

    /// The reply that is a status and nothing else.
    pub fn bare(status: Status) -> (reply: Response)
        ensures
            reply@ == bare(status),
    {
        Response { status, body: String::new() }
    }
}

} // verus!
