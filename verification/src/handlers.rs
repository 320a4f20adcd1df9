//! The handlers, one for each operation on posts.
//!
//! Each is called once with the request and, where it asked for a store call,
//! once more with the store's answer. It never asks twice: a failure is
//! reported, not tried again.

use crate::exchange::{Step, StepView, StoreCall, StoreCallView, Turn};
use crate::json;
use crate::json::{json_parse, value_content};
use crate::post::{
    decode_post, decode_post_id, json_post, json_post_id, posts_view, Post, PostView,
};
use crate::response::{
    acknowledgement, bare, detail, failure, is_envelope, listing, Response, ResponseView,
};
use crate::status::Status;
use vstd::prelude::*;
use vstd::string::*;

verus! {

/// The post that a request body spells, or the reason why it spells none:
/// `serde_json`'s message where the body is no JSON text, else what is wrong
/// with the document.
pub open spec fn body_post(body: Seq<u8>) -> Result<PostView, Seq<char>> {
    match json_parse(body) {
        Err(reason) => Err(reason),
        Ok(document) => match json_post(document) {
            Err(fault) => Err(fault.text()),
            Ok(post) => Ok(post),
        },
    }
}

/// The identifier that a request body spells, or the reason why it spells
/// none. The body has to be a JSON object with the member `id`; what else it
/// holds does not matter.
pub open spec fn body_post_id(body: Seq<u8>) -> Result<i32, Seq<char>> {
    match json_parse(body) {
        Err(reason) => Err(reason),
        Ok(document) => match json_post_id(document) {
            Err(fault) => Err(fault.text()),
            Ok(id) => Ok(id),
        },
    }
}

/// A body that spells a post spells that post's identifier too: what
/// [`update_post`] hands to the store carries the `id` of the body as it came,
/// and [`delete_post`] would name the same post for the same body.
pub proof fn lemma_post_carries_body_id(body: Seq<u8>)
    ensures
        body_post(body) matches Ok(post) ==> body_post_id(body) matches Ok(id) && id == post.id,
{
}

/// The reply to a body that cannot be decoded, with the reason.
pub open spec fn rejection(reason: Seq<char>) -> ResponseView {
    failure(Status::BadRequest, "Failed to decode post: "@ + reason)
}

/// The reply to a listing that the store could not carry out.
pub open spec fn fetch_failure(reason: Seq<char>) -> ResponseView {
    failure(Status::InternalServerError, "Failed to fetch posts: "@ + reason)
}

/// The reply to a body that cannot be decoded, with the reason.
pub fn reject(reason: &str) -> (reply: Response)
    ensures
        reply@ == rejection(reason@),
        is_envelope(reply@),
{
    Response::failure(Status::BadRequest, "Failed to decode post: ".to_owned().concat(reason))
}

/// The reply to what the store answered to a listing: the posts, or a server
/// error with the store's reason. No reply holds posts where the store failed.
pub fn reply_to_listing(answer: &Result<Vec<Post>, String>) -> (reply: Response)
    ensures
        reply@ == match answer {
            Ok(posts) => listing(posts_view(posts@)),
            Err(reason) => fetch_failure(reason@),
        },
        reply@.status.is_success() <==> answer is Ok,
        is_envelope(reply@),
{
    match answer {
        Ok(posts) => Response::listing(posts),
        Err(reason) => Response::failure(
            Status::InternalServerError,
            "Failed to fetch posts: ".to_owned().concat(reason.as_str()),
        ),
    }
}

/// The reply to what the store answered to a change: `done` where it made the
/// change, else a client error whose message is `complaint` and then the
/// store's reason.
pub fn reply_to_change(answer: &Result<(), String>, done: &str, complaint: &str) -> (reply:
    Response)
    ensures
        reply@ == match answer {
            Ok(_) => acknowledgement(done@),
            Err(reason) => failure(Status::BadRequest, complaint@ + reason@),
        },
        reply@.status.is_success() <==> answer is Ok,
        is_envelope(reply@),
{
    match answer {
        Ok(_) => Response::acknowledgement(done),
        Err(reason) => Response::failure(
            Status::BadRequest,
            complaint.to_owned().concat(reason.as_str()),
        ),
    }
}

/// Reads the JSON document that a request body spells.
fn read_body(body: &[u8]) -> (read: Result<serde_json::Value, Response>)
    ensures
        match json_parse(body@) {
            Ok(document) => read matches Ok(value) && value_content(value) == document,
            Err(reason) => read matches Err(reply) && reply@ == rejection(reason),
        },
{
    match json::from_slice(body) {
        Ok(value) => Ok(value),
        Err(error) => Err(reject(json::error_message(&error).as_str())),
    }
}

/// Reads the post that a request body spells, or makes the reply that says
/// why it spells none.
pub fn read_post(body: &[u8]) -> (read: Result<Post, Response>)
    ensures
        match body_post(body@) {
            Ok(post) => read matches Ok(got) && got@ == post,
            Err(reason) => read matches Err(reply) && reply@ == rejection(reason),
        },
{
    let value = match read_body(body) {
        Err(reply) => { return Err(reply); },
        Ok(value) => value,
    };
    match decode_post(&value) {
        Ok(post) => Ok(post),
        Err(fault) => Err(reject(fault.describe().as_str())),
    }
}

/// Reads the identifier that a request body spells, or makes the reply that
/// says why it spells none.
pub fn read_post_id(body: &[u8]) -> (read: Result<i32, Response>)
    ensures
        match body_post_id(body@) {
            Ok(id) => read matches Ok(got) && got == id,
            Err(reason) => read matches Err(reply) && reply@ == rejection(reason),
        },
{
    let value = match read_body(body) {
        Err(reply) => { return Err(reply); },
        Ok(value) => value,
    };
    match decode_post_id(&value) {
        Ok(id) => Ok(id),
        Err(fault) => Err(reject(fault.describe().as_str())),
    }
}

/// Lists every post.
///
/// Asks the store for all posts. Answers 200 with `{"posts": [...]}`, or 500
/// with `{"error": "Failed to fetch posts: ..."}` where the store failed.
pub fn get_all_posts(turn: Turn<(), Result<Vec<Post>, String>>) -> (step: Step)
    ensures
        step@ == match turn {
            Turn::Arrived(_) => StepView::Ask(StoreCallView::GetAll),
            Turn::Answered(Ok(posts)) => StepView::Reply(listing(posts_view(posts@))),
            Turn::Answered(Err(reason)) => StepView::Reply(fetch_failure(reason@)),
        },
        step@ matches StepView::Reply(reply) ==> is_envelope(reply),
{
    match turn {
        Turn::Arrived(_) => Step::Ask(StoreCall::GetAll),
        Turn::Answered(answer) => Step::Reply(reply_to_listing(&answer)),
    }
}

/// Lists the posts of a category.
///
/// Asks the store for the posts of the category, which it passes on as it
/// came. Answers as [`get_all_posts`] does.
pub fn get_posts_by_category(turn: Turn<String, Result<Vec<Post>, String>>) -> (step: Step)
    ensures
        step@ == match turn {
            Turn::Arrived(category) => StepView::Ask(StoreCallView::GetByCategory(category@)),
            Turn::Answered(Ok(posts)) => StepView::Reply(listing(posts_view(posts@))),
            Turn::Answered(Err(reason)) => StepView::Reply(fetch_failure(reason@)),
        },
        step@ matches StepView::Reply(reply) ==> is_envelope(reply),
{
    match turn {
        Turn::Arrived(category) => Step::Ask(StoreCall::GetByCategory(category)),
        Turn::Answered(answer) => Step::Reply(reply_to_listing(&answer)),
    }
}

/// Lists the posts that carry a tag.
///
/// Asks the store for the posts with the tag, which it passes on as it came.
/// Answers as [`get_all_posts`] does.
pub fn get_posts_by_tag(turn: Turn<String, Result<Vec<Post>, String>>) -> (step: Step)
    ensures
        step@ == match turn {
            Turn::Arrived(tag) => StepView::Ask(StoreCallView::GetByTag(tag@)),
            Turn::Answered(Ok(posts)) => StepView::Reply(listing(posts_view(posts@))),
            Turn::Answered(Err(reason)) => StepView::Reply(fetch_failure(reason@)),
        },
        step@ matches StepView::Reply(reply) ==> is_envelope(reply),
{
    match turn {
        Turn::Arrived(tag) => Step::Ask(StoreCall::GetByTag(tag)),
        Turn::Answered(answer) => Step::Reply(reply_to_listing(&answer)),
    }
}

/// Shows the post with a slug.
///
/// Asks the store for the post. Answers 200 with the post as JSON where there
/// is one, 404 without a body where there is none, and 500 without a body
/// where the store failed: a missing post is no failure.
pub fn get_post(turn: Turn<String, Result<Option<Post>, String>>) -> (step: Step)
    ensures
        step@ == match turn {
            Turn::Arrived(slug) => StepView::Ask(StoreCallView::GetBySlug(slug@)),
            Turn::Answered(Ok(Some(post))) => StepView::Reply(detail(post@)),
            Turn::Answered(Ok(None)) => StepView::Reply(bare(Status::NotFound)),
            Turn::Answered(Err(_)) => StepView::Reply(bare(Status::InternalServerError)),
        },
{
    match turn {
        Turn::Arrived(slug) => Step::Ask(StoreCall::GetBySlug(slug)),
        Turn::Answered(Ok(Some(post))) => Step::Reply(Response::detail(&post)),
        Turn::Answered(Ok(None)) => Step::Reply(Response::bare(Status::NotFound)),
        Turn::Answered(Err(_)) => Step::Reply(Response::bare(Status::InternalServerError)),
    }
}

/// Adds a post.
///
/// The body has to spell a post; where it does not, the handler answers 400
/// with the reason and asks nothing of the store. Else it asks the store to
/// insert the post, and answers 200 with
/// `{"message": "Post added successfully"}`, or 400 with
/// `{"error": "Failed to decode token: ..."}` where the store refused.
pub fn add_post(turn: Turn<Vec<u8>, Result<(), String>>) -> (step: Step)
    ensures
        step@ == match turn {
            Turn::Arrived(body) => match body_post(body@) {
                Ok(post) => StepView::Ask(StoreCallView::Insert(post)),
                Err(reason) => StepView::Reply(rejection(reason)),
            },
            Turn::Answered(Ok(_)) => StepView::Reply(acknowledgement("Post added successfully"@)),
            Turn::Answered(Err(reason)) => StepView::Reply(
                failure(Status::BadRequest, "Failed to decode token: "@ + reason@),
            ),
        },
        step@ matches StepView::Reply(reply) ==> is_envelope(reply),
{
    match turn {
        Turn::Arrived(body) => match read_post(body.as_slice()) {
            Ok(post) => Step::Ask(StoreCall::Insert(post)),
            Err(reply) => Step::Reply(reply),
        },
        Turn::Answered(answer) => Step::Reply(
            reply_to_change(&answer, "Post added successfully", "Failed to decode token: "),
        ),
    }
}

/// Deletes a post.
///
/// The body has to spell an object with the post's `id`; nothing else of it is
/// read. Where it does not, the handler answers 400 with the reason and asks
/// nothing of the store. Else it asks the store to delete the post with that
/// identifier, and answers 200 with `{"message": "Post deleted successfully"}`,
/// or 400 with `{"error": "Failed to delete post: ..."}` where the store
/// refused, as it does where no post has the identifier.
pub fn delete_post(turn: Turn<Vec<u8>, Result<(), String>>) -> (step: Step)
    ensures
        step@ == match turn {
            Turn::Arrived(body) => match body_post_id(body@) {
                Ok(id) => StepView::Ask(StoreCallView::Delete(id as i64)),
                Err(reason) => StepView::Reply(rejection(reason)),
            },
            Turn::Answered(Ok(_)) => StepView::Reply(acknowledgement("Post deleted successfully"@)),
            Turn::Answered(Err(reason)) => StepView::Reply(
                failure(Status::BadRequest, "Failed to delete post: "@ + reason@),
            ),
        },
        step@ matches StepView::Reply(reply) ==> is_envelope(reply),
{
    match turn {
        Turn::Arrived(body) => match read_post_id(body.as_slice()) {
            Ok(id) => Step::Ask(StoreCall::Delete(id as i64)),
            Err(reply) => Step::Reply(reply),
        },
        Turn::Answered(answer) => Step::Reply(
            reply_to_change(&answer, "Post deleted successfully", "Failed to delete post: "),
        ),
    }
}

/// Updates a post.
///
/// The body has to spell a whole post, `id` included; where it does not, the
/// handler answers 400 with the reason and asks nothing of the store. Else it
/// asks the store to update with the post as the body spells it: the post that
/// is changed is the one with the body's `id`, and the handler hands that `id`
/// on untouched. It answers 200 with
/// `{"message": "Post updated successfully"}`, or 400 with
/// `{"error": "Failed to update post: ..."}` where the store refused.
pub fn update_post(turn: Turn<Vec<u8>, Result<(), String>>) -> (step: Step)
    ensures
        step@ == match turn {
            Turn::Arrived(body) => match body_post(body@) {
                Ok(post) => StepView::Ask(StoreCallView::Update(post)),
                Err(reason) => StepView::Reply(rejection(reason)),
            },
            Turn::Answered(Ok(_)) => StepView::Reply(acknowledgement("Post updated successfully"@)),
            Turn::Answered(Err(reason)) => StepView::Reply(
                failure(Status::BadRequest, "Failed to update post: "@ + reason@),
            ),
        },
        step@ matches StepView::Ask(StoreCallView::Update(post)) ==> turn matches Turn::Arrived(
            body,
        ) && body_post_id(body@) matches Ok(id) && id == post.id,
        step@ matches StepView::Reply(reply) ==> is_envelope(reply),
{
    match turn {
        Turn::Arrived(body) => match read_post(body.as_slice()) {
            Ok(post) => Step::Ask(StoreCall::Update(post)),
            Err(reply) => Step::Reply(reply),
        },
        Turn::Answered(answer) => Step::Reply(
            reply_to_change(&answer, "Post updated successfully", "Failed to update post: "),
        ),
    }
}

} // verus!
