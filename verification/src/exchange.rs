//! What passes between a handler and the server that runs it.

use crate::post::{Post, PostView};
use crate::response::{Response, ResponseView};
use vstd::prelude::*;

verus! {

/// A call that a handler wants made on the store.
#[derive(Clone, Debug, PartialEq, Eq)]
pub enum StoreCall {
    /// Fetch every post.
    GetAll,
    /// Fetch the posts of a category.
    GetByCategory(String),
    /// Fetch the posts that carry a tag.
    GetByTag(String),
    /// Fetch the post with a slug, if there is one.
    GetBySlug(String),
    /// Add a post; the store assigns its identifier.
    Insert(Post),
    /// Replace the fields of the post that has this post's identifier.
    Update(Post),
    /// Remove the post with this identifier.
    Delete(i64),
}

/// A store call as contracts speak of it.
pub enum StoreCallView {
    GetAll,
    GetByCategory(Seq<char>),
    GetByTag(Seq<char>),
    GetBySlug(Seq<char>),
    Insert(PostView),
    Update(PostView),
    Delete(i64),
}

impl View for StoreCall {
    type V = StoreCallView;

    open spec fn view(&self) -> StoreCallView {
        match self {
            StoreCall::GetAll => StoreCallView::GetAll,
            StoreCall::GetByCategory(category) => StoreCallView::GetByCategory(category@),
            StoreCall::GetByTag(tag) => StoreCallView::GetByTag(tag@),
            StoreCall::GetBySlug(slug) => StoreCallView::GetBySlug(slug@),
            StoreCall::Insert(post) => StoreCallView::Insert(post@),
            StoreCall::Update(post) => StoreCallView::Update(post@),
            StoreCall::Delete(id) => StoreCallView::Delete(*id),
        }
    }
}

/// What a handler is called with: first the request, then, if it asked for a
/// store call, what the store answered.
#[derive(Clone, Debug, PartialEq, Eq)]
pub enum Turn<R, A> {
    /// The request has arrived, with what the handler reads of it.
    Arrived(R),
    /// The store has answered the call that the handler asked for.
    Answered(A),
}

/// What a handler decides.
#[derive(Clone, Debug, PartialEq, Eq)]
pub enum Step {
    /// Make this call on the store and come back with its answer.
    Ask(StoreCall),
    /// Send this reply; the request is done.
    Reply(Response),
}

/// A step as contracts speak of it.
pub enum StepView {
    Ask(StoreCallView),
    Reply(ResponseView),
}

impl View for Step {
    type V = StepView;

    open spec fn view(&self) -> StepView {
        match self {
            Step::Ask(call) => StepView::Ask(call@),
            Step::Reply(reply) => StepView::Reply(reply@),
        }
    }
}

} // verus!
