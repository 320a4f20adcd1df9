//! Request handling for a small service that keeps posts in a relational store.
//!
//! A handler never talks to the store or to the network itself. It is a
//! function from a [`Turn`] to a [`Step`]: on the request it says what to ask
//! of the store, or answers at once where the request cannot be decoded; on
//! the store's answer it says what to send back. The server around it performs
//! the call and comes back with the answer.

pub mod exchange;
pub mod handlers;
pub mod json;
pub mod post;
pub mod response;
pub mod status;

pub use exchange::{Step, StoreCall, Turn};
pub use handlers::{
    add_post, delete_post, get_all_posts, get_post, get_posts_by_category, get_posts_by_tag,
    update_post,
};
pub use post::{Field, Malformed, Post};
pub use response::Response;
pub use status::Status;
