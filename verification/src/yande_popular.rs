//! The picture plugin: it posts the popular pictures of a picture board to
//! a conversation.

pub mod post;
pub mod setting;
