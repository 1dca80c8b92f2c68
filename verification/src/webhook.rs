//! The webhook plugin: it takes messages over HTTP and posts them to a
//! conversation.

pub mod handler;
pub mod setting;
