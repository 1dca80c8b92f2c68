//! The download plugin: it takes magnet links from a conversation, has a
//! torrent client fetch them, and hands the finished files on.

pub mod binary;
pub mod gofile;
pub mod listener;
pub mod magnet;
pub mod notice;
pub mod ops;
pub mod setting;
pub mod status;
