//! Decision logic of an automated chat participant: device verification,
//! attachment preparation and the rules of its plugins.

pub mod client;
pub mod plugins;
pub mod qbittorrent;
pub mod room;
pub mod text;
pub mod verification;
pub mod webhook;
pub mod yande_popular;
