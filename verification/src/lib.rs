//! Verified core of the osu! replay community bot: message texts, identifier
//! encodings, feed bookkeeping, the skin store rules, and the decisions of
//! its commands (suggestions, skins, blacklist) as state machines.

pub mod text;
pub mod formatter;
pub mod feed;
pub mod skin;
pub mod embeds;
pub mod store;
pub mod replay;
pub mod commands;
pub mod firebase;
pub mod suggest;
pub mod skin_commands;
pub mod admin;
