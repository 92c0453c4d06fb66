//! Verified core of a Discord counting bot: the rules of the counting game,
//! the bookkeeping of counting channels, the slash-command definitions and
//! routing, and the formatting of log lines.

pub mod decimal;
pub mod discord;
pub mod logging;
pub mod commands;
pub mod counting;
pub mod models;
