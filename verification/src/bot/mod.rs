//! Helpers of the Discord bot: emoji texts, chart links, search, and the record collector.
pub mod emoji;
pub mod chart_links;
pub mod updown;
pub mod commands;
pub mod client;
pub mod config;
pub mod catalog;
pub mod song_info;
pub mod recent;
pub mod plot;
