//! Song data, score parsing and bot helpers for maimai DX, with their contracts proved by Verus.

pub mod assoc;
pub mod auth;
pub mod backend;
pub mod bot;
pub mod discord;
pub mod models;
pub mod parsers;
pub mod text;
pub mod urls;
pub mod songdb;
