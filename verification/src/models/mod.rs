pub mod api_models;
pub mod config;
pub mod game_domain;
pub mod parser_models;
pub mod song_catalog;
pub mod song_title;
pub mod storage_models;
pub mod versioning;
