use vstd::prelude::*;

use crate::models::game_domain::{ChartType, DifficultyCategory, FcStatus, ScoreRank, SyncStatus};

verus! {

/// A best score as the record collector serves it.
#[derive(Debug, Clone)]
pub struct ScoreApiResponse {
    pub title: String,
    pub chart_type: ChartType,
    pub diff_category: DifficultyCategory,
    pub achievement_x10000: Option<i64>,
    pub rank: Option<ScoreRank>,
    pub fc: Option<FcStatus>,
    pub sync: Option<SyncStatus>,
    pub dx_score: Option<i32>,
    pub dx_score_max: Option<i32>,
}

/// A best score of one song's chart, with its play history.
#[derive(Debug, Clone)]
pub struct SongDetailScoreApiResponse {
    pub title: String,
    pub chart_type: ChartType,
    pub diff_category: DifficultyCategory,
    pub achievement_x10000: Option<i64>,
    pub rank: Option<ScoreRank>,
    pub fc: Option<FcStatus>,
    pub sync: Option<SyncStatus>,
    pub dx_score: Option<i32>,
    pub dx_score_max: Option<i32>,
    pub last_played_at: Option<String>,
    pub play_count: Option<u32>,
}

/// A play as the record collector serves it.
#[derive(Debug, Clone)]
pub struct PlayRecordApiResponse {
    pub played_at_unixtime: i64,
    pub played_at: Option<String>,
    pub track: Option<i32>,
    pub title: String,
    pub chart_type: ChartType,
    pub diff_category: Option<DifficultyCategory>,
    pub achievement_x10000: Option<i64>,
    pub score_rank: Option<ScoreRank>,
    pub fc: Option<FcStatus>,
    pub sync: Option<SyncStatus>,
    pub dx_score: Option<i32>,
    pub dx_score_max: Option<i32>,
    pub credit_play_count: Option<i32>,
    pub achievement_new_record: Option<i32>,
    pub first_play: Option<i32>,
}

} // verus!
