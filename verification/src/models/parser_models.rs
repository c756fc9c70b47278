use vstd::prelude::*;

use crate::models::game_domain::{ChartType, DifficultyCategory, FcStatus, ScoreRank, SyncStatus};
use crate::models::song_title::opt_view;
use crate::text::{push_signed_decimal, signed_decimal};

verus! {

/// One entry of a score list page. Achievements are kept in ten-thousandths of a percent.
#[derive(Debug, Clone)]
pub struct ParsedScoreEntry {
    pub title: String,
    pub genre: String,
    pub artist: String,
    pub chart_type: ChartType,
    pub diff_category: DifficultyCategory,
    pub level: String,
    pub achievement_x10000: Option<i64>,
    pub rank: Option<ScoreRank>,
    pub fc: Option<FcStatus>,
    pub sync: Option<SyncStatus>,
    pub dx_score: Option<i32>,
    pub dx_score_max: Option<i32>,
    pub last_played_at: Option<String>,
    pub play_count: Option<u32>,
    pub source_idx: Option<String>,
}

/// One play of the recent-plays page.
#[derive(Debug, Clone)]
pub struct ParsedPlayRecord {
    pub played_at_unixtime: Option<i64>,
    pub playlog_detail_idx: Option<String>,
    pub track: Option<u8>,
    pub played_at: Option<String>,
    pub credit_id: Option<u32>,
    pub title: String,
    pub genre: Option<String>,
    pub artist: Option<String>,
    pub chart_type: ChartType,
    pub diff_category: Option<DifficultyCategory>,
    pub level: Option<String>,
    pub achievement_x10000: Option<i64>,
    pub achievement_new_record: bool,
    pub score_rank: Option<ScoreRank>,
    pub fc: Option<FcStatus>,
    pub sync: Option<SyncStatus>,
    pub dx_score: Option<i32>,
    pub dx_score_max: Option<i32>,
    pub credit_play_count: Option<u32>,
    pub first_play: bool,
}

/// One chart of a song detail page.
#[derive(Debug, Clone)]
pub struct ParsedSongChartDetail {
    pub diff_category: DifficultyCategory,
    pub level: String,
    pub chart_type: ChartType,
    pub achievement_x10000: Option<i64>,
    pub rank: Option<ScoreRank>,
    pub fc: Option<FcStatus>,
    pub sync: Option<SyncStatus>,
    pub dx_score: Option<i32>,
    pub dx_score_max: Option<i32>,
    pub last_played_at: Option<String>,
    pub play_count: Option<u32>,
}

/// A song detail page.
#[derive(Debug, Clone)]
pub struct ParsedSongDetail {
    pub title: String,
    pub genre: Option<String>,
    pub artist: String,
    pub chart_type: ChartType,
    pub difficulties: Vec<ParsedSongChartDetail>,
}

/// The title of a play-log detail page and the index of its song's record page.
#[derive(Debug, Clone)]
pub struct ParsedPlaylogDetail {
    pub title: String,
    pub music_detail_idx: String,
}

/// The player summary of the player data page.
#[derive(Debug, Clone)]
pub struct ParsedPlayerProfile {
    pub user_name: String,
    pub rating: u32,
    pub current_version_play_count: u32,
    pub total_play_count: u32,
}

/// One entry of the rating-target page.
#[derive(Debug, Clone)]
pub struct ParsedRatingTargetEntry {
    pub title: String,
    pub chart_type: ChartType,
    pub diff_category: DifficultyCategory,
    pub level: String,
    pub achievement_x10000: Option<i64>,
    pub rank: Option<ScoreRank>,
}

/// The two lists of the rating-target page.
#[derive(Debug, Clone)]
pub struct ParsedRatingTargets {
    pub current_targets: Vec<ParsedRatingTargetEntry>,
    pub legacy_targets: Vec<ParsedRatingTargetEntry>,
}

/// An optional text as a log shows it: the text, or `-`.
pub open spec fn opt_text(o: Option<Seq<char>>) -> Seq<char> {
    match o {
        Some(t) => t,
        None => "-"@,
    }
}

/// An optional number as a log shows it: its decimal text, or `-`.
pub open spec fn opt_number(o: Option<int>) -> Seq<char> {
    match o {
        Some(n) => signed_decimal(n),
        None => "-"@,
    }
}

pub fn display_opt_str(value: Option<&str>) -> (r: &str)
    ensures
        r@ == opt_text(
            match value {
                Some(v) => Some(v@),
                None => None,
            },
        ),
{
    match value {
        Some(v) => v,
        None => "-",
    }
}

pub fn display_opt_i64(value: Option<i64>) -> (r: String)
    ensures
        r@ == opt_number(
            match value {
                Some(v) => Some(v as int),
                None => None,
            },
        ),
{
    match value {
        Some(v) => {
            let mut s = String::new();
            push_signed_decimal(&mut s, v);
            s
        },
        None => String::from_str("-"),
    }
}

pub fn display_opt_u32(value: Option<u32>) -> (r: String)
    ensures
        r@ == opt_number(
            match value {
                Some(v) => Some(v as int),
                None => None,
            },
        ),
{
    display_opt_i64(
        match value {
            Some(v) => Some(v as i64),
            None => None,
        },
    )
}

pub fn display_opt_u8(value: Option<u8>) -> (r: String)
    ensures
        r@ == opt_number(
            match value {
                Some(v) => Some(v as int),
                None => None,
            },
        ),
{
    display_opt_i64(
        match value {
            Some(v) => Some(v as i64),
            None => None,
        },
    )
}

pub fn display_opt_i32(value: Option<i32>) -> (r: String)
    ensures
        r@ == opt_number(
            match value {
                Some(v) => Some(v as int),
                None => None,
            },
        ),
{
    display_opt_i64(
        match value {
            Some(v) => Some(v as i64),
            None => None,
        },
    )
}

pub fn display_opt_diff_category(value: Option<DifficultyCategory>) -> (r: &'static str)
    ensures
        r@ == opt_text(
            match value {
                Some(v) => Some(v.name()),
                None => None,
            },
        ),
{
    match value {
        Some(v) => v.as_str(),
        None => "-",
    }
}

pub fn display_opt_score_rank(value: Option<ScoreRank>) -> (r: &'static str)
    ensures
        r@ == opt_text(
            match value {
                Some(v) => Some(v.name()),
                None => None,
            },
        ),
{
    match value {
        Some(v) => v.as_str(),
        None => "-",
    }
}

pub fn display_opt_fc(value: Option<FcStatus>) -> (r: &'static str)
    ensures
        r@ == opt_text(
            match value {
                Some(v) => Some(v.name()),
                None => None,
            },
        ),
{
    match value {
        Some(v) => v.as_str(),
        None => "-",
    }
}

pub fn display_opt_sync(value: Option<SyncStatus>) -> (r: &'static str)
    ensures
        r@ == opt_text(
            match value {
                Some(v) => Some(v.name()),
                None => None,
            },
        ),
{
    match value {
        Some(v) => v.as_str(),
        None => "-",
    }
}

pub open spec fn opt_name_rank(v: Option<ScoreRank>) -> Seq<char> {
    opt_text(
        match v {
            Some(x) => Some(x.name()),
            None => None,
        },
    )
}

pub open spec fn opt_name_fc(v: Option<FcStatus>) -> Seq<char> {
    opt_text(
        match v {
            Some(x) => Some(x.name()),
            None => None,
        },
    )
}

pub open spec fn opt_name_sync(v: Option<SyncStatus>) -> Seq<char> {
    opt_text(
        match v {
            Some(x) => Some(x.name()),
            None => None,
        },
    )
}

pub open spec fn opt_i32_text(v: Option<i32>) -> Seq<char> {
    opt_number(
        match v {
            Some(x) => Some(x as int),
            None => None,
        },
    )
}

impl ParsedScoreEntry {
    /// The entry as one log line of `key=value` fields.
    pub fn format_recent_sync_log_fields(&self) -> (r: String)
        ensures
            r@ == "title='"@ + self.title@ + "' genre='"@ + self.genre@ + "' artist='"@ + self.artist@
                + "' chart_type="@ + self.chart_type.name() + " diff_category="@
                + self.diff_category.name() + " last_played_at='"@ + opt_text(
                opt_view(self.last_played_at),
            ) + "' play_count="@ + opt_number(
                match self.play_count {
                    Some(v) => Some(v as int),
                    None => None,
                },
            ) + " achievement_x10000="@ + opt_number(
                match self.achievement_x10000 {
                    Some(v) => Some(v as int),
                    None => None,
                },
            ) + " rank="@ + opt_name_rank(self.rank) + " fc="@ + opt_name_fc(self.fc) + " sync="@
                + opt_name_sync(self.sync) + " dx_score="@ + opt_i32_text(self.dx_score) + "/"@
                + opt_i32_text(self.dx_score_max),
    {
        let mut s = String::from_str("title='");
        s.push_str(self.title.as_str());
        s.push_str("' genre='");
        s.push_str(self.genre.as_str());
        s.push_str("' artist='");
        s.push_str(self.artist.as_str());
        s.push_str("' chart_type=");
        s.push_str(self.chart_type.as_str());
        s.push_str(" diff_category=");
        s.push_str(self.diff_category.as_str());
        s.push_str(" last_played_at='");
        s.push_str(
            display_opt_str(
                match &self.last_played_at {
                    Some(v) => Some(v.as_str()),
                    None => None,
                },
            ),
        );
        s.push_str("' play_count=");
        s.push_str(display_opt_u32(self.play_count).as_str());
        s.push_str(" achievement_x10000=");
        s.push_str(display_opt_i64(self.achievement_x10000).as_str());
        s.push_str(" rank=");
        s.push_str(display_opt_score_rank(self.rank));
        s.push_str(" fc=");
        s.push_str(display_opt_fc(self.fc));
        s.push_str(" sync=");
        s.push_str(display_opt_sync(self.sync));
        s.push_str(" dx_score=");
        s.push_str(display_opt_i32(self.dx_score).as_str());
        s.push_str("/");
        s.push_str(display_opt_i32(self.dx_score_max).as_str());
        s
    }
}

impl ParsedPlayRecord {
    /// The play as one log line of `key=value` fields.
    #[verifier::rlimit(60)]
    pub fn format_recent_sync_log_fields(&self) -> (r: String)
        ensures
            r@ == "played_at_unixtime="@ + opt_number(
                match self.played_at_unixtime {
                    Some(v) => Some(v as int),
                    None => None,
                },
            ) + " played_at='"@ + opt_text(opt_view(self.played_at)) + "' credit_id="@ + opt_number(
                match self.credit_id {
                    Some(v) => Some(v as int),
                    None => None,
                },
            ) + " track="@ + opt_number(
                match self.track {
                    Some(v) => Some(v as int),
                    None => None,
                },
            ) + " title='"@ + self.title@ + "' genre='"@ + opt_text(opt_view(self.genre))
                + "' artist='"@ + opt_text(opt_view(self.artist)) + "' chart_type="@
                + self.chart_type.name() + " diff_category="@ + opt_text(
                match self.diff_category {
                    Some(d) => Some(d.name()),
                    None => None,
                },
            ) + " achievement_x10000="@ + opt_number(
                match self.achievement_x10000 {
                    Some(v) => Some(v as int),
                    None => None,
                },
            ) + " new_record="@ + (if self.achievement_new_record {
                "true"@
            } else {
                "false"@
            }) + " rank="@ + opt_name_rank(self.score_rank) + " fc="@ + opt_name_fc(self.fc)
                + " sync="@ + opt_name_sync(self.sync) + " dx_score="@ + opt_i32_text(self.dx_score)
                + "/"@ + opt_i32_text(self.dx_score_max),
    {
        let mut s = String::from_str("played_at_unixtime=");
        s.push_str(display_opt_i64(self.played_at_unixtime).as_str());
        s.push_str(" played_at='");
        s.push_str(
            display_opt_str(
                match &self.played_at {
                    Some(v) => Some(v.as_str()),
                    None => None,
                },
            ),
        );
        s.push_str("' credit_id=");
        s.push_str(display_opt_u32(self.credit_id).as_str());
        s.push_str(" track=");
        s.push_str(display_opt_u8(self.track).as_str());
        s.push_str(" title='");
        s.push_str(self.title.as_str());
        s.push_str("' genre='");
        s.push_str(
            display_opt_str(
                match &self.genre {
                    Some(v) => Some(v.as_str()),
                    None => None,
                },
            ),
        );
        s.push_str("' artist='");
        s.push_str(
            display_opt_str(
                match &self.artist {
                    Some(v) => Some(v.as_str()),
                    None => None,
                },
            ),
        );
        s.push_str("' chart_type=");
        s.push_str(self.chart_type.as_str());
        s.push_str(" diff_category=");
        s.push_str(display_opt_diff_category(self.diff_category));
        s.push_str(" achievement_x10000=");
        s.push_str(display_opt_i64(self.achievement_x10000).as_str());
        s.push_str(" new_record=");
        s.push_str(if self.achievement_new_record {
            "true"
        } else {
            "false"
        });
        s.push_str(" rank=");
        s.push_str(display_opt_score_rank(self.score_rank));
        s.push_str(" fc=");
        s.push_str(display_opt_fc(self.fc));
        s.push_str(" sync=");
        s.push_str(display_opt_sync(self.sync));
        s.push_str(" dx_score=");
        s.push_str(display_opt_i32(self.dx_score).as_str());
        s.push_str("/");
        s.push_str(display_opt_i32(self.dx_score_max).as_str());
        s
    }
}

} // verus!
