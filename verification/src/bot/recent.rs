//! The texts of the recent-plays cards: the chart line, the achievement and marks, the footer,
//! and the summary of the latest credit.
use vstd::prelude::*;

use crate::bot::chart_links::{linked_chart_label, youtube_search_url_spec};
use crate::bot::emoji::{fc_text, format_fc, format_rank, format_sync, rank_text, sync_text, MaimaiStatusEmojis};
use crate::bot::updown::{format_rate_x10000, rate_text};
use crate::models::game_domain::{ChartType, DifficultyCategory, FcStatus, ScoreRank, SyncStatus};
use crate::models::song_title::opt_view;
use crate::text::{chars_of, decimal, eq_lit, push_decimal};

verus! {

/// One recent play as its card shows it; the internal level is already written with one
/// decimal, and the achievement is in ten-thousandths of a percent.
#[derive(Debug, Clone)]
pub struct RecentRecordView {
    pub track: Option<i64>,
    pub played_at: Option<String>,
    pub title: String,
    pub chart_type: ChartType,
    pub diff_category: Option<DifficultyCategory>,
    pub image_name: Option<String>,
    pub level: Option<String>,
    pub internal_level: Option<String>,
    pub rating_points: Option<u32>,
    pub achievement_x10000: Option<i64>,
    pub achievement_new_record: bool,
    pub rank: Option<ScoreRank>,
    pub fc: Option<FcStatus>,
    pub sync: Option<SyncStatus>,
}

/// A level with the internal level in brackets, when known; `N/A` stays as it is.
pub open spec fn level_with_internal(level: Seq<char>, internal: Option<Seq<char>>) -> Seq<char> {
    if level == "N/A"@ {
        level
    } else {
        match internal {
            Some(v) => level + " ("@ + v + ")"@,
            None => level,
        }
    }
}

/// A level with the internal level in brackets, when known (see above).
pub fn format_level_with_internal(level: &str, internal_level: Option<&str>) -> (r: String)
    ensures
        r@ == level_with_internal(
            level@,
            match internal_level {
                Some(v) => Some(v@),
                None => None,
            },
        ),
{
    let l = chars_of(level);
    if eq_lit(l.as_slice(), "N/A") {
        return String::from_str(level);
    }
    match internal_level {
        Some(v) => {
            let mut s = String::from_str(level);
            s.push_str(" (");
            s.push_str(v);
            s.push_str(")");
            s
        },
        None => String::from_str(level),
    }
}

/// The chart line of a play: the linked chart label, or the type and `Unknown` when the
/// difficulty is not known.
pub open spec fn recent_chart_line(r: RecentRecordView) -> Seq<char> {
    let level = match opt_view(r.level) {
        Some(v) => level_with_internal(v, opt_view(r.internal_level)),
        None => "N/A"@,
    };
    match r.diff_category {
        Some(d) => "["@ + r.chart_type.name() + "] ["@ + d.name() + "]("@ + youtube_search_url_spec(
            r.title@,
            r.chart_type,
            d,
        ) + ") "@ + level,
        None => "["@ + r.chart_type.name() + "] Unknown "@ + level,
    }
}

/// The chart line of a play (see above).
pub fn format_recent_chart_line(record: &RecentRecordView) -> (r: String)
    ensures
        r@ == recent_chart_line(*record),
{
    let level = match &record.level {
        Some(v) => {
            let internal = match &record.internal_level {
                Some(x) => Some(x.as_str()),
                None => None,
            };
            format_level_with_internal(v.as_str(), internal)
        },
        None => String::from_str("N/A"),
    };
    match record.diff_category {
        Some(d) => linked_chart_label(record.title.as_str(), record.chart_type, d, level.as_str()),
        None => {
            let mut s = String::from_str("[");
            s.push_str(record.chart_type.as_str());
            s.push_str("] Unknown ");
            s.push_str(level.as_str());
            s
        },
    }
}

/// The achievement of a play with four decimals and `%`, or `N/A`.
pub open spec fn achievement_text(a: Option<i64>) -> Seq<char> {
    match a {
        Some(v) => rate_text(v as int),
        None => "N/A"@,
    }
}

/// Whether an achievement is small enough to be written exactly.
pub open spec fn achievement_in_range(a: Option<i64>) -> bool {
    a matches Some(v) ==> -0x20_0000_0000_0000 <= v <= 0x20_0000_0000_0000
}

/// The second line of a play: achievement, rank, FC and sync, `-` for the missing marks.
pub open spec fn recent_detail_line(r: RecentRecordView, mentions: Seq<(Seq<char>, Seq<char>)>) -> Seq<char> {
    achievement_text(r.achievement_x10000) + " • "@ + rank_text(mentions, r.rank, "-"@) + " • "@ + fc_text(
        mentions,
        r.fc,
        "-"@,
    ) + " • "@ + sync_text(mentions, r.sync, "-"@)
}

/// The second line of a play (see above).
pub fn format_recent_detail_lines(record: &RecentRecordView, status_emojis: &MaimaiStatusEmojis) -> (r:
    String)
    requires
        achievement_in_range(record.achievement_x10000),
    ensures
        r@ == recent_detail_line(*record, status_emojis.mentions_view()),
{
    let mut s = match record.achievement_x10000 {
        Some(v) => format_rate_x10000(v),
        None => String::from_str("N/A"),
    };
    let rank = format_rank(status_emojis, record.rank, "-");
    let fc = format_fc(status_emojis, record.fc, "-");
    let sync = format_sync(status_emojis, record.sync, "-");
    s.push_str(" • ");
    s.push_str(rank.as_str());
    s.push_str(" • ");
    s.push_str(fc.as_str());
    s.push_str(" • ");
    s.push_str(sync.as_str());
    s
}

/// The footer of a play: its rating points and when it was played, `-` for what is missing.
pub open spec fn recent_footer(r: RecentRecordView) -> Seq<char> {
    "Rating: "@ + (match r.rating_points {
        Some(p) => decimal(p as nat),
        None => "-"@,
    }) + " • Played: "@ + (match opt_view(r.played_at) {
        Some(p) => p,
        None => "-"@,
    })
}

/// The footer of a play (see above).
pub fn format_recent_footer(record: &RecentRecordView) -> (r: String)
    ensures
        r@ == recent_footer(*record),
{
    let mut s = String::from_str("Rating: ");
    match record.rating_points {
        Some(p) => push_decimal(&mut s, p as u64),
        None => s.push_str("-"),
    }
    s.push_str(" • Played: ");
    match &record.played_at {
        Some(p) => s.push_str(p.as_str()),
        None => s.push_str("-"),
    }
    s
}

/// The text of a play's card: the chart line, the detail line, and a new-record mark.
pub open spec fn recent_description(r: RecentRecordView, mentions: Seq<(Seq<char>, Seq<char>)>) -> Seq<char> {
    recent_chart_line(r) + "\n"@ + recent_detail_line(r, mentions) + if r.achievement_new_record {
        "\n**NEW RECORD**"@
    } else {
        Seq::empty()
    }
}

/// The text of a play's card (see above).
pub fn recent_record_description(record: &RecentRecordView, status_emojis: &MaimaiStatusEmojis) -> (r:
    String)
    requires
        achievement_in_range(record.achievement_x10000),
    ensures
        r@ == recent_description(*record, status_emojis.mentions_view()),
{
    let mut s = format_recent_chart_line(record);
    s.push_str("\n");
    let detail = format_recent_detail_lines(record, status_emojis);
    s.push_str(detail.as_str());
    if record.achievement_new_record {
        s.push_str("\n**NEW RECORD**");
    }
    s
}

/// When the credit started: the time of its first track when that is known, else the first
/// time any play of the list has.
pub open spec fn credit_started_at(records: Seq<RecentRecordView>) -> Option<Seq<char>> {
    match first_track_one(records) {
        Some(i) if records[i].played_at is Some => opt_view(records[i].played_at),
        _ => first_played_at(records),
    }
}

/// The index of the first play with track number 1.
pub open spec fn first_track_one(records: Seq<RecentRecordView>) -> Option<int>
    decreases records.len(),
{
    if records.len() == 0 {
        None
    } else {
        match first_track_one(records.drop_last()) {
            Some(i) => Some(i),
            None => if records.last().track == Some(1i64) {
                Some(records.len() - 1)
            } else {
                None
            },
        }
    }
}

/// The first play time in the list.
pub open spec fn first_played_at(records: Seq<RecentRecordView>) -> Option<Seq<char>>
    decreases records.len(),
{
    if records.len() == 0 {
        None
    } else {
        match first_played_at(records.drop_last()) {
            Some(p) => Some(p),
            None => opt_view(records.last().played_at),
        }
    }
}

proof fn lemma_first_track_one_bounds(s: Seq<RecentRecordView>)
    ensures
        first_track_one(s) matches Some(i) ==> 0 <= i < s.len() && s[i].track == Some(1i64),
    decreases s.len(),
{
    if s.len() > 0 {
        lemma_first_track_one_bounds(s.drop_last());
    }
}

proof fn lemma_first_track_one_prefix(s: Seq<RecentRecordView>, i: int)
    requires
        0 <= i < s.len(),
        first_track_one(s.take(i)) is None,
        s[i].track == Some(1i64),
    ensures
        first_track_one(s) == Some(i),
    decreases s.len(),
{
    if s.len() == i + 1 {
        assert(s.drop_last() =~= s.take(i));
    } else {
        assert(s.drop_last().take(i) =~= s.take(i));
        lemma_first_track_one_prefix(s.drop_last(), i);
    }
}

proof fn lemma_first_played_at_prefix(s: Seq<RecentRecordView>, i: int)
    requires
        0 <= i < s.len(),
        first_played_at(s.take(i)) is None,
        s[i].played_at is Some,
    ensures
        first_played_at(s) == opt_view(s[i].played_at),
    decreases s.len(),
{
    if s.len() == i + 1 {
        assert(s.drop_last() =~= s.take(i));
    } else {
        assert(s.drop_last().take(i) =~= s.take(i));
        lemma_first_played_at_prefix(s.drop_last(), i);
    }
}

fn find_first_played_at(records: &[RecentRecordView]) -> (r: Option<String>)
    ensures
        opt_view(r) == first_played_at(records@),
{
    let mut i: usize = 0;
    while i < records.len()
        invariant
            i <= records.len(),
            first_played_at(records@.take(i as int)) is None,
        decreases records.len() - i,
    {
        assert(records@.take(i + 1).drop_last() =~= records@.take(i as int));
        if let Some(p) = &records[i].played_at {
            proof {
                lemma_first_played_at_prefix(records@, i as int);
            }
            return Some(p.clone());
        }
        i += 1;
    }
    assert(records@.take(records.len() as int) =~= records@);
    None
}

/// When the credit started (see `credit_started_at`).
pub fn credit_start_time(records: &[RecentRecordView]) -> (r: Option<String>)
    ensures
        opt_view(r) == credit_started_at(records@),
{
    proof {
        lemma_first_track_one_bounds(records@);
    }
    let mut i: usize = 0;
    while i < records.len()
        invariant
            i <= records.len(),
            first_track_one(records@.take(i as int)) is None,
        decreases records.len() - i,
    {
        assert(records@.take(i + 1).drop_last() =~= records@.take(i as int));
        if records[i].track == Some(1i64) {
            proof {
                lemma_first_track_one_prefix(records@, i as int);
            }
            return match &records[i].played_at {
                Some(p) => Some(p.clone()),
                None => find_first_played_at(records),
            };
        }
        i += 1;
    }
    assert(records@.take(records.len() as int) =~= records@);
    find_first_played_at(records)
}

} // verus!
