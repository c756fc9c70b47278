//! The records that the scatter plots show: which plays have a chart level and an achievement
//! worth plotting, and when a play happened.
use vstd::prelude::*;

use crate::assoc::{assoc_get, assoc_set, first_key_index, lemma_first_key_index};
use crate::discord::today::{calendar_date_exists, calendar_date_valid, days_from_civil};
use crate::models::game_domain::{ChartType, DifficultyCategory};
use crate::models::song_title::opt_view;
use crate::text::{chars_of, copy_range, eq_chars, parse_i64, parse_int_spec};

verus! {

/// The lowest achievement that is plotted (90.0000%).
pub const MIN_ACHIEVEMENT_X10000: i64 = 900_000;

/// A chart as the level map knows it.
#[derive(Debug, Clone)]
pub struct LevelKey {
    pub title: String,
    pub genre: String,
    pub artist: String,
    pub chart_type: ChartType,
    pub diff_category: DifficultyCategory,
}

/// A chart key as plain values.
pub type LevelKeyView = (Seq<char>, Seq<char>, Seq<char>, ChartType, DifficultyCategory);

pub open spec fn level_key_view(k: LevelKey) -> LevelKeyView {
    (k.title@, k.genre@, k.artist@, k.chart_type, k.diff_category)
}

/// The internal level (in tenths) of each chart of the catalog.
#[derive(Debug, Clone)]
pub struct LevelMap {
    entries: Vec<(LevelKey, i32)>,
}

impl LevelMap {
    /// The map as (chart, tenths) pairs, each chart once.
    pub closed spec fn view(self) -> Seq<(LevelKeyView, i32)> {
        self.entries@.map_values(|e: (LevelKey, i32)| (level_key_view(e.0), e.1))
    }

    /// An empty map.
    pub fn new() -> (r: Self)
        ensures
            r.view().len() == 0,
    {
        LevelMap { entries: Vec::new() }
    }

    fn find(&self, key: &LevelKeyChars) -> (r: Option<usize>)
        ensures
            match r {
                Some(i) => first_key_index(self.view(), key.view()) == Some(i as int) && i < self.entries.len(),
                None => first_key_index(self.view(), key.view()) is None,
            },
    {
        let ghost v = self.view();
        proof {
            lemma_first_key_index(v, key.view());
        }
        let mut i: usize = 0;
        while i < self.entries.len()
            invariant
                i <= self.entries.len(),
                v == self.view(),
                v.len() == self.entries.len(),
                forall|j: int| 0 <= j < i ==> (#[trigger] v[j]).0 != key.view(),
            decreases self.entries.len() - i,
        {
            let e = &self.entries[i].0;
            assert(v[i as int].0 == level_key_view(*e));
            if e.chart_type == key.chart_type && e.diff_category == key.diff_category && eq_chars(
                chars_of(e.title.as_str()).as_slice(),
                key.title.as_slice(),
            ) && eq_chars(chars_of(e.genre.as_str()).as_slice(), key.genre.as_slice()) && eq_chars(
                chars_of(e.artist.as_str()).as_slice(),
                key.artist.as_slice(),
            ) {
                assert(v[i as int].0 == key.view());
                proof {
                    lemma_first_key_index(v, key.view());
                }
                return Some(i);
            }
            i += 1;
        }
        None
    }

    /// Sets the level of a chart, as `HashMap::insert` does.
    pub fn insert(&mut self, key: LevelKey, level_tenths: i32)
        ensures
            final(self).view() == assoc_set(old(self).view(), level_key_view(key), level_tenths),
    {
        let kc = LevelKeyChars::of(&key);
        let ghost old_v = self.view();
        match self.find(&kc) {
            Some(i) => {
                self.entries.set(i, (key, level_tenths));
                assert(self.view() =~= old_v.update(i as int, (level_key_view(key), level_tenths)));
            },
            None => {
                self.entries.push((key, level_tenths));
                assert(self.view() =~= old_v.push((level_key_view(key), level_tenths)));
            },
        }
    }

    /// The level of a chart, when the map has it.
    pub fn get(
        &self,
        title: &str,
        genre: &str,
        artist: &str,
        chart_type: ChartType,
        diff_category: DifficultyCategory,
    ) -> (r: Option<i32>)
        ensures
            r == assoc_get(self.view(), (title@, genre@, artist@, chart_type, diff_category)),
    {
        let kc = LevelKeyChars {
            title: chars_of(title),
            genre: chars_of(genre),
            artist: chars_of(artist),
            chart_type,
            diff_category,
        };
        match self.find(&kc) {
            Some(i) => {
                assert(self.view()[i as int].1 == self.entries@[i as int].1);
                Some(self.entries[i].1)
            },
            None => None,
        }
    }
}

/// A chart key as characters, for comparing.
struct LevelKeyChars {
    title: Vec<char>,
    genre: Vec<char>,
    artist: Vec<char>,
    chart_type: ChartType,
    diff_category: DifficultyCategory,
}

impl LevelKeyChars {
    spec fn view(&self) -> LevelKeyView {
        (self.title@, self.genre@, self.artist@, self.chart_type, self.diff_category)
    }

    fn of(k: &LevelKey) -> (r: Self)
        ensures
            r.view() == level_key_view(*k),
    {
        LevelKeyChars {
            title: chars_of(k.title.as_str()),
            genre: chars_of(k.genre.as_str()),
            artist: chars_of(k.artist.as_str()),
            chart_type: k.chart_type,
            diff_category: k.diff_category,
        }
    }
}

/// One play or score that a plot may show.
#[derive(Debug, Clone)]
pub struct PlotInputRecord {
    pub achievement_x10000: Option<i64>,
    pub title: String,
    pub genre: Option<String>,
    pub artist: Option<String>,
    pub chart_type: ChartType,
    pub diff_category: Option<DifficultyCategory>,
    pub played_at: Option<String>,
    pub is_new_record: bool,
    pub previous_achievement_x10000: Option<i64>,
}

/// A record kept for the plot: which record, its achievement and level, and its previous
/// achievement when that is worth drawing too.
#[derive(Debug, Clone, Copy, PartialEq, Eq, Structural)]
pub struct PlotSelection {
    pub record: usize,
    pub achievement_x10000: i64,
    pub level_tenths: i32,
    pub is_new_record: bool,
    pub previous_achievement_x10000: Option<i64>,
}

/// What the plot keeps of a record: nothing when the achievement is missing or below the floor,
/// when genre, artist or difficulty is unknown, when the chart has no level, or when the level
/// lies outside the given range; else the achievement, the level, and the previous
/// achievement when it is at least the floor and below the new one.
pub open spec fn plot_selection_spec(
    r: PlotInputRecord,
    levels: Seq<(LevelKeyView, i32)>,
    level_range: Option<(i32, i32)>,
) -> Option<(i64, i32, Option<i64>)> {
    match (r.achievement_x10000, opt_view(r.genre), opt_view(r.artist), r.diff_category) {
        (Some(a), Some(g), Some(ar), Some(d)) => if a < MIN_ACHIEVEMENT_X10000 {
            None
        } else {
            match assoc_get(levels, (r.title@, g, ar, r.chart_type, d)) {
                None => None,
                Some(l) => if level_range matches Some((lo, hi)) && !(lo <= l <= hi) {
                    None
                } else {
                    Some(
                        (
                            a,
                            l,
                            match r.previous_achievement_x10000 {
                                Some(p) => if p >= MIN_ACHIEVEMENT_X10000 && p < a {
                                    Some(p)
                                } else {
                                    None
                                },
                                None => None,
                            },
                        ),
                    )
                },
            }
        },
        _ => None,
    }
}

/// The selections of the records kept, in order.
pub open spec fn plot_selections(
    records: Seq<PlotInputRecord>,
    levels: Seq<(LevelKeyView, i32)>,
    level_range: Option<(i32, i32)>,
) -> Seq<PlotSelection>
    decreases records.len(),
{
    if records.len() == 0 {
        Seq::empty()
    } else {
        let i = records.len() - 1;
        plot_selections(records.drop_last(), levels, level_range) + match plot_selection_spec(
            records[i],
            levels,
            level_range,
        ) {
            Some(s) => seq![
                PlotSelection {
                    record: i as usize,
                    achievement_x10000: s.0,
                    level_tenths: s.1,
                    is_new_record: records[i].is_new_record,
                    previous_achievement_x10000: s.2,
                },
            ],
            None => Seq::empty(),
        }
    }
}

fn select_one(r: &PlotInputRecord, levels: &LevelMap, level_range: Option<(i32, i32)>) -> (s: Option<
    (i64, i32, Option<i64>),
>)
    ensures
        s == plot_selection_spec(*r, levels.view(), level_range),
{
    let a = match r.achievement_x10000 {
        Some(a) => a,
        None => {
            return None;
        },
    };
    let (g, ar, d) = match (&r.genre, &r.artist, r.diff_category) {
        (Some(g), Some(ar), Some(d)) => (g, ar, d),
        _ => {
            return None;
        },
    };
    if a < MIN_ACHIEVEMENT_X10000 {
        return None;
    }
    let l = match levels.get(r.title.as_str(), g.as_str(), ar.as_str(), r.chart_type, d) {
        Some(l) => l,
        None => {
            return None;
        },
    };
    if let Some((lo, hi)) = level_range {
        if !(lo <= l && l <= hi) {
            return None;
        }
    }
    let previous = match r.previous_achievement_x10000 {
        Some(p) => if p >= MIN_ACHIEVEMENT_X10000 && p < a {
            Some(p)
        } else {
            None
        },
        None => None,
    };
    Some((a, l, previous))
}

/// The records that a plot shows (see `plot_selection_spec`), in order. Plays outside the
/// plot's time window are dropped afterwards, by the time they were played.
pub fn select_plot_points(records: &[PlotInputRecord], levels: &LevelMap, level_range: Option<(i32, i32)>) -> (r:
    Vec<PlotSelection>)
    ensures
        r@ == plot_selections(records@, levels.view(), level_range),
{
    let mut out: Vec<PlotSelection> = Vec::new();
    let mut i: usize = 0;
    while i < records.len()
        invariant
            i <= records.len(),
            out@ == plot_selections(records@.take(i as int), levels.view(), level_range),
        decreases records.len() - i,
    {
        assert(records@.take(i + 1).drop_last() =~= records@.take(i as int));
        assert(records@.take(i + 1)[i as int] == records@[i as int]);
        match select_one(&records[i], levels, level_range) {
            Some((a, l, p)) => {
                out.push(
                    PlotSelection {
                        record: i,
                        achievement_x10000: a,
                        level_tenths: l,
                        is_new_record: records[i].is_new_record,
                        previous_achievement_x10000: p,
                    },
                );
            },
            None => {},
        }
        i += 1;
    }
    assert(records@.take(records.len() as int) =~= records@);
    out
}

/// The instant of a wall-clock minute in Japan (UTC+9), as a Unix timestamp: the seconds since
/// 1970-01-01 00:00 UTC, nine hours before the same clock reading in UTC.
pub open spec fn jst_instant(year: int, month: int, day: int, hour: int, minute: int) -> int {
    days_from_civil(year, month, day) * 86400 + hour * 3600 + minute * 60 - 9 * 3600
}

/// The instant of a wall-clock minute in Japan, for a valid date and time (see `jst_instant`).
fn jst_instant_of(year: i32, month: u8, day: u8, hour: u8, minute: u8) -> (r: Option<i64>)
    ensures
        r is Some <==> (calendar_date_valid(year as int, month as int, day as int) && hour < 24 && minute
            < 60),
        r matches Some(t) ==> t as int == jst_instant(
            year as int,
            month as int,
            day as int,
            hour as int,
            minute as int,
        ),
{
    if !calendar_date_exists(year, month, day) || hour >= 24 || minute >= 60 {
        return None;
    }
    let y: i64 = if month <= 2 {
        year as i64 - 1
    } else {
        year as i64
    };
    let era: i64 = (y + 10400) / 400 - 26;
    assert(era == y / 400) by (nonlinear_arith)
        requires
            era == (y + 10400) / 400 - 26,
            y + 10400 >= 0,
    ;
    let year_of_era: i64 = y - era * 400;
    let month_from_march: i64 = if month > 2 {
        month as i64 - 3
    } else {
        month as i64 + 9
    };
    let day_of_year: i64 = (153 * month_from_march + 2) / 5 + day as i64 - 1;
    let day_of_era: i64 = year_of_era * 365 + year_of_era / 4 - year_of_era / 100 + day_of_year;
    let days: i64 = era * 146097 + day_of_era - 719468;
    assert(days == days_from_civil(year as int, month as int, day as int));
    Some(days * 86400 + hour as i64 * 3600 + minute as i64 * 60 - 9 * 3600)
}

/// What `u8::from_str` accepts: decimal digits with an optional `+`, up to 255.
pub open spec fn parse_u8_text(s: Seq<char>) -> Option<int> {
    if s.len() > 0 && s[0] == '-' {
        None
    } else {
        parse_int_spec(s, 0, 255)
    }
}

/// Whether every character is ASCII.
pub open spec fn all_ascii(s: Seq<char>) -> bool {
    forall|i: int| 0 <= i < s.len() ==> s[i] < '\u{80}'
}

/// The instant of a `YYYY/MM/DD HH:MM` time in Japan: sixteen ASCII characters whose fields
/// read as numbers of a valid date and time (the separators are not looked at).
pub open spec fn jst_played_at_spec(s: Seq<char>) -> Option<i64> {
    if s.len() != 16 || !all_ascii(s) {
        None
    } else {
        match (
            parse_int_spec(s.subrange(0, 4), i32::MIN as int, i32::MAX as int),
            parse_u8_text(s.subrange(5, 7)),
            parse_u8_text(s.subrange(8, 10)),
            parse_u8_text(s.subrange(11, 13)),
            parse_u8_text(s.subrange(14, 16)),
        ) {
            (Some(y), Some(mo), Some(d), Some(h), Some(mi)) => if calendar_date_valid(y, mo, d) && h < 24
                && mi < 60 {
                Some(jst_instant(y, mo, d, h, mi) as i64)
            } else {
                None
            },
            _ => None,
        }
    }
}

fn parse_u8_chars(v: &[char]) -> (r: Option<u8>)
    ensures
        match r {
            Some(x) => parse_u8_text(v@) == Some(x as int),
            None => parse_u8_text(v@) is None,
        },
{
    if v.len() > 0 && v[0] == '-' {
        return None;
    }
    match parse_i64(v) {
        Some(x) => if 0 <= x && x <= 255 {
            Some(x as u8)
        } else {
            None
        },
        None => None,
    }
}

/// The instant of a play time `YYYY/MM/DD HH:MM` in Japan (see `jst_played_at_spec`). Text
/// of sixteen bytes that is not ASCII never reads as such a time, so only ASCII text is read.
pub fn parse_jst_played_at(s: &str) -> (r: Option<i64>)
    ensures
        r == jst_played_at_spec(s@),
{
    let v = chars_of(s);
    if v.len() != 16 {
        return None;
    }
    let mut i: usize = 0;
    while i < v.len()
        invariant
            i <= v.len(),
            v@ == s@,
            forall|k: int| 0 <= k < i ==> v@[k] < '\u{80}',
        decreases v.len() - i,
    {
        if v[i] >= '\u{80}' {
            assert(!(s@[i as int] < '\u{80}'));
            assert(!all_ascii(s@));
            return None;
        }
        i += 1;
    }
    let ys = copy_range(v.as_slice(), 0, 4);
    let year = match parse_i64(ys.as_slice()) {
        Some(y) => if i32::MIN as i64 <= y && y <= i32::MAX as i64 {
            y as i32
        } else {
            return None;
        },
        None => {
            return None;
        },
    };
    let month = match parse_u8_chars(copy_range(v.as_slice(), 5, 7).as_slice()) {
        Some(m) => m,
        None => {
            return None;
        },
    };
    let day = match parse_u8_chars(copy_range(v.as_slice(), 8, 10).as_slice()) {
        Some(d) => d,
        None => {
            return None;
        },
    };
    let hour = match parse_u8_chars(copy_range(v.as_slice(), 11, 13).as_slice()) {
        Some(h) => h,
        None => {
            return None;
        },
    };
    let minute = match parse_u8_chars(copy_range(v.as_slice(), 14, 16).as_slice()) {
        Some(m) => m,
        None => {
            return None;
        },
    };
    jst_instant_of(year, month, day, hour, minute)
}

} // verus!
