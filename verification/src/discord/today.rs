//! The summary of a day's plays: tracks, credits, first plays and new records.
use vstd::prelude::*;

use crate::discord::rating::{insert_ranked, ranked, ranks_below, RatedRow};
use crate::models::api_models::PlayRecordApiResponse;
use crate::text::{
    parse_int_spec, parse_i64, push_zero_padded, split_char, split_chars, trim, trimmed,
    zero_padded,
};

verus! {

/// The counts that the day card shows.
#[derive(Debug, Clone, Copy, PartialEq, Eq, Structural)]
pub struct TodaySummary {
    pub tracks: i64,
    pub credits: i64,
    pub first_plays: i64,
    pub new_records: i64,
}

/// The credit numbers of the plays that have one, in order.
pub open spec fn credit_values(plays: Seq<PlayRecordApiResponse>) -> Seq<i32>
    decreases plays.len(),
{
    if plays.len() == 0 {
        Seq::empty()
    } else {
        credit_values(plays.drop_last()) + match plays.last().credit_play_count {
            Some(c) => seq![c],
            None => Seq::empty(),
        }
    }
}

/// Whether a flag of the collector is set (it sends 0 or 1, or nothing).
pub open spec fn flag_set(f: Option<i32>) -> bool {
    f matches Some(v) && v != 0
}

/// The number of plays that were a first play of their chart.
pub open spec fn count_first_plays(plays: Seq<PlayRecordApiResponse>) -> nat
    decreases plays.len(),
{
    if plays.len() == 0 {
        0
    } else {
        count_first_plays(plays.drop_last()) + if flag_set(plays.last().first_play) {
            1nat
        } else {
            0nat
        }
    }
}

/// The number of plays that set a new record.
pub open spec fn count_new_record_flags(plays: Seq<PlayRecordApiResponse>) -> nat
    decreases plays.len(),
{
    if plays.len() == 0 {
        0
    } else {
        count_new_record_flags(plays.drop_last()) + if flag_set(plays.last().achievement_new_record) {
            1nat
        } else {
            0nat
        }
    }
}

/// The summary of a day: every play is a track; the credits are the distinct credit numbers;
/// new records do not count the first plays (a first play always sets a record).
pub open spec fn today_summary_spec(plays: Seq<PlayRecordApiResponse>) -> TodaySummary {
    let firsts = count_first_plays(plays) as int;
    let flagged = count_new_record_flags(plays) as int;
    TodaySummary {
        tracks: plays.len() as i64,
        credits: credit_values(plays).to_set().len() as i64,
        first_plays: firsts as i64,
        new_records: (if flagged - firsts > 0 {
            flagged - firsts
        } else {
            0
        }) as i64,
    }
}

/// The summary of a day's plays (see above).
pub fn today_summary(plays: &[PlayRecordApiResponse]) -> (r: TodaySummary)
    requires
        plays@.len() <= i64::MAX,
    ensures
        r == today_summary_spec(plays@),
{
    let mut seen: Vec<i32> = Vec::new();
    let mut firsts: usize = 0;
    let mut flagged: usize = 0;
    let mut i: usize = 0;
    while i < plays.len()
        invariant
            i <= plays.len(),
            plays@.len() <= i64::MAX,
            seen@.no_duplicates(),
            seen@.to_set() == credit_values(plays@.take(i as int)).to_set(),
            seen@.len() <= i,
            firsts == count_first_plays(plays@.take(i as int)),
            flagged == count_new_record_flags(plays@.take(i as int)),
            firsts <= i,
            flagged <= i,
        decreases plays.len() - i,
    {
        let ghost prefix = plays@.take(i as int);
        let ghost next = plays@.take(i + 1);
        assert(next.drop_last() =~= prefix);
        assert(next.last() == plays@[i as int]);
        let play = &plays[i];
        if let Some(c) = play.credit_play_count {
            let mut found = false;
            let mut j: usize = 0;
            while j < seen.len()
                invariant
                    j <= seen.len(),
                    found <==> exists|q: int| 0 <= q < j && seen@[q] == c,
                decreases seen.len() - j,
            {
                if seen[j] == c {
                    found = true;
                }
                j += 1;
            }
            let ghost before = seen@;
            if !found {
                seen.push(c);
                assert forall|a: int, b: int|
                    0 <= a < seen@.len() && 0 <= b < seen@.len() && a != b implies seen@[a] != seen@[b] by {
                    if a < before.len() && b < before.len() {
                    } else if a == before.len() {
                        assert(!before.contains(c));
                    } else {
                        assert(!before.contains(c));
                    }
                }
            } else {
                proof {
                    let q = choose|q: int| 0 <= q < j && seen@[q] == c;
                    assert(before[q] == c);
                    assert(before.contains(c));
                }
            }
            assert(credit_values(next) =~= credit_values(prefix).push(c));
            assert forall|a: i32| seen@.to_set().contains(a) <==> credit_values(next).to_set().contains(a) by {
                let cp = credit_values(prefix);
                assert(before.to_set().contains(a) <==> cp.to_set().contains(a));
                assert(cp.push(c).contains(a) <==> (cp.contains(a) || a == c)) by {
                    if cp.push(c).contains(a) {
                        let k = choose|k: int| 0 <= k < cp.push(c).len() && cp.push(c)[k] == a;
                        if k < cp.len() {
                            assert(cp[k] == a);
                        }
                    }
                    if cp.contains(a) {
                        let k = choose|k: int| 0 <= k < cp.len() && cp[k] == a;
                        assert(cp.push(c)[k] == a);
                    }
                    if a == c {
                        assert(cp.push(c)[cp.len() as int] == c);
                    }
                }
                if !found {
                    assert(seen@ == before.push(c));
                    assert(before.push(c).contains(a) <==> (before.contains(a) || a == c)) by {
                        if before.push(c).contains(a) {
                            let k = choose|k: int| 0 <= k < before.push(c).len() && before.push(c)[k] == a;
                            if k < before.len() {
                                assert(before[k] == a);
                            }
                        }
                        if before.contains(a) {
                            let k = choose|k: int| 0 <= k < before.len() && before[k] == a;
                            assert(before.push(c)[k] == a);
                        }
                        if a == c {
                            assert(before.push(c)[before.len() as int] == c);
                        }
                    }
                } else {
                    assert(seen@ == before);
                }
            }
            assert(seen@.to_set() =~= credit_values(next).to_set());
        } else {
            assert(credit_values(next) =~= credit_values(prefix));
        }
        if matches!(play.first_play, Some(v) if v != 0) {
            firsts += 1;
        }
        if matches!(play.achievement_new_record, Some(v) if v != 0) {
            flagged += 1;
        }
        i += 1;
    }
    assert(plays@.take(plays.len() as int) =~= plays@);
    proof {
        seen@.unique_seq_to_set();
    }
    let tracks = plays.len() as i64;
    let credits = seen.len() as i64;
    let f = firsts as i64;
    let n = flagged as i64;
    let new_records = if n - f > 0 {
        n - f
    } else {
        0
    };
    TodaySummary { tracks, credits, first_plays: f, new_records }
}

/// The date and hour in Japan (UTC+9) of a Unix timestamp: the calendar date whose day number
/// is that of the local time, and the hour within that day. None out of what `time` represents:
/// before -9999-01-01 00:00 UTC, or a local time after 9999-12-31.
pub open spec fn jst_date_hour(unix_secs: i64) -> Option<(i32, u8, u8, u8)> {
    let local = unix_secs + 9 * 3600;
    if days_from_civil(-9999, 1, 1) * 86400 <= unix_secs && local < (days_from_civil(9999, 12, 31)
        + 1) * 86400 {
        let (y, m, d) = choose|y: i32, m: u8, d: u8|
            calendar_date_valid(y as int, m as int, d as int) && days_from_civil(
                y as int,
                m as int,
                d as int,
            ) == local / 86400;
        Some((y, m, d, ((local % 86400) / 3600) as u8))
    } else {
        None
    }
}


/// Trusted: `time::OffsetDateTime::from_unix_timestamp`, which accepts the instants from
/// -9999-01-01 00:00:00 to 9999-12-31 23:59:59 UTC, then `checked_to_offset` to UTC+9, which
/// refuses a local year past 9999, and the local year, month, day and hour.
#[verifier::external_body]
fn jst_date_hour_of(unix_secs: i64) -> (r: Option<(i32, u8, u8, u8)>)
    ensures
        r == jst_date_hour(unix_secs),
{
    let offset = match time::UtcOffset::from_hms(9, 0, 0) {
        Ok(o) => o,
        Err(_) => time::UtcOffset::UTC,
    };
    match time::OffsetDateTime::from_unix_timestamp(unix_secs) {
        Ok(t) => match t.checked_to_offset(offset) {
            Some(l) => Some((l.year(), u8::from(l.month()), l.day(), l.hour())),
            None => None,
        },
        Err(_) => None,
    }
}

/// Whether a year is a leap year of the Gregorian calendar.
pub open spec fn is_leap_year(year: int) -> bool {
    year % 4 == 0 && (year % 100 != 0 || year % 400 == 0)
}

/// The number of days of a month (1 to 12).
pub open spec fn days_in_month(year: int, month: int) -> int {
    if month == 2 {
        if is_leap_year(year) {
            29
        } else {
            28
        }
    } else if month == 4 || month == 6 || month == 9 || month == 11 {
        30
    } else {
        31
    }
}

/// The number of days from 1970-01-01 to a date of the proleptic Gregorian calendar (negative
/// before it): whole 400-year eras, then years of the era counted from March, then days of that
/// year counted from March 1.
pub open spec fn days_from_civil(year: int, month: int, day: int) -> int {
    let y = if month <= 2 { year - 1 } else { year };
    let era = y / 400;
    let year_of_era = y - era * 400;
    let month_from_march = if month > 2 { month - 3 } else { month + 9 };
    let day_of_year = (153 * month_from_march + 2) / 5 + day - 1;
    let day_of_era = year_of_era * 365 + year_of_era / 4 - year_of_era / 100 + day_of_year;
    era * 146097 + day_of_era - 719468
}

/// Whether `time` accepts a calendar date: a year from -9999 to 9999, a month from 1 to 12,
/// and a day of that month.
pub open spec fn calendar_date_valid(year: int, month: int, day: int) -> bool {
    &&& -9999 <= year <= 9999
    &&& 1 <= month <= 12
    &&& 1 <= day <= days_in_month(year, month)
}

/// The day after a calendar date: the next day of the month, else the first of the next month,
/// else the first of January of the next year; none for a date that is not valid and for
/// 9999-12-31, the last date that `time` represents.
pub open spec fn next_calendar_day(year: i32, month: u8, day: u8) -> Option<(i32, u8, u8)> {
    if !calendar_date_valid(year as int, month as int, day as int) {
        None
    } else if day < days_in_month(year as int, month as int) {
        Some((year, month, (day + 1) as u8))
    } else if month < 12 {
        Some((year, (month + 1) as u8, 1u8))
    } else if year < 9999 {
        Some(((year + 1) as i32, 1u8, 1u8))
    } else {
        None
    }
}

/// The number of days of a month of a year from -9999 to 9999.
fn month_length(year: i32, month: u8) -> (r: u8)
    requires
        -9999 <= year <= 9999,
        1 <= month <= 12,
    ensures
        r == days_in_month(year as int, month as int),
{
    if month == 2 {
        let y: u32 = (year + 10000) as u32;
        assert(y % 4 == year % 4 && y % 100 == year % 100 && y % 400 == year % 400) by {
            assert(y == year + 25 * 400);
        }
        if y % 4 == 0 && (y % 100 != 0 || y % 400 == 0) {
            29
        } else {
            28
        }
    } else if month == 4 || month == 6 || month == 9 || month == 11 {
        30
    } else {
        31
    }
}

/// Whether a calendar date is one that `time` represents (see `calendar_date_valid`).
pub(crate) fn calendar_date_exists(year: i32, month: u8, day: u8) -> (r: bool)
    ensures
        r == calendar_date_valid(year as int, month as int, day as int),
{
    if year < -9999 || year > 9999 || month < 1 || month > 12 {
        return false;
    }
    1 <= day && day <= month_length(year, month)
}

/// The day after a calendar date (see `next_calendar_day`).
fn next_calendar_day_of(year: i32, month: u8, day: u8) -> (r: Option<(i32, u8, u8)>)
    ensures
        r == next_calendar_day(year, month, day),
{
    if !calendar_date_exists(year, month, day) {
        return None;
    }
    if day < month_length(year, month) {
        Some((year, month, day + 1))
    } else if month < 12 {
        Some((year, month + 1, 1))
    } else if year < 9999 {
        Some((year + 1, 1, 1))
    } else {
        None
    }
}

/// The day of play at an instant: the date in Japan, the day starting at 04:00 (before that,
/// the day before).
pub open spec fn game_day_spec(now_unix_secs: i64) -> Option<(i32, u8, u8)> {
    match jst_date_hour(now_unix_secs) {
        None => None,
        Some(t) => if t.3 < 4 {
            if now_unix_secs >= i64::MIN + 86400 {
                match jst_date_hour((now_unix_secs - 86400) as i64) {
                    Some(p) => Some((p.0, p.1, p.2)),
                    None => None,
                }
            } else {
                None
            }
        } else {
            Some((t.0, t.1, t.2))
        },
    }
}

/// The day of play at an instant (see above); none out of the representable dates.
pub fn game_day_at(now_unix_secs: i64) -> (r: Option<(i32, u8, u8)>)
    ensures
        r == game_day_spec(now_unix_secs),
{
    match jst_date_hour_of(now_unix_secs) {
        None => None,
        Some((y, m, d, h)) => {
            if h < 4 {
                if now_unix_secs >= i64::MIN + 86400 {
                    match jst_date_hour_of(now_unix_secs - 86400) {
                        Some((y2, m2, d2, _)) => Some((y2, m2, d2)),
                        None => None,
                    }
                } else {
                    None
                }
            } else {
                Some((y, m, d))
            }
        },
    }
}

/// A year as `{:04}` writes it: four digits at least, the sign counted among them.
pub open spec fn year_text(year: int) -> Seq<char> {
    if year < 0 {
        seq!['-'] + zero_padded((-year) as nat, 3)
    } else {
        zero_padded(year as nat, 4)
    }
}

/// A date as `YYYY-MM-DD`.
pub open spec fn date_key(year: i32, month: u8, day: u8) -> Seq<char> {
    year_text(year as int) + seq!['-'] + zero_padded(month as nat, 2) + seq!['-'] + zero_padded(
        day as nat,
        2,
    )
}

/// A date as `YYYY-MM-DD`.
pub fn format_date_key(year: i32, month: u8, day: u8) -> (r: String)
    ensures
        r@ == date_key(year, month, day),
{
    let mut s = String::new();
    if year < 0 {
        s.push('-');
        let a: u64 = (-(year as i64)) as u64;
        push_zero_padded(&mut s, a, 3);
    } else {
        push_zero_padded(&mut s, year as u64, 4);
    }
    s.push('-');
    push_zero_padded(&mut s, month as u64, 2);
    s.push('-');
    push_zero_padded(&mut s, day as u64, 2);
    s
}

/// The window of a day of play: its key, and its start and end at 04:00.
#[derive(Debug, Clone)]
pub struct DayWindow {
    pub day_key: String,
    pub start: String,
    pub end: String,
}

/// The window of the day of play `(year, month, day)`, when the next day can be represented.
pub fn day_window(year: i32, month: u8, day: u8) -> (r: Option<DayWindow>)
    ensures
        match next_calendar_day(year, month, day) {
            None => r is None,
            Some(n) => r matches Some(w) && w.day_key@ == date_key(year, month, day) && w.start@
                == date_key(year, month, day) + " 04:00"@ && w.end@ == date_key(n.0, n.1, n.2)
                + " 04:00"@,
        },
{
    let (ny, nm, nd) = match next_calendar_day_of(year, month, day) {
        Some(n) => n,
        None => {
            return None;
        },
    };
    let day_key = format_date_key(year, month, day);
    let mut start = format_date_key(year, month, day);
    start.push_str(" 04:00");
    let mut end = format_date_key(ny, nm, nd);
    end.push_str(" 04:00");
    Some(DayWindow { day_key, start, end })
}

/// Why a date given to the detail command was refused.
#[derive(Debug, Clone, Copy, PartialEq, Eq, Structural)]
pub enum DayKeyError {
    /// Not three parts separated by `-` or `/`.
    Shape,
    Year,
    Month,
    Day,
    /// The parts name no calendar date.
    Date,
}

impl DayKeyError {
    /// The message of the error.
    pub open spec fn message_spec(self) -> Seq<char> {
        match self {
            DayKeyError::Shape => "date must be YYYY-MM-DD"@,
            DayKeyError::Year => "parse year"@,
            DayKeyError::Month => "parse month"@,
            DayKeyError::Day => "parse day"@,
            DayKeyError::Date => "parse date"@,
        }
    }

    /// The message of the error.
    pub fn message(&self) -> (r: &'static str)
        ensures
            r@ == self.message_spec(),
    {
        match self {
            DayKeyError::Shape => "date must be YYYY-MM-DD",
            DayKeyError::Year => "parse year",
            DayKeyError::Month => "parse month",
            DayKeyError::Day => "parse day",
            DayKeyError::Date => "parse date",
        }
    }
}

/// What `u8::from_str` accepts: decimal digits with an optional `+`, up to 255.
pub open spec fn parse_u8_spec(s: Seq<char>) -> Option<int> {
    if s.len() > 0 && s[0] == '-' {
        None
    } else {
        parse_int_spec(s, 0, 255)
    }
}

/// The text with each `-` written as `/`.
pub open spec fn dashes_to_slashes(s: Seq<char>) -> Seq<char> {
    s.map_values(|c: char| if c == '-' {
        '/'
    } else {
        c
    })
}

/// The date that a `YYYY-MM-DD` (or `YYYY/MM/DD`) text names, around spaces.
pub open spec fn day_key_spec(text: Seq<char>) -> Result<(i32, u8, u8), DayKeyError> {
    let parts = split_char(dashes_to_slashes(trim(text)), '/');
    if parts.len() != 3 {
        Err(DayKeyError::Shape)
    } else {
        match parse_int_spec(parts[0], i32::MIN as int, i32::MAX as int) {
            None => Err(DayKeyError::Year),
            Some(y) => match parse_u8_spec(parts[1]) {
                None => Err(DayKeyError::Month),
                Some(m) => match parse_u8_spec(parts[2]) {
                    None => Err(DayKeyError::Day),
                    Some(d) => if !(1 <= m <= 12) {
                        Err(DayKeyError::Month)
                    } else if !calendar_date_valid(y, m, d) {
                        Err(DayKeyError::Date)
                    } else {
                        Ok((y as i32, m as u8, d as u8))
                    },
                },
            },
        }
    }
}

fn parse_u8(v: &[char]) -> (r: Option<u8>)
    ensures
        match r {
            Some(x) => parse_u8_spec(v@) == Some(x as int),
            None => parse_u8_spec(v@) is None,
        },
{
    if v.len() > 0 && v[0] == '-' {
        return None;
    }
    match parse_i64(v) {
        Some(x) => if 0 <= x && x <= 255 {
            Some(x as u8)
        } else {
            None
        },
        None => None,
    }
}

/// The date that a date text given to the detail command names (see `day_key_spec`).
pub fn parse_day_key(text: &str) -> (r: Result<(i32, u8, u8), DayKeyError>)
    ensures
        r == day_key_spec(text@),
{
    let t = trimmed(text);
    let mut replaced: Vec<char> = Vec::new();
    let mut i: usize = 0;
    while i < t.len()
        invariant
            i <= t.len(),
            replaced@ == dashes_to_slashes(t@.take(i as int)),
        decreases t.len() - i,
    {
        let c = if t[i] == '-' {
            '/'
        } else {
            t[i]
        };
        replaced.push(c);
        i += 1;
        assert(replaced@ =~= dashes_to_slashes(t@.take(i as int)));
    }
    assert(t@.take(t.len() as int) =~= t@);
    let parts = split_chars(replaced.as_slice(), '/');
    if parts.len() != 3 {
        return Err(DayKeyError::Shape);
    }
    let year = match parse_i64(parts[0].as_slice()) {
        Some(y) => if i32::MIN as i64 <= y && y <= i32::MAX as i64 {
            y as i32
        } else {
            return Err(DayKeyError::Year);
        },
        None => {
            return Err(DayKeyError::Year);
        },
    };
    let month = match parse_u8(parts[1].as_slice()) {
        Some(m) => m,
        None => {
            return Err(DayKeyError::Month);
        },
    };
    let day = match parse_u8(parts[2].as_slice()) {
        Some(d) => d,
        None => {
            return Err(DayKeyError::Day);
        },
    };
    if month < 1 || month > 12 {
        return Err(DayKeyError::Month);
    }
    if !calendar_date_exists(year, month, day) {
        return Err(DayKeyError::Date);
    }
    Ok((year, month, day))
}

/// A play of the day as the ranking sees it: its position and its rating points (none counts
/// as 0); all plays share one achievement, so only the points decide.
pub open spec fn detail_row(points: Seq<Option<u32>>, i: int) -> RatedRow {
    (
        i as usize,
        Seq::empty(),
        match points[i] {
            Some(p) => p,
            None => 0u32,
        },
        0i64,
    )
}

/// The plays of the day as rows, in their given order.
pub open spec fn detail_rows(points: Seq<Option<u32>>) -> Seq<RatedRow> {
    Seq::new(points.len(), |i: int| detail_row(points, i))
}

/// The rows of some positions.
pub open spec fn detail_rows_at(points: Seq<Option<u32>>, idx: Seq<usize>) -> Seq<RatedRow> {
    idx.map_values(|i: usize| detail_row(points, i as int))
}

proof fn lemma_insert_ranked_at_pos(s: Seq<RatedRow>, x: RatedRow, p: int)
    requires
        0 <= p <= s.len(),
        forall|q: int| 0 <= q < p ==> !ranks_below(#[trigger] s[q], x),
        p < s.len() ==> ranks_below(s[p], x),
    ensures
        insert_ranked(s, x) == s.insert(p, x),
    decreases p,
{
    if p == 0 {
        if s.len() > 0 {
            assert(seq![x] + s =~= s.insert(0, x));
        }
    } else {
        let rest = s.drop_first();
        assert forall|q: int| 0 <= q < p - 1 implies !ranks_below(#[trigger] rest[q], x) by {
            assert(rest[q] == s[q + 1]);
        }
        lemma_insert_ranked_at_pos(rest, x, p - 1);
        assert(seq![s[0]] + rest.insert(p - 1, x) =~= s.insert(p, x));
    }
}

/// The order in which the day's plays are listed: by rating points, highest first (a play
/// without points counts as 0), plays with equal points in their given order.
pub fn today_detail_order(points: &[Option<u32>]) -> (r: Vec<usize>)
    ensures
        detail_rows_at(points@, r@) == ranked(detail_rows(points@)),
        forall|q: int| 0 <= q < r@.len() ==> (#[trigger] r@[q]) < points@.len(),
{
    let ghost all = detail_rows(points@);
    let mut out: Vec<usize> = Vec::new();
    let mut n: usize = 0;
    assert(all.take(0) =~= Seq::<RatedRow>::empty());
    assert(detail_rows_at(points@, out@) =~= Seq::<RatedRow>::empty());
    while n < points.len()
        invariant
            n <= points.len(),
            all == detail_rows(points@),
            forall|q: int| 0 <= q < out@.len() ==> (#[trigger] out@[q]) < points@.len(),
            detail_rows_at(points@, out@) == ranked(all.take(n as int)),
        decreases points.len() - n,
    {
        assert(all.take(n + 1).drop_last() =~= all.take(n as int));
        let xp: u32 = match points[n] {
            Some(p) => p,
            None => 0,
        };
        let ghost xr = detail_row(points@, n as int);
        assert(all.take(n + 1).last() == xr);
        let ghost cur = detail_rows_at(points@, out@);
        let mut p: usize = 0;
        loop
            invariant
                p <= out@.len(),
                n < points.len(),
                cur == detail_rows_at(points@, out@),
                xr == detail_row(points@, n as int),
                xr.2 == xp && xr.3 == 0,
                forall|q: int| 0 <= q < out@.len() ==> (#[trigger] out@[q]) < points@.len(),
                forall|q: int| 0 <= q < p ==> !ranks_below(#[trigger] cur[q], xr),
            ensures
                p <= out@.len(),
                p < out@.len() ==> ranks_below(cur[p as int], xr),
                forall|q: int| 0 <= q < p ==> !ranks_below(#[trigger] cur[q], xr),
            decreases out@.len() - p,
        {
            if p >= out.len() {
                break;
            }
            let y = out[p];
            let yp: u32 = match points[y] {
                Some(v) => v,
                None => 0,
            };
            assert(cur[p as int] == detail_row(points@, y as int));
            if yp < xp {
                break;
            }
            p += 1;
        }
        proof {
            lemma_insert_ranked_at_pos(cur, xr, p as int);
        }
        out.insert(p, n);
        assert(detail_rows_at(points@, out@) =~= cur.insert(p as int, xr));
        n += 1;
    }
    assert(all.take(points.len() as int) =~= all);
    out
}

} // verus!
