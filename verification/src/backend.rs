//! The record server: its settings, errors, query defaults and the bookkeeping of recent plays.
use vstd::prelude::*;

use chrono::{Datelike, TimeZone};

use crate::models::config::AppConfig;
use crate::models::game_domain::ChartType;
use crate::models::parser_models::ParsedPlayRecord;
use crate::models::song_title::opt_view;
use crate::text::{chars_of, parse_int_spec, parse_i64, push_decimal};

verus! {

/// The settings of the record server.
#[derive(Debug, Clone)]
pub struct BackendConfig {
    pub sega_id: String,
    pub sega_password: String,
    pub port: u16,
    pub database_url: String,
    pub data_dir: String,
}

/// Why the settings could not be read.
#[derive(Debug, Clone, Copy)]
pub enum BackendConfigError {
    MissingEnvVar(&'static str),
    InvalidPort,
}

/// The port that a text names, as `u16::from_str` reads it.
pub open spec fn port_of(t: Seq<char>) -> Option<u16> {
    match parse_int_spec(t, 0, 65535) {
        Some(p) => Some(p as u16),
        None => None,
    }
}

fn parse_port(t: &str) -> (r: Option<u16>)
    ensures
        r == port_of(t@),
{
    match parse_i64(chars_of(t).as_slice()) {
        Some(x) => if 0 <= x && x <= 65535 {
            Some(x as u16)
        } else {
            None
        },
        None => None,
    }
}

impl BackendConfig {
    /// The settings from the values of `SEGA_ID`, `SEGA_PASSWORD`, `BACKEND_PORT` (default
    /// `3000`), `DATABASE_URL` and `DATA_DIR` (default `data`).
    pub fn from_env_values(
        sega_id: Option<String>,
        sega_password: Option<String>,
        port: Option<String>,
        database_url: Option<String>,
        data_dir: Option<String>,
    ) -> (r: Result<Self, BackendConfigError>)
        ensures
            sega_id is None ==> (r matches Err(BackendConfigError::MissingEnvVar(n)) && n@
                == "SEGA_ID"@),
            sega_id is Some && sega_password is None ==> (r matches Err(
                BackendConfigError::MissingEnvVar(n),
            ) && n@ == "SEGA_PASSWORD"@),
            sega_id is Some && sega_password is Some ==> (port_of(
                match port {
                    Some(p) => p@,
                    None => "3000"@,
                },
            ) is None <==> r matches Err(BackendConfigError::InvalidPort)),
            r matches Ok(c) ==> Some(c.sega_id@) == opt_view(sega_id) && Some(c.sega_password@)
                == opt_view(sega_password) && Some(c.port) == port_of(
                match port {
                    Some(p) => p@,
                    None => "3000"@,
                },
            ) && Some(c.database_url@) == opt_view(database_url) && c.data_dir@ == (match data_dir {
                Some(d) => d@,
                None => "data"@,
            }),
            sega_id is Some && sega_password is Some && port_of(
                match port {
                    Some(p) => p@,
                    None => "3000"@,
                },
            ) is Some ==> (r is Ok <==> database_url is Some),
    {
        let sega_id = match sega_id {
            Some(v) => v,
            None => {
                return Err(BackendConfigError::MissingEnvVar("SEGA_ID"));
            },
        };
        let sega_password = match sega_password {
            Some(v) => v,
            None => {
                return Err(BackendConfigError::MissingEnvVar("SEGA_PASSWORD"));
            },
        };
        let port_text = match port {
            Some(p) => p,
            None => String::from_str("3000"),
        };
        let port = match parse_port(port_text.as_str()) {
            Some(p) => p,
            None => {
                return Err(BackendConfigError::InvalidPort);
            },
        };
        let database_url = match database_url {
            Some(v) => v,
            None => {
                return Err(BackendConfigError::MissingEnvVar("DATABASE_URL"));
            },
        };
        let data_dir = match data_dir {
            Some(v) => v,
            None => String::from_str("data"),
        };
        Ok(BackendConfig { sega_id, sega_password, port, database_url, data_dir })
    }
}

/// The client settings that the server's tasks use: the server's account, with the default
/// data paths and no Discord settings.
pub fn backend_config_to_app_config(config: &BackendConfig) -> (r: AppConfig)
    ensures
        r.sega_id@ == config.sega_id@,
        r.sega_password@ == config.sega_password@,
        r.data_dir@ == "data"@,
        r.cookie_path@ == "data/cookies.json"@,
        r.discord_bot_token is None,
        r.discord_user_id is None,
{
    AppConfig {
        sega_id: config.sega_id.clone(),
        sega_password: config.sega_password.clone(),
        data_dir: String::from_str("data"),
        cookie_path: String::from_str("data/cookies.json"),
        discord_bot_token: None,
        discord_user_id: None,
    }
}

/// An error of the server's API.
#[derive(Debug, Clone)]
pub enum AppError {
    DatabaseError(String),
    HttpClientError(String),
    NotFound(String),
    InternalError(String),
    BadRequest(String),
}

impl AppError {
    /// The HTTP status and error code of the response: 500, 502, 404, 500 and 400.
    pub fn status_and_code(&self) -> (r: (u16, &'static str))
        ensures
            r.0 == (match self {
                AppError::DatabaseError(_) => 500u16,
                AppError::HttpClientError(_) => 502u16,
                AppError::NotFound(_) => 404u16,
                AppError::InternalError(_) => 500u16,
                AppError::BadRequest(_) => 400u16,
            }),
            r.1@ == (match self {
                AppError::DatabaseError(_) => "DATABASE_ERROR"@,
                AppError::HttpClientError(_) => "HTTP_CLIENT_ERROR"@,
                AppError::NotFound(_) => "NOT_FOUND"@,
                AppError::InternalError(_) => "INTERNAL_ERROR"@,
                AppError::BadRequest(_) => "BAD_REQUEST"@,
            }),
    {
        match self {
            AppError::DatabaseError(_) => (500, "DATABASE_ERROR"),
            AppError::HttpClientError(_) => (502, "HTTP_CLIENT_ERROR"),
            AppError::NotFound(_) => (404, "NOT_FOUND"),
            AppError::InternalError(_) => (500, "INTERNAL_ERROR"),
            AppError::BadRequest(_) => (400, "BAD_REQUEST"),
        }
    }

    /// The message of the error.
    pub fn message(&self) -> (r: &str)
        ensures
            r@ == (match self {
                AppError::DatabaseError(m) => m@,
                AppError::HttpClientError(m) => m@,
                AppError::NotFound(m) => m@,
                AppError::InternalError(m) => m@,
                AppError::BadRequest(m) => m@,
            }),
    {
        match self {
            AppError::DatabaseError(m) => m.as_str(),
            AppError::HttpClientError(m) => m.as_str(),
            AppError::NotFound(m) => m.as_str(),
            AppError::InternalError(m) => m.as_str(),
            AppError::BadRequest(m) => m.as_str(),
        }
    }
}

/// The answer of the health check.
#[derive(Debug, Clone)]
pub struct HealthResponse {
    pub status: String,
}

impl HealthResponse {
    pub fn ok() -> (r: Self)
        ensures
            r.status@ == "ok"@,
    {
        HealthResponse { status: String::from_str("ok") }
    }
}

/// The answer of the readiness check.
#[derive(Debug, Clone)]
pub struct ReadyResponse {
    pub status: String,
    pub database: String,
}

impl ReadyResponse {
    /// The answer and HTTP status of the readiness check, from whether the database answered.
    pub fn from_database_check(database_ok: bool) -> (r: (u16, Self))
        ensures
            database_ok ==> r.0 == 200 && r.1.status@ == "ready"@ && r.1.database@ == "ok"@,
            !database_ok ==> r.0 == 503 && r.1.status@ == "not_ready"@ && r.1.database@ == "error"@,
    {
        if database_ok {
            (200, ReadyResponse { status: String::from_str("ready"), database: String::from_str("ok") })
        } else {
            (
                503,
                ReadyResponse {
                    status: String::from_str("not_ready"),
                    database: String::from_str("error"),
                },
            )
        }
    }
}

/// The query of the recent-plays route.
#[derive(Debug, Clone, Copy)]
pub struct RecentQuery {
    pub limit: i64,
}

/// The number of recent plays when the query gives none.
pub fn default_limit() -> (r: i64)
    ensures
        r == 50,
{
    50
}

impl RecentQuery {
    /// The number of plays to return: the limit, kept between 1 and 500.
    pub fn effective_limit(&self) -> (r: i64)
        ensures
            r == (if self.limit < 1 {
                1
            } else if self.limit > 500 {
                500
            } else {
                self.limit
            }),
    {
        if self.limit < 1 {
            1
        } else if self.limit > 500 {
            500
        } else {
            self.limit
        }
    }
}

/// The query of the score search.
#[derive(Debug, Clone)]
pub struct SearchQuery {
    pub q: String,
}

impl SearchQuery {
    /// The SQL `LIKE` pattern of the search: the query between `%`.
    pub fn like_pattern(&self) -> (r: String)
        ensures
            r@ == "%"@ + self.q@ + "%"@,
    {
        let mut s = String::from_str("%");
        s.push_str(self.q.as_str());
        s.push_str("%");
        s
    }
}

pub fn format_chart_type(chart_type: ChartType) -> (r: &'static str)
    ensures
        r@ == chart_type.name(),
{
    match chart_type {
        ChartType::Std => "STD",
        ChartType::Dx => "DX",
    }
}

/// Why the address of a score list could not be made.
#[derive(Debug, Clone, Copy, PartialEq, Eq, Structural)]
pub enum ScoresUrlError {
    InvalidDifficulty,
}

/// The address of the score list of one difficulty (0 to 4) over all genres.
pub fn scores_url(diff: u8) -> (r: Result<String, ScoresUrlError>)
    ensures
        diff > 4 <==> r is Err,
        r matches Ok(u) ==> u@ == "https://maimaidx-eng.com/maimai-mobile/record/musicGenre/search/?genre=99&diff="@
            + crate::text::decimal(diff as nat),
{
    if diff > 4 {
        return Err(ScoresUrlError::InvalidDifficulty);
    }
    let mut s = String::from_str(
        "https://maimaidx-eng.com/maimai-mobile/record/musicGenre/search/?genre=99&diff=",
    );
    push_decimal(&mut s, diff as u64);
    Ok(s)
}

/// The index of the last play with track number 1 (the first play of the oldest complete
/// credit on the page).
pub open spec fn last_track_one(entries: Seq<ParsedPlayRecord>) -> Option<int>
    decreases entries.len(),
{
    if entries.len() == 0 {
        None
    } else if entries.last().track == Some(1u8) {
        Some(entries.len() - 1)
    } else {
        last_track_one(entries.drop_last())
    }
}

/// The number of plays with track number 1 among the first `i`.
pub open spec fn track_ones(entries: Seq<ParsedPlayRecord>, i: int) -> nat
    decreases i,
{
    if i <= 0 {
        0
    } else {
        track_ones(entries, i - 1) + if entries[i - 1].track == Some(1u8) {
            1nat
        } else {
            0nat
        }
    }
}

/// The play count of a play: the player's total, less one for each credit that started
/// before it on the page (newest first), never below zero.
pub open spec fn credit_count(total: u32, ones: nat) -> u32 {
    if ones >= total {
        0
    } else {
        (total - ones) as u32
    }
}

/// The recent plays (newest first) cut after the last complete credit, each with the play
/// count of its credit.
pub fn annotate_recent_entries_with_play_count(entries: Vec<ParsedPlayRecord>, total_play_count: u32) -> (r:
    Vec<ParsedPlayRecord>)
    ensures
        match last_track_one(entries@) {
            None => r@.len() == 0,
            Some(k) => r@.len() == k + 1 && forall|i: int|
                0 <= i <= k ==> #[trigger] r@[i] == (ParsedPlayRecord {
                    credit_play_count: Some(credit_count(total_play_count, track_ones(entries@, i))),
                    ..entries@[i]
                }),
        },
{
    let ghost all = entries@;
    let mut last: Option<usize> = None;
    let mut i: usize = 0;
    assert(all.take(0) =~= Seq::<ParsedPlayRecord>::empty());
    while i < entries.len()
        invariant
            i <= entries.len(),
            all == entries@,
            last == (match last_track_one(all.take(i as int)) {
                Some(k) => Some(k as usize),
                None => None::<usize>,
            }),
            last matches Some(k) ==> k < i,
            last_track_one(all.take(i as int)) matches Some(kk) ==> 0 <= kk < i,
        decreases entries.len() - i,
    {
        assert(all.take(i + 1).drop_last() =~= all.take(i as int));
        if entries[i].track == Some(1u8) {
            last = Some(i);
        }
        i += 1;
    }
    assert(all.take(entries.len() as int) =~= all);
    let k = match last {
        Some(k) => k,
        None => {
            return Vec::new();
        },
    };
    let mut out: Vec<ParsedPlayRecord> = Vec::new();
    let mut credit_idx: u32 = 0;
    let mut j: usize = 0;
    assert(all.len() <= usize::MAX);
    for entry in it: entries
        invariant
            it.seq() == all,
            k < all.len(),
            all.len() <= usize::MAX,
            last_track_one(all) == Some(k as int),
            j == (if it.index() <= k + 1 {
                it.index() as int
            } else {
                k + 1
            }),
            out@.len() == j,
            j <= k + 1,
            credit_idx as nat == (if track_ones(all, j as int) > u32::MAX {
                u32::MAX as nat
            } else {
                track_ones(all, j as int)
            }),
            forall|q: int|
                0 <= q < out@.len() ==> #[trigger] out@[q] == (ParsedPlayRecord {
                    credit_play_count: Some(credit_count(total_play_count, track_ones(all, q))),
                    ..all[q]
                }),
    {
        if j <= k {
            let is_one = entry.track == Some(1u8);
            let count = if credit_idx >= total_play_count {
                0
            } else {
                total_play_count - credit_idx
            };
            proof {
                assert(entry == all[j as int]);
            }
            out.push(ParsedPlayRecord { credit_play_count: Some(count), ..entry });
            if is_one && credit_idx < u32::MAX {
                credit_idx = credit_idx + 1;
            }
            j += 1;
        }
    }
    out
}

/// Whether the start-up sync rebuilds the stored scores and plays: the play count the site
/// shows differs from the stored one, or none is stored yet.
pub fn startup_should_sync(stored_total: Option<u32>, current_total: u32) -> (r: bool)
    ensures
        r == (stored_total != Some(current_total)),
{
    match stored_total {
        Some(v) => v != current_total,
        None => true,
    }
}

/// What a periodic poll does once it knows the stored and the current play counts.
#[derive(Debug, Clone, Copy, PartialEq, Eq, Structural)]
pub enum PollPlan {
    /// The play count is unchanged: nothing is fetched.
    Unchanged,
    /// Fetch and store the recent plays. `known_before` says whether a play count was stored
    /// before; only then are first plays looked for and the new plays reported.
    Sync { known_before: bool },
}

/// The plan of a periodic poll.
pub fn plan_poll(stored_total: Option<u32>, current_total: u32) -> (r: PollPlan)
    ensures
        stored_total == Some(current_total) ==> r == PollPlan::Unchanged,
        stored_total != Some(current_total) ==> r == (PollPlan::Sync {
            known_before: stored_total is Some,
        }),
{
    match stored_total {
        Some(v) => {
            if v == current_total {
                PollPlan::Unchanged
            } else {
                PollPlan::Sync { known_before: true }
            }
        },
        None => PollPlan::Sync { known_before: false },
    }
}

/// Whether a recent play needs a look at the stored scores to tell whether it was the first
/// play of its chart: it set a new achievement record on a chart of known difficulty.
pub open spec fn needs_first_play_check_spec(e: ParsedPlayRecord) -> bool {
    e.achievement_new_record && e.diff_category is Some
}

/// Whether a recent play needs a look at the stored scores (see above).
pub fn needs_first_play_check(entry: &ParsedPlayRecord) -> (r: bool)
    ensures
        r == needs_first_play_check_spec(*entry),
{
    entry.achievement_new_record && entry.diff_category.is_some()
}

/// A play after the first-play classification, given whether its chart had a stored score.
pub open spec fn first_play_marked(e: ParsedPlayRecord, has_stored_score: bool) -> ParsedPlayRecord {
    ParsedPlayRecord {
        first_play: e.first_play || (needs_first_play_check_spec(e) && !has_stored_score),
        ..e
    }
}

/// Marks as first plays the plays that needed a check and whose chart had no stored score
/// with an achievement; `has_stored_score[i]` is that answer for play `i` (ignored where no
/// check was needed).
pub fn annotate_first_play_flags(entries: &mut Vec<ParsedPlayRecord>, has_stored_score: &[bool])
    requires
        old(entries)@.len() == has_stored_score@.len(),
    ensures
        final(entries)@.len() == old(entries)@.len(),
        forall|i: int|
            0 <= i < old(entries)@.len() ==> #[trigger] final(entries)@[i] == first_play_marked(
                old(entries)@[i],
                has_stored_score@[i],
            ),
{
    let ghost all = old(entries)@;
    let mut taken: Vec<ParsedPlayRecord> = Vec::new();
    std::mem::swap(entries, &mut taken);
    let mut i: usize = 0;
    let n = taken.len();
    assert(taken@ == all);
    for entry in it: taken
        invariant
            it.seq() == all,
            all.len() == n,
            all.len() == has_stored_score@.len(),
            i == it.index(),
            entries@.len() == i,
            forall|q: int|
                0 <= q < i ==> #[trigger] entries@[q] == first_play_marked(all[q], has_stored_score@[q]),
    {
        let mark = needs_first_play_check(&entry) && !has_stored_score[i];
        let first_play = entry.first_play || mark;
        proof {
            assert(entry == all[i as int]);
        }
        entries.push(ParsedPlayRecord { first_play, ..entry });
        i += 1;
    }
}

/// The last second that `chrono` can represent, as a Unix timestamp (the end of the year
/// 262142).
pub const MAX_CHRONO_TIMESTAMP: i64 = 8_210_266_876_799;

/// The calendar date in Seoul of an instant given as a Unix timestamp (`None` out of
/// `chrono`'s range).
pub uninterp spec fn seoul_date(unix_secs: i64) -> Option<(i32, u32, u32)>;

/// The instant of a Seoul wall-clock time, when that time exists exactly once.
pub uninterp spec fn seoul_instant(year: i32, month: u32, day: u32, hour: u32, minute: u32, second: u32) -> Option<i64>;

/// Trusted: `chrono::DateTime::from_timestamp(unix_secs, 0)` then `with_timezone` to
/// `chrono_tz::Asia::Seoul` and its year, month and day. The result is named, not stated.
#[verifier::external_body]
fn seoul_date_of(unix_secs: i64) -> (r: Option<(i32, u32, u32)>)
    ensures
        r == seoul_date(unix_secs),
{
    match chrono::DateTime::from_timestamp(unix_secs, 0) {
        Some(t) => {
            let local = t.with_timezone(&chrono_tz::Asia::Seoul);
            Some((local.year(), local.month(), local.day()))
        },
        None => None,
    }
}

/// Trusted: `chrono_tz::Asia::Seoul.with_ymd_and_hms(..).single()` and the Unix timestamp of
/// the result. The instant is named; the one fact stated is that, being a `chrono` date-time,
/// it lies within `chrono`'s range.
#[verifier::external_body]
fn seoul_instant_of(year: i32, month: u32, day: u32, hour: u32, minute: u32, second: u32) -> (r: Option<
    i64,
>)
    ensures
        r == seoul_instant(year, month, day, hour, minute, second),
        r matches Some(t) ==> t <= MAX_CHRONO_TIMESTAMP,
{
    match chrono_tz::Asia::Seoul.with_ymd_and_hms(year, month, day, hour, minute, second).single() {
        Some(t) => Some(t.timestamp()),
        None => None,
    }
}

/// Why the next scheduled run could not be computed.
#[derive(Debug, Clone, Copy, PartialEq, Eq, Structural)]
pub enum ScheduleError {
    /// 07:30 of that day in Seoul is not a single instant.
    Unresolved,
    /// The instant lies outside the range of dates that can be represented.
    OutOfRange,
}

/// The next run after `now`, given today's run time: today's when it is still ahead, else the
/// same time a day later (`None` when that is past the last representable second).
pub fn next_run_after(now_unix_secs: i64, today_run: i64) -> (r: Option<i64>)
    requires
        today_run <= MAX_CHRONO_TIMESTAMP,
    ensures
        r == (if now_unix_secs < today_run {
            Some(today_run)
        } else if today_run + 86400 <= MAX_CHRONO_TIMESTAMP {
            Some((today_run + 86400) as i64)
        } else {
            None::<i64>
        }),
{
    if now_unix_secs < today_run {
        Some(today_run)
    } else if today_run <= MAX_CHRONO_TIMESTAMP - 86400 {
        Some(today_run + 86400)
    } else {
        None
    }
}

/// The next daily update time, 07:30 in Seoul, after the instant `now_unix_secs` (a Unix
/// timestamp): today's in Seoul when it is still ahead, else tomorrow's.
pub fn next_run_at_0730_kst(now_unix_secs: i64) -> (r: Result<i64, ScheduleError>)
    ensures
        match seoul_date(now_unix_secs) {
            None => r == Err::<i64, ScheduleError>(ScheduleError::OutOfRange),
            Some(d) => match seoul_instant(d.0, d.1, d.2, 7, 30, 0) {
                None => r == Err::<i64, ScheduleError>(ScheduleError::Unresolved),
                Some(t) => if now_unix_secs < t {
                    r == Ok::<i64, ScheduleError>(t)
                } else if t + 86400 <= MAX_CHRONO_TIMESTAMP {
                    r == Ok::<i64, ScheduleError>((t + 86400) as i64)
                } else {
                    r == Err::<i64, ScheduleError>(ScheduleError::OutOfRange)
                },
            },
        },
{
    let (year, month, day) = match seoul_date_of(now_unix_secs) {
        Some(d) => d,
        None => {
            return Err(ScheduleError::OutOfRange);
        },
    };
    let today_run = match seoul_instant_of(year, month, day, 7, 30, 0) {
        Some(t) => t,
        None => {
            return Err(ScheduleError::Unresolved);
        },
    };
    match next_run_after(now_unix_secs, today_run) {
        Some(t) => Ok(t),
        None => Err(ScheduleError::OutOfRange),
    }
}

} // verus!
