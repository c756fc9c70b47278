use chrono::TimeZone;
use chrono_tz::Asia::Seoul;
use maistats::backend::{
    next_run_after, next_run_at_0730_kst, ScheduleError, MAX_CHRONO_TIMESTAMP,
    annotate_first_play_flags, needs_first_play_check, plan_poll, startup_should_sync, PollPlan,
    annotate_recent_entries_with_play_count, backend_config_to_app_config, default_limit,
    format_chart_type, scores_url, AppError, BackendConfig, HealthResponse, ReadyResponse,
    RecentQuery, SearchQuery,
};
use maistats::discord::today::{
    today_detail_order, day_window, format_date_key, game_day_at, parse_day_key, today_summary, DayKeyError,
    TodaySummary,
};
use maistats::models::api_models::PlayRecordApiResponse;
use maistats::discord::rating::{select_rating_rows, RatedScoreInput};
use maistats::discord::{
    readiness_step, ReadinessOutcome, ReadinessStep,
    player_fetch_step, DiscordConfig, PlayerDataResult, PlayerFetchOutcome, PlayerFetchStep,
    RecordCollectorErrorResponse,
};
use maistats::models::game_domain::{ChartType, DifficultyCategory};
use maistats::models::parser_models::ParsedPlayRecord;

fn play(track: Option<u8>) -> ParsedPlayRecord {
    ParsedPlayRecord {
        played_at_unixtime: None,
        playlog_detail_idx: None,
        track,
        played_at: None,
        credit_id: None,
        title: "t".to_string(),
        genre: None,
        artist: None,
        chart_type: ChartType::Std,
        diff_category: None,
        level: None,
        achievement_x10000: None,
        achievement_new_record: false,
        score_rank: None,
        fc: None,
        sync: None,
        dx_score: None,
        dx_score_max: None,
        credit_play_count: None,
        first_play: false,
    }
}

#[test]
fn recent_plays_get_the_play_count_of_their_credit() {
    let entries = vec![
        play(Some(2)),
        play(Some(1)),
        play(Some(3)),
        play(Some(1)),
        play(Some(4)),
    ];
    let out = annotate_recent_entries_with_play_count(entries, 100);
    assert_eq!(out.len(), 4);
    let counts: Vec<Option<u32>> = out.iter().map(|e| e.credit_play_count).collect();
    assert_eq!(counts, vec![Some(100), Some(100), Some(99), Some(99)]);
    assert!(annotate_recent_entries_with_play_count(vec![play(Some(2))], 5).is_empty());
    let out = annotate_recent_entries_with_play_count(vec![play(Some(1)), play(Some(1))], 0);
    assert_eq!(out[1].credit_play_count, Some(0));
}

#[test]
fn backend_settings_and_responses() {
    let c = BackendConfig::from_env_values(
        Some("id".into()),
        Some("pw".into()),
        None,
        Some("sqlite:x".into()),
        None,
    )
    .ok()
    .unwrap();
    assert_eq!(c.port, 3000);
    assert_eq!(c.data_dir, "data");
    assert!(BackendConfig::from_env_values(
        Some("id".into()),
        Some("pw".into()),
        Some("70000".into()),
        Some("db".into()),
        None
    )
    .is_err());
    let app = backend_config_to_app_config(&c);
    assert_eq!(app.cookie_path, "data/cookies.json");
    assert_eq!(AppError::NotFound("x".into()).status_and_code(), (404, "NOT_FOUND"));
    assert_eq!(AppError::BadRequest("y".into()).message(), "y");
    assert_eq!(HealthResponse::ok().status, "ok");
    let (code, r) = ReadyResponse::from_database_check(false);
    assert_eq!(code, 503);
    assert_eq!(r.status, "not_ready");
    assert_eq!(default_limit(), 50);
    assert_eq!(RecentQuery { limit: 9999 }.effective_limit(), 500);
    assert_eq!(RecentQuery { limit: -3 }.effective_limit(), 1);
    assert_eq!(SearchQuery { q: "ab".into() }.like_pattern(), "%ab%");
    assert_eq!(format_chart_type(ChartType::Dx), "DX");
    assert_eq!(
        scores_url(3).ok().unwrap(),
        "https://maimaidx-eng.com/maimai-mobile/record/musicGenre/search/?genre=99&diff=3"
    );
    assert!(scores_url(5).is_err());
}

fn rated(ach: Option<i64>, bucket: Option<&str>, points: Option<u32>) -> RatedScoreInput {
    RatedScoreInput {
        achievement_x10000: ach,
        bucket: bucket.map(|b| b.to_string()),
        has_internal_level: true,
        rating_points: points,
    }
}

#[test]
fn rating_keeps_the_best_rows_of_each_bucket() {
    let mut scores = vec![
        rated(Some(1000000), Some("New"), Some(300)),
        rated(Some(1005000), Some("New"), Some(300)),
        rated(Some(990000), Some("Old"), Some(250)),
        rated(None, Some("Old"), Some(999)),
        rated(Some(990000), None, Some(100)),
        rated(Some(990000), Some("New"), Some(310)),
    ];
    for _ in 0..20 {
        scores.push(rated(Some(900000), Some("New"), Some(10)));
    }
    let sel = select_rating_rows(&scores);
    assert_eq!(sel.new_rows.len(), 15);
    assert_eq!(&sel.new_rows[..3], &[5, 1, 0]);
    assert_eq!(sel.new_rows[3], 6);
    assert_eq!(sel.old_rows, vec![2]);
    assert_eq!(sel.new_sum, 310 + 300 + 300 + 12 * 10);
    assert_eq!(sel.old_sum, 250);
    assert_eq!(sel.total, sel.new_sum + 250);
    assert_eq!(sel.missing_data, 1);
}

#[test]
fn player_fetch_retries_then_gives_up() {
    let err = |m: &str| RecordCollectorErrorResponse {
        message: m.to_string(),
        code: "E".to_string(),
        maintenance: None,
    };
    assert!(matches!(
        player_fetch_step(0, PlayerFetchOutcome::HttpStatus("500".into())),
        PlayerFetchStep::RetryAfterMs(100)
    ));
    assert!(matches!(
        player_fetch_step(1, PlayerFetchOutcome::ConnectionFailed("x".into())),
        PlayerFetchStep::RetryAfterMs(200)
    ));
    match player_fetch_step(2, PlayerFetchOutcome::ErrorBody("502 Bad Gateway".into(), err("oops"))) {
        PlayerFetchStep::Done(PlayerDataResult::Unavailable(m)) => {
            assert_eq!(m, "HTTP 502 Bad Gateway: oops")
        }
        _ => panic!("expected to give up"),
    }
    let mut maint = err("m");
    maint.maintenance = Some(true);
    assert!(matches!(
        player_fetch_step(0, PlayerFetchOutcome::ErrorBody("503".into(), maint)),
        PlayerFetchStep::Done(PlayerDataResult::Maintenance)
    ));
    let c = DiscordConfig::from_env_values(Some("t".into()), Some("u".into()), Some("b".into()));
    assert!(c.is_ok());
    assert!(DiscordConfig::from_env_values(Some("t".into()), None, Some("b".into())).is_err());
}

#[test]
fn sync_decisions_follow_the_stored_play_count() {
    assert!(startup_should_sync(None, 10));
    assert!(startup_should_sync(Some(9), 10));
    assert!(!startup_should_sync(Some(10), 10));
    assert_eq!(plan_poll(Some(10), 10), PollPlan::Unchanged);
    assert_eq!(plan_poll(Some(9), 10), PollPlan::Sync { known_before: true });
    assert_eq!(plan_poll(None, 10), PollPlan::Sync { known_before: false });
}

#[test]
fn first_plays_are_marked_only_without_a_stored_score() {
    let mut a = play(Some(1));
    a.achievement_new_record = true;
    a.diff_category = Some(DifficultyCategory::Master);
    let mut b = a.clone();
    b.title = "b".to_string();
    let mut c = a.clone();
    c.diff_category = None;
    let d = play(Some(2));
    assert!(needs_first_play_check(&a));
    assert!(!needs_first_play_check(&c));
    assert!(!needs_first_play_check(&d));
    let mut entries = vec![a, b, c, d];
    annotate_first_play_flags(&mut entries, &[false, true, false, false]);
    let flags: Vec<bool> = entries.iter().map(|e| e.first_play).collect();
    assert_eq!(flags, vec![true, false, false, false]);
    assert_eq!(entries[1].title, "b");
}

#[test]
fn readiness_checks_back_off_then_give_up() {
    assert!(matches!(readiness_step(0, ReadinessOutcome::Ready), ReadinessStep::Ready));
    assert!(matches!(
        readiness_step(0, ReadinessOutcome::NotReady("503".into())),
        ReadinessStep::RetryAfterMs(1000)
    ));
    assert!(matches!(
        readiness_step(4, ReadinessOutcome::ConnectionFailed("x".into())),
        ReadinessStep::RetryAfterMs(16000)
    ));
    match readiness_step(5, ReadinessOutcome::NotReady("503 Service Unavailable".into())) {
        ReadinessStep::GiveUp(m) => assert_eq!(
            m,
            "Record collector failed to become ready after 5 retries (HTTP 503 Service Unavailable)"
        ),
        _ => panic!("expected give up"),
    }
    match readiness_step(5, ReadinessOutcome::ConnectionFailed("refused".into())) {
        ReadinessStep::GiveUp(m) => {
            assert_eq!(m, "Record collector failed to become ready after 5 retries: refused")
        }
        _ => panic!("expected give up"),
    }
}

fn kst(y: i32, mo: u32, d: u32, h: u32, mi: u32, s: u32) -> i64 {
    Seoul.with_ymd_and_hms(y, mo, d, h, mi, s).unwrap().timestamp()
}

#[test]
fn scheduler_next_run_at_0730_kst() {
    let next_run = next_run_at_0730_kst(kst(2024, 1, 1, 6, 30, 0)).expect("next_run");
    assert_eq!(next_run, kst(2024, 1, 1, 7, 30, 0));

    let next_run = next_run_at_0730_kst(kst(2024, 1, 1, 7, 30, 0)).expect("next_run");
    assert_eq!(next_run, kst(2024, 1, 2, 7, 30, 0));

    let next_run = next_run_at_0730_kst(kst(2024, 1, 1, 8, 0, 0)).expect("next_run");
    assert_eq!(next_run, kst(2024, 1, 2, 7, 30, 0));

    let next_run = next_run_at_0730_kst(kst(2024, 1, 1, 23, 59, 59)).expect("next_run");
    assert_eq!(next_run, kst(2024, 1, 2, 7, 30, 0));
}

#[test]
fn scheduler_next_run_handles_dst_transitions() {
    let next_run = next_run_at_0730_kst(kst(2024, 6, 15, 8, 0, 0)).expect("next_run_at_0730_kst");
    assert_eq!(next_run, kst(2024, 6, 16, 7, 30, 0));
}

#[test]
fn scheduler_edges_of_the_date_range() {
    // 2024-01-01 07:30 KST is 2023-12-31 22:30 UTC.
    assert_eq!(next_run_at_0730_kst(1_704_061_800 - 1), Ok(1_704_061_800));
    assert_eq!(next_run_after(10, 20), Some(20));
    assert_eq!(next_run_after(20, 20), Some(20 + 86_400));
    assert_eq!(next_run_after(MAX_CHRONO_TIMESTAMP, MAX_CHRONO_TIMESTAMP - 10), None);
    assert_eq!(next_run_at_0730_kst(i64::MAX), Err(ScheduleError::OutOfRange));
    assert_eq!(chrono::DateTime::<chrono::Utc>::MAX_UTC.timestamp(), MAX_CHRONO_TIMESTAMP);
}

fn day_play(credit: Option<i32>, new_record: Option<i32>, first: Option<i32>) -> PlayRecordApiResponse {
    PlayRecordApiResponse {
        played_at_unixtime: 0,
        played_at: None,
        track: None,
        title: "t".to_string(),
        chart_type: ChartType::Dx,
        diff_category: None,
        achievement_x10000: None,
        score_rank: None,
        fc: None,
        sync: None,
        dx_score: None,
        dx_score_max: None,
        credit_play_count: credit,
        achievement_new_record: new_record,
        first_play: first,
    }
}

#[test]
fn day_summary_counts_credits_and_true_new_records() {
    let plays = vec![
        day_play(Some(10), Some(1), Some(1)),
        day_play(Some(10), Some(1), Some(0)),
        day_play(Some(11), Some(0), None),
        day_play(None, Some(1), None),
        day_play(Some(12), None, Some(1)),
    ];
    assert_eq!(
        today_summary(&plays),
        TodaySummary { tracks: 5, credits: 3, first_plays: 2, new_records: 1 }
    );
    assert_eq!(
        today_summary(&[day_play(Some(1), None, Some(1))]),
        TodaySummary { tracks: 1, credits: 1, first_plays: 1, new_records: 0 }
    );
    assert_eq!(today_summary(&[]), TodaySummary { tracks: 0, credits: 0, first_plays: 0, new_records: 0 });
}

fn jst(y: i32, mo: u8, d: u8, h: u8, mi: u8) -> i64 {
    let date = time::Date::from_calendar_date(y, time::Month::try_from(mo).unwrap(), d).unwrap();
    let t = time::Time::from_hms(h, mi, 0).unwrap();
    time::PrimitiveDateTime::new(date, t)
        .assume_offset(time::UtcOffset::from_hms(9, 0, 0).unwrap())
        .unix_timestamp()
}

#[test]
fn the_day_of_play_starts_at_four_in_japan() {
    assert_eq!(game_day_at(jst(2024, 1, 1, 3, 59)), Some((2023, 12, 31)));
    assert_eq!(game_day_at(jst(2024, 1, 1, 4, 0)), Some((2024, 1, 1)));
    assert_eq!(game_day_at(jst(2024, 3, 1, 0, 30)), Some((2024, 2, 29)));
    assert_eq!(game_day_at(i64::MAX), None);
    let w = day_window(2024, 2, 29).unwrap();
    assert_eq!(w.day_key, "2024-02-29");
    assert_eq!(w.start, "2024-02-29 04:00");
    assert_eq!(w.end, "2024-03-01 04:00");
    let w = day_window(2023, 12, 31).unwrap();
    assert_eq!(w.end, "2024-01-01 04:00");
    assert!(day_window(9999, 12, 31).is_none());
    assert!(day_window(2023, 2, 29).is_none());
    assert_eq!(format_date_key(7, 3, 9), "0007-03-09");
    assert_eq!(format_date_key(-5, 1, 1), "-005-01-01");
}

#[test]
fn day_keys_are_parsed_like_the_detail_command() {
    assert_eq!(parse_day_key(" 2024-02-29 "), Ok((2024, 2, 29)));
    assert_eq!(parse_day_key("2024/1/5"), Ok((2024, 1, 5)));
    assert_eq!(parse_day_key("2024-01"), Err(DayKeyError::Shape));
    assert_eq!(parse_day_key("x-01-01"), Err(DayKeyError::Year));
    assert_eq!(parse_day_key("2024-13-01"), Err(DayKeyError::Month));
    assert_eq!(parse_day_key("2024-1x-01"), Err(DayKeyError::Month));
    assert_eq!(parse_day_key("2024-01-300"), Err(DayKeyError::Day));
    assert_eq!(parse_day_key("2023-02-29"), Err(DayKeyError::Date));
    assert_eq!(parse_day_key("10000-01-01"), Err(DayKeyError::Date));
    assert_eq!(DayKeyError::Shape.message(), "date must be YYYY-MM-DD");
}

#[test]
fn today_detail_rows_are_ordered_by_rating_points_highest_first() {
    assert_eq!(
        today_detail_order(&[Some(5), None, Some(7), Some(5)]),
        vec![2, 0, 3, 1]
    );
    assert_eq!(today_detail_order(&[None, Some(0), None]), vec![0, 1, 2]);
    assert_eq!(today_detail_order(&[]), Vec::<usize>::new());
}

#[test]
fn rating_sums_may_use_large_points_while_they_fit() {
    let scores = vec![
        rated(Some(1000000), Some("New"), Some(3_000_000_000)),
        rated(Some(1000000), Some("Old"), Some(2_000_000_000)),
    ];
    let sel = select_rating_rows(&scores);
    assert_eq!(sel.new_rows, vec![0]);
    assert_eq!(sel.old_rows, vec![1]);
    assert_eq!(sel.new_sum, 3_000_000_000);
    assert_eq!(sel.old_sum, 2_000_000_000);
    assert_eq!(sel.total, u32::MAX);
}

#[test]
fn day_windows_roll_over_months_and_years() {
    let w = day_window(2023, 4, 30).unwrap();
    assert_eq!(w.end, "2023-05-01 04:00");
    let w = day_window(2100, 2, 28).unwrap();
    assert_eq!(w.end, "2100-03-01 04:00");
    assert!(day_window(2024, 13, 1).is_none());
    assert!(day_window(2024, 4, 31).is_none());
}
