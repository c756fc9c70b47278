use maistats::bot::chart_links::{
    chart_type_query_token, linked_chart_label, linked_short_difficulty,
    normalize_youtube_search_title, youtube_search_url,
};
use maistats::bot::catalog::{
    find_song_metadata, search_song_metadata, CatalogSheet, CatalogSong,
    SongMetadataSearchRequest,
};
use maistats::bot::plot::{
    parse_jst_played_at, select_plot_points, LevelKey, LevelMap, PlotInputRecord, PlotSelection,
};
use maistats::bot::recent::{
    credit_start_time, format_level_with_internal, format_recent_chart_line, format_recent_footer,
    recent_record_description, RecentRecordView,
};
use maistats::bot::song_info::{
    build_song_info_text, card_sheet_order, plan_song_info, SongInfoPlan, SongInfoSheet,
};
use maistats::bot::client::{
    collector_request_step, CollectorAttempt, CollectorStep,
    cover_url, normalize_record_collector_path, normalize_record_collector_url, ApiError,
    RecordCollectorErrorResponse, RecordCollectorVersionIssue, version_status_from_response,
};
use maistats::bot::commands::{
    classify_song_detail_failure, registration_failure, score_field_value, RegistrationFailure, song_info_candidates_description,
    SongDetailFailure,
    build_region_unreleased_line, duplicate_song_candidates_description, is_ap_like,
    latest_credit_len, resolve_title_search, score_search, ScoreSearch, unique_song_keys, TitleSearchOutcome,
};
use maistats::bot::config::DiscordConfig;
use maistats::bot::emoji::{
    emoji_image_data_uri, format_fc, format_rank, format_sync, MaimaiStatusEmojis,
};
use maistats::bot::updown::{
    actionable_reaction, choose_candidate_at_level, no_charts_at_level_message, pick_description, session_intro_text,
    session_thread_name,
    chart_identity_key, choose_level_in_direction, format_level_tenths, format_rate_x10000,
    plan_reaction, reaction_delta, ReactionPlan, SessionState, UpdownSessionStore,
    MIN_LEVEL_TENTHS,
};
use maistats::models::game_domain::{ChartType, DifficultyCategory, FcStatus, ScoreRank, SyncStatus};
use maistats::models::api_models::SongDetailScoreApiResponse;
use maistats::models::song_catalog::{SongAliases, SongChartRegion};

#[test]
fn latest_credit_len_uses_first_track_one_boundary() {
    assert_eq!(latest_credit_len(&[Some(4), Some(3), Some(2), Some(1)]), 4);
    assert_eq!(latest_credit_len(&[Some(2), Some(1), Some(4)]), 2);
}

#[test]
fn latest_credit_len_falls_back_to_four_when_track_one_is_missing() {
    assert_eq!(latest_credit_len(&[Some(4), Some(3), Some(2), Some(5)]), 4);
    assert_eq!(latest_credit_len(&[Some(4), Some(3)]), 2);
}

#[test]
fn latest_credit_len_of_nothing_is_zero() {
    assert_eq!(latest_credit_len(&[]), 0);
    assert_eq!(latest_credit_len(&[None, None, None, None, None]), 4);
}

#[test]
fn formatter_falls_back_to_plain_text_without_matching_emoji() {
    let emojis = MaimaiStatusEmojis::default();

    assert_eq!(format_rank(&emojis, Some(ScoreRank::SssPlus), "-"), "SSS+");
    assert_eq!(format_fc(&emojis, Some(FcStatus::ApPlus), "-"), "AP+");
    assert_eq!(format_sync(&emojis, Some(SyncStatus::FdxPlus), "-"), "FDX+");
    assert_eq!(format_rank(&emojis, None, "N/A"), "N/A");
}

#[test]
fn formatter_uses_stored_mentions() {
    let mut emojis = MaimaiStatusEmojis::default();
    emojis.insert_mention("maimai_rank_sssp", "<:maimai_rank_sssp:1>".to_string());
    emojis.insert_mention("maimai_fc_app", "<:maimai_fc_app:2>".to_string());
    emojis.insert_mention("maimai_sync_fdxp", "<:maimai_sync_fdxp:3>".to_string());

    assert_eq!(
        format_rank(&emojis, Some(ScoreRank::SssPlus), "-"),
        "<:maimai_rank_sssp:1>"
    );
    assert_eq!(
        format_fc(&emojis, Some(FcStatus::ApPlus), "-"),
        "<:maimai_fc_app:2>"
    );
    assert_eq!(
        format_sync(&emojis, Some(SyncStatus::FdxPlus), "-"),
        "<:maimai_sync_fdxp:3>"
    );
}

#[test]
fn later_mention_replaces_earlier() {
    let mut emojis = MaimaiStatusEmojis::new();
    emojis.insert_mention("maimai_fc_ap", "<:a:1>".to_string());
    emojis.insert_mention("maimai_fc_ap", "<:a:2>".to_string());
    assert_eq!(emojis.fc(FcStatus::Ap).as_deref(), Some("<:a:2>"));
    assert_eq!(emojis.fc(FcStatus::Fc), None);
}

#[test]
fn youtube_search_url_removes_hyphen_from_title() {
    let url = youtube_search_url("Foo - Bar-Baz", ChartType::Std, DifficultyCategory::Master);

    assert!(
        url.contains("search_query=maimai%20Foo%20BarBaz%20ST%20MASTER"),
        "unexpected url: {url}"
    );
}

#[test]
fn chart_labels_link_to_the_search() {
    assert_eq!(normalize_youtube_search_title("  a -  b\tc  "), "a b c");
    assert_eq!(chart_type_query_token(ChartType::Dx), "DX");
    let url = youtube_search_url("X", ChartType::Dx, DifficultyCategory::Expert);
    assert_eq!(url, "https://youtube.com/results?search_query=maimai%20X%20DX%20EXPERT");
    assert_eq!(
        linked_chart_label("X", ChartType::Dx, DifficultyCategory::Expert, "12.5"),
        format!("[DX] [EXPERT]({url}) 12.5")
    );
    assert_eq!(
        linked_short_difficulty("X", ChartType::Dx, DifficultyCategory::Expert),
        format!("**[E]({url})**")
    );
}

#[test]
fn normalize_record_collector_url_rejects_invalid_input() {
    assert!(normalize_record_collector_url("").is_err());
    assert!(normalize_record_collector_url("ftp://example.com").is_err());
    assert!(normalize_record_collector_url("not a url").is_err());
}

#[test]
fn normalize_record_collector_url_keeps_origin_only() {
    let normalized = normalize_record_collector_url(
        " https://collector.example:3000/api/player?foo=bar#frag ",
    )
    .expect("url should normalize");

    assert_eq!(normalized, "https://collector.example:3000");
}

#[test]
fn normalize_record_collector_url_preserves_path_prefix() {
    let normalized = normalize_record_collector_url(
        " https://collector.example:3000/maistats?foo=bar#frag ",
    )
    .expect("url should normalize");

    assert_eq!(normalized, "https://collector.example:3000/maistats");
}

#[test]
fn normalize_record_collector_url_strips_player_endpoint_but_keeps_prefix() {
    let normalized = normalize_record_collector_url(
        " https://collector.example:3000/maistats/api/player?foo=bar#frag ",
    )
    .expect("url should normalize");

    assert_eq!(normalized, "https://collector.example:3000/maistats");
}

#[test]
fn normalize_record_collector_url_strips_version_endpoint_but_keeps_prefix() {
    let normalized = normalize_record_collector_url(
        " https://collector.example:3000/maistats/api/version?foo=bar#frag ",
    )
    .expect("url should normalize");

    assert_eq!(normalized, "https://collector.example:3000/maistats");
}

#[test]
fn normalize_record_collector_url_strips_health_endpoint_but_keeps_prefix() {
    let normalized = normalize_record_collector_url(
        " https://collector.example:3000/maistats/health/ready?foo=bar#frag ",
    )
    .expect("url should normalize");

    assert_eq!(normalized, "https://collector.example:3000/maistats");
}

#[test]
fn collector_paths_are_cut_to_their_base() {
    assert_eq!(normalize_record_collector_path("/"), "/");
    assert_eq!(normalize_record_collector_path(""), "/");
    assert_eq!(normalize_record_collector_path("/x///"), "/x");
    assert_eq!(normalize_record_collector_path("/api/version/"), "/");
    assert_eq!(normalize_record_collector_path("/a/health/ready"), "/a");
}

#[test]
fn version_status_follows_the_comparison() {
    let s = version_status_from_response("1.2.0", Some("1.1.0".to_string()));
    assert_eq!(s.issue(), Some(RecordCollectorVersionIssue::VersionMismatch));
    assert_eq!(s.collector_version(), Some("1.1.0"));
    let s = version_status_from_response("1.2.0", Some("1.2.9".to_string()));
    assert_eq!(s.issue(), None);
    let s = version_status_from_response("1.2.0", Some("latest".to_string()));
    assert_eq!(s.issue(), Some(RecordCollectorVersionIssue::InvalidResponse));
    let s = version_status_from_response("1.2.0", None);
    assert_eq!(s.issue(), Some(RecordCollectorVersionIssue::Unreachable));
    assert_eq!(s.collector_version(), None);
}

#[test]
fn api_errors_keep_code_and_message() {
    let e = ApiError::from_http_text(502, "  bad gateway \n");
    assert_eq!(e.code(), "HTTP_ERROR");
    assert_eq!(e.message(), "bad gateway");
    assert_eq!(e.status(), 502);
    let e = ApiError::from_record_collector(
        503,
        RecordCollectorErrorResponse {
            message: "down".to_string(),
            code: "MAINTENANCE".to_string(),
            maintenance: Some(true),
        },
    );
    assert_eq!(e.code(), "MAINTENANCE");
    assert_eq!(cover_url("http://h", "a b.png"), "http://h/cover/a%20b.png");
}

#[test]
fn title_search_resolves_unique_and_duplicate_songs() {
    let t = |a: &str, b: &str, c: &str| (a.to_string(), b.to_string(), c.to_string());
    let items = vec![t("Link", "maimai", "x"), t("Link", "maimai", "x")];
    assert!(matches!(resolve_title_search(&items), TitleSearchOutcome::Single(..)));
    assert!(matches!(resolve_title_search(&[]), TitleSearchOutcome::NoSong));
    let items = vec![t("Link", "niconico", "y"), t("Link", "maimai", "x")];
    let keys = unique_song_keys(&items);
    assert_eq!(keys[0].1, "maimai");
    match resolve_title_search(&items) {
        TitleSearchOutcome::Ambiguous(d) => assert_eq!(
            d,
            "검색어와 정확히 일치하는 곡이 여러 개 있습니다.\n후보:\n`Link` / `maimai` / `x`\n`Link` / `niconico` / `y`"
        ),
        _ => panic!("expected ambiguity"),
    }
    assert_eq!(
        duplicate_song_candidates_description(&[]),
        "검색어와 정확히 일치하는 곡이 여러 개 있습니다.\n후보:\n"
    );
}

#[test]
fn region_line_and_ap() {
    let jp = SongChartRegion { jp: true, intl: false };
    let both = SongChartRegion { jp: true, intl: true };
    assert_eq!(build_region_unreleased_line(&[jp]).as_deref(), Some("**INTL**: Unreleased"));
    assert_eq!(build_region_unreleased_line(&[jp, both]), None);
    assert!(is_ap_like(Some(FcStatus::ApPlus)));
    assert!(!is_ap_like(Some(FcStatus::FcPlus)));
    assert!(!is_ap_like(None));
}

#[test]
fn reaction_delta_matches_controls() {
    assert_eq!(reaction_delta("⬇️"), Some(-1));
    assert_eq!(reaction_delta("⏺️"), Some(0));
    assert_eq!(reaction_delta("⬆️"), Some(1));
    assert_eq!(reaction_delta("👍"), None);
}

#[test]
fn level_and_rate_texts() {
    assert_eq!(format_level_tenths(135), "13.5");
    assert_eq!(format_level_tenths(MIN_LEVEL_TENTHS), "1.0");
    assert_eq!(format_level_tenths(-5), "-0.5");
    assert_eq!(format_rate_x10000(1005000), "100.5000%");
    assert_eq!(format_rate_x10000(970123), "97.0123%");
    assert_eq!(format_rate_x10000(5), "0.0005%");
    assert_eq!(format_rate_x10000(-1), "-0.0001%");
    assert_eq!(
        chart_identity_key("t", "g", "a", ChartType::Std, DifficultyCategory::Master),
        "t\u{1f}g\u{1f}a\u{1f}STD\u{1f}MASTER"
    );
}

#[test]
fn up_and_down_skip_levels_without_charts() {
    let levels = [128i16, 131, 150];
    assert_eq!(choose_level_in_direction(&levels, 130, 1), Some(131));
    assert_eq!(choose_level_in_direction(&levels, 131, -1), Some(128));
    assert_eq!(choose_level_in_direction(&levels, 150, 1), None);
    assert_eq!(choose_level_in_direction(&levels, 12, -1), None);
    match plan_reaction(&levels, 129, 1) {
        ReactionPlan::Pick { level_tenths, note } => {
            assert_eq!(level_tenths, 131);
            assert_eq!(
                note.as_deref(),
                Some("No eligible chart at **13.0**. Jumped to **13.1** instead.")
            );
        }
        _ => panic!("expected a pick"),
    }
    match plan_reaction(&levels, 129, 0) {
        ReactionPlan::Notice(t) => assert_eq!(
            t,
            "No eligible charts found at **12.9** with the current filters. Keeping the current level."
        ),
        _ => panic!("expected a notice"),
    }
    match plan_reaction(&levels, 150, 1) {
        ReactionPlan::Notice(t) => assert_eq!(
            t,
            "No eligible chart found before leaving the 1.0-15.0 range. Keeping **15.0**."
        ),
        _ => panic!("expected a notice"),
    }
}

#[test]
fn session_claims_are_exclusive_and_released() {
    let mut store = UpdownSessionStore::new();
    let state = SessionState {
        pick_message_id: 10,
        in_flight_pick_message_id: None,
        thread_channel_id: 7,
        current_level_tenths: 130,
    };
    store.insert(1, state);
    assert!(store.claim_session_by_pick_message(1, 10).is_some());
    assert!(store.claim_session_by_pick_message(1, 10).is_none());
    assert_eq!(store.release_session_claim(1, 10), Some(state));
    assert!(store.claim_session_by_pick_message(1, 10).is_some());
    let moved = store.finish_session_progress(1, 10, 131, 11).unwrap();
    assert_eq!(moved.current_level_tenths, 131);
    assert_eq!(moved.pick_message_id, 11);
    assert_eq!(store.finish_session_progress(1, 11, 132, 12), None);
    assert_eq!(store.remove_session_by_thread_id(7).map(|s| s.pick_message_id), Some(11));
    assert_eq!(store.get(1), None);
}

#[test]
fn discord_config_defaults() {
    let c = DiscordConfig::from_env_values(Some("t".into()), Some("u".into()), None, None, None)
        .ok()
        .unwrap();
    assert_eq!(c.song_info_server_url, "http://localhost:3001");
    assert_eq!(c.data_dir, "data");
    assert_eq!(c.database_url, "sqlite:data/maistats-discord-bot.sqlite3");
    assert!(DiscordConfig::from_env_values(None, Some("u".into()), None, None, None).is_err());
}

fn sheet(chart_type: ChartType, diff_category: DifficultyCategory) -> CatalogSheet {
    CatalogSheet {
        chart_type,
        diff_category,
        level: "13".to_string(),
        version: None,
        internal_level: Some("13.2".to_string()),
        region: SongChartRegion { jp: true, intl: true },
    }
}

fn song(title: &str, artist: &str, sheets: Vec<CatalogSheet>) -> CatalogSong {
    CatalogSong {
        title: title.to_string(),
        genre: "maimai".to_string(),
        artist: artist.to_string(),
        image_name: None,
        aliases: SongAliases::default(),
        sheets,
    }
}

fn request(title: Option<&str>, chart_type: Option<&str>, limits: Option<usize>) -> SongMetadataSearchRequest {
    SongMetadataSearchRequest {
        title: title.map(|t| t.to_string()),
        genre: None,
        artist: None,
        chart_type: chart_type.map(|t| t.to_string()),
        diff_category: None,
        limits,
    }
}

#[test]
fn catalog_search_filters_and_limits_in_order() {
    let songs = vec![
        song("A", "x", vec![sheet(ChartType::Std, DifficultyCategory::Basic), sheet(ChartType::Dx, DifficultyCategory::Master)]),
        song("B", "y", vec![sheet(ChartType::Dx, DifficultyCategory::Expert)]),
        song("A", "z", vec![sheet(ChartType::Dx, DifficultyCategory::ReMaster)]),
    ];
    let all = search_song_metadata(&songs, &request(None, None, None));
    assert_eq!(all.total, 4);
    assert_eq!(all.hits, vec![(0, 0), (0, 1), (1, 0), (2, 0)]);
    let a_dx = search_song_metadata(&songs, &request(Some("A"), Some("DX"), None));
    assert_eq!(a_dx.total, 2);
    assert_eq!(a_dx.hits, vec![(0, 1), (2, 0)]);
    let limited = search_song_metadata(&songs, &request(None, None, Some(1)));
    assert_eq!(limited.total, 4);
    assert_eq!(limited.hits, vec![(0, 0)]);
    let none = search_song_metadata(&songs, &request(Some("a"), None, None));
    assert_eq!(none.total, 0);
    assert!(none.hits.is_empty());
}

#[test]
fn identity_lookup_finds_one_chart_or_reports_duplicates() {
    let songs = vec![
        song("A", "x", vec![sheet(ChartType::Dx, DifficultyCategory::Master)]),
        song("A", "x", vec![sheet(ChartType::Dx, DifficultyCategory::Master)]),
        song("B", "y", vec![sheet(ChartType::Std, DifficultyCategory::ReMaster)]),
    ];
    assert_eq!(
        find_song_metadata(&songs, "B", "maimai", "y", ChartType::Std, DifficultyCategory::ReMaster),
        Ok(Some((2, 0)))
    );
    assert_eq!(
        find_song_metadata(&songs, "B", "maimai", "y", ChartType::Dx, DifficultyCategory::ReMaster),
        Ok(None)
    );
    assert_eq!(
        find_song_metadata(&songs, "A", "maimai", "x", ChartType::Dx, DifficultyCategory::Master)
            .map_err(|e| e.matches),
        Err(2)
    );
}

#[test]
fn collector_requests_retry_twice_then_report() {
    assert_eq!(collector_request_step(0, CollectorAttempt::Succeeded), CollectorStep::Decode);
    assert_eq!(collector_request_step(0, CollectorAttempt::FailedStatus), CollectorStep::RetryAfterMs(100));
    assert_eq!(collector_request_step(1, CollectorAttempt::FailedConnection), CollectorStep::RetryAfterMs(200));
    assert_eq!(collector_request_step(2, CollectorAttempt::FailedStatus), CollectorStep::ReportStatus);
    assert_eq!(collector_request_step(2, CollectorAttempt::FailedConnection), CollectorStep::ReportConnection);
}

#[test]
fn song_detail_failures_are_classified() {
    assert_eq!(classify_song_detail_failure(Some("MAINTENANCE"), "x"), SongDetailFailure::Maintenance);
    assert_eq!(classify_song_detail_failure(Some("NOT_FOUND"), "maintenance"), SongDetailFailure::NotFound);
    assert_eq!(classify_song_detail_failure(None, "site under maintenance"), SongDetailFailure::Maintenance);
    assert_eq!(classify_song_detail_failure(Some("OTHER"), "boom"), SongDetailFailure::Other);
}

#[test]
fn score_field_shows_achievement_marks_and_details() {
    let mut score = SongDetailScoreApiResponse {
        title: "t".to_string(),
        chart_type: ChartType::Dx,
        diff_category: DifficultyCategory::Master,
        achievement_x10000: Some(1_005_000),
        rank: None,
        fc: None,
        sync: None,
        dx_score: None,
        dx_score_max: None,
        last_played_at: None,
        play_count: None,
    };
    assert_eq!(score_field_value(&score, "SSS+", "AP", "FDX"), "100.5000% • SSS+ • AP • FDX");
    score.play_count = Some(12);
    assert_eq!(score_field_value(&score, "a", "b", "c"), "100.5000% • a • b • c\nPlays: 12");
    score.last_played_at = Some("2024-01-02".to_string());
    score.achievement_x10000 = None;
    assert_eq!(
        score_field_value(&score, "a", "b", "c"),
        "0.0000% • a • b • c\nLast: 2024-01-02 • Plays: 12"
    );
}

fn info_sheet(
    chart_type: ChartType,
    diff_category: DifficultyCategory,
    level: &str,
    internal: Option<&str>,
    version: Option<&str>,
    image: Option<&str>,
) -> SongInfoSheet {
    SongInfoSheet {
        chart_type,
        diff_category,
        level: Some(level.to_string()),
        internal_level: internal.map(|v| v.to_string()),
        version: version.map(|v| v.to_string()),
        image_name: image.map(|v| v.to_string()),
        region: SongChartRegion { jp: true, intl: false },
    }
}

#[test]
fn song_info_card_lists_versions_and_levels_in_order() {
    let sheets = vec![
        info_sheet(ChartType::Std, DifficultyCategory::Master, "13", Some("13.2"), Some("FESTiVAL"), None),
        info_sheet(ChartType::Std, DifficultyCategory::Basic, "3", None, Some("other"), Some("a.png")),
        info_sheet(ChartType::Dx, DifficultyCategory::Expert, "11", None, None, Some("b.png")),
    ];
    let (text, image) = build_song_info_text("Song", "maimai", "x", &sheets);
    let m = youtube_search_url("Song", ChartType::Std, DifficultyCategory::Master);
    let b = youtube_search_url("Song", ChartType::Std, DifficultyCategory::Basic);
    let e = youtube_search_url("Song", ChartType::Dx, DifficultyCategory::Expert);
    let expected = format!(
        "**INTL**: Unreleased\n\nVersion (STD): FESTiVAL\n\nGenre: maimai\nArtist: x\n\nLevel (STD)\n**[B]({b})** 3 / **[M]({m})** 13 (13.2)\n\nLevel (DX)\n**[E]({e})** 11"
    );
    assert_eq!(text, expected);
    assert_eq!(image.as_deref(), Some("a.png"));
    let (text, image) = build_song_info_text("S", "g", "a", &[]);
    assert_eq!(text, "Genre: g\nArtist: a");
    assert_eq!(image, None);
}

#[test]
fn song_card_orders_charts_by_type_then_difficulty_stably() {
    let sheets = vec![
        info_sheet(ChartType::Dx, DifficultyCategory::Basic, "1", None, None, None),
        info_sheet(ChartType::Std, DifficultyCategory::Master, "2", None, None, None),
        info_sheet(ChartType::Std, DifficultyCategory::Basic, "3", None, None, None),
        info_sheet(ChartType::Std, DifficultyCategory::Master, "4", None, None, None),
    ];
    assert_eq!(card_sheet_order(&sheets), vec![2, 1, 3, 0]);
}

fn key(t: &str, g: &str, a: &str) -> (String, String, String) {
    (t.to_string(), g.to_string(), a.to_string())
}

#[test]
fn song_card_search_plans() {
    assert!(matches!(plan_song_info(&[]), SongInfoPlan::NoSong));
    match plan_song_info(&[key("A", "g", "x"), key("A", "g", "x"), key("A", "g", "w")]) {
        SongInfoPlan::Songs(k) => assert_eq!(k, vec![key("A", "g", "w"), key("A", "g", "x")]),
        _ => panic!("expected songs"),
    }
    match plan_song_info(&[key("C", "g", "x"), key("A", "g", "x"), key("B", "g", "x")]) {
        SongInfoPlan::TooMany(d) => assert_eq!(
            d,
            "정확히 일치하는 제목의 곡이 여러 개 있습니다.\n후보:\n`A` / `g` / `x`\n`B` / `g` / `x`\n`C` / `g` / `x`"
        ),
        _ => panic!("expected too many"),
    }
    assert_eq!(
        song_info_candidates_description(&[key("T", "G", "A")]),
        "정확히 일치하는 제목의 곡이 여러 개 있습니다.\n후보:\n`T` / `G` / `A`"
    );
}

fn recent(track: Option<i64>, played_at: Option<&str>) -> RecentRecordView {
    RecentRecordView {
        track,
        played_at: played_at.map(|v| v.to_string()),
        title: "Song".to_string(),
        chart_type: ChartType::Dx,
        diff_category: Some(DifficultyCategory::Master),
        image_name: None,
        level: Some("13+".to_string()),
        internal_level: Some("13.7".to_string()),
        rating_points: Some(301),
        achievement_x10000: Some(1_004_321),
        achievement_new_record: true,
        rank: Some(ScoreRank::SssPlus),
        fc: None,
        sync: Some(SyncStatus::Fs),
    }
}

#[test]
fn recent_cards_show_chart_marks_and_footer() {
    assert_eq!(format_level_with_internal("N/A", Some("1.0")), "N/A");
    assert_eq!(format_level_with_internal("12", Some("12.3")), "12 (12.3)");
    assert_eq!(format_level_with_internal("12", None), "12");
    let r = recent(Some(1), Some("2024-01-01 10:00"));
    let url = youtube_search_url("Song", ChartType::Dx, DifficultyCategory::Master);
    assert_eq!(format_recent_chart_line(&r), format!("[DX] [MASTER]({url}) 13+ (13.7)"));
    let mut unknown = r.clone();
    unknown.diff_category = None;
    unknown.level = None;
    assert_eq!(format_recent_chart_line(&unknown), "[DX] Unknown N/A");
    assert_eq!(format_recent_footer(&r), "Rating: 301 • Played: 2024-01-01 10:00");
    let mut bare = r.clone();
    bare.rating_points = None;
    bare.played_at = None;
    assert_eq!(format_recent_footer(&bare), "Rating: - • Played: -");
    let emojis = MaimaiStatusEmojis::new();
    assert_eq!(
        recent_record_description(&r, &emojis),
        format!("[DX] [MASTER]({url}) 13+ (13.7)\n100.4321% • SSS+ • - • FS\n**NEW RECORD**")
    );
}

#[test]
fn credit_start_prefers_the_first_track() {
    let records = vec![recent(Some(3), Some("c")), recent(Some(1), Some("a")), recent(Some(2), Some("b"))];
    assert_eq!(credit_start_time(&records).as_deref(), Some("a"));
    let records = vec![recent(Some(3), None), recent(Some(1), None), recent(Some(2), Some("b"))];
    assert_eq!(credit_start_time(&records).as_deref(), Some("b"));
    assert_eq!(credit_start_time(&[recent(None, None)]), None);
}

#[test]
fn emoji_images_are_png_data_uris() {
    assert_eq!(emoji_image_data_uri(&[0, 1, 2]), "data:image/png;base64,AAEC");
    assert_eq!(emoji_image_data_uri(b"ab"), "data:image/png;base64,YWI=");
    assert_eq!(emoji_image_data_uri(&[]), "data:image/png;base64,");
}

#[test]
fn random_candidates_come_from_the_pool() {
    assert_eq!(choose_candidate_at_level(0), None);
    for _ in 0..50 {
        let (n, i) = choose_candidate_at_level(3).unwrap();
        assert_eq!(n, 3);
        assert!(i < 3);
    }
    assert_eq!(choose_candidate_at_level(1), Some((1, 0)));
}

fn level_key(title: &str) -> LevelKey {
    LevelKey {
        title: title.to_string(),
        genre: "POPS".to_string(),
        artist: "Artist".to_string(),
        chart_type: ChartType::Dx,
        diff_category: DifficultyCategory::Master,
    }
}

fn plot_record(achievement: Option<i64>, previous: Option<i64>) -> PlotInputRecord {
    PlotInputRecord {
        achievement_x10000: achievement,
        title: "Song A".to_string(),
        genre: Some("POPS".to_string()),
        artist: Some("Artist".to_string()),
        chart_type: ChartType::Dx,
        diff_category: Some(DifficultyCategory::Master),
        played_at: None,
        is_new_record: true,
        previous_achievement_x10000: previous,
    }
}

fn plot_level_map() -> LevelMap {
    let mut m = LevelMap::new();
    m.insert(level_key("Song A"), 120);
    m.insert(level_key("Song B"), 140);
    m.insert(level_key("Song A"), 130);
    m
}

#[test]
fn level_map_keeps_the_last_level_of_a_chart() {
    let m = plot_level_map();
    assert_eq!(m.get("Song A", "POPS", "Artist", ChartType::Dx, DifficultyCategory::Master), Some(130));
    assert_eq!(m.get("Song B", "POPS", "Artist", ChartType::Dx, DifficultyCategory::Master), Some(140));
    assert_eq!(m.get("Song A", "POPS", "Artist", ChartType::Std, DifficultyCategory::Master), None);
}

#[test]
fn build_plot_points_omits_previous_record_below_plot_floor() {
    let points = select_plot_points(&[plot_record(Some(910_000), Some(899_999))], &plot_level_map(), None);
    assert_eq!(points.len(), 1);
    assert_eq!(points[0].previous_achievement_x10000, None);
}

#[test]
fn plot_keeps_only_complete_records_above_the_floor() {
    let mut no_genre = plot_record(Some(950_000), None);
    no_genre.genre = None;
    let records = vec![
        plot_record(Some(899_999), None),
        plot_record(Some(950_000), Some(940_000)),
        no_genre,
        plot_record(None, None),
        plot_record(Some(1_000_000), Some(1_000_000)),
    ];
    let points = select_plot_points(&records, &plot_level_map(), None);
    assert_eq!(
        points,
        vec![
            PlotSelection {
                record: 1,
                achievement_x10000: 950_000,
                level_tenths: 130,
                is_new_record: true,
                previous_achievement_x10000: Some(940_000),
            },
            PlotSelection {
                record: 4,
                achievement_x10000: 1_000_000,
                level_tenths: 130,
                is_new_record: true,
                previous_achievement_x10000: None,
            },
        ]
    );
    assert!(select_plot_points(&records, &plot_level_map(), Some((131, 150))).is_empty());
    assert_eq!(select_plot_points(&records, &plot_level_map(), Some((130, 130))).len(), 2);
}

#[test]
fn play_times_are_read_in_japan_time() {
    // 2024-01-02 09:30 in Japan is 2024-01-02 00:30 UTC.
    assert_eq!(parse_jst_played_at("2024/01/02 09:30"), Some(1_704_155_400));
    assert_eq!(parse_jst_played_at("2024-01-02T09:30"), Some(1_704_155_400));
    assert_eq!(parse_jst_played_at("2024/02/30 09:30"), None);
    assert_eq!(parse_jst_played_at("2024/01/02 24:00"), None);
    assert_eq!(parse_jst_played_at("2024/01/02 9:30"), None);
    assert_eq!(parse_jst_played_at("２024/01/02 09:30"), None);
}

#[test]
fn pick_cards_show_the_chart_and_the_players_score() {
    let emojis = MaimaiStatusEmojis::new();
    let url = youtube_search_url("Song", ChartType::Std, DifficultyCategory::Expert);
    assert_eq!(
        pick_description("Song", ChartType::Std, DifficultyCategory::Expert, "12", "12.4", None, &emojis),
        format!("**[STD] [EXPERT]({url}) 12 (12.4)**\nUnplayed • - • - • -\n")
    );
    let score = SongDetailScoreApiResponse {
        title: "Song".to_string(),
        chart_type: ChartType::Std,
        diff_category: DifficultyCategory::Expert,
        achievement_x10000: Some(995_000),
        rank: Some(ScoreRank::Ss),
        fc: Some(FcStatus::Fc),
        sync: None,
        dx_score: None,
        dx_score_max: None,
        last_played_at: Some("2024-05-01".to_string()),
        play_count: Some(3),
    };
    assert_eq!(
        pick_description("Song", ChartType::Std, DifficultyCategory::Expert, "12", "12.4", Some(&score), &emojis),
        format!("**[STD] [EXPERT]({url}) 12 (12.4)**\n99.5000% • SS • FC • -\nLast: 2024-05-01 • Plays: 3")
    );
}

#[test]
fn registration_failures_explain_themselves() {
    assert!(matches!(registration_failure(Some(("MAINTENANCE", "x"))), RegistrationFailure::Maintenance));
    match registration_failure(Some(("NOT_FOUND", "no player"))) {
        RegistrationFailure::Refused(m) => assert_eq!(m, "no player"),
        _ => panic!("expected refusal"),
    }
    match registration_failure(Some(("X", ""))) {
        RegistrationFailure::Refused(m) => assert_eq!(m, "Record collector validation failed."),
        _ => panic!("expected refusal"),
    }
    match registration_failure(None) {
        RegistrationFailure::Refused(m) => assert_eq!(m, "Record collector validation failed."),
        _ => panic!("expected refusal"),
    }
}

#[test]
fn game_texts_name_the_level() {
    assert_eq!(session_thread_name(125), "mai-updown 12.5");
    assert_eq!(
        no_charts_at_level_message(10),
        "No eligible charts found at internal level **1.0** with the current filters."
    );
    assert_eq!(
        session_intro_text(42, 130),
        "Started by <@42>\nStart level: **13.0**\nControls: ⬇️ `-0.1` • ⏺️ `±0.0` • ⬆️ `+0.1`"
    );
}

#[test]
fn only_players_arrows_move_the_game() {
    assert_eq!(actionable_reaction(Some(5), 1, false, "⬆️"), Some((5, 1)));
    assert_eq!(actionable_reaction(Some(5), 1, false, "⏺️"), Some((5, 0)));
    assert_eq!(actionable_reaction(Some(1), 1, false, "⬆️"), None);
    assert_eq!(actionable_reaction(Some(5), 1, true, "⬆️"), None);
    assert_eq!(actionable_reaction(None, 1, false, "⬆️"), None);
    assert_eq!(actionable_reaction(Some(5), 1, false, "👍"), None);
}

#[test]
fn score_search_asks_for_a_title_when_only_whitespace_is_given() {
    match score_search("   ") {
        ScoreSearch::AskForTitle(heading, text) => {
            assert_eq!(heading, "No records found");
            assert_eq!(text, "Please provide a title.");
        }
        ScoreSearch::Title(_) => panic!("expected the request for a title"),
    }
    match score_search("  Link [[maimai]] ") {
        ScoreSearch::Title(t) => assert_eq!(t, "Link [[maimai]]"),
        ScoreSearch::AskForTitle(..) => panic!("expected a title"),
    }
}

#[test]
fn removing_a_game_by_an_unknown_thread_keeps_the_store() {
    let mut store = UpdownSessionStore::new();
    let state = SessionState {
        pick_message_id: 20,
        in_flight_pick_message_id: None,
        thread_channel_id: 9,
        current_level_tenths: 125,
    };
    store.insert(2, state);
    assert_eq!(store.remove_session_by_thread_id(8), None);
    assert_eq!(store.get(2), Some(state));
    assert_eq!(store.remove_session_by_thread_id(9), Some(state));
    assert_eq!(store.remove_session_by_thread_id(9), None);
}

#[test]
fn play_times_in_japan_become_unix_instants() {
    assert_eq!(parse_jst_played_at("1970/01/01 09:00"), Some(0));
    assert_eq!(parse_jst_played_at("2000/03/01 00:00"), Some(951_836_400));
    assert_eq!(parse_jst_played_at("2000/02/29 23:59"), Some(951_836_340));
    assert_eq!(parse_jst_played_at("1900/02/29 00:00"), None);
    assert_eq!(parse_jst_played_at("0001/01/01 09:00"), Some(-62_135_596_800));
}
