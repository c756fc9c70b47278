use maistats::models::game_domain::{ChartType, DifficultyCategory, SongGenre};
use maistats::models::song_catalog::{SongDataRoot, SongDataSheet, SongDataSong};
use maistats::songdb::aliases::{merge_alias_maps, parse_alias_tsv};
use maistats::songdb::catalog::{build_data_root, SongDatabase};
use maistats::songdb::internal_levels::{
    col_idx_to_a1, latest_source_version, map_row_keys, merge_internal_level_rows,
    sheet_values_url, song_id_from_internal_level_title, InternalLevelRow, TitleMappings,
};
use maistats::songdb::sheet_versions::{
    parse_rows, record_version_rows, ResolveErrorKind, SheetVersionError, SongIdentity,
    SongVersionResolver, VersionSheet,
};
use maistats::parsers::ParseError;
use maistats::songdb::user_tiers::{
    is_tier_grade, parse_image_formula, quote_sheet_title, resolve_key, BorderHint,
};
use maistats::songdb::{
    derive_song_id, ensure_unique_song_ids, extract_comment, extract_sheets, extract_song,
    filter_out_utage_entries, normalize_level, parse_release_date, sha256_hex,
    version_from_version_id, RawSong, SongDbConfig,
};

fn raw_song_stub() -> RawSong {
    RawSong {
        catcode: "maimai".to_string(),
        title: "Stub".to_string(),
        artist: Some("artist".to_string()),
        image_url: "dummy.png".to_string(),
        version: "24001".to_string(),
        release: Some("240101".to_string()),
        comment: None,
        utage_comment: None,
        buddy: None,
        date: None,
        key: None,
        dx_lev_bas: None,
        dx_lev_adv: None,
        dx_lev_exp: None,
        dx_lev_mas: None,
        dx_lev_remas: None,
        lev_bas: None,
        lev_adv: None,
        lev_exp: None,
        lev_mas: None,
        lev_remas: None,
        lev_utage: None,
        kanji: None,
        utage_type: None,
    }
}

#[test]
fn derives_song_id_with_special_cases() {
    let mut raw_song = raw_song_stub();
    raw_song.catcode = "宴会場".to_string();
    raw_song.title = "[協]青春コンプレックス".to_string();
    raw_song.comment = Some("バンドメンバーを集めて楽しもう！（入門編）".to_string());
    assert_eq!(derive_song_id(&raw_song), "[協]青春コンプレックス（入門編）");

    raw_song.comment = Some("バンドメンバーを集めて挑め！（ヒーロー級）".to_string());
    assert_eq!(derive_song_id(&raw_song), "[協]青春コンプレックス（ヒーロー級）");

    raw_song.catcode = "niconico＆ボーカロイド".to_string();
    raw_song.title = "Link".to_string();
    raw_song.comment = None;
    assert_eq!(derive_song_id(&raw_song), "Link (2)");

    raw_song.catcode = "maimai".to_string();
    assert_eq!(derive_song_id(&raw_song), "Link");

    raw_song.title = "Bad Apple!! feat nomico".to_string();
    assert_eq!(derive_song_id(&raw_song), "Bad Apple!! feat.nomico");
}

#[test]
fn maps_version_prefix_to_version_name() {
    let version_id = "24001"
        .get(0..3)
        .and_then(|prefix| prefix.parse::<i32>().ok());
    let version = version_id.and_then(version_from_version_id);
    assert_eq!(version, Some("BUDDiES"));

    let version_id = "25599"
        .get(0..3)
        .and_then(|prefix| prefix.parse::<i32>().ok());
    let version = version_id.and_then(version_from_version_id);
    assert_eq!(version, Some("PRiSM PLUS"));
}

#[test]
fn parses_release_date_formats() {
    assert_eq!(parse_release_date(None), None);
    assert_eq!(parse_release_date(Some("")), None);
    assert_eq!(parse_release_date(Some("0")), None);
    assert_eq!(parse_release_date(Some("12345")), None);
    assert_eq!(parse_release_date(Some("240101")), Some("2024-01-01".to_string()));
    assert_eq!(parse_release_date(Some("231225")), Some("2023-12-25".to_string()));
}

#[test]
fn release_date_zero_in_any_spelling_gives_nothing() {
    assert_eq!(parse_release_date(Some("000000")), None);
    assert_eq!(parse_release_date(Some(" +0 ")), None);
    assert_eq!(parse_release_date(Some(" 2401019 ")), Some("2024-01-01".to_string()));
}

#[test]
fn normalize_level_handles_empty_and_whitespace() {
    assert_eq!(normalize_level(None), None);
    assert_eq!(normalize_level(Some("")), None);
    assert_eq!(normalize_level(Some("  ")), None);
    assert_eq!(normalize_level(Some("13+")), Some("13+".to_string()));
    assert_eq!(normalize_level(Some(" 14  ")), Some("14".to_string()));
}

#[test]
fn skips_utage_sheets() {
    let mut raw_song = raw_song_stub();
    raw_song.lev_utage = Some("14".to_string());
    raw_song.kanji = Some("協奏曲".to_string());
    let sheets = extract_sheets(&raw_song);
    assert!(sheets.is_empty());
}

#[test]
fn extract_sheets_lists_dx_before_std_and_skips_blank_levels() {
    let mut raw_song = raw_song_stub();
    raw_song.lev_mas = Some(" 13+ ".to_string());
    raw_song.dx_lev_bas = Some("3".to_string());
    raw_song.dx_lev_adv = Some("  ".to_string());
    let sheets = extract_sheets(&raw_song);
    assert_eq!(sheets.len(), 2);
    assert_eq!(sheets[0].sheet_type, ChartType::Dx);
    assert_eq!(sheets[0].difficulty, DifficultyCategory::Basic);
    assert_eq!(sheets[0].level, "3");
    assert_eq!(sheets[1].sheet_type, ChartType::Std);
    assert_eq!(sheets[1].difficulty, DifficultyCategory::Master);
    assert_eq!(sheets[1].level, "13+");
    assert_eq!(sheets[1].song_id, "Stub");
}

#[test]
fn filters_out_utage_entries() {
    let normal_song = raw_song_stub();
    let mut utage_song = raw_song_stub();
    utage_song.title = "Utage Song".to_string();
    utage_song.lev_utage = Some("14".to_string());

    let (filtered, dropped_count) = filter_out_utage_entries(vec![normal_song, utage_song]);
    assert_eq!(dropped_count, 1);
    assert_eq!(filtered.len(), 1);
    assert_eq!(filtered[0].title, "Stub");
}

#[test]
fn sha256_hex_produces_consistent_hash() {
    let input = "https://example.com/image.png";
    let hash1 = sha256_hex(input);
    let hash2 = sha256_hex(input);
    assert_eq!(hash1, hash2);
    assert_eq!(hash1.len(), 64);
}

#[test]
fn sha256_hex_of_empty_text_is_the_known_digest() {
    assert_eq!(
        sha256_hex(""),
        "e3b0c44298fc1c149afbf4c8996fb92427ae41e4649b934ca495991b7852b855"
    );
}

#[test]
fn extract_song_builds_cover_version_and_flags() {
    let mut raw_song = raw_song_stub();
    raw_song.image_url = "//abc.png".to_string();
    raw_song.artist = Some("  ".to_string());
    raw_song.date = Some("NEW".to_string());
    raw_song.buddy = Some("1".to_string());
    raw_song.comment = Some("c".to_string());
    let row = extract_song(&raw_song);
    assert_eq!(row.image_url, "https://maimaidx.jp/maimai-mobile/img/Music/abc.png");
    assert_eq!(row.image_name, format!("{}.png", sha256_hex(&row.image_url)));
    assert_eq!(row.version.as_deref(), Some("BUDDiES"));
    assert_eq!(row.sort_order, Some(24001));
    assert_eq!(row.release_date.as_deref(), Some("2024-01-01"));
    assert_eq!(row.artist, None);
    assert!(row.is_new);
    assert!(!row.is_locked);
    assert_eq!(row.comment.as_deref(), Some("【🤝バディ】c"));
    assert_eq!(row.category.as_deref(), Some("maimai"));
    assert_eq!(extract_comment(&raw_song).as_deref(), Some("【🤝バディ】c"));
}

#[test]
fn unknown_version_prefix_gives_no_version() {
    let mut raw_song = raw_song_stub();
    raw_song.version = "ab".to_string();
    let row = extract_song(&raw_song);
    assert_eq!(row.version, None);
    assert_eq!(row.sort_order, None);
    assert_eq!(version_from_version_id(0), None);
}

#[test]
fn duplicate_song_ids_are_refused() {
    let a = raw_song_stub();
    let b = raw_song_stub();
    let mut c = raw_song_stub();
    c.title = "Other".to_string();
    assert!(ensure_unique_song_ids(&[a.clone(), c.clone()]).is_ok());
    match ensure_unique_song_ids(&[a, c, b]) {
        Err(maistats::songdb::SongDbError::DuplicateSongIds(ids)) => {
            assert_eq!(ids, vec!["Stub".to_string()])
        }
        _ => panic!("expected duplicate ids"),
    }
}

#[test]
fn config_reports_the_first_missing_variable() {
    let s = |v: &str| Some(v.to_string());
    let ok = SongDbConfig::from_env_values(None, s("id"), s("pw"), None, s("jp"), s("jpw"), s("ua"), s("key"));
    let ok = ok.ok().expect("config");
    assert_eq!(ok.intl_sega_id, "id");
    assert_eq!(ok.intl_sega_password, "pw");
    match SongDbConfig::from_env_values(s("id"), None, s("pw"), None, s("jp"), None, s("ua"), s("key")) {
        Err(maistats::songdb::SongDbConfigError::MissingEnvVar(n)) => {
            assert_eq!(n, "MAIMAI_JP_SEGA_PASSWORD")
        }
        _ => panic!("expected a missing variable"),
    }
}

#[test]
fn col_idx_to_a1_works() {
    assert_eq!(col_idx_to_a1(0), "A");
    assert_eq!(col_idx_to_a1(25), "Z");
    assert_eq!(col_idx_to_a1(26), "AA");
    assert_eq!(col_idx_to_a1(27), "AB");
    assert_eq!(col_idx_to_a1(51), "AZ");
    assert_eq!(col_idx_to_a1(52), "BA");
}

#[test]
fn sheet_values_url_encodes_the_range() {
    assert_eq!(
        sheet_values_url("abc", "v 13", 3),
        "https://sheets.googleapis.com/v4/spreadsheets/abc/values/v%2013%21A%3AD"
    );
}

fn mappings() -> TitleMappings {
    TitleMappings {
        rename: vec![("Old Name".to_string(), "New Name".to_string())],
        skip: vec!["Skipped".to_string()],
    }
}

#[test]
fn internal_level_titles_are_renamed_or_skipped() {
    let m = mappings();
    assert_eq!(song_id_from_internal_level_title("Link", &m), None);
    assert_eq!(song_id_from_internal_level_title("Skipped", &m), None);
    assert_eq!(song_id_from_internal_level_title("Old Name", &m).as_deref(), Some("New Name"));
    assert_eq!(song_id_from_internal_level_title("Some Song", &m).as_deref(), Some("Some Song"));
    let keys = map_row_keys(Some(" Some Song "), Some(" STD"), Some("MAS "), &m);
    let (id, ct, d) = keys.expect("row keys");
    assert_eq!(id, "Some Song");
    assert_eq!(ct, ChartType::Std);
    assert_eq!(d, DifficultyCategory::Master);
    assert!(map_row_keys(Some("Some Song"), Some("std"), Some("MAS"), &m).is_none());
    assert!(map_row_keys(Some("  "), Some("DX"), Some("EXP"), &m).is_none());
    assert!(map_row_keys(Some("Song"), Some("DX"), None, &m).is_none());
}

fn level_row(id: &str, level: &str, version: i64) -> InternalLevelRow {
    InternalLevelRow {
        song_id: id.to_string(),
        sheet_type: ChartType::Dx,
        difficulty: DifficultyCategory::Master,
        internal_level: level.to_string(),
        source_version: version,
    }
}

#[test]
fn newest_internal_level_wins() {
    let merged = merge_internal_level_rows(vec![
        level_row("A", "13.0", 20),
        level_row("B", "12.5", 20),
        level_row("A", "13.2", 22),
        level_row("A", "13.1", 21),
    ]);
    assert_eq!(merged.len(), 2);
    assert_eq!(merged[0].song_id, "A");
    assert_eq!(merged[0].internal_level, "13.2");
    assert_eq!(merged[1].song_id, "B");
    assert_eq!(latest_source_version(&[20, 25, 22]), 25);
    assert_eq!(latest_source_version(&[]), 0);
    assert_eq!(latest_source_version(&[-3]), -3);
}

#[test]
fn parse_image_formula_extracts_url() {
    let formula = r#"=IMAGE("https://example.com/a.png",1)"#;
    assert_eq!(
        parse_image_formula(formula),
        Some("https://example.com/a.png".to_string())
    );
    assert_eq!(parse_image_formula("=SUM(A1:A3)"), None);
}

#[test]
fn image_formula_needs_an_http_address_and_exact_prefix() {
    assert_eq!(parse_image_formula(r#"=image("https://example.com/a.png")"#), None);
    assert_eq!(parse_image_formula(r#"=IMAGE("ftp://example.com/a.png")"#), None);
    assert_eq!(
        parse_image_formula(r#"  =IMAGE( "http://x/y.png" )  "#),
        Some("http://x/y.png".to_string())
    );
}

#[test]
fn tier_grades_and_sheet_titles() {
    assert!(is_tier_grade("A+"));
    assert!(is_tier_grade("F"));
    assert!(!is_tier_grade("A++"));
    assert!(!is_tier_grade(" S"));
    assert_eq!(quote_sheet_title("v13_0-x"), "v13_0-x");
    assert_eq!(quote_sheet_title("13.0 tier's"), "'13.0 tier''s'");
}

#[test]
fn resolve_key_prefers_hint_and_master() {
    let root = SongDataRoot {
        songs: vec![SongDataSong {
            title: "Song A".to_string(),
            version: None,
            image_name: Some("a.png".to_string()),
            sheets: vec![
                SongDataSheet {
                    sheet_type: "std".to_string(),
                    difficulty: "expert".to_string(),
                    level: "13".to_string(),
                    internal_level: Some("13.0".to_string()),
                    user_level: None,
                },
                SongDataSheet {
                    sheet_type: "std".to_string(),
                    difficulty: "master".to_string(),
                    level: "13+".to_string(),
                    internal_level: Some("13.0".to_string()),
                    user_level: None,
                },
            ],
        }],
    };

    let key_default = resolve_key(&root, "Song A", BorderHint::NoBorder, "13.0").unwrap();
    assert_eq!(key_default.difficulty, "MASTER");

    let key_expert = resolve_key(&root, "Song A", BorderHint::Expert, "13.0").unwrap();
    assert_eq!(key_expert.difficulty, "EXPERT");
    assert_eq!(key_expert.chart_type, "STD");
    assert!(resolve_key(&root, "Song A", BorderHint::Dx, "13.0").is_none());
    assert!(resolve_key(&root, "Song B", BorderHint::NoBorder, "13.0").is_none());
}

fn aliases_of(parsed: &[(String, Vec<String>)], title: &str) -> Option<Vec<String>> {
    parsed
        .iter()
        .find(|(t, _)| t == title)
        .map(|(_, a)| a.clone())
}

#[test]
fn parse_alias_tsv_collects_alias_columns() {
    let parsed = parse_alias_tsv("Song A\tAlias 1\tAlias 2\nSong B\n")
        .ok()
        .expect("parse aliases");

    assert_eq!(
        aliases_of(&parsed, "Song A"),
        Some(vec!["Alias 1".to_string(), "Alias 2".to_string()])
    );
    assert_eq!(aliases_of(&parsed, "Song B"), Some(Vec::new()));
}

#[test]
fn parse_alias_tsv_deduplicates_repeated_aliases() {
    let parsed = parse_alias_tsv("Song A\tSong A\tAlias 1\nSong A\tAlias 1\tAlias 2\n")
        .ok()
        .expect("parse aliases");

    assert_eq!(
        aliases_of(&parsed, "Song A"),
        Some(vec!["Alias 1".to_string(), "Alias 2".to_string()])
    );
}

#[test]
fn alias_maps_merge_by_title() {
    let en = vec![("A".to_string(), vec!["a1".to_string()])];
    let ko = vec![
        ("B".to_string(), vec!["b2".to_string()]),
        ("A".to_string(), vec!["a2".to_string()]),
    ];
    let merged = merge_alias_maps(en, ko);
    assert_eq!(merged.len(), 2);
    let a = merged.iter().find(|(t, _)| t == "A").unwrap();
    assert_eq!(a.1.en, vec!["a1".to_string()]);
    assert_eq!(a.1.ko, vec!["a2".to_string()]);
    let b = merged.iter().find(|(t, _)| t == "B").unwrap();
    assert!(b.1.en.is_empty());
}

fn sheet(id: &SongIdentity, chart_type: ChartType, official: bool) -> VersionSheet {
    VersionSheet {
        song_identity: id.clone(),
        sheet_type: chart_type,
        is_official: official,
    }
}

#[test]
fn resolves_unique_title_without_override() {
    let song = SongIdentity::new("Technicians High", SongGenre::Maimai, "");
    let resolver = SongVersionResolver::new(
        std::slice::from_ref(&song),
        &[sheet(&song, ChartType::Std, true)],
        &[],
    );
    let resolved = resolver
        .resolve_song_identity("Technicians High", "ORANGE", ChartType::Std)
        .ok()
        .expect("resolve")
        .expect("song");
    assert_eq!(resolved.title, song.title);
    assert_eq!(resolved.genre, song.genre);
}

#[test]
fn resolves_duplicate_title_with_chart_type_before_override() {
    let std_song = SongIdentity::new("Link", SongGenre::Maimai, "");
    let dx_song = SongIdentity::new("Link", SongGenre::NiconicoVocaloid, "");
    let resolver = SongVersionResolver::new(
        &[std_song.clone(), dx_song.clone()],
        &[
            sheet(&std_song, ChartType::Std, true),
            sheet(&dx_song, ChartType::Dx, true),
        ],
        &[],
    );
    let resolved = resolver
        .resolve_song_identity("Link", "ORANGE", ChartType::Dx)
        .ok()
        .expect("resolve")
        .expect("song");
    assert_eq!(resolved.genre, SongGenre::NiconicoVocaloid);
}

#[test]
fn duplicate_title_requires_override_when_still_ambiguous() {
    let songs = vec![
        SongIdentity::new("Link", SongGenre::Maimai, ""),
        SongIdentity::new("Link", SongGenre::NiconicoVocaloid, ""),
    ];
    let sheets = songs
        .iter()
        .map(|song| sheet(song, ChartType::Std, true))
        .collect::<Vec<_>>();
    let resolver = SongVersionResolver::new(&songs, &sheets, &[]);
    let err = match resolver.resolve_song_identity("Link", "BUDDiES", ChartType::Std) {
        Err(e) => e,
        Ok(_) => panic!("expected ambiguity"),
    };
    assert_eq!(err.kind, ResolveErrorKind::AmbiguousWithoutOverride);
}

#[test]
fn skips_intl_only_titles_without_failing() {
    let intl_only_song = SongIdentity::new(
        "全世界共通リズム感テスト",
        SongGenre::Maimai,
        "☆リズムに合わせてボタンを叩き達成率を競うゲームです☆",
    );
    let resolver = SongVersionResolver::new(
        std::slice::from_ref(&intl_only_song),
        &[sheet(&intl_only_song, ChartType::Std, false)],
        &[],
    );
    assert!(resolver
        .resolve_song_identity("全世界共通リズム感テスト", "Splash", ChartType::Std)
        .ok()
        .expect("resolve")
        .is_none());
    assert!(matches!(
        resolver.resolve_song_identity("Nowhere", "Splash", ChartType::Std),
        Err(e) if e.kind == ResolveErrorKind::NoOfficialSong
    ));
}

#[test]
fn override_picks_among_duplicates() {
    let a = SongIdentity::new("Link", SongGenre::Maimai, "X");
    let b = SongIdentity::new("Link", SongGenre::NiconicoVocaloid, "Y");
    let overrides = vec![maistats::songdb::sheet_versions::DuplicateResolutionOverride {
        title: " Link ".to_string(),
        version: "BUDDiES".to_string(),
        chart_type: ChartType::Std,
        genre: SongGenre::NiconicoVocaloid,
        artist: " Y ".to_string(),
    }];
    let resolver = SongVersionResolver::new(
        &[a.clone(), b.clone()],
        &[sheet(&a, ChartType::Std, true), sheet(&b, ChartType::Std, true)],
        &overrides,
    );
    let r = resolver
        .resolve_song_identity("Link", " BUDDiES ", ChartType::Std)
        .ok()
        .expect("resolve")
        .expect("song");
    assert_eq!(r.artist, "Y");
}

#[test]
fn version_rows_refuse_a_chart_seen_twice() {
    let a = SongIdentity::new("A", SongGenre::Maimai, "");
    let mut map = Vec::new();
    assert!(record_version_rows(&mut map, vec![(a.clone(), ChartType::Std)], "maimai").is_ok());
    assert_eq!(map.len(), 1);
    assert!(record_version_rows(&mut map, vec![(a.clone(), ChartType::Dx)], "PLUS").is_ok());
    assert!(record_version_rows(&mut map, vec![(a, ChartType::Std)], "GreeN").is_err());
}

fn song_row(id: &str, title: &str) -> maistats::songdb::SongRow {
    maistats::songdb::SongRow {
        song_id: id.to_string(),
        category: None,
        title: title.to_string(),
        artist: None,
        image_name: format!("{id}.png"),
        image_url: String::new(),
        version: Some("BUDDiES".to_string()),
        release_date: None,
        sort_order: None,
        is_new: false,
        is_locked: false,
        comment: None,
    }
}

#[test]
fn data_root_sorts_songs_by_id_and_attaches_charts() {
    let songs = vec![song_row("b", "Song B"), song_row("a", "Song A")];
    let sheets = vec![
        maistats::songdb::SheetRow {
            song_id: "a".to_string(),
            sheet_type: ChartType::Std,
            difficulty: DifficultyCategory::Master,
            level: "13".to_string(),
        },
        maistats::songdb::SheetRow {
            song_id: "zzz".to_string(),
            sheet_type: ChartType::Std,
            difficulty: DifficultyCategory::Master,
            level: "13".to_string(),
        },
    ];
    let levels = vec![level_row("a", " 13.4 ", 1)];
    let mut levels_std = levels.clone();
    levels_std[0].sheet_type = ChartType::Std;
    let tiers = vec![(
        maistats::songdb::user_tiers::UserTierKey {
            title: "Song A".to_string(),
            chart_type: "STD".to_string(),
            difficulty: "MASTER".to_string(),
        },
        maistats::songdb::user_tiers::UserTierValue {
            grade: "S".to_string(),
            source_internal_level: "13.4".to_string(),
        },
    )];
    let root = build_data_root(&songs, &sheets, &levels_std, Some(&tiers));
    assert_eq!(root.songs.len(), 2);
    assert_eq!(root.songs[0].title, "Song A");
    assert_eq!(root.songs[1].title, "Song B");
    assert_eq!(root.songs[0].sheets.len(), 1);
    assert_eq!(root.songs[0].sheets[0].sheet_type, "std");
    assert_eq!(root.songs[0].sheets[0].difficulty, "master");
    assert_eq!(root.songs[0].sheets[0].internal_level.as_deref(), Some("13.4"));
    assert_eq!(root.songs[0].sheets[0].user_level.as_deref(), Some("S"));
    assert!(root.songs[1].sheets.is_empty());

    let db = SongDatabase::from_parts(songs, sheets, levels_std, tiers);
    let index = db.into_index();
    assert_eq!(index.image_name("Song B").as_deref(), Some("b.png"));
    assert_eq!(index.image_name("Nope"), None);
}

#[test]
fn extract_sheets_gives_one_row_per_filled_level_in_field_order() {
    let mut raw_song = raw_song_stub();
    raw_song.dx_lev_bas = Some("2".to_string());
    raw_song.dx_lev_adv = Some("5".to_string());
    raw_song.dx_lev_exp = Some(" 9 ".to_string());
    raw_song.dx_lev_mas = Some("12+".to_string());
    raw_song.dx_lev_remas = Some("".to_string());
    raw_song.lev_bas = Some("1".to_string());
    raw_song.lev_adv = None;
    raw_song.lev_exp = Some("8".to_string());
    raw_song.lev_mas = Some("11".to_string());
    raw_song.lev_remas = Some("13".to_string());
    let sheets = extract_sheets(&raw_song);
    let got: Vec<(ChartType, DifficultyCategory, String)> = sheets
        .iter()
        .map(|s| (s.sheet_type, s.difficulty, s.level.clone()))
        .collect();
    assert_eq!(
        got,
        vec![
            (ChartType::Dx, DifficultyCategory::Basic, "2".to_string()),
            (ChartType::Dx, DifficultyCategory::Advanced, "5".to_string()),
            (ChartType::Dx, DifficultyCategory::Expert, "9".to_string()),
            (ChartType::Dx, DifficultyCategory::Master, "12+".to_string()),
            (ChartType::Std, DifficultyCategory::Basic, "1".to_string()),
            (ChartType::Std, DifficultyCategory::Expert, "8".to_string()),
            (ChartType::Std, DifficultyCategory::Master, "11".to_string()),
            (ChartType::Std, DifficultyCategory::ReMaster, "13".to_string()),
        ]
    );
    let id = derive_song_id(&raw_song);
    assert!(sheets.iter().all(|s| s.song_id == id));
}

#[test]
fn parse_rows_reads_the_charts_of_a_version_page() {
    let song = SongIdentity::new("Technicians High", SongGenre::Maimai, "");
    let resolver = SongVersionResolver::new(
        std::slice::from_ref(&song),
        &[sheet(&song, ChartType::Std, true)],
        &[],
    );
    let page = "<html><body><div class=\"music_basic_score_back\">\
        <div class=\"music_lv_block\">7</div>\
        <div class=\"music_name_block\">Technicians High</div></div></body></html>";
    let rows = parse_rows(page, "ORANGE", &resolver).ok().expect("rows");
    assert_eq!(rows.len(), 1);
    assert_eq!(rows[0].0.title, "Technicians High");
    assert_eq!(rows[0].0.genre, SongGenre::Maimai);
    assert_eq!(rows[0].1, ChartType::Std);

    let empty = parse_rows("<html></html>", "ORANGE", &resolver).ok().expect("rows");
    assert!(empty.is_empty());

    let no_level = "<html><body><div class=\"music_basic_score_back\">\
        <div class=\"music_name_block\">Technicians High</div></div></body></html>";
    assert!(matches!(
        parse_rows(no_level, "ORANGE", &resolver),
        Err(SheetVersionError::Parse(ParseError::MissingLevel))
    ));
}
