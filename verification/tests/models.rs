use maistats::models::game_domain::{ChartType, DifficultyCategory, MaimaiVersion, SongGenre};
use maistats::models::song_title::SongTitle;
use maistats::models::versioning::is_minor_or_more_outdated;

fn all_versions() -> Vec<MaimaiVersion> {
    vec![
        MaimaiVersion::Maimai,
        MaimaiVersion::MaimaiPlus,
        MaimaiVersion::Green,
        MaimaiVersion::GreenPlus,
        MaimaiVersion::Orange,
        MaimaiVersion::OrangePlus,
        MaimaiVersion::Pink,
        MaimaiVersion::PinkPlus,
        MaimaiVersion::Murasaki,
        MaimaiVersion::MurasakiPlus,
        MaimaiVersion::Milk,
        MaimaiVersion::MilkPlus,
        MaimaiVersion::Finale,
        MaimaiVersion::Deluxe,
        MaimaiVersion::DeluxePlus,
        MaimaiVersion::Splash,
        MaimaiVersion::SplashPlus,
        MaimaiVersion::Universe,
        MaimaiVersion::UniversePlus,
        MaimaiVersion::Festival,
        MaimaiVersion::FestivalPlus,
        MaimaiVersion::Buddies,
        MaimaiVersion::BuddiesPlus,
        MaimaiVersion::Prism,
        MaimaiVersion::PrismPlus,
        MaimaiVersion::Circle,
    ]
}

#[test]
fn difficulty_category_numeric_values_are_stable() {
    assert_eq!(DifficultyCategory::Basic.as_u8(), 0);
    assert_eq!(DifficultyCategory::Advanced.as_u8(), 1);
    assert_eq!(DifficultyCategory::Expert.as_u8(), 2);
    assert_eq!(DifficultyCategory::Master.as_u8(), 3);
    assert_eq!(DifficultyCategory::ReMaster.as_u8(), 4);
}

#[test]
fn song_genre_loads_jp_and_intl_aliases() {
    assert_eq!(
        SongGenre::from_name("niconico＆ボーカロイド"),
        Some(SongGenre::NiconicoVocaloid)
    );
    assert_eq!(
        SongGenre::from_name("niconico＆VOCALOID™"),
        Some(SongGenre::NiconicoVocaloid)
    );
    assert_eq!(
        SongGenre::from_name("ゲーム＆バラエティ"),
        Some(SongGenre::GameVariety)
    );
    assert_eq!(
        SongGenre::from_name("GAME＆VARIETY"),
        Some(SongGenre::GameVariety)
    );
}

#[test]
fn song_genre_formats_as_intl_string() {
    assert_eq!(SongGenre::PopsAnime.as_str(), "POPS＆ANIME");
    assert_eq!(SongGenre::NiconicoVocaloid.as_str(), "niconico＆VOCALOID™");
    assert_eq!(SongGenre::GameVariety.as_str(), "GAME＆VARIETY");
}

#[test]
fn release_order_indices_are_stable() {
    for (expected_index, version) in all_versions().into_iter().enumerate() {
        assert_eq!(version.as_index() as usize, expected_index);
        assert_eq!(
            MaimaiVersion::from_index(expected_index as u8),
            Some(version)
        );
    }
}

#[test]
fn version_name_roundtrip() {
    for version in all_versions() {
        assert_eq!(MaimaiVersion::from_name(version.as_str()), Some(version));
    }
}

#[test]
fn chart_and_difficulty_display_are_canonical() {
    assert_eq!(ChartType::Std.as_str(), "STD");
    assert_eq!(ChartType::Dx.as_str(), "DX");
    assert_eq!(DifficultyCategory::Basic.as_str(), "BASIC");
    assert_eq!(DifficultyCategory::Advanced.as_str(), "ADVANCED");
    assert_eq!(DifficultyCategory::Expert.as_str(), "EXPERT");
    assert_eq!(DifficultyCategory::Master.as_str(), "MASTER");
    assert_eq!(DifficultyCategory::ReMaster.as_str(), "Re:MASTER");
}

#[test]
fn version_index_past_the_last_is_none() {
    assert_eq!(MaimaiVersion::from_index(26), None);
    assert_eq!(MaimaiVersion::from_name("  CiRCLE  "), Some(MaimaiVersion::Circle));
    assert_eq!(MaimaiVersion::from_name("unknown"), None);
}

#[test]
fn parses_plain_title() {
    let title = SongTitle::parse(" Technicians High ");
    assert_eq!(title.base_title(), "Technicians High");
    assert_eq!(title.qualifier(), None);
    assert_eq!(title.canonical(), "Technicians High");
}

#[test]
fn parses_qualified_title() {
    let title = SongTitle::parse("Link [[niconico＆VOCALOID™]]");
    assert_eq!(title.base_title(), "Link");
    assert_eq!(title.qualifier(), Some("niconico＆VOCALOID™"));
    assert_eq!(title.canonical(), "Link [[niconico＆VOCALOID™]]");
}

#[test]
fn detects_ambiguous_unqualified_title() {
    let title = SongTitle::parse("Link");
    assert!(title.is_ambiguous_unqualified());
}

#[test]
fn normalizes_known_duplicate_qualifier_aliases() {
    assert_eq!(
        SongTitle::from_parts("Link", Some("niconico＆ボーカロイド")).canonical(),
        "Link [[niconico＆VOCALOID™]]"
    );
    assert_eq!(
        SongTitle::from_parts("Link", Some("ORANGE")).canonical(),
        "Link [[niconico＆VOCALOID™]]"
    );
    assert_eq!(
        SongTitle::from_parts("Link", Some("maimai PLUS")).canonical(),
        "Link [[maimai]]"
    );
}

#[test]
fn canonical_text_reads_back_to_the_same_title() {
    for text in [
        "  Link  [[ ORANGE ]] ",
        "Technicians High",
        "Song [[ ]]",
        "[[x]]",
        "Link [[maimai PLUS]]",
    ] {
        let title = SongTitle::parse(text);
        let again = SongTitle::parse(&title.canonical());
        assert_eq!(again, title);
    }
}

#[test]
fn title_with_empty_qualifier_stays_whole() {
    let title = SongTitle::parse("Song [[ ]]");
    assert_eq!(title.base_title(), "Song [[ ]]");
    assert_eq!(title.qualifier(), None);
    assert!(SongTitle::parse("link [[a]]").equals_canonical_ignore_ascii_case(&SongTitle::parse("LINK [[A]]")));
}

#[test]
fn parses_semver_with_prerelease_and_build_metadata() {
    assert!(
        !is_minor_or_more_outdated("1.2.0", "1.2.3-alpha.1+build.5")
            .expect("version comparison should succeed")
    );
}

#[test]
fn treats_lower_minor_versions_as_outdated() {
    assert!(
        is_minor_or_more_outdated("1.2.0", "1.1.9").expect("version comparison should succeed")
    );
}

#[test]
fn ignores_patch_differences_within_the_same_minor() {
    assert!(
        !is_minor_or_more_outdated("1.2.3", "1.2.0").expect("version comparison should succeed")
    );
}

#[test]
fn treats_lower_major_versions_as_outdated() {
    assert!(
        is_minor_or_more_outdated("2.0.0", "1.9.9").expect("version comparison should succeed")
    );
}

#[test]
fn rejects_invalid_versions() {
    assert!(is_minor_or_more_outdated("1.0.0", "1.0").is_err());
    assert!(is_minor_or_more_outdated("1.0.0", "latest").is_err());
}

#[test]
fn outdated_is_irreflexive_and_asymmetric_on_examples() {
    assert!(!is_minor_or_more_outdated("3.4.5", "3.4.5").unwrap());
    assert!(is_minor_or_more_outdated("3.4.0", "3.3.0").unwrap());
    assert!(!is_minor_or_more_outdated("3.3.0", "3.4.0").unwrap());
}

#[test]
fn title_built_from_parts_reads_back_from_its_text() {
    let cases: [(&str, Option<&str>); 4] = [
        (" Link ", Some("maimai PLUS")),
        ("Link", Some("ORANGE")),
        ("Technicians High", None),
        ("  A ] B  ", Some(" x ")),
    ];
    for (base, qualifier) in cases {
        let title = SongTitle::from_parts(base, qualifier);
        assert_eq!(SongTitle::parse(&title.canonical()), title);
    }
    let title = SongTitle::from_parts(" Link ", Some("maimai PLUS"));
    assert_eq!(title.canonical(), "Link [[maimai]]");
    assert_eq!(SongTitle::from_parts("Song", None).canonical(), "Song");
}
