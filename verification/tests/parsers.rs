use maistats::parsers::icons::{merge_sync, parse_chart_type_from_icon_src, parse_rank_from_icon_src};
use maistats::parsers::numbers::{extract_number_after, parse_dx_score_pair};
use maistats::parsers::playlog_detail::parse_playlog_detail_html;
use maistats::parsers::score_list::parse_scores_html;
use maistats::parsers::ParseError;
use maistats::models::game_domain::{ChartType, ScoreRank, SyncStatus};

#[test]
fn parse_playlog_detail_extracts_title_and_music_detail_idx() {
    let html = r#"
    <html>
      <body>
        <div class="basic_block">
          <div class="f_15 break">Link</div>
        </div>
        <form action="https://maimaidx-eng.com/maimai-mobile/record/musicDetail/" method="get">
          <input type="hidden" name="idx" value="music-detail-idx-123" />
          <button type="submit">MY RECORD</button>
        </form>
      </body>
    </html>
    "#;

    let parsed = parse_playlog_detail_html(html).ok().unwrap();
    assert_eq!(parsed.title, "Link");
    assert_eq!(parsed.music_detail_idx, "music-detail-idx-123");
}

#[test]
fn score_list_of_an_unknown_difficulty_is_refused() {
    assert!(matches!(parse_scores_html("<html></html>", 5), Err(ParseError::InvalidDifficulty)));
    assert_eq!(parse_scores_html("<html></html>", 0).ok().map(|v| v.len()), Some(0));
}

#[test]
fn numbers_and_icons() {
    assert_eq!(parse_dx_score_pair("1,234 / 2,000"), Some((1234, 2000)));
    assert_eq!(extract_number_after("play count: 12", "count:"), Some(12));
    assert_eq!(
        parse_rank_from_icon_src("https://x/img/music_icon_sssp.png?ver=1"),
        Some(ScoreRank::SssPlus)
    );
    assert_eq!(
        parse_chart_type_from_icon_src("https://x/img/music_dx.png"),
        Some(ChartType::Dx)
    );
    assert_eq!(
        merge_sync(Some(SyncStatus::Fs), Some(SyncStatus::FdxPlus)),
        Some(SyncStatus::FdxPlus)
    );
    assert_eq!(merge_sync(None, Some(SyncStatus::Sync)), Some(SyncStatus::Sync));
}
