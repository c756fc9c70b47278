use vstd::prelude::*;

use crate::models::game_domain::{ChartType, DifficultyCategory, FcStatus, ScoreRank, SyncStatus};
use crate::models::parser_models::ParsedScoreEntry;
use crate::models::song_title::opt_view;
use crate::parsers::html::{
    document_ancestor_attrs, document_ancestor_attrs_of, document_nested_attrs,
    document_nested_attrs_of, document_nested_texts, document_nested_texts_of,
    nested_opt_texts_view, nested_texts_view, opt_texts_view, texts_view,
};
use crate::parsers::icons::{
    chart_type_from_icon, icon_key_spec, merge_sync, merge_sync_spec,
    parse_chart_type_from_icon_src, parse_fc_from_icon_src, parse_rank_from_icon_src,
    parse_sync_from_icon_src,
};
use crate::parsers::numbers::{
    dx_score_pair_spec, parse_dx_score_pair, parse_score_percent, score_percent_spec,
};
use crate::parsers::{first_of, first_or_empty, ParseError};
use crate::text::{chars_of, string_of, trim, trim_chars};

verus! {

/// The selector of one chart entry of a score list.
pub open spec fn entry_selector() -> Seq<char> {
    "div[class*=\"music_\"][class*=\"_score_back\"]"@
}

pub open spec fn diff_from_u8_spec(diff: u8) -> Result<DifficultyCategory, ParseError> {
    match DifficultyCategory::from_index_spec(diff) {
        Some(d) => Ok(d),
        None => Err(ParseError::InvalidDifficulty),
    }
}

/// The difficulty of a score list page from its `diff` query value (0 to 4).
pub fn diff_category_from_u8(diff: u8) -> (r: Result<DifficultyCategory, ParseError>)
    ensures
        r == diff_from_u8_spec(diff),
{
    match DifficultyCategory::from_index(diff) {
        Some(d) => Ok(d),
        None => Err(ParseError::InvalidDifficulty),
    }
}

/// The `i`th item of `s`, or `d` past its end.
pub open spec fn at_or<T>(s: Seq<T>, i: int, d: T) -> T {
    if 0 <= i < s.len() {
        s[i]
    } else {
        d
    }
}

/// The achievement and DX score of an entry: the first score-block text that reads as a percent
/// gives the achievement, the first other one that reads as `current / max` gives the DX score.
pub open spec fn blocks_fold(texts: Seq<Seq<char>>) -> (Option<nat>, Option<(nat, nat)>)
    decreases texts.len(),
{
    if texts.len() == 0 {
        (None, None)
    } else {
        let prev = blocks_fold(texts.drop_last());
        let t = texts.last();
        if prev.0 is None && score_percent_spec(t) is Some {
            (score_percent_spec(t), prev.1)
        } else if prev.1 is None && dx_score_pair_spec(t) is Some {
            (prev.0, dx_score_pair_spec(t))
        } else {
            prev
        }
    }
}

pub open spec fn rank_of_icon(src: Seq<char>) -> Option<ScoreRank> {
    match icon_key_spec(src) {
        Some(k) => ScoreRank::parse_icon_key(k),
        None => None,
    }
}

pub open spec fn fc_of_icon(src: Seq<char>) -> Option<FcStatus> {
    match icon_key_spec(src) {
        Some(k) => FcStatus::parse_key(k),
        None => None,
    }
}

pub open spec fn sync_of_icon(src: Seq<char>) -> Option<SyncStatus> {
    match icon_key_spec(src) {
        Some(k) => SyncStatus::parse_key(k),
        None => None,
    }
}

/// Rank, full combo and sync of an entry from its icon sources: the first icon that names a
/// rank (a full combo) gives it; the sync is the best of all sync icons.
pub open spec fn icons_fold(srcs: Seq<Option<Seq<char>>>) -> (
    Option<ScoreRank>,
    Option<FcStatus>,
    Option<SyncStatus>,
)
    decreases srcs.len(),
{
    if srcs.len() == 0 {
        (None, None, None)
    } else {
        let prev = icons_fold(srcs.drop_last());
        match srcs.last() {
            None => prev,
            Some(src) => (
                if prev.0 is None {
                    rank_of_icon(src)
                } else {
                    prev.0
                },
                if prev.1 is None {
                    fc_of_icon(src)
                } else {
                    prev.1
                },
                merge_sync_spec(prev.2, sync_of_icon(src)),
            ),
        }
    }
}

/// The chart type of an entry: from the nearest ancestor whose first chart-kind icon names one.
pub open spec fn chart_from_ancestors(a: Seq<Option<Seq<char>>>) -> Option<ChartType>
    decreases a.len(),
{
    if a.len() == 0 {
        None
    } else {
        match a[0] {
            Some(src) => match chart_type_from_icon(src) {
                Some(c) => Some(c),
                None => chart_from_ancestors(a.drop_first()),
            },
            None => chart_from_ancestors(a.drop_first()),
        }
    }
}

/// The level of an entry: its first level block, trimmed, when that is nonempty.
pub open spec fn level_of(levels: Seq<Seq<char>>) -> Option<Seq<char>> {
    if levels.len() > 0 && trim(levels[0]).len() > 0 {
        Some(trim(levels[0]))
    } else {
        None
    }
}

pub open spec fn same_i64(o: Option<i64>, n: Option<nat>) -> bool {
    match (o, n) {
        (Some(a), Some(b)) => a as int == b as int,
        (None, None) => true,
        _ => false,
    }
}

pub open spec fn same_pair(a: Option<i32>, b: Option<i32>, n: Option<(nat, nat)>) -> bool {
    match n {
        Some((x, y)) => a == Some(x as i32) && b == Some(y as i32) && x <= i32::MAX && y
            <= i32::MAX,
        None => a is None && b is None,
    }
}

/// What one entry of a score list holds, given what was selected within it.
pub open spec fn score_entry_matches(
    e: ParsedScoreEntry,
    diff: DifficultyCategory,
    titles: Seq<Seq<char>>,
    idxs: Seq<Option<Seq<char>>>,
    levels: Seq<Seq<char>>,
    blocks: Seq<Seq<char>>,
    icons: Seq<Option<Seq<char>>>,
    ancestors: Seq<Option<Seq<char>>>,
) -> bool {
    &&& e.title@ == trim(first_or_empty(titles))
    &&& e.genre@ == Seq::<char>::empty()
    &&& e.artist@ == Seq::<char>::empty()
    &&& e.chart_type == (match chart_from_ancestors(ancestors) {
        Some(c) => c,
        None => ChartType::Std,
    })
    &&& e.diff_category == diff
    &&& level_of(levels) == Some(e.level@)
    &&& same_i64(e.achievement_x10000, blocks_fold(blocks).0)
    &&& same_pair(e.dx_score, e.dx_score_max, blocks_fold(blocks).1)
    &&& e.rank == icons_fold(icons).0
    &&& e.fc == icons_fold(icons).1
    &&& e.sync == icons_fold(icons).2
    &&& e.last_played_at is None
    &&& e.play_count is None
    &&& opt_view(e.source_idx) == (match first_of(idxs) {
        Some(Some(v)) => Some(v),
        _ => None,
    })
}

/// Whether some entry lacks a level.
pub open spec fn some_level_missing(levels: Seq<Seq<Seq<char>>>, n: int) -> bool {
    exists|i: int| 0 <= i < n && #[trigger] level_of(at_or(levels, i, Seq::empty())) is None
}

fn blocks_of(texts: &Vec<String>) -> (r: (Option<i64>, Option<i32>, Option<i32>))
    ensures
        same_i64(r.0, blocks_fold(texts_view(texts@)).0),
        same_pair(r.1, r.2, blocks_fold(texts_view(texts@)).1),
{
    let ghost tv = texts_view(texts@);
    let mut ach: Option<i64> = None;
    let mut dx: Option<i32> = None;
    let mut dx_max: Option<i32> = None;
    let mut i: usize = 0;
    assert(tv.take(0) =~= Seq::<Seq<char>>::empty());
    while i < texts.len()
        invariant
            i <= texts.len(),
            tv == texts_view(texts@),
            same_i64(ach, blocks_fold(tv.take(i as int)).0),
            same_pair(dx, dx_max, blocks_fold(tv.take(i as int)).1),
        decreases texts.len() - i,
    {
        assert(tv.take(i + 1).drop_last() =~= tv.take(i as int));
        assert(tv.take(i + 1).last() == texts@[i as int]@);
        let text = texts[i].as_str();
        let mut done = false;
        if ach.is_none() {
            if let Some(p) = parse_score_percent(text) {
                ach = Some(p);
                done = true;
            }
        }
        if !done && dx.is_none() {
            if let Some((a, b)) = parse_dx_score_pair(text) {
                dx = Some(a);
                dx_max = Some(b);
            }
        }
        i += 1;
    }
    assert(tv.take(texts.len() as int) =~= tv);
    (ach, dx, dx_max)
}

fn icons_of(srcs: &Vec<Option<String>>) -> (r: (Option<ScoreRank>, Option<FcStatus>, Option<SyncStatus>))
    ensures
        r == icons_fold(opt_texts_view(srcs@)),
{
    let ghost sv = opt_texts_view(srcs@);
    let mut rank: Option<ScoreRank> = None;
    let mut fc: Option<FcStatus> = None;
    let mut sync: Option<SyncStatus> = None;
    let mut i: usize = 0;
    assert(sv.take(0) =~= Seq::<Option<Seq<char>>>::empty());
    while i < srcs.len()
        invariant
            i <= srcs.len(),
            sv == opt_texts_view(srcs@),
            (rank, fc, sync) == icons_fold(sv.take(i as int)),
        decreases srcs.len() - i,
    {
        assert(sv.take(i + 1).drop_last() =~= sv.take(i as int));
        assert(sv.take(i + 1).last() == opt_view(srcs@[i as int]));
        match &srcs[i] {
            Some(src) => {
                if rank.is_none() {
                    rank = parse_rank_from_icon_src(src.as_str());
                }
                if fc.is_none() {
                    fc = parse_fc_from_icon_src(src.as_str());
                }
                sync = merge_sync(sync, parse_sync_from_icon_src(src.as_str()));
            },
            None => {},
        }
        i += 1;
    }
    assert(sv.take(srcs.len() as int) =~= sv);
    (rank, fc, sync)
}

fn chart_of(ancestors: &Vec<Option<String>>) -> (r: ChartType)
    ensures
        r == (match chart_from_ancestors(opt_texts_view(ancestors@)) {
            Some(c) => c,
            None => ChartType::Std,
        }),
{
    let ghost av = opt_texts_view(ancestors@);
    let mut i: usize = 0;
    assert(av.skip(0) =~= av);
    while i < ancestors.len()
        invariant
            i <= ancestors.len(),
            av == opt_texts_view(ancestors@),
            chart_from_ancestors(av) == chart_from_ancestors(av.skip(i as int)),
        decreases ancestors.len() - i,
    {
        assert(av.skip(i as int).drop_first() =~= av.skip(i + 1));
        assert(av.skip(i as int)[0] == opt_view(ancestors@[i as int]));
        if let Some(src) = &ancestors[i] {
            if let Some(c) = parse_chart_type_from_icon_src(src.as_str()) {
                return c;
            }
        }
        i += 1;
    }
    assert(av.skip(i as int) =~= Seq::<Option<Seq<char>>>::empty());
    ChartType::Std
}

fn first_text_or_empty(v: Option<&Vec<String>>) -> (r: Vec<char>)
    ensures
        r@ == first_or_empty(match v {
            Some(x) => texts_view(x@),
            None => Seq::empty(),
        }),
{
    match v {
        Some(x) => if x.len() > 0 {
            chars_of(x[0].as_str())
        } else {
            Vec::new()
        },
        None => Vec::new(),
    }
}

fn vec_get<T>(v: &Vec<T>, i: usize) -> (r: Option<&T>)
    ensures
        i < v.len() ==> r == Some(&v@[i as int]),
        i >= v.len() ==> r is None,
{
    if i < v.len() {
        Some(&v[i])
    } else {
        None
    }
}

/// The entries of a score list from what was selected within each entry. Fails when an entry
/// has no level.
pub fn score_entries_from_selections(
    diff_category: DifficultyCategory,
    titles: &Vec<Vec<String>>,
    idxs: &Vec<Vec<Option<String>>>,
    levels: &Vec<Vec<String>>,
    blocks: &Vec<Vec<String>>,
    icons: &Vec<Vec<Option<String>>>,
    ancestors: &Vec<Vec<Option<String>>>,
) -> (r: Result<Vec<ParsedScoreEntry>, ParseError>)
    ensures
        r is Err <==> some_level_missing(nested_texts_view(levels@), titles.len() as int),
        r matches Err(e) ==> e == ParseError::MissingLevel,
        r matches Ok(v) ==> v.len() == titles.len() && forall|i: int|
            0 <= i < v.len() ==> score_entry_matches(
                #[trigger] v@[i],
                diff_category,
                nested_texts_view(titles@)[i],
                at_or(nested_opt_texts_view(idxs@), i, Seq::empty()),
                at_or(nested_texts_view(levels@), i, Seq::empty()),
                at_or(nested_texts_view(blocks@), i, Seq::empty()),
                at_or(nested_opt_texts_view(icons@), i, Seq::empty()),
                at_or(nested_opt_texts_view(ancestors@), i, Seq::empty()),
            ),
{
    let ghost lv = nested_texts_view(levels@);
    let mut out: Vec<ParsedScoreEntry> = Vec::new();
    let mut i: usize = 0;
    let empty_texts: Vec<String> = Vec::new();
    let empty_opts: Vec<Option<String>> = Vec::new();
    while i < titles.len()
        invariant
            i <= titles.len(),
            lv == nested_texts_view(levels@),
            empty_texts@.len() == 0,
            empty_opts@.len() == 0,
            out.len() == i,
            !some_level_missing(lv, i as int),
            forall|k: int|
                0 <= k < i ==> score_entry_matches(
                    #[trigger] out@[k],
                    diff_category,
                    nested_texts_view(titles@)[k],
                    at_or(nested_opt_texts_view(idxs@), k, Seq::empty()),
                    at_or(nested_texts_view(levels@), k, Seq::empty()),
                    at_or(nested_texts_view(blocks@), k, Seq::empty()),
                    at_or(nested_opt_texts_view(icons@), k, Seq::empty()),
                    at_or(nested_opt_texts_view(ancestors@), k, Seq::empty()),
                ),
        decreases titles.len() - i,
    {
        let level_texts = match vec_get(levels, i) {
            Some(x) => x,
            None => &empty_texts,
        };
        assert(texts_view(level_texts@) == at_or(lv, i as int, Seq::empty()));
        let level_raw = first_text_or_empty(Some(level_texts));
        let level = trim_chars(level_raw.as_slice());
        if level_texts.len() == 0 || level.len() == 0 {
            assert(level_of(at_or(lv, i as int, Seq::empty())) is None);
            return Err(ParseError::MissingLevel);
        }
        let title_raw = first_text_or_empty(Some(&titles[i]));
        let title = trim_chars(title_raw.as_slice());
        let idx_list = match vec_get(idxs, i) {
            Some(x) => x,
            None => &empty_opts,
        };
        assert(opt_texts_view(idx_list@) == at_or(nested_opt_texts_view(idxs@), i as int, Seq::empty()));
        let source_idx: Option<String> = if idx_list.len() > 0 {
            match &idx_list[0] {
                Some(v) => Some(v.clone()),
                None => None,
            }
        } else {
            None
        };
        let block_list = match vec_get(blocks, i) {
            Some(x) => x,
            None => &empty_texts,
        };
        assert(texts_view(block_list@) == at_or(nested_texts_view(blocks@), i as int, Seq::empty()));
        let (ach, dx, dx_max) = blocks_of(block_list);
        let icon_list = match vec_get(icons, i) {
            Some(x) => x,
            None => &empty_opts,
        };
        assert(opt_texts_view(icon_list@) == at_or(nested_opt_texts_view(icons@), i as int, Seq::empty()));
        let (rank, fc, sync) = icons_of(icon_list);
        let anc_list = match vec_get(ancestors, i) {
            Some(x) => x,
            None => &empty_opts,
        };
        assert(opt_texts_view(anc_list@) == at_or(nested_opt_texts_view(ancestors@), i as int, Seq::empty()));
        let chart_type = chart_of(anc_list);
        let e = ParsedScoreEntry {
            title: string_of(title.as_slice()),
            genre: String::new(),
            artist: String::new(),
            chart_type,
            diff_category,
            level: string_of(level.as_slice()),
            achievement_x10000: ach,
            rank,
            fc,
            sync,
            dx_score: dx,
            dx_score_max: dx_max,
            last_played_at: None,
            play_count: None,
            source_idx,
        };
        out.push(e);
        assert(!some_level_missing(lv, i + 1)) by {
            assert forall|k: int| 0 <= k < i + 1 implies !(#[trigger] level_of(
                at_or(lv, k, Seq::empty()),
            ) is None) by {
                if k < i {
                    assert(!some_level_missing(lv, i as int));
                }
            }
        }
        i += 1;
    }
    Ok(out)
}

/// Whether `v` is what a score list page gives for difficulty `diff`: one entry for each
/// title block, read from the blocks of its position.
pub open spec fn score_page_spec(html: Seq<char>, diff: u8, v: Seq<ParsedScoreEntry>) -> bool {
    diff <= 4 && v.len() == document_nested_texts_of(
        html,
        entry_selector(),
        ".music_name_block"@,
    ).len() && forall|i: int|
        0 <= i < v.len() ==> score_entry_matches(
            #[trigger] v[i],
            DifficultyCategory::from_index_spec(diff)->0,
            document_nested_texts_of(html, entry_selector(), ".music_name_block"@)[i],
            at_or(
                document_nested_attrs_of(
                    html,
                    entry_selector(),
                    "input[name=\"idx\"]"@,
                    "value"@,
                ),
                i,
                Seq::empty(),
            ),
            at_or(
                document_nested_texts_of(html, entry_selector(), ".music_lv_block"@),
                i,
                Seq::empty(),
            ),
            at_or(
                document_nested_texts_of(html, entry_selector(), ".music_score_block"@),
                i,
                Seq::empty(),
            ),
            at_or(
                document_nested_attrs_of(html, entry_selector(), "img"@, "src"@),
                i,
                Seq::empty(),
            ),
            at_or(
                document_ancestor_attrs_of(
                    html,
                    entry_selector(),
                    "img.music_kind_icon"@,
                    "src"@,
                ),
                i,
                Seq::empty(),
            ),
        )
}

/// Reads the entries of a score list page (one difficulty, `diff` 0 to 4).
pub fn parse_scores_html(html: &str, diff: u8) -> (r: Result<Vec<ParsedScoreEntry>, ParseError>)
    ensures
        diff > 4 ==> r == Err::<Vec<ParsedScoreEntry>, ParseError>(ParseError::InvalidDifficulty),
        r matches Err(e) ==> e == ParseError::InvalidDifficulty || (diff <= 4 && e
            == ParseError::MissingLevel && some_level_missing(
            document_nested_texts_of(html@, entry_selector(), ".music_lv_block"@),
            document_nested_texts_of(html@, entry_selector(), ".music_name_block"@).len() as int,
        )),
        diff <= 4 && r is Err ==> r == Err::<Vec<ParsedScoreEntry>, ParseError>(
            ParseError::MissingLevel,
        ),
        diff <= 4 ==> (r is Err <==> some_level_missing(
            document_nested_texts_of(html@, entry_selector(), ".music_lv_block"@),
            document_nested_texts_of(html@, entry_selector(), ".music_name_block"@).len() as int,
        )),
        r matches Ok(v) ==> score_page_spec(html@, diff, v@),
{
    let diff_category = diff_category_from_u8(diff)?;
    let entry = "div[class*=\"music_\"][class*=\"_score_back\"]";
    let titles = document_nested_texts(html, entry, ".music_name_block");
    let idxs = document_nested_attrs(html, entry, "input[name=\"idx\"]", "value");
    let levels = document_nested_texts(html, entry, ".music_lv_block");
    let blocks = document_nested_texts(html, entry, ".music_score_block");
    let icons = document_nested_attrs(html, entry, "img", "src");
    let ancestors = document_ancestor_attrs(html, entry, "img.music_kind_icon", "src");
    score_entries_from_selections(diff_category, &titles, &idxs, &levels, &blocks, &icons, &ancestors)
}

} // verus!
