use vstd::prelude::*;
use vstd::string::StrSliceExecFns;

use crate::models::game_domain::{ChartType, DifficultyCategory, ScoreRank};
use crate::models::parser_models::{ParsedRatingTargetEntry, ParsedRatingTargets};
use crate::parsers::html::{
    fragment_nested_attrs, fragment_nested_attrs_of, fragment_nested_texts,
    fragment_nested_texts_of, nested_opt_texts_view, nested_texts_view, opt_texts_view,
    texts_view,
};
use crate::parsers::icons::{
    chart_type_from_icon, diff_from_icon, parse_chart_type_from_icon_src,
    parse_diff_category_from_icon_src, parse_rank_from_icon_src,
};
use crate::parsers::numbers::{parse_rating_percent, rating_percent_spec};
use crate::parsers::score_list::{at_or, rank_of_icon, same_i64};
use crate::parsers::{first_of, first_or_empty, ParseError};
use crate::text::{chars_of, find, find_chars, string_of, trim, trim_chars};

verus! {

/// The smallest position among those where a marker first occurs in `body` (its length when
/// none occurs).
pub open spec fn first_marker_pos(body: Seq<char>, markers: Seq<Seq<char>>) -> int
    decreases markers.len(),
{
    if markers.len() == 0 {
        body.len() as int
    } else {
        let rest = first_marker_pos(body, markers.drop_last());
        match find(body, markers.last()) {
            Some(k) => if k < rest {
                k
            } else {
                rest
            },
            None => rest,
        }
    }
}

/// The text after `start_marker` up to the first of `end_markers`.
pub open spec fn section_spec(html: Seq<char>, start_marker: Seq<char>, end_markers: Seq<
    Seq<char>,
>) -> Result<Seq<char>, ParseError> {
    match find(html, start_marker) {
        Some(s) => {
            let body = html.skip(s + start_marker.len());
            Ok(body.take(first_marker_pos(body, end_markers)))
        },
        None => Err(ParseError::MissingSectionMarker),
    }
}

proof fn lemma_first_marker_pos_bounds(body: Seq<char>, markers: Seq<Seq<char>>)
    ensures
        0 <= first_marker_pos(body, markers) <= body.len(),
    decreases markers.len(),
{
    if markers.len() > 0 {
        lemma_first_marker_pos_bounds(body, markers.drop_last());
        crate::text::lemma_find_matches(body, markers.last());
    }
}

/// The part of a page between a section's heading and the next section's heading.
pub fn extract_section_html<'a>(html: &'a str, start_marker: &str, end_markers: &[&str]) -> (r: Result<
    &'a str,
    ParseError,
>)
    ensures
        match section_spec(html@, start_marker@, end_markers@.map_values(|m: &str| m@)) {
            Ok(t) => r matches Ok(x) && x@ == t,
            Err(e) => r == Err::<&str, ParseError>(e),
        },
{
    let ghost mv = end_markers@.map_values(|m: &str| m@);
    let h = chars_of(html);
    let m = chars_of(start_marker);
    let start = match find_chars(h.as_slice(), m.as_slice()) {
        Some(s) => s + m.len(),
        None => {
            return Err(ParseError::MissingSectionMarker);
        },
    };
    let ghost body = h@.skip(start as int);
    let body_chars = crate::text::copy_range(h.as_slice(), start, h.len());
    assert(body_chars@ == body);
    let mut end: usize = body_chars.len();
    let mut j: usize = 0;
    assert(mv.take(0) =~= Seq::<Seq<char>>::empty());
    while j < end_markers.len()
        invariant
            j <= end_markers.len(),
            mv == end_markers@.map_values(|m: &str| m@),
            body_chars@ == body,
            end as int == first_marker_pos(body, mv.take(j as int)),
            end <= body_chars.len(),
        decreases end_markers.len() - j,
    {
        assert(mv.take(j + 1).drop_last() =~= mv.take(j as int));
        assert(mv.take(j + 1).last() == end_markers@[j as int]@);
        let marker = chars_of(end_markers[j]);
        match find_chars(body_chars.as_slice(), marker.as_slice()) {
            Some(k) => if k < end {
                end = k;
            },
            None => {},
        }
        j += 1;
    }
    assert(mv.take(end_markers.len() as int) =~= mv);
    assert(h@.len() == html@.len());
    let r = html.substring_char(start, start + end);
    assert(r@ =~= body.take(end as int));
    Ok(r)
}

/// One rating-target entry in plain values: title, chart type, difficulty, level, achievement
/// and rank.
pub type RatingEntryModel = (
    Seq<char>,
    ChartType,
    DifficultyCategory,
    Seq<char>,
    Option<nat>,
    Option<ScoreRank>,
);

/// What one rating-target entry holds, given what was selected within it.
pub open spec fn rating_entry_spec(
    titles: Seq<Seq<char>>,
    levels: Seq<Seq<char>>,
    scores: Seq<Seq<char>>,
    ranks: Seq<Option<Seq<char>>>,
    diffs: Seq<Option<Seq<char>>>,
    kinds: Seq<Option<Seq<char>>>,
) -> Result<RatingEntryModel, ParseError> {
    let title = trim(first_or_empty(titles));
    let level = trim(first_or_empty(levels));
    let ach = match first_of(scores) {
        Some(t) => rating_percent_spec(t),
        None => None,
    };
    let rank = match first_of(ranks) {
        Some(Some(src)) => rank_of_icon(src),
        _ => None,
    };
    let diff = match first_of(diffs) {
        Some(Some(src)) => diff_from_icon(src),
        _ => None,
    };
    let kind = match first_of(kinds) {
        Some(Some(src)) => match chart_type_from_icon(src) {
            Some(c) => c,
            None => ChartType::Std,
        },
        _ => ChartType::Std,
    };
    if titles.len() == 0 || title.len() == 0 {
        Err(ParseError::MissingTitle)
    } else if levels.len() == 0 || level.len() == 0 {
        Err(ParseError::MissingLevel)
    } else if diff is None {
        Err(ParseError::MissingDifficultyIcon)
    } else {
        Ok((title, kind, diff->0, level, ach, rank))
    }
}

/// All results, or the first error among them.
pub open spec fn collect_results<M>(rs: Seq<Result<M, ParseError>>) -> Result<Seq<M>, ParseError>
    decreases rs.len(),
{
    if rs.len() == 0 {
        Ok(Seq::empty())
    } else {
        match collect_results(rs.drop_last()) {
            Err(e) => Err(e),
            Ok(ms) => match rs.last() {
                Ok(m) => Ok(ms.push(m)),
                Err(e) => Err(e),
            },
        }
    }
}

pub open spec fn rating_entry_matches(e: ParsedRatingTargetEntry, m: RatingEntryModel) -> bool {
    &&& e.title@ == m.0
    &&& e.chart_type == m.1
    &&& e.diff_category == m.2
    &&& e.level@ == m.3
    &&& same_i64(e.achievement_x10000, m.4)
    &&& e.rank == m.5
}

/// The per-entry results of a section, from what was selected within each entry.
pub open spec fn rating_results(
    titles: Seq<Seq<Seq<char>>>,
    levels: Seq<Seq<Seq<char>>>,
    scores: Seq<Seq<Seq<char>>>,
    ranks: Seq<Seq<Option<Seq<char>>>>,
    diffs: Seq<Seq<Option<Seq<char>>>>,
    kinds: Seq<Seq<Option<Seq<char>>>>,
) -> Seq<Result<RatingEntryModel, ParseError>> {
    Seq::new(
        titles.len(),
        |i: int|
            rating_entry_spec(
                titles[i],
                at_or(levels, i, Seq::empty()),
                at_or(scores, i, Seq::empty()),
                at_or(ranks, i, Seq::empty()),
                at_or(diffs, i, Seq::empty()),
                at_or(kinds, i, Seq::empty()),
            ),
    )
}

fn first_opt(v: &Vec<Option<String>>) -> (r: Option<String>)
    ensures
        crate::models::song_title::opt_view(r) == (match first_of(opt_texts_view(v@)) {
            Some(Some(x)) => Some(x),
            _ => None::<Seq<char>>,
        }),
{
    let r = if v.len() > 0 {
        match &v[0] {
            Some(x) => Some(x.clone()),
            None => None,
        }
    } else {
        None
    };
    r
}

fn rating_entry_from(
    titles: &Vec<String>,
    levels: &Vec<String>,
    scores: &Vec<String>,
    ranks: &Vec<Option<String>>,
    diffs: &Vec<Option<String>>,
    kinds: &Vec<Option<String>>,
) -> (r: Result<ParsedRatingTargetEntry, ParseError>)
    ensures
        match rating_entry_spec(
            texts_view(titles@),
            texts_view(levels@),
            texts_view(scores@),
            opt_texts_view(ranks@),
            opt_texts_view(diffs@),
            opt_texts_view(kinds@),
        ) {
            Ok(m) => r matches Ok(e) && rating_entry_matches(e, m),
            Err(e) => r == Err::<ParsedRatingTargetEntry, ParseError>(e),
        },
{
    let title_raw = if titles.len() > 0 {
        chars_of(titles[0].as_str())
    } else {
        Vec::new()
    };
    let title = trim_chars(title_raw.as_slice());
    if titles.len() == 0 || title.len() == 0 {
        return Err(ParseError::MissingTitle);
    }
    let level_raw = if levels.len() > 0 {
        chars_of(levels[0].as_str())
    } else {
        Vec::new()
    };
    let level = trim_chars(level_raw.as_slice());
    if levels.len() == 0 || level.len() == 0 {
        return Err(ParseError::MissingLevel);
    }
    let ach = if scores.len() > 0 {
        parse_rating_percent(scores[0].as_str())
    } else {
        None
    };
    let rank = match first_opt(ranks) {
        Some(src) => parse_rank_from_icon_src(src.as_str()),
        None => None,
    };
    let diff = match first_opt(diffs) {
        Some(src) => parse_diff_category_from_icon_src(src.as_str()),
        None => None,
    };
    let diff = match diff {
        Some(d) => d,
        None => {
            return Err(ParseError::MissingDifficultyIcon);
        },
    };
    let kind = match first_opt(kinds) {
        Some(src) => match parse_chart_type_from_icon_src(src.as_str()) {
            Some(c) => c,
            None => ChartType::Std,
        },
        None => ChartType::Std,
    };
    Ok(
        ParsedRatingTargetEntry {
            title: string_of(title.as_slice()),
            chart_type: kind,
            diff_category: diff,
            level: string_of(level.as_slice()),
            achievement_x10000: ach,
            rank,
        },
    )
}

fn get_texts<'a>(v: &'a Vec<Vec<String>>, i: usize, empty: &'a Vec<String>) -> (r: &'a Vec<String>)
    requires
        empty@.len() == 0,
    ensures
        texts_view(r@) == at_or(nested_texts_view(v@), i as int, Seq::empty()),
{
    if i < v.len() {
        &v[i]
    } else {
        assert(texts_view(empty@) =~= Seq::<Seq<char>>::empty());
        empty
    }
}

fn get_opts<'a>(v: &'a Vec<Vec<Option<String>>>, i: usize, empty: &'a Vec<Option<String>>) -> (r: &'a Vec<Option<String>>)
    requires
        empty@.len() == 0,
    ensures
        opt_texts_view(r@) == at_or(nested_opt_texts_view(v@), i as int, Seq::empty()),
{
    if i < v.len() {
        &v[i]
    } else {
        assert(opt_texts_view(empty@) =~= Seq::<Option<Seq<char>>>::empty());
        empty
    }
}

/// The entries of a rating-target section, from what was selected within each entry.
pub fn rating_entries_from_selections(
    titles: &Vec<Vec<String>>,
    levels: &Vec<Vec<String>>,
    scores: &Vec<Vec<String>>,
    ranks: &Vec<Vec<Option<String>>>,
    diffs: &Vec<Vec<Option<String>>>,
    kinds: &Vec<Vec<Option<String>>>,
) -> (r: Result<Vec<ParsedRatingTargetEntry>, ParseError>)
    ensures
        match collect_results(
            rating_results(
                nested_texts_view(titles@),
                nested_texts_view(levels@),
                nested_texts_view(scores@),
                nested_opt_texts_view(ranks@),
                nested_opt_texts_view(diffs@),
                nested_opt_texts_view(kinds@),
            ),
        ) {
            Ok(ms) => r matches Ok(v) && v.len() == ms.len() && forall|i: int|
                0 <= i < v.len() ==> rating_entry_matches(#[trigger] v@[i], ms[i]),
            Err(e) => r == Err::<Vec<ParsedRatingTargetEntry>, ParseError>(e),
        },
{
    let ghost rs = rating_results(
        nested_texts_view(titles@),
        nested_texts_view(levels@),
        nested_texts_view(scores@),
        nested_opt_texts_view(ranks@),
        nested_opt_texts_view(diffs@),
        nested_opt_texts_view(kinds@),
    );
    let empty_texts: Vec<String> = Vec::new();
    let empty_opts: Vec<Option<String>> = Vec::new();
    let mut out: Vec<ParsedRatingTargetEntry> = Vec::new();
    let mut i: usize = 0;
    assert(rs.take(0) =~= Seq::<Result<RatingEntryModel, ParseError>>::empty());
    while i < titles.len()
        invariant
            i <= titles.len(),
            rs.len() == titles.len(),
            rs == rating_results(
                nested_texts_view(titles@),
                nested_texts_view(levels@),
                nested_texts_view(scores@),
                nested_opt_texts_view(ranks@),
                nested_opt_texts_view(diffs@),
                nested_opt_texts_view(kinds@),
            ),
            empty_texts@.len() == 0,
            empty_opts@.len() == 0,
            collect_results(rs.take(i as int)) matches Ok(ms) && ms.len() == out.len() && forall|
                k: int,
            | 0 <= k < out.len() ==> rating_entry_matches(#[trigger] out@[k], ms[k]),
        decreases titles.len() - i,
    {
        assert(rs.take(i + 1).drop_last() =~= rs.take(i as int));
        let e = rating_entry_from(
            &titles[i],
            get_texts(levels, i, &empty_texts),
            get_texts(scores, i, &empty_texts),
            get_opts(ranks, i, &empty_opts),
            get_opts(diffs, i, &empty_opts),
            get_opts(kinds, i, &empty_opts),
        );
        match e {
            Ok(e) => {
                out.push(e);
            },
            Err(err) => {
                proof {
                    lemma_collect_err_prefix(rs, (i + 1) as int);
                }
                return Err(err);
            },
        }
        i += 1;
    }
    assert(rs.take(titles.len() as int) =~= rs);
    Ok(out)
}

/// An error in a prefix is the error of the whole.
proof fn lemma_collect_err_prefix<M>(rs: Seq<Result<M, ParseError>>, k: int)
    requires
        0 <= k <= rs.len(),
        collect_results(rs.take(k)) is Err,
    ensures
        collect_results(rs) == collect_results(rs.take(k)),
    decreases rs.len() - k,
{
    if k < rs.len() {
        assert(rs.take(k + 1).drop_last() =~= rs.take(k));
        lemma_collect_err_prefix(rs, k + 1);
    } else {
        assert(rs.take(k) =~= rs);
    }
}

/// The entries of one section of the rating-target page.
pub open spec fn section_entries_spec(section: Seq<char>) -> Result<Seq<RatingEntryModel>, ParseError> {
    let e = "div[class*=\"music_\"][class*=\"_score_back\"]"@;
    collect_results(
        rating_results(
            fragment_nested_texts_of(section, e, ".music_name_block"@),
            fragment_nested_texts_of(section, e, ".music_lv_block"@),
            fragment_nested_texts_of(section, e, ".music_score_block"@),
            fragment_nested_attrs_of(section, e, ".ratingtarget_scorerank_img"@, "src"@),
            fragment_nested_attrs_of(section, e, "img[src*=\"/img/diff_\"]"@, "src"@),
            fragment_nested_attrs_of(section, e, "img.music_kind_icon"@, "src"@),
        ),
    )
}

fn parse_rating_entries(section_html: &str) -> (r: Result<Vec<ParsedRatingTargetEntry>, ParseError>)
    ensures
        match section_entries_spec(section_html@) {
            Ok(ms) => r matches Ok(v) && v.len() == ms.len() && forall|i: int|
                0 <= i < v.len() ==> rating_entry_matches(#[trigger] v@[i], ms[i]),
            Err(e) => r == Err::<Vec<ParsedRatingTargetEntry>, ParseError>(e),
        },
{
    let e = "div[class*=\"music_\"][class*=\"_score_back\"]";
    let titles = fragment_nested_texts(section_html, e, ".music_name_block");
    let levels = fragment_nested_texts(section_html, e, ".music_lv_block");
    let scores = fragment_nested_texts(section_html, e, ".music_score_block");
    let ranks = fragment_nested_attrs(section_html, e, ".ratingtarget_scorerank_img", "src");
    let diffs = fragment_nested_attrs(section_html, e, "img[src*=\"/img/diff_\"]", "src");
    let kinds = fragment_nested_attrs(section_html, e, "img.music_kind_icon", "src");
    rating_entries_from_selections(&titles, &levels, &scores, &ranks, &diffs, &kinds)
}

/// The first `n` entries, or an error when there are fewer.
pub fn take_first_n(entries: Vec<ParsedRatingTargetEntry>, n: usize) -> (r: Result<
    Vec<ParsedRatingTargetEntry>,
    ParseError,
>)
    ensures
        entries.len() < n ==> r == Err::<Vec<ParsedRatingTargetEntry>, ParseError>(
            ParseError::TooFewTargets,
        ),
        entries.len() >= n ==> (r matches Ok(v) && v@ == entries@.take(n as int)),
{
    if entries.len() < n {
        return Err(ParseError::TooFewTargets);
    }
    let mut v = entries;
    v.truncate(n);
    Ok(v)
}

/// The entries of both sections of the rating-target page, each cut to its expected count.
pub open spec fn rating_targets_spec(html: Seq<char>) -> Result<
    (Seq<RatingEntryModel>, Seq<RatingEntryModel>),
    ParseError,
> {
    let new_marker = "Songs for Rating(New)"@;
    let old_marker = "Songs for Rating(Others)"@;
    match section_spec(html, new_marker, seq![old_marker]) {
        Err(e) => Err(e),
        Ok(new_html) => match section_spec(html, old_marker, Seq::empty()) {
            Err(e) => Err(e),
            Ok(old_html) => match section_entries_spec(new_html) {
                Err(e) => Err(e),
                Ok(new_entries) => if new_entries.len() < 15 {
                    Err(ParseError::TooFewTargets)
                } else {
                    match section_entries_spec(old_html) {
                        Err(e) => Err(e),
                        Ok(old_entries) => if old_entries.len() < 35 {
                            Err(ParseError::TooFewTargets)
                        } else {
                            Ok((new_entries.take(15), old_entries.take(35)))
                        },
                    }
                },
            },
        },
    }
}

/// Reads the rating-target page: the first 15 entries of the new-songs section and the first 35
/// of the others.
pub fn parse_rating_target_music_html(html: &str) -> (r: Result<ParsedRatingTargets, ParseError>)
    ensures
        match rating_targets_spec(html@) {
            Ok((n, o)) => r matches Ok(t) && t.current_targets.len() == n.len()
                && t.legacy_targets.len() == o.len() && (forall|i: int|
                0 <= i < n.len() ==> rating_entry_matches(#[trigger] t.current_targets@[i], n[i]))
                && (forall|i: int|
                0 <= i < o.len() ==> rating_entry_matches(#[trigger] t.legacy_targets@[i], o[i])),
            Err(e) => r == Err::<ParsedRatingTargets, ParseError>(e),
        },
{
    let new_markers: [&str; 1] = ["Songs for Rating(Others)"];
    assert(new_markers@.map_values(|m: &str| m@) =~= seq!["Songs for Rating(Others)"@]);
    let no_markers: [&str; 0] = [];
    assert(no_markers@.map_values(|m: &str| m@) =~= Seq::<Seq<char>>::empty());
    let new_html = extract_section_html(html, "Songs for Rating(New)", &new_markers)?;
    let old_html = extract_section_html(html, "Songs for Rating(Others)", &no_markers)?;
    let new_entries = parse_rating_entries(new_html)?;
    let new_targets = take_first_n(new_entries, 15)?;
    let old_entries = parse_rating_entries(old_html)?;
    let old_targets = take_first_n(old_entries, 35)?;
    Ok(ParsedRatingTargets { current_targets: new_targets, legacy_targets: old_targets })
}

} // verus!
