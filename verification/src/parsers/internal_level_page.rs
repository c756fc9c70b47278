use vstd::prelude::*;

use crate::models::game_domain::{ChartType, DifficultyCategory};
use crate::models::song_title::opt_view;
use crate::parsers::html::{
    document_attrs, document_attrs_of, document_nested_attrs, document_nested_attrs_of,
    document_nested_texts, document_nested_texts_of, nested_opt_texts_view, nested_texts_view,
    opt_texts_view, texts_view,
};
use crate::parsers::playlog_detail::title_candidate;
use crate::parsers::icons::chart_type_from_icon;
use crate::parsers::score_list::at_or;
use crate::parsers::{first_of, ParseError};
use crate::text::{chars_of, contains, contains_chars, string_of, trim_chars};

verus! {

/// One entry of a level page: a chart and the level that the page shows for it.
#[derive(Debug, Clone, PartialEq, Eq)]
pub struct ParsedInternalLevelEntry {
    pub title: String,
    pub chart_type: ChartType,
    pub difficulty: DifficultyCategory,
    pub displayed_level: String,
}

/// The chart type of an entry from its first chart-kind icon.
pub open spec fn entry_chart_type(kinds: Seq<Option<Seq<char>>>) -> Result<ChartType, ParseError> {
    match first_of(kinds) {
        Some(Some(src)) => if contains(src, "/img/music_dx.png"@) {
            Ok(ChartType::Dx)
        } else if contains(src, "/img/music_standard.png"@) {
            Ok(ChartType::Std)
        } else {
            Err(ParseError::UnknownChartTypeIcon)
        },
        _ => Err(ParseError::MissingChartTypeIcon),
    }
}

/// The difficulty of an entry from its class attribute.
pub open spec fn entry_difficulty(class: Seq<char>) -> Result<DifficultyCategory, ParseError> {
    if contains(class, "music_basic_score_back"@) {
        Ok(DifficultyCategory::Basic)
    } else if contains(class, "music_advanced_score_back"@) {
        Ok(DifficultyCategory::Advanced)
    } else if contains(class, "music_expert_score_back"@) {
        Ok(DifficultyCategory::Expert)
    } else if contains(class, "music_master_score_back"@) {
        Ok(DifficultyCategory::Master)
    } else if contains(class, "music_remaster_score_back"@) {
        Ok(DifficultyCategory::ReMaster)
    } else {
        Err(ParseError::UnknownDifficultyClass)
    }
}

pub type LevelEntryModel = (Seq<char>, ChartType, DifficultyCategory, Seq<char>);

/// What one entry gives: nothing when it lacks a title or a level, else the entry or the error
/// of its chart-type icon or difficulty class.
pub open spec fn level_entry_spec(
    titles: Seq<Seq<char>>,
    levels: Seq<Seq<char>>,
    kinds: Seq<Option<Seq<char>>>,
    class: Option<Seq<char>>,
) -> Option<Result<LevelEntryModel, ParseError>> {
    match (title_candidate(titles), title_candidate(levels)) {
        (Some(t), Some(l)) => match entry_chart_type(kinds) {
            Err(e) => Some(Err(e)),
            Ok(c) => match entry_difficulty(
                match class {
                    Some(x) => x,
                    None => Seq::<char>::empty(),
                },
            ) {
                Err(e) => Some(Err(e)),
                Ok(d) => Some(Ok((t, c, d, l))),
            },
        },
        _ => None,
    }
}

/// The entries that were not skipped, or the first error.
pub open spec fn collect_kept(rs: Seq<Option<Result<LevelEntryModel, ParseError>>>) -> Result<
    Seq<LevelEntryModel>,
    ParseError,
>
    decreases rs.len(),
{
    if rs.len() == 0 {
        Ok(Seq::empty())
    } else {
        match collect_kept(rs.drop_last()) {
            Err(e) => Err(e),
            Ok(ms) => match rs.last() {
                None => Ok(ms),
                Some(Ok(m)) => Ok(ms.push(m)),
                Some(Err(e)) => Err(e),
            },
        }
    }
}

pub open spec fn level_results(
    titles: Seq<Seq<Seq<char>>>,
    levels: Seq<Seq<Seq<char>>>,
    kinds: Seq<Seq<Option<Seq<char>>>>,
    classes: Seq<Option<Seq<char>>>,
) -> Seq<Option<Result<LevelEntryModel, ParseError>>> {
    Seq::new(
        titles.len(),
        |i: int|
            level_entry_spec(
                titles[i],
                at_or(levels, i, Seq::empty()),
                at_or(kinds, i, Seq::empty()),
                at_or(classes, i, None),
            ),
    )
}

pub open spec fn level_entry_view(e: ParsedInternalLevelEntry) -> LevelEntryModel {
    (e.title@, e.chart_type, e.difficulty, e.displayed_level@)
}

fn first_trimmed(texts: &Vec<String>) -> (r: Option<Vec<char>>)
    ensures
        match title_candidate(texts_view(texts@)) {
            Some(t) => r matches Some(v) && v@ == t,
            None => r is None,
        },
{
    if texts.len() == 0 {
        return None;
    }
    let t = trim_chars(chars_of(texts[0].as_str()).as_slice());
    if t.len() > 0 {
        Some(t)
    } else {
        None
    }
}

fn chart_type_of(kinds: &Vec<Option<String>>) -> (r: Result<ChartType, ParseError>)
    ensures
        r == entry_chart_type(opt_texts_view(kinds@)),
{
    if kinds.len() == 0 {
        return Err(ParseError::MissingChartTypeIcon);
    }
    assert(first_of(opt_texts_view(kinds@)) == Some(opt_view(kinds@[0])));
    match &kinds[0] {
        None => Err(ParseError::MissingChartTypeIcon),
        Some(src) => {
            let s = chars_of(src.as_str());
            if contains_chars(s.as_slice(), chars_of("/img/music_dx.png").as_slice()) {
                Ok(ChartType::Dx)
            } else if contains_chars(s.as_slice(), chars_of("/img/music_standard.png").as_slice()) {
                Ok(ChartType::Std)
            } else {
                Err(ParseError::UnknownChartTypeIcon)
            }
        },
    }
}

fn difficulty_of(class: &Option<String>) -> (r: Result<DifficultyCategory, ParseError>)
    ensures
        r == entry_difficulty(
            match opt_view(*class) {
                Some(x) => x,
                None => Seq::<char>::empty(),
            },
        ),
{
    let c = match class {
        Some(x) => chars_of(x.as_str()),
        None => Vec::new(),
    };
    let c = c.as_slice();
    if contains_chars(c, chars_of("music_basic_score_back").as_slice()) {
        Ok(DifficultyCategory::Basic)
    } else if contains_chars(c, chars_of("music_advanced_score_back").as_slice()) {
        Ok(DifficultyCategory::Advanced)
    } else if contains_chars(c, chars_of("music_expert_score_back").as_slice()) {
        Ok(DifficultyCategory::Expert)
    } else if contains_chars(c, chars_of("music_master_score_back").as_slice()) {
        Ok(DifficultyCategory::Master)
    } else if contains_chars(c, chars_of("music_remaster_score_back").as_slice()) {
        Ok(DifficultyCategory::ReMaster)
    } else {
        Err(ParseError::UnknownDifficultyClass)
    }
}

proof fn lemma_collect_kept_err_prefix(rs: Seq<Option<Result<LevelEntryModel, ParseError>>>, k: int)
    requires
        0 <= k <= rs.len(),
        collect_kept(rs.take(k)) is Err,
    ensures
        collect_kept(rs) == collect_kept(rs.take(k)),
    decreases rs.len() - k,
{
    if k < rs.len() {
        assert(rs.take(k + 1).drop_last() =~= rs.take(k));
        lemma_collect_kept_err_prefix(rs, k + 1);
    } else {
        assert(rs.take(k) =~= rs);
    }
}

/// The entries of a level page from what was selected within each entry.
pub fn level_entries_from_selections(
    titles: &Vec<Vec<String>>,
    levels: &Vec<Vec<String>>,
    kinds: &Vec<Vec<Option<String>>>,
    classes: &Vec<Option<String>>,
) -> (r: Result<Vec<ParsedInternalLevelEntry>, ParseError>)
    ensures
        match collect_kept(
            level_results(
                nested_texts_view(titles@),
                nested_texts_view(levels@),
                nested_opt_texts_view(kinds@),
                opt_texts_view(classes@),
            ),
        ) {
            Ok(ms) => r matches Ok(v) && v@.map_values(|e: ParsedInternalLevelEntry| level_entry_view(e)) == ms,
            Err(e) => r == Err::<Vec<ParsedInternalLevelEntry>, ParseError>(e),
        },
{
    let ghost rs = level_results(
        nested_texts_view(titles@),
        nested_texts_view(levels@),
        nested_opt_texts_view(kinds@),
        opt_texts_view(classes@),
    );
    let empty_texts: Vec<String> = Vec::new();
    let empty_opts: Vec<Option<String>> = Vec::new();
    let no_class: Option<String> = None;
    let mut out: Vec<ParsedInternalLevelEntry> = Vec::new();
    let mut i: usize = 0;
    assert(rs.take(0) =~= Seq::<Option<Result<LevelEntryModel, ParseError>>>::empty());
    assert(out@.map_values(|e: ParsedInternalLevelEntry| level_entry_view(e)) =~= Seq::<
        LevelEntryModel,
    >::empty());
    while i < titles.len()
        invariant
            i <= titles.len(),
            rs.len() == titles.len(),
            rs == level_results(
                nested_texts_view(titles@),
                nested_texts_view(levels@),
                nested_opt_texts_view(kinds@),
                opt_texts_view(classes@),
            ),
            empty_texts@.len() == 0,
            empty_opts@.len() == 0,
            no_class is None,
            collect_kept(rs.take(i as int)) == Ok::<Seq<LevelEntryModel>, ParseError>(
                out@.map_values(|e: ParsedInternalLevelEntry| level_entry_view(e)),
            ),
        decreases titles.len() - i,
    {
        assert(rs.take(i + 1).drop_last() =~= rs.take(i as int));
        let level_texts = if i < levels.len() {
            &levels[i]
        } else {
            &empty_texts
        };
        assert(texts_view(level_texts@) =~= at_or(nested_texts_view(levels@), i as int, Seq::empty()));
        let kind_list = if i < kinds.len() {
            &kinds[i]
        } else {
            &empty_opts
        };
        assert(opt_texts_view(kind_list@) =~= at_or(nested_opt_texts_view(kinds@), i as int, Seq::empty()));
        let class = if i < classes.len() {
            &classes[i]
        } else {
            &no_class
        };
        assert(opt_view(*class) == at_or(opt_texts_view(classes@), i as int, None));
        let title = first_trimmed(&titles[i]);
        let level = first_trimmed(level_texts);
        match (title, level) {
            (Some(t), Some(l)) => {
                let c = match chart_type_of(kind_list) {
                    Ok(c) => c,
                    Err(e) => {
                        proof {
                            lemma_collect_kept_err_prefix(rs, (i + 1) as int);
                        }
                        return Err(e);
                    },
                };
                let d = match difficulty_of(class) {
                    Ok(d) => d,
                    Err(e) => {
                        proof {
                            lemma_collect_kept_err_prefix(rs, (i + 1) as int);
                        }
                        return Err(e);
                    },
                };
                let e = ParsedInternalLevelEntry {
                    title: string_of(t.as_slice()),
                    chart_type: c,
                    difficulty: d,
                    displayed_level: string_of(l.as_slice()),
                };
                let ghost prev = out@;
                out.push(e);
                assert(out@.map_values(|e: ParsedInternalLevelEntry| level_entry_view(e)) =~= prev.map_values(
                    |e: ParsedInternalLevelEntry| level_entry_view(e),
                ).push(level_entry_view(e)));
            },
            _ => {},
        }
        i += 1;
    }
    assert(rs.take(titles.len() as int) =~= rs);
    Ok(out)
}

/// Reads the entries of an internal-level page: the charts of one level, each with its title,
/// chart type, difficulty and displayed level.
pub fn parse_internal_level_page_html(html: &str) -> (r: Result<Vec<ParsedInternalLevelEntry>, ParseError>)
    ensures
        match collect_kept(
            level_results(
                document_nested_texts_of(html@, crate::parsers::score_list::entry_selector(), ".music_name_block"@),
                document_nested_texts_of(html@, crate::parsers::score_list::entry_selector(), ".music_lv_block"@),
                document_nested_attrs_of(html@, crate::parsers::score_list::entry_selector(), "img.music_kind_icon"@, "src"@),
                document_attrs_of(html@, crate::parsers::score_list::entry_selector(), "class"@),
            ),
        ) {
            Ok(ms) => r matches Ok(v) && v@.map_values(|e: ParsedInternalLevelEntry| level_entry_view(e)) == ms,
            Err(e) => r == Err::<Vec<ParsedInternalLevelEntry>, ParseError>(e),
        },
{
    let entry = "div[class*=\"music_\"][class*=\"_score_back\"]";
    let titles = document_nested_texts(html, entry, ".music_name_block");
    let levels = document_nested_texts(html, entry, ".music_lv_block");
    let kinds = document_nested_attrs(html, entry, "img.music_kind_icon", "src");
    let classes = document_attrs(html, entry, "class");
    level_entries_from_selections(&titles, &levels, &kinds, &classes)
}

/// The chart type of a level-page entry is read from its first chart-kind icon exactly as the
/// other pages read it (`chart_type_from_icon`): `/img/music_dx.png` is DX, and
/// `/img/music_standard.png` without the DX icon is STD; another icon is an unknown-icon
/// error, and an entry without an icon a missing-icon error.
pub proof fn law_entry_chart_type_from_icon(kinds: Seq<Option<Seq<char>>>)
    ensures
        first_of(kinds) matches Some(Some(src)) ==> entry_chart_type(kinds) == (match chart_type_from_icon(
            src,
        ) {
            Some(c) => Ok::<ChartType, ParseError>(c),
            None => Err(ParseError::UnknownChartTypeIcon),
        }),
        first_of(kinds) matches Some(Some(src)) ==> (contains(src, "/img/music_dx.png"@) ==> entry_chart_type(
            kinds,
        ) == Ok::<ChartType, ParseError>(ChartType::Dx)),
        first_of(kinds) matches Some(Some(src)) ==> (!contains(src, "/img/music_dx.png"@) && contains(
            src,
            "/img/music_standard.png"@,
        ) ==> entry_chart_type(kinds) == Ok::<ChartType, ParseError>(ChartType::Std)),
        !(first_of(kinds) matches Some(Some(_))) ==> entry_chart_type(kinds) == Err::<
            ChartType,
            ParseError,
        >(ParseError::MissingChartTypeIcon),
{
}

/// An entry's difficulty is the one whose class `music_<name>_score_back` (with the
/// difficulty's lower-case name) its class attribute holds.
pub proof fn law_entry_difficulty_class(class: Seq<char>, d: DifficultyCategory)
    ensures
        entry_difficulty(class) == Ok::<DifficultyCategory, ParseError>(d) ==> contains(
            class,
            "music_"@ + d.lower_name() + "_score_back"@,
        ),
{
    reveal_strlit("music_");
    reveal_strlit("_score_back");
    reveal_strlit("basic");
    reveal_strlit("music_basic_score_back");
    reveal_strlit("advanced");
    reveal_strlit("music_advanced_score_back");
    reveal_strlit("expert");
    reveal_strlit("music_expert_score_back");
    reveal_strlit("master");
    reveal_strlit("music_master_score_back");
    reveal_strlit("remaster");
    reveal_strlit("music_remaster_score_back");
    assert("music_"@ + "basic"@ + "_score_back"@ =~= "music_basic_score_back"@);
    assert("music_"@ + "advanced"@ + "_score_back"@ =~= "music_advanced_score_back"@);
    assert("music_"@ + "expert"@ + "_score_back"@ =~= "music_expert_score_back"@);
    assert("music_"@ + "master"@ + "_score_back"@ =~= "music_master_score_back"@);
    assert("music_"@ + "remaster"@ + "_score_back"@ =~= "music_remaster_score_back"@);
}

} // verus!
