//! Links from a chart to a YouTube search for play videos of it.
use vstd::prelude::*;

use crate::models::game_domain::{ChartType, DifficultyCategory};
use crate::text::{chars_of, is_whitespace, is_ws, push_chars};
use crate::urls::{url_encode, url_encoded};

verus! {

/// The token that play videos use for a chart type.
pub open spec fn chart_type_token(chart_type: ChartType) -> Seq<char> {
    match chart_type {
        ChartType::Std => "ST"@,
        ChartType::Dx => "DX"@,
    }
}

pub fn chart_type_query_token(chart_type: ChartType) -> (r: &'static str)
    ensures
        r@ == chart_type_token(chart_type),
{
    match chart_type {
        ChartType::Std => "ST",
        ChartType::Dx => "DX",
    }
}

/// A text with its hyphens taken out.
pub open spec fn without_hyphens(s: Seq<char>) -> Seq<char>
    decreases s.len(),
{
    if s.len() == 0 {
        s
    } else if s.last() == '-' {
        without_hyphens(s.drop_last())
    } else {
        without_hyphens(s.drop_last()).push(s.last())
    }
}

/// The words of a text (its runs of non-whitespace) joined by single spaces.
pub open spec fn squeeze_spaces(s: Seq<char>) -> Seq<char>
    decreases s.len(),
{
    if s.len() == 0 {
        s
    } else {
        let o = squeeze_spaces(s.drop_last());
        let c = s.last();
        if is_ws(c) {
            o
        } else if o.len() > 0 && s.len() >= 2 && is_ws(s[s.len() - 2]) {
            o + seq![' ', c]
        } else {
            o.push(c)
        }
    }
}

/// A title as a search term: without hyphens, its words separated by single spaces.
pub open spec fn search_title(title: Seq<char>) -> Seq<char> {
    squeeze_spaces(without_hyphens(title))
}

/// A title as a search term: without hyphens, its words separated by single spaces.
pub fn normalize_youtube_search_title(title: &str) -> (r: String)
    ensures
        r@ == search_title(title@),
{
    let t = chars_of(title);
    let mut dehyph: Vec<char> = Vec::new();
    let mut i: usize = 0;
    assert(t@.take(0) =~= Seq::<char>::empty());
    while i < t.len()
        invariant
            i <= t.len(),
            dehyph@ == without_hyphens(t@.take(i as int)),
        decreases t.len() - i,
    {
        assert(t@.take(i + 1).drop_last() =~= t@.take(i as int));
        if t[i] != '-' {
            dehyph.push(t[i]);
        }
        i += 1;
    }
    assert(t@.take(t.len() as int) =~= t@);
    let d = dehyph;
    let mut out: Vec<char> = Vec::new();
    let mut j: usize = 0;
    assert(d@.take(0) =~= Seq::<char>::empty());
    while j < d.len()
        invariant
            j <= d.len(),
            out@ == squeeze_spaces(d@.take(j as int)),
        decreases d.len() - j,
    {
        assert(d@.take(j + 1).drop_last() =~= d@.take(j as int));
        let c = d[j];
        if !is_whitespace(c) {
            if out.len() > 0 && j >= 1 && is_whitespace(d[j - 1]) {
                out.push(' ');
                out.push(c);
            } else {
                out.push(c);
            }
        }
        proof {
            let s = d@.take(j + 1);
            if j >= 1 {
                assert(s[s.len() - 2] == d@[j - 1]);
            }
        }
        j += 1;
    }
    assert(d@.take(d.len() as int) =~= d@);
    let mut s = String::new();
    push_chars(&mut s, out.as_slice());
    s
}

/// The search for play videos of a chart.
pub open spec fn youtube_search_url_spec(title: Seq<char>, chart_type: ChartType, difficulty: DifficultyCategory) -> Seq<char> {
    "https://youtube.com/results?search_query="@ + url_encoded(
        "maimai "@ + search_title(title) + " "@ + chart_type_token(chart_type) + " "@ + difficulty.name(),
    )
}

/// The search for play videos of a chart.
pub fn youtube_search_url(title: &str, chart_type: ChartType, difficulty: DifficultyCategory) -> (r:
    String)
    ensures
        r@ == youtube_search_url_spec(title@, chart_type, difficulty),
{
    let normalized = normalize_youtube_search_title(title);
    let mut query = String::from_str("maimai ");
    query.push_str(normalized.as_str());
    query.push_str(" ");
    query.push_str(chart_type_query_token(chart_type));
    query.push_str(" ");
    query.push_str(difficulty.as_str());
    let encoded = url_encode(query.as_str());
    let mut url = String::from_str("https://youtube.com/results?search_query=");
    url.push_str(encoded.as_str());
    url
}

/// A chart as `[type] [difficulty](search) level`, the difficulty linked to its videos.
pub fn linked_chart_label(
    title: &str,
    chart_type: ChartType,
    difficulty: DifficultyCategory,
    level_with_internal: &str,
) -> (r: String)
    ensures
        r@ == "["@ + chart_type.name() + "] ["@ + difficulty.name() + "]("@ + youtube_search_url_spec(
            title@,
            chart_type,
            difficulty,
        ) + ") "@ + level_with_internal@,
{
    let url = youtube_search_url(title, chart_type, difficulty);
    let mut s = String::from_str("[");
    s.push_str(chart_type.as_str());
    s.push_str("] [");
    s.push_str(difficulty.as_str());
    s.push_str("](");
    s.push_str(url.as_str());
    s.push_str(") ");
    s.push_str(level_with_internal);
    s
}

/// The letter of a difficulty.
pub open spec fn short_difficulty(difficulty: DifficultyCategory) -> Seq<char> {
    match difficulty {
        DifficultyCategory::Basic => "B"@,
        DifficultyCategory::Advanced => "A"@,
        DifficultyCategory::Expert => "E"@,
        DifficultyCategory::Master => "M"@,
        DifficultyCategory::ReMaster => "R"@,
    }
}

/// A difficulty as its bold letter, linked to the videos of the chart.
pub fn linked_short_difficulty(title: &str, chart_type: ChartType, difficulty: DifficultyCategory) -> (r:
    String)
    ensures
        r@ == "**["@ + short_difficulty(difficulty) + "]("@ + youtube_search_url_spec(
            title@,
            chart_type,
            difficulty,
        ) + ")**"@,
{
    let short = match difficulty {
        DifficultyCategory::Basic => "B",
        DifficultyCategory::Advanced => "A",
        DifficultyCategory::Expert => "E",
        DifficultyCategory::Master => "M",
        DifficultyCategory::ReMaster => "R",
    };
    let url = youtube_search_url(title, chart_type, difficulty);
    let mut s = String::from_str("**[");
    s.push_str(short);
    s.push_str("](");
    s.push_str(url.as_str());
    s.push_str(")**");
    s
}

} // verus!
