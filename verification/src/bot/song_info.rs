//! The song card of the bot: where the song is not out, its versions, genre and artist, and
//! the levels of its charts.
use vstd::prelude::*;

use crate::bot::chart_links::{linked_short_difficulty, short_difficulty, youtube_search_url_spec};
use crate::bot::commands::{
    build_region_unreleased_line, song_info_candidates_description, song_info_candidates_spec,
    triples_view, unique_song_keys, unique_songs,
};
use crate::models::game_domain::{ChartType, DifficultyCategory};
use crate::models::song_catalog::SongChartRegion;
use crate::models::song_title::opt_view;
use crate::text::{join_strings, join_with, strings_view};

verus! {

/// One chart of a song as the card shows it; the internal level is already written with one
/// decimal.
#[derive(Debug, Clone)]
pub struct SongInfoSheet {
    pub chart_type: ChartType,
    pub diff_category: DifficultyCategory,
    pub level: Option<String>,
    pub internal_level: Option<String>,
    pub version: Option<String>,
    pub image_name: Option<String>,
    pub region: SongChartRegion,
}

/// The index of the first chart of type `ct`.
pub open spec fn first_of_type(sheets: Seq<SongInfoSheet>, ct: ChartType) -> Option<int>
    decreases sheets.len(),
{
    if sheets.len() == 0 {
        None
    } else {
        match first_of_type(sheets.drop_last(), ct) {
            Some(i) => Some(i),
            None => if sheets.last().chart_type == ct {
                Some(sheets.len() - 1)
            } else {
                None
            },
        }
    }
}

/// The index of the first chart of type `ct` and difficulty `d`.
pub open spec fn first_of_chart(sheets: Seq<SongInfoSheet>, ct: ChartType, d: DifficultyCategory) -> Option<
    int,
>
    decreases sheets.len(),
{
    if sheets.len() == 0 {
        None
    } else {
        match first_of_chart(sheets.drop_last(), ct, d) {
            Some(i) => Some(i),
            None => if sheets.last().chart_type == ct && sheets.last().diff_category == d {
                Some(sheets.len() - 1)
            } else {
                None
            },
        }
    }
}

/// The first cover name among the charts.
pub open spec fn first_image(sheets: Seq<SongInfoSheet>) -> Option<Seq<char>>
    decreases sheets.len(),
{
    if sheets.len() == 0 {
        None
    } else {
        match first_image(sheets.drop_last()) {
            Some(n) => Some(n),
            None => opt_view(sheets.last().image_name),
        }
    }
}

/// The version of the first chart of type `ct` (none when that chart has none).
pub open spec fn version_of_type(sheets: Seq<SongInfoSheet>, ct: ChartType) -> Option<Seq<char>> {
    match first_of_type(sheets, ct) {
        Some(i) => opt_view(sheets[i].version),
        None => None,
    }
}

/// One chart in the level line: its linked letter, its level (or `N/A`) and its internal
/// level in brackets.
pub open spec fn level_part(title: Seq<char>, sheet: SongInfoSheet, ct: ChartType, d: DifficultyCategory) -> Seq<
    char,
> {
    "**["@ + short_difficulty(d) + "]("@ + youtube_search_url_spec(title, ct, d) + ")**"@ + " "@ + (
    match opt_view(sheet.level) {
        Some(l) => l,
        None => "N/A"@,
    }) + (match opt_view(sheet.internal_level) {
        Some(x) => " ("@ + x + ")"@,
        None => Seq::empty(),
    })
}

/// The difficulties in the order of the level line.
pub open spec fn difficulty_order() -> Seq<DifficultyCategory> {
    seq![
        DifficultyCategory::Basic,
        DifficultyCategory::Advanced,
        DifficultyCategory::Expert,
        DifficultyCategory::Master,
        DifficultyCategory::ReMaster,
    ]
}

/// The parts of the level line of type `ct` for the first `k` difficulties of the order.
pub open spec fn level_parts(title: Seq<char>, sheets: Seq<SongInfoSheet>, ct: ChartType, k: nat) -> Seq<
    Seq<char>,
>
    decreases k,
{
    if k == 0 {
        Seq::empty()
    } else {
        let d = difficulty_order()[k - 1];
        level_parts(title, sheets, ct, (k - 1) as nat) + match first_of_chart(sheets, ct, d) {
            Some(i) => seq![level_part(title, sheets[i], ct, d)],
            None => Seq::empty(),
        }
    }
}

/// The level line of type `ct`, when the song has a chart of that type.
pub open spec fn levels_line(title: Seq<char>, sheets: Seq<SongInfoSheet>, ct: ChartType) -> Option<Seq<char>> {
    let parts = level_parts(title, sheets, ct, 5);
    if parts.len() == 0 {
        None
    } else {
        Some(join_with(parts, " / "@))
    }
}

/// Where the song is not out: `INTL` when only Japanese charts exist, `JP` when only
/// international ones do.
pub open spec fn region_line(sheets: Seq<SongInfoSheet>) -> Option<Seq<char>> {
    let has_jp = exists|i: int| 0 <= i < sheets.len() && sheets[i].region.jp;
    let has_intl = exists|i: int| 0 <= i < sheets.len() && sheets[i].region.intl;
    if has_jp && !has_intl {
        Some("**INTL**: Unreleased"@)
    } else if !has_jp && has_intl {
        Some("**JP**: Unreleased"@)
    } else {
        None
    }
}

/// An optional text as a sequence of none or one text.
pub open spec fn opt_seq(o: Option<Seq<char>>) -> Seq<Seq<char>> {
    match o {
        Some(x) => seq![x],
        None => Seq::empty(),
    }
}

/// An optional text behind a prefix.
pub open spec fn prefixed(prefix: Seq<char>, o: Option<Seq<char>>) -> Option<Seq<char>> {
    match o {
        Some(x) => Some(prefix + x),
        None => None,
    }
}

/// The blocks of the card, in order.
pub open spec fn song_info_blocks(
    title: Seq<char>,
    genre: Seq<char>,
    artist: Seq<char>,
    sheets: Seq<SongInfoSheet>,
) -> Seq<Seq<char>> {
    let versions = opt_seq(prefixed("Version (STD): "@, version_of_type(sheets, ChartType::Std))) + opt_seq(
        prefixed("Version (DX): "@, version_of_type(sheets, ChartType::Dx)),
    );
    opt_seq(region_line(sheets)) + (if versions.len() > 0 {
        seq![join_with(versions, "\n"@)]
    } else {
        Seq::empty()
    }) + seq!["Genre: "@ + genre + "\nArtist: "@ + artist] + opt_seq(
        prefixed("Level (STD)\n"@, levels_line(title, sheets, ChartType::Std)),
    ) + opt_seq(prefixed("Level (DX)\n"@, levels_line(title, sheets, ChartType::Dx)))
}

/// The text of the card: its blocks separated by blank lines.
pub open spec fn song_info_text(
    title: Seq<char>,
    genre: Seq<char>,
    artist: Seq<char>,
    sheets: Seq<SongInfoSheet>,
) -> Seq<char> {
    join_with(song_info_blocks(title, genre, artist, sheets), "\n\n"@)
}

proof fn lemma_first_of_type_bounds(s: Seq<SongInfoSheet>, ct: ChartType)
    ensures
        first_of_type(s, ct) matches Some(i) ==> 0 <= i < s.len() && s[i].chart_type == ct,
    decreases s.len(),
{
    if s.len() > 0 {
        lemma_first_of_type_bounds(s.drop_last(), ct);
    }
}

proof fn lemma_first_of_chart_bounds(s: Seq<SongInfoSheet>, ct: ChartType, d: DifficultyCategory)
    ensures
        first_of_chart(s, ct, d) matches Some(i) ==> 0 <= i < s.len(),
    decreases s.len(),
{
    if s.len() > 0 {
        lemma_first_of_chart_bounds(s.drop_last(), ct, d);
    }
}

fn find_first_of_type(sheets: &[SongInfoSheet], ct: ChartType) -> (r: Option<usize>)
    ensures
        match r {
            Some(i) => first_of_type(sheets@, ct) == Some(i as int) && i < sheets.len(),
            None => first_of_type(sheets@, ct) is None,
        },
{
    proof {
        lemma_first_of_type_bounds(sheets@, ct);
    }
    let mut i: usize = 0;
    while i < sheets.len()
        invariant
            i <= sheets.len(),
            first_of_type(sheets@.take(i as int), ct) is None,
        decreases sheets.len() - i,
    {
        assert(sheets@.take(i + 1).drop_last() =~= sheets@.take(i as int));
        if sheets[i].chart_type == ct {
            proof {
                lemma_first_of_type_prefix(sheets@, ct, i as int);
            }
            return Some(i);
        }
        i += 1;
    }
    assert(sheets@.take(sheets.len() as int) =~= sheets@);
    None
}

proof fn lemma_first_of_type_prefix(s: Seq<SongInfoSheet>, ct: ChartType, i: int)
    requires
        0 <= i < s.len(),
        first_of_type(s.take(i), ct) is None,
        s[i].chart_type == ct,
    ensures
        first_of_type(s, ct) == Some(i),
    decreases s.len(),
{
    if s.len() == i + 1 {
        assert(s.drop_last() =~= s.take(i));
    } else {
        assert(s.drop_last().take(i) =~= s.take(i));
        lemma_first_of_type_prefix(s.drop_last(), ct, i);
    }
}

proof fn lemma_first_of_chart_prefix(s: Seq<SongInfoSheet>, ct: ChartType, d: DifficultyCategory, i: int)
    requires
        0 <= i < s.len(),
        first_of_chart(s.take(i), ct, d) is None,
        s[i].chart_type == ct && s[i].diff_category == d,
    ensures
        first_of_chart(s, ct, d) == Some(i),
    decreases s.len(),
{
    if s.len() == i + 1 {
        assert(s.drop_last() =~= s.take(i));
    } else {
        assert(s.drop_last().take(i) =~= s.take(i));
        lemma_first_of_chart_prefix(s.drop_last(), ct, d, i);
    }
}

proof fn lemma_first_image_prefix(s: Seq<SongInfoSheet>, i: int)
    requires
        0 <= i < s.len(),
        first_image(s.take(i)) is None,
        s[i].image_name is Some,
    ensures
        first_image(s) == opt_view(s[i].image_name),
    decreases s.len(),
{
    if s.len() == i + 1 {
        assert(s.drop_last() =~= s.take(i));
    } else {
        assert(s.drop_last().take(i) =~= s.take(i));
        lemma_first_image_prefix(s.drop_last(), i);
    }
}

fn find_first_of_chart(sheets: &[SongInfoSheet], ct: ChartType, d: DifficultyCategory) -> (r: Option<
    usize,
>)
    ensures
        match r {
            Some(i) => first_of_chart(sheets@, ct, d) == Some(i as int) && i < sheets.len(),
            None => first_of_chart(sheets@, ct, d) is None,
        },
{
    proof {
        lemma_first_of_chart_bounds(sheets@, ct, d);
    }
    let mut i: usize = 0;
    while i < sheets.len()
        invariant
            i <= sheets.len(),
            first_of_chart(sheets@.take(i as int), ct, d) is None,
        decreases sheets.len() - i,
    {
        assert(sheets@.take(i + 1).drop_last() =~= sheets@.take(i as int));
        if sheets[i].chart_type == ct && sheets[i].diff_category == d {
            proof {
                lemma_first_of_chart_prefix(sheets@, ct, d, i as int);
            }
            return Some(i);
        }
        i += 1;
    }
    assert(sheets@.take(sheets.len() as int) =~= sheets@);
    None
}

/// The first cover name among the charts.
pub fn first_image_name(sheets: &[SongInfoSheet]) -> (r: Option<String>)
    ensures
        opt_view(r) == first_image(sheets@),
{
    let mut i: usize = 0;
    while i < sheets.len()
        invariant
            i <= sheets.len(),
            first_image(sheets@.take(i as int)) is None,
        decreases sheets.len() - i,
    {
        assert(sheets@.take(i + 1).drop_last() =~= sheets@.take(i as int));
        if let Some(name) = &sheets[i].image_name {
            proof {
                lemma_first_image_prefix(sheets@, i as int);
            }
            return Some(name.clone());
        }
        i += 1;
    }
    assert(sheets@.take(sheets.len() as int) =~= sheets@);
    None
}

fn level_part_text(title: &str, sheet: &SongInfoSheet, ct: ChartType, d: DifficultyCategory) -> (r: String)
    ensures
        r@ == level_part(title@, *sheet, ct, d),
{
    let mut s = linked_short_difficulty(title, ct, d);
    s.push_str(" ");
    match &sheet.level {
        Some(l) => s.push_str(l.as_str()),
        None => s.push_str("N/A"),
    }
    if let Some(x) = &sheet.internal_level {
        s.push_str(" (");
        s.push_str(x.as_str());
        s.push_str(")");
    }
    proof {
        reveal_strlit(" ");
        reveal_strlit("N/A");
        reveal_strlit(" (");
        reveal_strlit(")");
        reveal_strlit("**[");
        reveal_strlit("](");
        reveal_strlit(")**");
    }
    assert(s@ =~= level_part(title@, *sheet, ct, d));
    s
}

fn push_level_part(
    parts: &mut Vec<String>,
    title: &str,
    sheets: &[SongInfoSheet],
    ct: ChartType,
    d: DifficultyCategory,
)
    ensures
        strings_view(final(parts)@) == strings_view(old(parts)@) + match first_of_chart(sheets@, ct, d) {
            Some(i) => seq![level_part(title@, sheets@[i], ct, d)],
            None => Seq::<Seq<char>>::empty(),
        },
{
    match find_first_of_chart(sheets, ct, d) {
        Some(i) => {
            let part = level_part_text(title, &sheets[i], ct, d);
            let ghost before = parts@;
            parts.push(part);
            assert(strings_view(parts@) =~= strings_view(before) + seq![part@]);
        },
        None => {
            assert(strings_view(parts@) =~= strings_view(parts@) + Seq::<Seq<char>>::empty());
        },
    }
}

/// The level line of type `ct`, when the song has a chart of that type.
fn levels_line_text(title: &str, sheets: &[SongInfoSheet], ct: ChartType) -> (r: Option<String>)
    ensures
        opt_view(r) == levels_line(title@, sheets@, ct),
{
    let mut parts: Vec<String> = Vec::new();
    assert(strings_view(parts@) =~= level_parts(title@, sheets@, ct, 0));
    push_level_part(&mut parts, title, sheets, ct, DifficultyCategory::Basic);
    assert(strings_view(parts@) =~= level_parts(title@, sheets@, ct, 1));
    push_level_part(&mut parts, title, sheets, ct, DifficultyCategory::Advanced);
    assert(strings_view(parts@) =~= level_parts(title@, sheets@, ct, 2));
    push_level_part(&mut parts, title, sheets, ct, DifficultyCategory::Expert);
    assert(strings_view(parts@) =~= level_parts(title@, sheets@, ct, 3));
    push_level_part(&mut parts, title, sheets, ct, DifficultyCategory::Master);
    assert(strings_view(parts@) =~= level_parts(title@, sheets@, ct, 4));
    push_level_part(&mut parts, title, sheets, ct, DifficultyCategory::ReMaster);
    assert(strings_view(parts@) =~= level_parts(title@, sheets@, ct, 5));
    if parts.len() == 0 {
        None
    } else {
        Some(join_strings(parts.as_slice(), " / "))
    }
}

fn version_line(sheets: &[SongInfoSheet], ct: ChartType, prefix: &str) -> (r: Option<String>)
    ensures
        opt_view(r) == prefixed(prefix@, version_of_type(sheets@, ct)),
{
    match find_first_of_type(sheets, ct) {
        Some(i) => match &sheets[i].version {
            Some(v) => {
                let mut s = String::from_str(prefix);
                s.push_str(v.as_str());
                Some(s)
            },
            None => None,
        },
        None => None,
    }
}

fn push_opt(blocks: &mut Vec<String>, o: Option<String>)
    ensures
        strings_view(final(blocks)@) == strings_view(old(blocks)@) + opt_seq(opt_view(o)),
{
    match o {
        Some(x) => {
            let ghost before = blocks@;
            blocks.push(x);
            assert(strings_view(blocks@) =~= strings_view(before) + opt_seq(opt_view(o)));
        },
        None => {
            assert(strings_view(blocks@) =~= strings_view(blocks@) + opt_seq(opt_view(o)));
        },
    }
}

/// The text of a song's card and the cover it shows (the first chart's that has one).
pub fn build_song_info_text(song_title: &str, song_genre: &str, song_artist: &str, sheets: &[SongInfoSheet]) -> (r: (
    String,
    Option<String>,
))
    ensures
        r.0@ == song_info_text(song_title@, song_genre@, song_artist@, sheets@),
        opt_view(r.1) == first_image(sheets@),
{
    let mut regions: Vec<SongChartRegion> = Vec::new();
    let mut i: usize = 0;
    while i < sheets.len()
        invariant
            i <= sheets.len(),
            regions@.len() == i,
            forall|q: int| 0 <= q < i ==> #[trigger] regions@[q] == sheets@[q].region,
        decreases sheets.len() - i,
    {
        regions.push(sheets[i].region);
        i += 1;
    }
    let region = build_region_unreleased_line(regions.as_slice());
    proof {
        reveal_strlit("**INTL**: Unreleased");
        reveal_strlit("**JP**: Unreleased");
        let ghost s = sheets@;
        assert((exists|q: int| 0 <= q < s.len() && s[q].region.jp) == (exists|q: int|
            0 <= q < regions@.len() && regions@[q].jp)) by {
            if exists|q: int| 0 <= q < s.len() && s[q].region.jp {
                let q = choose|q: int| 0 <= q < s.len() && s[q].region.jp;
                assert(regions@[q].jp);
            }
        }
        assert((exists|q: int| 0 <= q < s.len() && s[q].region.intl) == (exists|q: int|
            0 <= q < regions@.len() && regions@[q].intl)) by {
            if exists|q: int| 0 <= q < s.len() && s[q].region.intl {
                let q = choose|q: int| 0 <= q < s.len() && s[q].region.intl;
                assert(regions@[q].intl);
            }
        }
    }
    assert(opt_view(region) == region_line(sheets@));
    let mut blocks: Vec<String> = Vec::new();
    push_opt(&mut blocks, region);
    let mut versions: Vec<String> = Vec::new();
    push_opt(&mut versions, version_line(sheets, ChartType::Std, "Version (STD): "));
    push_opt(&mut versions, version_line(sheets, ChartType::Dx, "Version (DX): "));
    if versions.len() > 0 {
        let joined = join_strings(versions.as_slice(), "\n");
        let ghost before = blocks@;
        blocks.push(joined);
        assert(strings_view(blocks@) =~= strings_view(before) + seq![joined@]);
    }
    let mut genre_block = String::from_str("Genre: ");
    genre_block.push_str(song_genre);
    genre_block.push_str("\nArtist: ");
    genre_block.push_str(song_artist);
    let ghost before_genre = blocks@;
    blocks.push(genre_block);
    assert(strings_view(blocks@) =~= strings_view(before_genre) + seq![genre_block@]);
    let std_levels = levels_line_text(song_title, sheets, ChartType::Std);
    let std_block = match std_levels {
        Some(l) => {
            let mut s = String::from_str("Level (STD)\n");
            s.push_str(l.as_str());
            Some(s)
        },
        None => None,
    };
    push_opt(&mut blocks, std_block);
    let dx_levels = levels_line_text(song_title, sheets, ChartType::Dx);
    let dx_block = match dx_levels {
        Some(l) => {
            let mut s = String::from_str("Level (DX)\n");
            s.push_str(l.as_str());
            Some(s)
        },
        None => None,
    };
    push_opt(&mut blocks, dx_block);
    assert(strings_view(blocks@) =~= song_info_blocks(song_title@, song_genre@, song_artist@, sheets@));
    let text = join_strings(blocks.as_slice(), "\n\n");
    (text, first_image_name(sheets))
}

/// The place of a chart on the card: by chart type, then by difficulty.
pub open spec fn card_rank(sheet: SongInfoSheet) -> int {
    sheet.chart_type.index() * 5 + sheet.diff_category.index()
}

/// The indices below `n` of the charts of rank `k`, in order.
pub open spec fn indices_of_rank(sheets: Seq<SongInfoSheet>, k: int, n: int) -> Seq<int>
    decreases n,
{
    if n <= 0 {
        Seq::empty()
    } else {
        indices_of_rank(sheets, k, n - 1) + if card_rank(sheets[n - 1]) == k {
            seq![n - 1]
        } else {
            Seq::empty()
        }
    }
}

/// The indices of the charts of rank below `k`, rank by rank, each rank in order.
pub open spec fn card_order_upto(sheets: Seq<SongInfoSheet>, k: int) -> Seq<int>
    decreases k,
{
    if k <= 0 {
        Seq::empty()
    } else {
        card_order_upto(sheets, k - 1) + indices_of_rank(sheets, k - 1, sheets.len() as int)
    }
}

/// The order of the charts on the card: by chart type and difficulty, charts of the same
/// type and difficulty in their given order (a stable sort).
pub open spec fn card_order(sheets: Seq<SongInfoSheet>) -> Seq<int> {
    card_order_upto(sheets, 10)
}

fn rank_of(sheet: &SongInfoSheet) -> (r: u8)
    ensures
        r as int == card_rank(*sheet),
{
    sheet.chart_type.as_u8() * 5 + sheet.diff_category.as_u8()
}

/// The order in which a song's charts are shown (indices into `sheets`).
pub fn card_sheet_order(sheets: &[SongInfoSheet]) -> (r: Vec<usize>)
    ensures
        r@.map_values(|i: usize| i as int) == card_order(sheets@),
{
    let mut out: Vec<usize> = Vec::new();
    let mut k: u8 = 0;
    while k < 10
        invariant
            k <= 10,
            out@.map_values(|i: usize| i as int) == card_order_upto(sheets@, k as int),
        decreases 10 - k,
    {
        let ghost before = out@.map_values(|i: usize| i as int);
        let mut i: usize = 0;
        while i < sheets.len()
            invariant
                i <= sheets.len(),
                k < 10,
                out@.map_values(|i: usize| i as int) == before + indices_of_rank(sheets@, k as int, i as int),
            decreases sheets.len() - i,
        {
            let ghost prev = out@;
            let r = rank_of(&sheets[i]);
            if r == k {
                out.push(i);
                assert(out@.map_values(|j: usize| j as int) =~= prev.map_values(|j: usize| j as int)
                    + seq![i as int]);
            } else {
                assert(out@ == prev);
            }
            assert(indices_of_rank(sheets@, k as int, i + 1) == indices_of_rank(sheets@, k as int, i as int)
                + if card_rank(sheets@[i as int]) == k as int {
                seq![i as int]
            } else {
                Seq::<int>::empty()
            });
            assert(out@.map_values(|j: usize| j as int) =~= before + indices_of_rank(
                sheets@,
                k as int,
                i + 1,
            ));
            i += 1;
        }
        k += 1;
    }
    out
}

/// How a song-card search ends: no song, too many songs (with the message listing them), or
/// the one or two songs to show, in key order.
#[derive(Debug, Clone)]
pub enum SongInfoPlan {
    NoSong,
    TooMany(String),
    Songs(Vec<(String, String, String)>),
}

/// How a song-card search ends, from the (title, genre, artist) of its charts.
pub fn plan_song_info(items: &[(String, String, String)]) -> (r: SongInfoPlan)
    ensures
        unique_songs(triples_view(items@)).len() == 0 <==> r is NoSong,
        unique_songs(triples_view(items@)).len() > 2 <==> r is TooMany,
        r matches SongInfoPlan::TooMany(d) ==> d@ == song_info_candidates_spec(
            unique_songs(triples_view(items@)),
        ),
        r matches SongInfoPlan::Songs(k) ==> triples_view(k@) == unique_songs(triples_view(items@)),
{
    let keys = unique_song_keys(items);
    if keys.len() == 0 {
        SongInfoPlan::NoSong
    } else if keys.len() > 2 {
        SongInfoPlan::TooMany(song_info_candidates_description(keys.as_slice()))
    } else {
        SongInfoPlan::Songs(keys)
    }
}

proof fn lemma_indices_of_rank(s: Seq<SongInfoSheet>, k: int, n: int)
    requires
        0 <= n <= s.len(),
    ensures
        forall|p: int|
            0 <= p < indices_of_rank(s, k, n).len() ==> 0 <= #[trigger] indices_of_rank(s, k, n)[p] < n
                && card_rank(s[indices_of_rank(s, k, n)[p]]) == k,
        forall|p: int, q: int|
            0 <= p < q < indices_of_rank(s, k, n).len() ==> #[trigger] indices_of_rank(s, k, n)[p]
                < #[trigger] indices_of_rank(s, k, n)[q],
        forall|i: int| 0 <= i < n && card_rank(s[i]) == k ==> #[trigger] indices_of_rank(s, k, n).contains(i),
    decreases n,
{
    if n > 0 {
        lemma_indices_of_rank(s, k, n - 1);
        let prev = indices_of_rank(s, k, n - 1);
        let cur = indices_of_rank(s, k, n);
        if card_rank(s[n - 1]) == k {
            assert(cur == prev + seq![n - 1]);
            assert forall|i: int| 0 <= i < n && card_rank(s[i]) == k implies #[trigger] cur.contains(i) by {
                if i < n - 1 {
                    assert(prev.contains(i));
                    let w = choose|w: int| 0 <= w < prev.len() && prev[w] == i;
                    assert(cur[w] == i);
                } else {
                    assert(cur[prev.len() as int] == i);
                }
            }
        } else {
            assert(cur == prev + Seq::<int>::empty());
            assert(cur =~= prev);
        }
    }
}

proof fn lemma_card_order_upto(s: Seq<SongInfoSheet>, k: int)
    requires
        0 <= k,
    ensures
        forall|p: int|
            0 <= p < card_order_upto(s, k).len() ==> 0 <= #[trigger] card_order_upto(s, k)[p] < s.len()
                && card_rank(s[card_order_upto(s, k)[p]]) < k,
        forall|p: int, q: int|
            0 <= p < q < card_order_upto(s, k).len() ==> (card_rank(
                s[#[trigger] card_order_upto(s, k)[p]],
            ) < card_rank(s[#[trigger] card_order_upto(s, k)[q]]) || (card_rank(s[card_order_upto(s, k)[p]])
                == card_rank(s[card_order_upto(s, k)[q]]) && card_order_upto(s, k)[p] < card_order_upto(
                s,
                k,
            )[q])),
        forall|i: int| 0 <= i < s.len() && card_rank(s[i]) < k ==> #[trigger] card_order_upto(s, k).contains(i),
    decreases k,
{
    if k > 0 {
        lemma_card_order_upto(s, k - 1);
        lemma_indices_of_rank(s, k - 1, s.len() as int);
        let prev = card_order_upto(s, k - 1);
        let add = indices_of_rank(s, k - 1, s.len() as int);
        let cur = card_order_upto(s, k);
        assert(cur == prev + add);
        assert forall|p: int| 0 <= p < cur.len() implies 0 <= #[trigger] cur[p] < s.len() && card_rank(s[cur[p]]) < k by {
            if p < prev.len() {
                assert(cur[p] == prev[p]);
            } else {
                assert(cur[p] == add[p - prev.len()]);
            }
        }
        assert forall|p: int, q: int| 0 <= p < q < cur.len() implies (card_rank(s[#[trigger] cur[p]])
            < card_rank(s[#[trigger] cur[q]]) || (card_rank(s[cur[p]]) == card_rank(s[cur[q]]) && cur[p]
            < cur[q])) by {
            if q < prev.len() {
                assert(cur[p] == prev[p] && cur[q] == prev[q]);
            } else if p < prev.len() {
                assert(cur[p] == prev[p] && cur[q] == add[q - prev.len()]);
            } else {
                assert(cur[p] == add[p - prev.len()] && cur[q] == add[q - prev.len()]);
            }
        }
        assert forall|i: int| 0 <= i < s.len() && card_rank(s[i]) < k implies #[trigger] cur.contains(i) by {
            if card_rank(s[i]) < k - 1 {
                assert(prev.contains(i));
                let w = choose|w: int| 0 <= w < prev.len() && prev[w] == i;
                assert(cur[w] == i);
            } else {
                assert(add.contains(i));
                let w = choose|w: int| 0 <= w < add.len() && add[w] == i;
                assert(cur[prev.len() + w] == i);
            }
        }
    }
}

/// The charts of a card come by chart type and then difficulty, charts of the same type and
/// difficulty keep their given order, and every chart is shown exactly once.
pub proof fn law_card_order_is_a_stable_sort(sheets: Seq<SongInfoSheet>)
    ensures
        forall|p: int, q: int|
            0 <= p < q < card_order(sheets).len() ==> card_rank(sheets[#[trigger] card_order(sheets)[p]])
                <= card_rank(sheets[#[trigger] card_order(sheets)[q]]),
        forall|p: int, q: int|
            0 <= p < q < card_order(sheets).len() && card_rank(sheets[card_order(sheets)[p]]) == card_rank(
                sheets[card_order(sheets)[q]],
            ) ==> #[trigger] card_order(sheets)[p] < #[trigger] card_order(sheets)[q],
        forall|i: int| 0 <= i < sheets.len() ==> #[trigger] card_order(sheets).contains(i),
        forall|p: int| 0 <= p < card_order(sheets).len() ==> 0 <= #[trigger] card_order(sheets)[p] < sheets.len(),
        card_order(sheets).no_duplicates(),
{
    lemma_card_order_upto(sheets, 10);
    let o = card_order(sheets);
    assert forall|i: int| 0 <= i < sheets.len() implies #[trigger] o.contains(i) by {
        assert(card_rank(sheets[i]) < 10);
    }
    assert forall|p: int, q: int| 0 <= p < o.len() && 0 <= q < o.len() && p != q implies o[p] != o[q] by {
        if p < q {
            assert(card_rank(sheets[o[p]]) < card_rank(sheets[o[q]]) || o[p] < o[q]);
        } else {
            assert(card_rank(sheets[o[q]]) < card_rank(sheets[o[p]]) || o[q] < o[p]);
        }
    }
}

} // verus!
