use vstd::prelude::*;

use crate::models::game_domain::{ChartType, DifficultyCategory, FcStatus, ScoreRank, SyncStatus};
use crate::text::{
    after_last, after_last_char, before_first, before_first_char, chars_of, contains,
    contains_chars, copy_range, ends_with, ends_with_chars, eq_lit, starts_with,
    starts_with_chars,
};

verus! {

/// The file name in an image URL: after the last `/`, before any `?`.
pub open spec fn icon_file(src: Seq<char>) -> Seq<char> {
    before_first(after_last(src, '/'), '?')
}

/// The key of a score icon, `music_icon_<key>.png`.
pub open spec fn icon_key_spec(src: Seq<char>) -> Option<Seq<char>> {
    let file = icon_file(src);
    if starts_with(file, "music_icon_"@) && ends_with(file.skip(11), ".png"@) {
        Some(file.skip(11).take(file.len() - 15))
    } else {
        None
    }
}

/// The chart type that a chart-kind icon URL shows.
pub open spec fn chart_type_from_icon(src: Seq<char>) -> Option<ChartType> {
    if contains(src, "/img/music_dx.png"@) {
        Some(ChartType::Dx)
    } else if contains(src, "/img/music_standard.png"@) {
        Some(ChartType::Std)
    } else {
        None
    }
}

/// The difficulty that a difficulty icon URL shows.
pub open spec fn diff_from_icon(src: Seq<char>) -> Option<DifficultyCategory> {
    let file = icon_file(src);
    if !starts_with(file, "diff_"@) || !ends_with(file, ".png"@) {
        None
    } else if file == "diff_basic.png"@ {
        Some(DifficultyCategory::Basic)
    } else if file == "diff_advanced.png"@ {
        Some(DifficultyCategory::Advanced)
    } else if file == "diff_expert.png"@ {
        Some(DifficultyCategory::Expert)
    } else if file == "diff_master.png"@ {
        Some(DifficultyCategory::Master)
    } else if file == "diff_remaster.png"@ {
        Some(DifficultyCategory::ReMaster)
    } else {
        None
    }
}

fn icon_file_of(src: &[char]) -> (r: Vec<char>)
    ensures
        r@ == icon_file(src@),
{
    let last = after_last_char(src, '/');
    before_first_char(last.as_slice(), '?')
}

/// The key of a score icon URL: the `<key>` of `.../music_icon_<key>.png?...`.
pub fn icon_key(src: &str) -> (r: Option<String>)
    ensures
        r matches Some(k) ==> icon_key_spec(src@) == Some(k@),
        r is None <==> icon_key_spec(src@) is None,
{
    proof {
        reveal_strlit("music_icon_");
        reveal_strlit(".png");
    }
    let s = chars_of(src);
    let file = icon_file_of(s.as_slice());
    let prefix = chars_of("music_icon_");
    if !starts_with_chars(file.as_slice(), prefix.as_slice()) {
        return None;
    }
    let rest = copy_range(file.as_slice(), 11, file.len());
    assert(rest@ == file@.skip(11));
    let suffix = chars_of(".png");
    if !ends_with_chars(rest.as_slice(), suffix.as_slice()) {
        return None;
    }
    let key = copy_range(rest.as_slice(), 0, rest.len() - 4);
    assert(key@ =~= file@.skip(11).take(file@.len() - 15));
    Some(crate::text::string_of(key.as_slice()))
}

pub fn parse_rank_from_icon_src(src: &str) -> (r: Option<ScoreRank>)
    ensures
        r == (match icon_key_spec(src@) {
            Some(k) => ScoreRank::parse_icon_key(k),
            None => None,
        }),
{
    match icon_key(src) {
        Some(k) => ScoreRank::from_score_icon_key(k.as_str()),
        None => None,
    }
}

pub fn parse_fc_from_icon_src(src: &str) -> (r: Option<FcStatus>)
    ensures
        r == (match icon_key_spec(src@) {
            Some(k) => FcStatus::parse_key(k),
            None => None,
        }),
{
    match icon_key(src) {
        Some(k) => FcStatus::from_score_icon_key(k.as_str()),
        None => None,
    }
}

pub fn parse_sync_from_icon_src(src: &str) -> (r: Option<SyncStatus>)
    ensures
        r == (match icon_key_spec(src@) {
            Some(k) => SyncStatus::parse_key(k),
            None => None,
        }),
{
    match icon_key(src) {
        Some(k) => SyncStatus::from_score_icon_key(k.as_str()),
        None => None,
    }
}

pub fn parse_chart_type_from_icon_src(src: &str) -> (r: Option<ChartType>)
    ensures
        r == chart_type_from_icon(src@),
{
    let s = chars_of(src);
    let dx = chars_of("/img/music_dx.png");
    if contains_chars(s.as_slice(), dx.as_slice()) {
        return Some(ChartType::Dx);
    }
    let std = chars_of("/img/music_standard.png");
    if contains_chars(s.as_slice(), std.as_slice()) {
        return Some(ChartType::Std);
    }
    None
}

pub fn parse_diff_category_from_icon_src(src: &str) -> (r: Option<DifficultyCategory>)
    ensures
        r == diff_from_icon(src@),
{
    let s = chars_of(src);
    let file = icon_file_of(s.as_slice());
    let f = file.as_slice();
    let prefix = chars_of("diff_");
    let suffix = chars_of(".png");
    if !starts_with_chars(f, prefix.as_slice()) || !ends_with_chars(f, suffix.as_slice()) {
        return None;
    }
    if eq_lit(f, "diff_basic.png") {
        Some(DifficultyCategory::Basic)
    } else if eq_lit(f, "diff_advanced.png") {
        Some(DifficultyCategory::Advanced)
    } else if eq_lit(f, "diff_expert.png") {
        Some(DifficultyCategory::Expert)
    } else if eq_lit(f, "diff_master.png") {
        Some(DifficultyCategory::Master)
    } else if eq_lit(f, "diff_remaster.png") {
        Some(DifficultyCategory::ReMaster)
    } else {
        None
    }
}

/// Keeps the sync status of higher priority; on a tie, or without a new one, the existing one stays.
pub open spec fn merge_sync_spec(existing: Option<SyncStatus>, candidate: Option<SyncStatus>) -> Option<
    SyncStatus,
> {
    match candidate {
        None => existing,
        Some(c) => match existing {
            None => Some(c),
            Some(e) => if c.rank_value() > e.rank_value() {
                Some(c)
            } else {
                Some(e)
            },
        },
    }
}

pub fn merge_sync(existing: Option<SyncStatus>, candidate: Option<SyncStatus>) -> (r: Option<
    SyncStatus,
>)
    ensures
        r == merge_sync_spec(existing, candidate),
{
    let candidate = match candidate {
        Some(c) => c,
        None => {
            return existing;
        },
    };
    let existing = match existing {
        Some(e) => e,
        None => {
            return Some(candidate);
        },
    };
    if candidate.priority() > existing.priority() {
        Some(candidate)
    } else {
        Some(existing)
    }
}

/// Distinct sync statuses have distinct priorities.
pub proof fn law_sync_priority_injective(a: SyncStatus, b: SyncStatus)
    ensures
        a.rank_value() == b.rank_value() ==> a == b,
{
}

/// Merging sync statuses does not depend on the order in which they arrive.
pub proof fn law_merge_sync_commutative(a: Option<SyncStatus>, b: Option<SyncStatus>)
    ensures
        merge_sync_spec(a, b) == merge_sync_spec(b, a),
{
}

/// Merging sync statuses is associative, so folding a page's icons keeps the best one.
pub proof fn law_merge_sync_associative(
    a: Option<SyncStatus>,
    b: Option<SyncStatus>,
    c: Option<SyncStatus>,
)
    ensures
        merge_sync_spec(merge_sync_spec(a, b), c) == merge_sync_spec(a, merge_sync_spec(b, c)),
{
}

/// The merge keeps one of its inputs, of the highest priority among them.
pub proof fn law_merge_sync_is_max(a: Option<SyncStatus>, b: Option<SyncStatus>)
    ensures
        merge_sync_spec(a, b) == a || merge_sync_spec(a, b) == b,
        a matches Some(x) ==> merge_sync_spec(a, b) matches Some(m) && m.rank_value()
            >= x.rank_value(),
        b matches Some(y) ==> merge_sync_spec(a, b) matches Some(m) && m.rank_value()
            >= y.rank_value(),
{
}

/// The icon of a difficulty is the file `diff_<name>.png`, with the difficulty's lower-case name
/// (`diff_master.png` is MASTER, `diff_remaster.png` Re:MASTER): an icon URL shows a difficulty
/// exactly when its file is that difficulty's file, so no two difficulties share an icon.
pub proof fn law_diff_icon_file(d: DifficultyCategory, src: Seq<char>)
    ensures
        diff_from_icon(src) == Some(d) <==> icon_file(src) == "diff_"@ + d.lower_name() + ".png"@,
{
    let file = icon_file(src);
    reveal_strlit("diff_");
    reveal_strlit(".png");
    reveal_strlit("diff_basic.png");
    reveal_strlit("basic");
    reveal_strlit("diff_advanced.png");
    reveal_strlit("advanced");
    reveal_strlit("diff_expert.png");
    reveal_strlit("expert");
    reveal_strlit("diff_master.png");
    reveal_strlit("master");
    reveal_strlit("diff_remaster.png");
    reveal_strlit("remaster");
    assert("diff_advanced.png"@[5] != "diff_remaster.png"@[5]);
    assert("diff_expert.png"@[5] != "diff_master.png"@[5]);
    match d {
        DifficultyCategory::Basic => {
            assert("diff_"@ + "basic"@ + ".png"@ =~= "diff_basic.png"@);
            assert("diff_basic.png"@.take(5) =~= "diff_"@);
            assert("diff_basic.png"@.skip(10) =~= ".png"@);
            assert(file == "diff_basic.png"@ ==> diff_from_icon(src) == Some(DifficultyCategory::Basic));
            assert(diff_from_icon(src) == Some(DifficultyCategory::Basic) ==> file == "diff_basic.png"@);
        },
        DifficultyCategory::Advanced => {
            assert("diff_"@ + "advanced"@ + ".png"@ =~= "diff_advanced.png"@);
            assert("diff_advanced.png"@.take(5) =~= "diff_"@);
            assert("diff_advanced.png"@.skip(13) =~= ".png"@);
            assert(file == "diff_advanced.png"@ ==> diff_from_icon(src) == Some(DifficultyCategory::Advanced));
            assert(diff_from_icon(src) == Some(DifficultyCategory::Advanced) ==> file == "diff_advanced.png"@);
        },
        DifficultyCategory::Expert => {
            assert("diff_"@ + "expert"@ + ".png"@ =~= "diff_expert.png"@);
            assert("diff_expert.png"@.take(5) =~= "diff_"@);
            assert("diff_expert.png"@.skip(11) =~= ".png"@);
            assert(file == "diff_expert.png"@ ==> diff_from_icon(src) == Some(DifficultyCategory::Expert));
            assert(diff_from_icon(src) == Some(DifficultyCategory::Expert) ==> file == "diff_expert.png"@);
        },
        DifficultyCategory::Master => {
            assert("diff_"@ + "master"@ + ".png"@ =~= "diff_master.png"@);
            assert("diff_master.png"@.take(5) =~= "diff_"@);
            assert("diff_master.png"@.skip(11) =~= ".png"@);
            assert(file == "diff_master.png"@ ==> diff_from_icon(src) == Some(DifficultyCategory::Master));
            assert(diff_from_icon(src) == Some(DifficultyCategory::Master) ==> file == "diff_master.png"@);
        },
        DifficultyCategory::ReMaster => {
            assert("diff_"@ + "remaster"@ + ".png"@ =~= "diff_remaster.png"@);
            assert("diff_remaster.png"@.take(5) =~= "diff_"@);
            assert("diff_remaster.png"@.skip(13) =~= ".png"@);
            assert(file == "diff_remaster.png"@ ==> diff_from_icon(src) == Some(DifficultyCategory::ReMaster));
            assert(diff_from_icon(src) == Some(DifficultyCategory::ReMaster) ==> file == "diff_remaster.png"@);
        },
    }
}

/// The chart-kind icons: a URL with `/img/music_dx.png` shows a DX chart, one with only
/// `/img/music_standard.png` a standard chart, and one with neither no chart type.
pub proof fn law_chart_type_icons(src: Seq<char>)
    ensures
        contains(src, "/img/music_dx.png"@) ==> chart_type_from_icon(src) == Some(ChartType::Dx),
        !contains(src, "/img/music_dx.png"@) && contains(src, "/img/music_standard.png"@)
            ==> chart_type_from_icon(src) == Some(ChartType::Std),
        chart_type_from_icon(src) is Some <==> (contains(src, "/img/music_dx.png"@) || contains(
            src,
            "/img/music_standard.png"@,
        )),
{
}

} // verus!
