//! Tiers that players give to charts, read from a community spreadsheet.
use vstd::prelude::*;

use crate::models::song_catalog::{
    find_song_by_title, first_song_with_title, SongDataRoot, SongDataSheet,
};
use crate::assoc::{assoc_set, first_key_index, lemma_first_key_index};
use crate::models::song_title::opt_view;
use crate::text::{
    chars_of, eq_chars, eq_lit, find, find_chars, lower_seq, starts_with,
    starts_with_chars, string_of, to_ascii_lower, to_ascii_upper, trim, trim_chars, trimmed,
    upper_seq,
};

verus! {

/// The spreadsheet that holds the tiers.
pub const USER_TIER_SPREADSHEET_ID: &'static str = "19jn6ZFmg_aMRXKK90y58IUQE-4P32wUC7XkwwnEs7Oo";

/// One sheet of the tier spreadsheet: the internal level it covers and its sheet id.
#[derive(Debug, Clone, Copy)]
pub struct UserTierSheetSpec {
    pub internal_level: &'static str,
    pub sheet_gid: i64,
}

/// The sheets of the tier spreadsheet, from internal level 13.0 to 14.5.
pub open spec fn user_tier_sheet_table() -> Seq<(Seq<char>, i64)> {
    seq![
        ("13.0"@, 1_749_298_731i64),
        ("13.1"@, 1_154_334_538i64),
        ("13.2"@, 1_829_611_377i64),
        ("13.3"@, 906_051_633i64),
        ("13.4"@, 273_610_954i64),
        ("13.5"@, 2_135_528_050i64),
        ("13.6"@, 1_968_583_985i64),
        ("13.7"@, 1_402_010_493i64),
        ("13.8"@, 1_532_312_671i64),
        ("13.9"@, 1_340_012_092i64),
        ("14.0"@, 1_964_782_792i64),
        ("14.1"@, 1_313_771_404i64),
        ("14.2"@, 478_233_232i64),
        ("14.3"@, 1_133_176_592i64),
        ("14.4"@, 540_430_720i64),
        ("14.5"@, 740_029_659i64),
    ]
}

/// The sheets of the tier spreadsheet.
pub fn user_tier_sheet_specs() -> (r: Vec<UserTierSheetSpec>)
    ensures
        r@.map_values(|s: UserTierSheetSpec| (s.internal_level@, s.sheet_gid))
            == user_tier_sheet_table(),
{
    let r = vec![
        UserTierSheetSpec { internal_level: "13.0", sheet_gid: 1_749_298_731 },
        UserTierSheetSpec { internal_level: "13.1", sheet_gid: 1_154_334_538 },
        UserTierSheetSpec { internal_level: "13.2", sheet_gid: 1_829_611_377 },
        UserTierSheetSpec { internal_level: "13.3", sheet_gid: 906_051_633 },
        UserTierSheetSpec { internal_level: "13.4", sheet_gid: 273_610_954 },
        UserTierSheetSpec { internal_level: "13.5", sheet_gid: 2_135_528_050 },
        UserTierSheetSpec { internal_level: "13.6", sheet_gid: 1_968_583_985 },
        UserTierSheetSpec { internal_level: "13.7", sheet_gid: 1_402_010_493 },
        UserTierSheetSpec { internal_level: "13.8", sheet_gid: 1_532_312_671 },
        UserTierSheetSpec { internal_level: "13.9", sheet_gid: 1_340_012_092 },
        UserTierSheetSpec { internal_level: "14.0", sheet_gid: 1_964_782_792 },
        UserTierSheetSpec { internal_level: "14.1", sheet_gid: 1_313_771_404 },
        UserTierSheetSpec { internal_level: "14.2", sheet_gid: 478_233_232 },
        UserTierSheetSpec { internal_level: "14.3", sheet_gid: 1_133_176_592 },
        UserTierSheetSpec { internal_level: "14.4", sheet_gid: 540_430_720 },
        UserTierSheetSpec { internal_level: "14.5", sheet_gid: 740_029_659 },
    ];
    assert(r@.map_values(|s: UserTierSheetSpec| (s.internal_level@, s.sheet_gid))
        =~= user_tier_sheet_table());
    r
}

/// A chart that a tier is given to: song title, `STD` or `DX`, and difficulty name.
#[derive(Debug, Clone)]
pub struct UserTierKey {
    pub title: String,
    pub chart_type: String,
    pub difficulty: String,
}

/// A tier and the internal level of the sheet it was read from.
#[derive(Debug, Clone)]
pub struct UserTierValue {
    pub grade: String,
    pub source_internal_level: String,
}

pub open spec fn tier_key_view(k: UserTierKey) -> (Seq<char>, Seq<char>, Seq<char>) {
    (k.title@, k.chart_type@, k.difficulty@)
}

impl UserTierKey {
    /// The key as `title (chart type, difficulty)`.
    pub fn to_display_string(&self) -> (r: String)
        ensures
            r@ == self.title@ + " ("@ + self.chart_type@ + ", "@ + self.difficulty@ + ")"@,
    {
        let mut s = self.title.clone();
        s.push_str(" (");
        s.push_str(self.chart_type.as_str());
        s.push_str(", ");
        s.push_str(self.difficulty.as_str());
        s.push_str(")");
        s
    }
}

/// The color of the border around a cover in the tier sheet, which tells a chart apart.
#[derive(Debug, Clone, Copy, PartialEq, Eq, Structural)]
pub enum BorderHint {
    NoBorder,
    Expert,
    ReMaster,
    Std,
    Dx,
    NewSong,
}

/// One cover image of the tier sheet, with the tier of its row.
#[derive(Debug, Clone)]
pub struct TierImageEntry {
    pub grade: String,
    pub image_url: String,
    pub border_hint: BorderHint,
}

/// Whether a character can stand in a sheet name without quotes.
pub open spec fn plain_sheet_char(c: char) -> bool {
    ('a' <= c <= 'z') || ('A' <= c <= 'Z') || ('0' <= c <= '9') || c == '_' || c == '-'
}

/// A text with each `'` doubled.
pub open spec fn double_quotes(s: Seq<char>) -> Seq<char>
    decreases s.len(),
{
    if s.len() == 0 {
        s
    } else {
        let head = if s.last() == '\'' {
            seq!['\'', '\'']
        } else {
            seq![s.last()]
        };
        double_quotes(s.drop_last()) + head
    }
}

/// A sheet name as a range reference needs it: as it is when it has only letters, digits, `_`
/// and `-`, else between `'` with each `'` doubled.
pub open spec fn quoted_sheet_title(title: Seq<char>) -> Seq<char> {
    if forall|i: int| 0 <= i < title.len() ==> plain_sheet_char(#[trigger] title[i]) {
        title
    } else {
        seq!['\''] + double_quotes(title) + seq!['\'']
    }
}

/// A sheet name as a range reference needs it.
pub fn quote_sheet_title(title: &str) -> (r: String)
    ensures
        r@ == quoted_sheet_title(title@),
{
    let t = chars_of(title);
    let mut i: usize = 0;
    let mut plain = true;
    while i < t.len()
        invariant
            i <= t.len(),
            plain == forall|k: int| 0 <= k < i ==> plain_sheet_char(#[trigger] t@[k]),
        decreases t.len() - i,
    {
        let c = t[i];
        let ok = ('a' <= c && c <= 'z') || ('A' <= c && c <= 'Z') || ('0' <= c && c <= '9') || c
            == '_' || c == '-';
        if !ok {
            plain = false;
        }
        i += 1;
    }
    if plain {
        return String::from_str(title);
    }
    let mut out: Vec<char> = Vec::new();
    out.push('\'');
    let mut j: usize = 0;
    assert(t@.take(0) =~= Seq::<char>::empty());
    while j < t.len()
        invariant
            j <= t.len(),
            out@ == seq!['\''] + double_quotes(t@.take(j as int)),
        decreases t.len() - j,
    {
        assert(t@.take(j + 1).drop_last() =~= t@.take(j as int));
        if t[j] == '\'' {
            out.push('\'');
            out.push('\'');
        } else {
            out.push(t[j]);
        }
        j += 1;
    }
    assert(t@.take(t.len() as int) =~= t@);
    out.push('\'');
    string_of(out.as_slice())
}

/// The tiers of the sheet, best first.
pub open spec fn tier_grades() -> Seq<Seq<char>> {
    seq![
        "S"@,
        "A+"@,
        "A"@,
        "A-"@,
        "B+"@,
        "B"@,
        "B-"@,
        "C+"@,
        "C"@,
        "C-"@,
        "D+"@,
        "D"@,
        "D-"@,
        "E+"@,
        "E"@,
        "E-"@,
        "F"@,
    ]
}

/// Whether a text is one of the tiers, exactly.
pub fn is_tier_grade(value: &str) -> (b: bool)
    ensures
        b == tier_grades().contains(value@),
{
    let grades: Vec<&str> = vec![
        "S",
        "A+",
        "A",
        "A-",
        "B+",
        "B",
        "B-",
        "C+",
        "C",
        "C-",
        "D+",
        "D",
        "D-",
        "E+",
        "E",
        "E-",
        "F",
    ];
    let ghost gv = grades@.map_values(|g: &str| g@);
    assert(gv =~= tier_grades());
    let v = chars_of(value);
    let mut i: usize = 0;
    while i < grades.len()
        invariant
            i <= grades.len(),
            v@ == value@,
            gv == grades@.map_values(|g: &str| g@),
            gv == tier_grades(),
            forall|k: int| 0 <= k < i ==> gv[k] != value@,
        decreases grades.len() - i,
    {
        if eq_lit(v.as_slice(), grades[i]) {
            assert(gv[i as int] == value@);
            return true;
        }
        i += 1;
    }
    false
}

/// Whether a text starts with `https://` or `http://`.
pub open spec fn http_url(s: Seq<char>) -> bool {
    starts_with(s, "https://"@) || starts_with(s, "http://"@)
}

/// Whether a text starts with `https://` or `http://`.
pub fn is_http_url(value: &str) -> (b: bool)
    ensures
        b == http_url(value@),
{
    let v = chars_of(value);
    let a = chars_of("https://");
    let b = chars_of("http://");
    starts_with_chars(v.as_slice(), a.as_slice()) || starts_with_chars(v.as_slice(), b.as_slice())
}

/// The address inside a formula `=IMAGE("address", ...)` when it is an http(s) address.
pub open spec fn image_formula_url(formula: Seq<char>) -> Option<Seq<char>> {
    let t = trim(formula);
    if !starts_with(upper_seq(t), "=IMAGE("@) || !starts_with(t, "=IMAGE("@) {
        None
    } else {
        let after = t.skip(7);
        if after.len() == 0 || after.last() != ')' {
            None
        } else {
            let content = trim(after.drop_last());
            if content.len() == 0 || content[0] != '"' {
                None
            } else {
                let rest = content.drop_first();
                match find(rest, seq!['"']) {
                    None => None,
                    Some(e) => if http_url(rest.take(e)) {
                        Some(rest.take(e))
                    } else {
                        None
                    },
                }
            }
        }
    }
}

/// The address inside a formula `=IMAGE("address", ...)` when it is an http(s) address.
pub fn parse_image_formula(formula: &str) -> (r: Option<String>)
    ensures
        opt_view(r) == image_formula_url(formula@),
{
    let t = trimmed(formula);
    let upper = to_ascii_upper(t.as_slice());
    let prefix = chars_of("=IMAGE(");
    if !starts_with_chars(upper.as_slice(), prefix.as_slice()) || !starts_with_chars(
        t.as_slice(),
        prefix.as_slice(),
    ) {
        return None;
    }
    proof {
        reveal_strlit("=IMAGE(");
    }
    let after = crate::text::copy_range(t.as_slice(), 7, t.len());
    assert(after@ =~= t@.skip(7));
    if after.len() == 0 || after[after.len() - 1] != ')' {
        return None;
    }
    let inner = crate::text::copy_range(after.as_slice(), 0, after.len() - 1);
    assert(inner@ =~= after@.drop_last());
    let content = trim_chars(inner.as_slice());
    if content.len() == 0 || content[0] != '"' {
        return None;
    }
    let rest = crate::text::copy_range(content.as_slice(), 1, content.len());
    assert(rest@ =~= content@.drop_first());
    let quote = vec!['"'];
    assert(quote@ =~= seq!['"']);
    let e = match find_chars(rest.as_slice(), quote.as_slice()) {
        Some(e) => e,
        None => {
            return None;
        },
    };
    let url = crate::text::copy_range(rest.as_slice(), 0, e);
    assert(url@ =~= rest@.take(e as int));
    let url_s = string_of(url.as_slice());
    if is_http_url(url_s.as_str()) {
        Some(url_s)
    } else {
        None
    }
}

/// `STD` or `DX` for a chart type written in any case, with spaces around.
pub open spec fn normalized_chart_type(s: Seq<char>) -> Option<Seq<char>> {
    let l = lower_seq(trim(s));
    if l == "std"@ {
        Some("STD"@)
    } else if l == "dx"@ {
        Some("DX"@)
    } else {
        None
    }
}

/// `EXPERT`, `MASTER` or `Re:MASTER` for a difficulty written in any case; the other
/// difficulties have no tiers.
pub open spec fn normalized_difficulty(s: Seq<char>) -> Option<Seq<char>> {
    let l = lower_seq(trim(s));
    if l == "expert"@ {
        Some("EXPERT"@)
    } else if l == "master"@ {
        Some("MASTER"@)
    } else if l == "remaster"@ {
        Some("Re:MASTER"@)
    } else {
        None
    }
}

pub fn normalize_chart_type(sheet_type: &str) -> (r: Option<&'static str>)
    ensures
        match r {
            Some(s) => normalized_chart_type(sheet_type@) == Some(s@),
            None => normalized_chart_type(sheet_type@) is None,
        },
{
    let l = to_ascii_lower(trimmed(sheet_type).as_slice());
    if eq_lit(l.as_slice(), "std") {
        Some("STD")
    } else if eq_lit(l.as_slice(), "dx") {
        Some("DX")
    } else {
        None
    }
}

pub fn normalize_difficulty(difficulty: &str) -> (r: Option<&'static str>)
    ensures
        match r {
            Some(s) => normalized_difficulty(difficulty@) == Some(s@),
            None => normalized_difficulty(difficulty@) is None,
        },
{
    let l = to_ascii_lower(trimmed(difficulty).as_slice());
    if eq_lit(l.as_slice(), "expert") {
        Some("EXPERT")
    } else if eq_lit(l.as_slice(), "master") {
        Some("MASTER")
    } else if eq_lit(l.as_slice(), "remaster") {
        Some("Re:MASTER")
    } else {
        None
    }
}

/// The (chart type, difficulty) that a chart offers at an internal level, when it has a tier.
pub open spec fn sheet_candidate(sh: SongDataSheet, internal_level: Seq<char>) -> Option<
    (Seq<char>, Seq<char>),
> {
    if opt_view(sh.internal_level) == Some(internal_level) {
        match (normalized_chart_type(sh.sheet_type@), normalized_difficulty(sh.difficulty@)) {
            (Some(c), Some(d)) => Some((c, d)),
            _ => None,
        }
    } else {
        None
    }
}

/// The charts of a song at an internal level, in order.
pub open spec fn level_candidates(sheets: Seq<SongDataSheet>, internal_level: Seq<char>) -> Seq<
    (Seq<char>, Seq<char>),
>
    decreases sheets.len(),
{
    if sheets.len() == 0 {
        Seq::empty()
    } else {
        let prev = level_candidates(sheets.drop_last(), internal_level);
        match sheet_candidate(sheets.last(), internal_level) {
            Some(c) => prev.push(c),
            None => prev,
        }
    }
}

/// Whether a border color lets a candidate stay.
pub open spec fn hint_keeps(hint: BorderHint, c: (Seq<char>, Seq<char>)) -> bool {
    match hint {
        BorderHint::Expert => c.1 == "EXPERT"@,
        BorderHint::ReMaster => c.1 == "Re:MASTER"@,
        BorderHint::Std => c.0 == "STD"@,
        BorderHint::Dx => c.0 == "DX"@,
        _ => true,
    }
}

/// The candidates that a border color lets stay, in order.
pub open spec fn hinted(cands: Seq<(Seq<char>, Seq<char>)>, hint: BorderHint) -> Seq<
    (Seq<char>, Seq<char>),
>
    decreases cands.len(),
{
    if cands.len() == 0 {
        cands
    } else {
        let prev = hinted(cands.drop_last(), hint);
        if hint_keeps(hint, cands.last()) {
            prev.push(cands.last())
        } else {
            prev
        }
    }
}

/// The index of the first Master candidate.
pub open spec fn first_master(cands: Seq<(Seq<char>, Seq<char>)>) -> Option<int>
    decreases cands.len(),
{
    if cands.len() == 0 {
        None
    } else {
        match first_master(cands.drop_last()) {
            Some(i) => Some(i),
            None => if cands.last().1 == "MASTER"@ {
                Some(cands.len() - 1)
            } else {
                None
            },
        }
    }
}

/// The chart that a cover of the tier sheet stands for: among the charts of the matched song
/// at the sheet's internal level that the border color allows, Master when there is a choice,
/// else the first.
pub open spec fn resolved_key(
    root: SongDataRoot,
    matched_title: Seq<char>,
    hint: BorderHint,
    internal_level: Seq<char>,
) -> Option<(Seq<char>, Seq<char>, Seq<char>)> {
    match first_song_with_title(root.songs@, matched_title) {
        None => None,
        Some(si) => {
            let song = root.songs@[si];
            let cands = hinted(level_candidates(song.sheets@, internal_level), hint);
            if cands.len() == 0 {
                None
            } else {
                let pick = if cands.len() > 1 && first_master(cands) is Some {
                    cands[first_master(cands)->0]
                } else {
                    cands[0]
                };
                Some((song.title@, pick.0, pick.1))
            }
        },
    }
}

proof fn lemma_first_master(cands: Seq<(Seq<char>, Seq<char>)>)
    ensures
        match first_master(cands) {
            Some(i) => 0 <= i < cands.len() && cands[i].1 == "MASTER"@ && forall|j: int|
                0 <= j < i ==> (#[trigger] cands[j]).1 != "MASTER"@,
            None => forall|j: int| 0 <= j < cands.len() ==> (#[trigger] cands[j]).1 != "MASTER"@,
        },
    decreases cands.len(),
{
    if cands.len() > 0 {
        let prev = cands.drop_last();
        lemma_first_master(prev);
        assert forall|j: int| 0 <= j < prev.len() implies #[trigger] cands[j] == prev[j] by {}
    }
}

spec fn pairs_of(v: Seq<(&'static str, &'static str)>) -> Seq<(Seq<char>, Seq<char>)> {
    v.map_values(|p: (&'static str, &'static str)| (p.0@, p.1@))
}

fn first_master_index(kept: &[(&'static str, &'static str)]) -> (r: Option<usize>)
    ensures
        match r {
            Some(m) => m < kept.len() && first_master(pairs_of(kept@)) == Some(m as int),
            None => first_master(pairs_of(kept@)) is None,
        },
{
    let ghost kv = pairs_of(kept@);
    let mut m: usize = 0;
    while m < kept.len()
        invariant
            m <= kept.len(),
            kv == pairs_of(kept@),
            forall|q: int| 0 <= q < m ==> (#[trigger] kv[q]).1 != "MASTER"@,
        decreases kept.len() - m,
    {
        if eq_lit(chars_of(kept[m].1).as_slice(), "MASTER") {
            proof {
                lemma_first_master(kv);
                assert(kv[m as int].1 == "MASTER"@);
            }
            return Some(m);
        }
        m += 1;
    }
    proof {
        lemma_first_master(kv);
    }
    None
}

/// The chart that a cover of the tier sheet stands for, when the song has one that fits.
pub fn resolve_key(
    song_data: &SongDataRoot,
    matched_title: &str,
    border_hint: BorderHint,
    internal_level: &str,
) -> (r: Option<UserTierKey>)
    ensures
        match r {
            Some(k) => resolved_key(*song_data, matched_title@, border_hint, internal_level@)
                == Some(tier_key_view(k)),
            None => resolved_key(*song_data, matched_title@, border_hint, internal_level@) is None,
        },
{
    let si = match find_song_by_title(song_data.songs.as_slice(), matched_title) {
        Some(i) => i,
        None => {
            return None;
        },
    };
    let song = &song_data.songs[si];
    let lvl = chars_of(internal_level);
    let mut cands: Vec<(&'static str, &'static str)> = Vec::new();
    let mut i: usize = 0;
    assert(song.sheets@.take(0) =~= Seq::<SongDataSheet>::empty());
    while i < song.sheets.len()
        invariant
            i <= song.sheets.len(),
            lvl@ == internal_level@,
            pairs_of(cands@) == level_candidates(song.sheets@.take(i as int), internal_level@),
        decreases song.sheets.len() - i,
    {
        let sheet = &song.sheets[i];
        assert(song.sheets@.take(i + 1).drop_last() =~= song.sheets@.take(i as int));
        let ghost before = cands@;
        let level_matches = match &sheet.internal_level {
            Some(l) => {
                let lc = chars_of(l.as_str());
                eq_chars(lc.as_slice(), lvl.as_slice())
            },
            None => false,
        };
        if level_matches {
            match (
                normalize_chart_type(sheet.sheet_type.as_str()),
                normalize_difficulty(sheet.difficulty.as_str()),
            ) {
                (Some(c), Some(d)) => {
                    cands.push((c, d));
                    assert(pairs_of(cands@) =~= pairs_of(before).push((c@, d@)));
                },
                _ => {},
            }
        }
        i += 1;
    }
    assert(song.sheets@.take(song.sheets.len() as int) =~= song.sheets@);
    let ghost all = pairs_of(cands@);
    let mut kept: Vec<(&'static str, &'static str)> = Vec::new();
    let mut j: usize = 0;
    assert(all.take(0) =~= Seq::<(Seq<char>, Seq<char>)>::empty());
    while j < cands.len()
        invariant
            j <= cands.len(),
            all == pairs_of(cands@),
            pairs_of(kept@) == hinted(all.take(j as int), border_hint),
        decreases cands.len() - j,
    {
        assert(all.take(j + 1).drop_last() =~= all.take(j as int));
        let (c, d) = cands[j];
        let keep = match border_hint {
            BorderHint::Expert => eq_lit(chars_of(d).as_slice(), "EXPERT"),
            BorderHint::ReMaster => eq_lit(chars_of(d).as_slice(), "Re:MASTER"),
            BorderHint::Std => eq_lit(chars_of(c).as_slice(), "STD"),
            BorderHint::Dx => eq_lit(chars_of(c).as_slice(), "DX"),
            _ => true,
        };
        let ghost before = kept@;
        if keep {
            kept.push((c, d));
            assert(pairs_of(kept@) =~= pairs_of(before).push((c@, d@)));
        }
        j += 1;
    }
    assert(all.take(cands.len() as int) =~= all);
    if kept.len() == 0 {
        return None;
    }
    if kept.len() > 1 {
        match first_master_index(kept.as_slice()) {
            Some(m) => {
                return Some(
                    UserTierKey {
                        title: song.title.clone(),
                        chart_type: String::from_str(kept[m].0),
                        difficulty: String::from_str(kept[m].1),
                    },
                );
            },
            None => {},
        }
    }
    Some(
        UserTierKey {
            title: song.title.clone(),
            chart_type: String::from_str(kept[0].0),
            difficulty: String::from_str(kept[0].1),
        },
    )
}

/// The images of one row, in order: each cell after the second that holds an `=IMAGE(..)`
/// formula or an http(s) address.
pub open spec fn cell_urls(cells: Seq<Option<Seq<char>>>) -> Seq<Seq<char>>
    decreases cells.len(),
{
    if cells.len() == 0 {
        Seq::empty()
    } else {
        let prev = cell_urls(cells.drop_last());
        match cells.last() {
            None => prev,
            Some(raw) => match image_formula_url(raw) {
                Some(u) => prev.push(u),
                None => if http_url(raw) {
                    prev.push(raw)
                } else {
                    prev
                },
            },
        }
    }
}

/// The tier of a row: its second cell, trimmed, when that is one of the tiers.
pub open spec fn row_grade(row: Seq<Option<Seq<char>>>) -> Option<Seq<char>> {
    if row.len() > 1 && row[1] is Some && tier_grades().contains(trim(row[1]->0)) {
        Some(trim(row[1]->0))
    } else {
        None
    }
}

/// The (tier, image address) pairs of the rows, in order.
pub open spec fn tier_entries(rows: Seq<Seq<Option<Seq<char>>>>) -> Seq<(Seq<char>, Seq<char>)>
    decreases rows.len(),
{
    if rows.len() == 0 {
        Seq::empty()
    } else {
        let prev = tier_entries(rows.drop_last());
        let row = rows.last();
        match row_grade(row) {
            None => prev,
            Some(g) => prev + cell_urls(row.skip(2)).map_values(|u: Seq<char>| (g, u)),
        }
    }
}

pub open spec fn cells_view(row: Seq<Option<String>>) -> Seq<Option<Seq<char>>> {
    row.map_values(|c: Option<String>| opt_view(c))
}

pub open spec fn rows_view(rows: Seq<Vec<Option<String>>>) -> Seq<Seq<Option<Seq<char>>>> {
    rows.map_values(|r: Vec<Option<String>>| cells_view(r@))
}

pub open spec fn entry_view(e: TierImageEntry) -> (Seq<char>, Seq<char>) {
    (e.grade@, e.image_url@)
}

/// The covers of a tier sheet whose cells are given as text (`None` for a cell that holds no
/// text): for each row whose second cell is a tier, the images of its later cells.
pub fn extract_tier_entries_from_values(values: &[Vec<Option<String>>]) -> (r: Vec<TierImageEntry>)
    ensures
        r@.map_values(|e: TierImageEntry| entry_view(e)) == tier_entries(rows_view(values@)),
        forall|i: int| 0 <= i < r@.len() ==> (#[trigger] r@[i]).border_hint == BorderHint::NoBorder,
{
    let ghost rows = rows_view(values@);
    let mut out: Vec<TierImageEntry> = Vec::new();
    let mut i: usize = 0;
    assert(rows.take(0) =~= Seq::<Seq<Option<Seq<char>>>>::empty());
    while i < values.len()
        invariant
            i <= values.len(),
            rows == rows_view(values@),
            out@.map_values(|e: TierImageEntry| entry_view(e)) == tier_entries(rows.take(i as int)),
            forall|q: int| 0 <= q < out@.len() ==> (#[trigger] out@[q]).border_hint == BorderHint::NoBorder,
        decreases values.len() - i,
    {
        assert(rows.take(i + 1).drop_last() =~= rows.take(i as int));
        assert(rows.take(i + 1).last() == cells_view(values@[i as int]@));
        let row = &values[i];
        let ghost cells = cells_view(row@);
        let grade_cell: Option<&String> = if row.len() > 1 {
            match &row[1] {
                Some(g) => Some(g),
                None => None,
            }
        } else {
            None
        };
        match grade_cell {
            None => {},
            Some(g) => {
                let gt = trimmed(g.as_str());
                let grade = string_of(gt.as_slice());
                if is_tier_grade(grade.as_str()) {
                    assert(row_grade(cells) == Some(grade@));
                    let ghost tail = cells.skip(2);
                    let ghost base = out@.map_values(|e: TierImageEntry| entry_view(e));
                    let mut j: usize = 2;
                    assert(tail.take(0) =~= Seq::<Option<Seq<char>>>::empty());
                    assert(base =~= base + cell_urls(tail.take(0)).map_values(
                        |u: Seq<char>| (grade@, u),
                    ));
                    while j < row.len()
                        invariant
                            2 <= j <= row.len(),
                            cells == cells_view(row@),
                            tail == cells.skip(2),
                            out@.map_values(|e: TierImageEntry| entry_view(e)) == base
                                + cell_urls(tail.take(j - 2)).map_values(
                                |u: Seq<char>| (grade@, u),
                            ),
                            forall|q: int|
                                0 <= q < out@.len() ==> (#[trigger] out@[q]).border_hint
                                    == BorderHint::NoBorder,
                        decreases row.len() - j,
                    {
                        assert(tail.take(j - 1).drop_last() =~= tail.take(j - 2));
                        assert(tail.take(j - 1).last() == cells[j as int]);
                        let ghost before = out@;
                        let ghost prev_urls = cell_urls(tail.take(j - 2));
                        match &row[j] {
                            None => {},
                            Some(raw) => {
                                let url = match parse_image_formula(raw.as_str()) {
                                    Some(u) => Some(u),
                                    None => if is_http_url(raw.as_str()) {
                                        Some(raw.clone())
                                    } else {
                                        None
                                    },
                                };
                                match url {
                                    Some(u) => {
                                        let e = TierImageEntry {
                                            grade: grade.clone(),
                                            image_url: u,
                                            border_hint: BorderHint::NoBorder,
                                        };
                                        out.push(e);
                                        assert(out@.map_values(|e: TierImageEntry| entry_view(e))
                                            =~= before.map_values(
                                            |e: TierImageEntry| entry_view(e),
                                        ).push(entry_view(e)));
                                        assert(cell_urls(tail.take(j - 1)).map_values(
                                            |u: Seq<char>| (grade@, u),
                                        ) =~= prev_urls.map_values(|u: Seq<char>| (grade@, u)).push(
                                            (grade@, e.image_url@),
                                        ));
                                    },
                                    None => {},
                                }
                            },
                        }
                        j += 1;
                    }
                    assert(tail.take(row.len() - 2) =~= tail);
                } else {
                    assert(row_grade(cells) is None);
                }
            },
        }
        i += 1;
    }
    assert(rows.take(values.len() as int) =~= rows);
    out
}

pub open spec fn tier_map_view<V>(m: Seq<(UserTierKey, V)>) -> Seq<
    ((Seq<char>, Seq<char>, Seq<char>), V),
> {
    m.map_values(|p: (UserTierKey, V)| (tier_key_view(p.0), p.1))
}

fn same_tier_key(a: &UserTierKey, b: &UserTierKey) -> (r: bool)
    ensures
        r == (tier_key_view(*a) == tier_key_view(*b)),
{
    eq_chars(chars_of(a.title.as_str()).as_slice(), chars_of(b.title.as_str()).as_slice())
        && eq_chars(
        chars_of(a.chart_type.as_str()).as_slice(),
        chars_of(b.chart_type.as_str()).as_slice(),
    ) && eq_chars(
        chars_of(a.difficulty.as_str()).as_slice(),
        chars_of(b.difficulty.as_str()).as_slice(),
    )
}

/// Sets the value of a chart in a tier map, as `HashMap::insert` does.
pub fn tier_map_insert<V>(m: &mut Vec<(UserTierKey, V)>, k: UserTierKey, v: V)
    ensures
        tier_map_view(final(m)@) == assoc_set(tier_map_view(old(m)@), tier_key_view(k), v),
{
    let ghost orig = tier_map_view(m@);
    let ghost kv = tier_key_view(k);
    proof {
        lemma_first_key_index(orig, kv);
    }
    let mut i: usize = 0;
    while i < m.len()
        invariant
            i <= m.len(),
            orig == tier_map_view(m@),
            m@ == old(m)@,
            kv == tier_key_view(k),
            forall|q: int| 0 <= q < i ==> (#[trigger] orig[q]).0 != kv,
        decreases m.len() - i,
    {
        if same_tier_key(&m[i].0, &k) {
            proof {
                lemma_first_key_index(orig, kv);
                assert(orig[i as int].0 == kv);
                assert(first_key_index(orig, kv) == Some(i as int));
            }
            m.set(i, (k, v));
            assert(tier_map_view(m@) =~= orig.update(i as int, (kv, v)));
            return;
        }
        i += 1;
    }
    proof {
        lemma_first_key_index(orig, kv);
    }
    m.push((k, v));
    assert(tier_map_view(m@) =~= orig.push((kv, v)));
}

} // verus!
