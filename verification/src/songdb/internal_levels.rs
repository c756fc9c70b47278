//! Internal levels of the charts, as the community spreadsheets list them.
use vstd::prelude::*;

use crate::models::game_domain::{ChartType, DifficultyCategory};
use crate::models::song_title::opt_view;
use crate::text::{chars_of, eq_chars, eq_lit, string_of, trim, trimmed};
use crate::urls::{url_encode, url_encoded};

verus! {

/// Where the columns of one sheet of a spreadsheet are: each data index starts a block, and
/// the offsets locate the title, type, difficulty and internal level within a block.
#[derive(Debug, Clone)]
pub struct ExtractSpec {
    pub sheet_name: String,
    pub data_indexes: Vec<usize>,
    pub data_offsets: [usize; 4],
}

/// The title fixes of the spreadsheets: titles to rename (each title at most once) and titles
/// to leave out.
#[derive(Debug, Clone)]
pub struct TitleMappings {
    pub rename: Vec<(String, String)>,
    pub skip: Vec<String>,
}

/// The internal level of one chart, with the spreadsheet version it was read from.
#[derive(Debug, Clone)]
pub struct InternalLevelRow {
    pub song_id: String,
    pub sheet_type: ChartType,
    pub difficulty: DifficultyCategory,
    pub internal_level: String,
    pub source_version: i64,
}

/// The largest element of a sequence, 0 for an empty one.
pub open spec fn max_of(s: Seq<usize>) -> int
    decreases s.len(),
{
    if s.len() == 0 {
        0
    } else {
        let m = max_of(s.drop_last());
        if s.last() > m {
            s.last() as int
        } else {
            m
        }
    }
}

proof fn lemma_max_of_bound(s: Seq<usize>)
    ensures
        0 <= max_of(s) <= usize::MAX,
    decreases s.len(),
{
    if s.len() > 0 {
        lemma_max_of_bound(s.drop_last());
    }
}

fn max_usize(v: &[usize]) -> (r: usize)
    ensures
        r == max_of(v@),
{
    let mut m: usize = 0;
    let mut i: usize = 0;
    assert(v@.take(0) =~= Seq::<usize>::empty());
    while i < v.len()
        invariant
            i <= v.len(),
            m == max_of(v@.take(i as int)),
        decreases v.len() - i,
    {
        assert(v@.take(i + 1).drop_last() =~= v@.take(i as int));
        if v[i] > m {
            m = v[i];
        }
        i += 1;
    }
    assert(v@.take(v.len() as int) =~= v@);
    m
}

/// The last column that a sheet must be read up to.
pub open spec fn max_column_spec(extract: ExtractSpec) -> int {
    max_of(extract.data_indexes@) + max_of(extract.data_offsets@)
}

/// The last column that a sheet must be read up to: the largest data index plus the largest
/// offset.
pub fn max_column_for_extract(extract: &ExtractSpec) -> (r: usize)
    requires
        max_column_spec(*extract) <= usize::MAX,
    ensures
        r == max_column_spec(*extract),
{
    let a = max_usize(extract.data_indexes.as_slice());
    let b = max_usize(extract.data_offsets.as_slice());
    a + b
}

/// The spreadsheet name of a column (0 is `A`, 25 is `Z`, 26 is `AA`).
pub open spec fn a1_column(idx: nat) -> Seq<char>
    decreases idx,
{
    if idx < 26 {
        seq![((65 + idx) as u32) as char]
    } else {
        a1_column((idx / 26 - 1) as nat) + seq![((65 + idx % 26) as u32) as char]
    }
}

/// The spreadsheet name of a column (0 is `A`, 25 is `Z`, 26 is `AA`).
pub fn col_idx_to_a1(idx: usize) -> (r: String)
    ensures
        r@ == a1_column(idx as nat),
{
    let ghost orig = idx as nat;
    let mut idx = idx;
    let mut out: Vec<char> = Vec::new();
    loop
        invariant_except_break
            a1_column(orig) == a1_column(idx as nat) + out@,
        ensures
            a1_column(orig) == out@,
        decreases idx,
    {
        let rem = idx % 26;
        let c = ((65 + rem) as u8) as char;
        assert(c == ((65 + idx % 26) as u32) as char);
        let ghost before = out@;
        out.insert(0, c);
        assert(out@ =~= seq![c] + before);
        if idx < 26 {
            assert(a1_column(orig) =~= out@);
            break;
        }
        assert(a1_column(idx as nat) == a1_column((idx / 26 - 1) as nat) + seq![c]);
        idx = idx / 26 - 1;
        assert(a1_column(orig) =~= a1_column(idx as nat) + out@);
    }
    string_of(out.as_slice())
}

/// The first name of an association list that `key` maps to.
pub open spec fn lookup(pairs: Seq<(Seq<char>, Seq<char>)>, key: Seq<char>) -> Option<Seq<char>>
    decreases pairs.len(),
{
    if pairs.len() == 0 {
        None
    } else if pairs[0].0 == key {
        Some(pairs[0].1)
    } else {
        lookup(pairs.drop_first(), key)
    }
}

pub open spec fn pairs_view(v: Seq<(String, String)>) -> Seq<(Seq<char>, Seq<char>)> {
    v.map_values(|p: (String, String)| (p.0@, p.1@))
}

pub open spec fn strings_view(v: Seq<String>) -> Seq<Seq<char>> {
    v.map_values(|s: String| s@)
}

/// The song a spreadsheet title stands for: none for `Link` (ambiguous) and the skipped titles,
/// the renamed title where there is one, else the title itself.
pub open spec fn song_id_of_title(title: Seq<char>, m: TitleMappings) -> Option<Seq<char>> {
    if title == "Link"@ {
        None
    } else if strings_view(m.skip@).contains(title) {
        None
    } else {
        match lookup(pairs_view(m.rename@), title) {
            Some(mapped) => Some(mapped),
            None => Some(title),
        }
    }
}

/// The song a spreadsheet title stands for.
pub fn song_id_from_internal_level_title(title: &str, mappings: &TitleMappings) -> (r: Option<
    String,
>)
    ensures
        opt_view(r) == song_id_of_title(title@, *mappings),
{
    let t = chars_of(title);
    if eq_lit(t.as_slice(), "Link") {
        return None;
    }
    let ghost skip = strings_view(mappings.skip@);
    let mut i: usize = 0;
    while i < mappings.skip.len()
        invariant
            i <= mappings.skip.len(),
            t@ == title@,
            skip == strings_view(mappings.skip@),
            forall|k: int| 0 <= k < i ==> skip[k] != title@,
        decreases mappings.skip.len() - i,
    {
        let s = chars_of(mappings.skip[i].as_str());
        if eq_chars(s.as_slice(), t.as_slice()) {
            assert(skip[i as int] == title@);
            return None;
        }
        i += 1;
    }
    assert(!skip.contains(title@));
    let ghost pairs = pairs_view(mappings.rename@);
    let mut j: usize = 0;
    assert(pairs.skip(0) =~= pairs);
    while j < mappings.rename.len()
        invariant
            j <= mappings.rename.len(),
            t@ == title@,
            pairs == pairs_view(mappings.rename@),
            lookup(pairs, title@) == lookup(pairs.skip(j as int), title@),
            title@ != "Link"@,
            !strings_view(mappings.skip@).contains(title@),
        decreases mappings.rename.len() - j,
    {
        let k = chars_of(mappings.rename[j].0.as_str());
        assert(pairs.skip(j as int)[0] == pairs[j as int]);
        if eq_chars(k.as_slice(), t.as_slice()) {
            assert(pairs[j as int].0 == title@);
            assert(lookup(pairs.skip(j as int), title@) == Some(pairs[j as int].1));
            return Some(mappings.rename[j].1.clone());
        }
        assert(pairs.skip(j as int).drop_first() =~= pairs.skip(j + 1));
        j += 1;
    }
    assert(pairs.skip(j as int) =~= Seq::<(Seq<char>, Seq<char>)>::empty());
    Some(String::from_str(title))
}

/// The chart that a spreadsheet row names: the song of its trimmed title, `STD` or `DX`, and a
/// difficulty abbreviation, each of them present.
pub open spec fn row_keys_spec(
    title: Option<Seq<char>>,
    sheet_type: Option<Seq<char>>,
    difficulty: Option<Seq<char>>,
    m: TitleMappings,
) -> Option<(Seq<char>, ChartType, DifficultyCategory)> {
    match (title, sheet_type, difficulty) {
        (Some(t), Some(st), Some(d)) => if trim(t).len() == 0 {
            None
        } else {
            match song_id_of_title(trim(t), m) {
                None => None,
                Some(id) => {
                    let ct = if trim(st) == "STD"@ {
                        Some(ChartType::Std)
                    } else if trim(st) == "DX"@ {
                        Some(ChartType::Dx)
                    } else {
                        None
                    };
                    match (ct, DifficultyCategory::parse_abbreviation(trim(d))) {
                        (Some(c), Some(dc)) => Some((id, c, dc)),
                        _ => None,
                    }
                },
            }
        },
        _ => None,
    }
}

pub open spec fn opt_str_view(o: Option<&str>) -> Option<Seq<char>> {
    match o {
        Some(s) => Some(s@),
        None => None,
    }
}

/// The chart that a spreadsheet row names, when it names one.
pub fn map_row_keys(
    title: Option<&str>,
    sheet_type: Option<&str>,
    difficulty: Option<&str>,
    mappings: &TitleMappings,
) -> (r: Option<(String, ChartType, DifficultyCategory)>)
    ensures
        match r {
            Some((id, c, d)) => row_keys_spec(
                opt_str_view(title),
                opt_str_view(sheet_type),
                opt_str_view(difficulty),
                *mappings,
            ) == Some((id@, c, d)),
            None => row_keys_spec(
                opt_str_view(title),
                opt_str_view(sheet_type),
                opt_str_view(difficulty),
                *mappings,
            ) is None,
        },
{
    let (title, sheet_type, difficulty) = match (title, sheet_type, difficulty) {
        (Some(a), Some(b), Some(c)) => (a, b, c),
        _ => {
            return None;
        },
    };
    let t = trimmed(title);
    if t.len() == 0 {
        return None;
    }
    let ts = string_of(t.as_slice());
    let song_id = match song_id_from_internal_level_title(ts.as_str(), mappings) {
        Some(id) => id,
        None => {
            return None;
        },
    };
    let st = trimmed(sheet_type);
    let chart_type = if eq_lit(st.as_slice(), "STD") {
        ChartType::Std
    } else if eq_lit(st.as_slice(), "DX") {
        ChartType::Dx
    } else {
        return None;
    };
    let diff = match DifficultyCategory::from_sheet_abbreviation(difficulty) {
        Some(d) => d,
        None => {
            return None;
        },
    };
    Some((song_id, chart_type, diff))
}

/// The key that identifies a chart among internal levels.
pub open spec fn level_key(r: InternalLevelRow) -> (Seq<char>, ChartType, DifficultyCategory) {
    (r.song_id@, r.sheet_type, r.difficulty)
}

/// The index of the first row of `acc` with the key of `row`.
pub open spec fn key_index(acc: Seq<InternalLevelRow>, key: (Seq<char>, ChartType, DifficultyCategory)) -> Option<int>
    decreases acc.len(),
{
    if acc.len() == 0 {
        None
    } else {
        match key_index(acc.drop_last(), key) {
            Some(i) => Some(i),
            None => if level_key(acc.last()) == key {
                Some(acc.len() - 1)
            } else {
                None
            },
        }
    }
}

/// Adds one row: a chart seen before keeps its place and takes the row only when the row
/// comes from a newer spreadsheet version; a new chart is appended.
pub open spec fn merge_step(acc: Seq<InternalLevelRow>, row: InternalLevelRow) -> Seq<InternalLevelRow> {
    match key_index(acc, level_key(row)) {
        Some(i) => if row.source_version > acc[i].source_version {
            acc.update(i, row)
        } else {
            acc
        },
        None => acc.push(row),
    }
}

/// All rows merged in order, one per chart.
pub open spec fn merged_levels(rows: Seq<InternalLevelRow>) -> Seq<InternalLevelRow>
    decreases rows.len(),
{
    if rows.len() == 0 {
        Seq::empty()
    } else {
        merge_step(merged_levels(rows.drop_last()), rows.last())
    }
}

pub proof fn lemma_key_index(acc: Seq<InternalLevelRow>, key: (Seq<char>, ChartType, DifficultyCategory))
    ensures
        match key_index(acc, key) {
            Some(i) => 0 <= i < acc.len() && level_key(acc[i]) == key && forall|j: int|
                0 <= j < i ==> level_key(#[trigger] acc[j]) != key,
            None => forall|j: int| 0 <= j < acc.len() ==> level_key(#[trigger] acc[j]) != key,
        },
    decreases acc.len(),
{
    if acc.len() > 0 {
        let prev = acc.drop_last();
        lemma_key_index(prev, key);
        assert forall|j: int| 0 <= j < prev.len() implies #[trigger] acc[j] == prev[j] by {}
    }
}

fn same_key(a: &InternalLevelRow, b: &InternalLevelRow) -> (r: bool)
    ensures
        r == (level_key(*a) == level_key(*b)),
{
    if a.sheet_type != b.sheet_type || a.difficulty != b.difficulty {
        return false;
    }
    let x = chars_of(a.song_id.as_str());
    let y = chars_of(b.song_id.as_str());
    eq_chars(x.as_slice(), y.as_slice())
}

fn find_key(acc: &Vec<InternalLevelRow>, row: &InternalLevelRow) -> (r: Option<usize>)
    ensures
        match r {
            Some(i) => i < acc.len() && key_index(acc@, level_key(*row)) == Some(i as int),
            None => key_index(acc@, level_key(*row)) is None,
        },
{
    let mut i: usize = 0;
    while i < acc.len()
        invariant
            i <= acc.len(),
            forall|j: int| 0 <= j < i ==> level_key(#[trigger] acc@[j]) != level_key(*row),
        decreases acc.len() - i,
    {
        if same_key(&acc[i], row) {
            proof {
                lemma_key_index(acc@, level_key(*row));
                assert(level_key(acc@[i as int]) == level_key(*row));
            }
            return Some(i);
        }
        i += 1;
    }
    proof {
        lemma_key_index(acc@, level_key(*row));
    }
    None
}

/// Keeps one row per chart: the one of the newest spreadsheet version, the first of them on a
/// tie, at the place where the chart first appeared.
pub fn merge_internal_level_rows(rows: Vec<InternalLevelRow>) -> (r: Vec<InternalLevelRow>)
    ensures
        r@ == merged_levels(rows@),
{
    let ghost all = rows@;
    let mut acc: Vec<InternalLevelRow> = Vec::new();
    assert(all.take(0) =~= Seq::<InternalLevelRow>::empty());
    for row in it: rows
        invariant
            it.seq() == all,
            acc@ == merged_levels(all.take(it.index() as int)),
    {
        assert(all.take(it.index() + 1).drop_last() =~= all.take(it.index() as int));
        assert(all.take(it.index() + 1).last() == row);
        match find_key(&acc, &row) {
            Some(i) => {
                if row.source_version > acc[i].source_version {
                    acc.set(i, row);
                }
            },
            None => {
                acc.push(row);
            },
        }
    }
    assert(all.take(all.len() as int) =~= all);
    acc
}

/// No two rows of the merged list name the same chart.
pub proof fn law_merged_levels_one_row_per_chart(rows: Seq<InternalLevelRow>)
    ensures
        forall|i: int, j: int|
            0 <= i < j < merged_levels(rows).len() ==> level_key(merged_levels(rows)[i])
                != level_key(merged_levels(rows)[j]),
    decreases rows.len(),
{
    if rows.len() > 0 {
        let prev = merged_levels(rows.drop_last());
        law_merged_levels_one_row_per_chart(rows.drop_last());
        lemma_key_index(prev, level_key(rows.last()));
    }
}

/// The newest spreadsheet version, 0 when there is none.
pub open spec fn latest_version_spec(versions: Seq<i64>) -> i64
    decreases versions.len(),
{
    if versions.len() == 0 {
        0
    } else {
        let m = latest_version_spec(versions.drop_last());
        if versions.len() == 1 || versions.last() > m {
            versions.last()
        } else {
            m
        }
    }
}

/// The newest spreadsheet version, 0 when there is none.
pub fn latest_source_version(versions: &[i64]) -> (r: i64)
    ensures
        r == latest_version_spec(versions@),
{
    let mut m: i64 = 0;
    let mut i: usize = 0;
    assert(versions@.take(0) =~= Seq::<i64>::empty());
    while i < versions.len()
        invariant
            i <= versions.len(),
            m == latest_version_spec(versions@.take(i as int)),
        decreases versions.len() - i,
    {
        assert(versions@.take(i + 1).drop_last() =~= versions@.take(i as int));
        if i == 0 || versions[i] > m {
            m = versions[i];
        }
        i += 1;
    }
    assert(versions@.take(versions.len() as int) =~= versions@);
    m
}

/// The Google Sheets address of the values of a sheet, from column `A` to `max_col_idx`.
pub open spec fn sheet_values_url_spec(spreadsheet_id: Seq<char>, sheet_name: Seq<char>, max_col_idx: nat) -> Seq<char> {
    "https://sheets.googleapis.com/v4/spreadsheets/"@ + spreadsheet_id + "/values/"@ + url_encoded(
        sheet_name + "!A:"@ + a1_column(max_col_idx),
    )
}

/// The Google Sheets address of the values of a sheet, from column `A` to `max_col_idx`.
pub fn sheet_values_url(spreadsheet_id: &str, sheet_name: &str, max_col_idx: usize) -> (r: String)
    ensures
        r@ == sheet_values_url_spec(spreadsheet_id@, sheet_name@, max_col_idx as nat),
{
    let mut range = String::from_str(sheet_name);
    range.push_str("!A:");
    let end_col = col_idx_to_a1(max_col_idx);
    range.push_str(end_col.as_str());
    let encoded = url_encode(range.as_str());
    let mut url = String::from_str("https://sheets.googleapis.com/v4/spreadsheets/");
    url.push_str(spreadsheet_id);
    url.push_str("/values/");
    url.push_str(encoded.as_str());
    url
}

/// A spreadsheet row names a chart of the type written in its type cell (`STD` or `DX`, the
/// chart type's display name) and of the difficulty abbreviated in its difficulty cell.
pub proof fn law_row_keys_follow_cells(
    title: Option<Seq<char>>,
    sheet_type: Option<Seq<char>>,
    difficulty: Option<Seq<char>>,
    m: TitleMappings,
)
    ensures
        row_keys_spec(title, sheet_type, difficulty, m) matches Some(k) ==> trim(sheet_type->0)
            == k.1.name() && DifficultyCategory::parse_abbreviation(trim(difficulty->0)) == Some(
            k.2,
        ),
{
}

} // verus!
