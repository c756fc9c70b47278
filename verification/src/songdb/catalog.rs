//! The song data file, built from the song and chart rows of the database.
use vstd::prelude::*;

use crate::assoc::{assoc_get, lemma_first_key_index};
use crate::models::song_catalog::{SongDataIndex, SongDataRoot, SongDataSheet, SongDataSong};
use crate::models::song_title::opt_view;
use crate::songdb::internal_levels::{key_index, lemma_key_index, level_key, InternalLevelRow};
use crate::songdb::user_tiers::{tier_map_view, UserTierKey, UserTierValue};
use crate::songdb::{SheetRow, SongRow};
use crate::text::{chars_of, eq_chars, string_of, trim, trimmed};

verus! {

/// The order of `String`: by code points, a proper prefix first.
pub open spec fn key_less(a: Seq<char>, b: Seq<char>) -> bool
    decreases a.len(),
{
    if b.len() == 0 {
        false
    } else if a.len() == 0 {
        true
    } else if a[0] < b[0] {
        true
    } else if a[0] == b[0] {
        key_less(a.drop_first(), b.drop_first())
    } else {
        false
    }
}

fn chars_less(a: &[char], b: &[char]) -> (r: bool)
    ensures
        r == key_less(a@, b@),
{
    let mut i: usize = 0;
    assert(a@.skip(0) =~= a@);
    assert(b@.skip(0) =~= b@);
    while i < a.len() && i < b.len() && a[i] == b[i]
        invariant
            i <= a.len(),
            i <= b.len(),
            key_less(a@, b@) == key_less(a@.skip(i as int), b@.skip(i as int)),
        decreases a.len() - i,
    {
        assert(a@.skip(i as int).drop_first() =~= a@.skip(i + 1));
        assert(b@.skip(i as int).drop_first() =~= b@.skip(i + 1));
        i += 1;
    }
    if i >= b.len() {
        return false;
    }
    if i >= a.len() {
        return true;
    }
    a[i] < b[i]
}

/// Puts `(k, v)` into a list sorted by key: in place of the pair with key `k`, else before the
/// first larger key, as `BTreeMap::insert` does to its entries.
pub open spec fn sorted_insert<V>(m: Seq<(Seq<char>, V)>, k: Seq<char>, v: V) -> Seq<(Seq<char>, V)>
    decreases m.len(),
{
    if m.len() == 0 {
        seq![(k, v)]
    } else if m[0].0 == k {
        m.update(0, (k, v))
    } else if key_less(k, m[0].0) {
        seq![(k, v)] + m
    } else {
        seq![m[0]] + sorted_insert(m.drop_first(), k, v)
    }
}

/// Whether a pair stops the walk of `sorted_insert` for key `k`.
pub open spec fn stops_at(key: Seq<char>, k: Seq<char>) -> bool {
    key == k || key_less(k, key)
}

proof fn lemma_sorted_insert_at<V>(m: Seq<(Seq<char>, V)>, k: Seq<char>, v: V, i: int)
    requires
        0 <= i <= m.len(),
        forall|q: int| 0 <= q < i ==> !stops_at((#[trigger] m[q]).0, k),
        i < m.len() ==> stops_at(m[i].0, k),
    ensures
        sorted_insert(m, k, v) == (if i < m.len() && m[i].0 == k {
            m.update(i, (k, v))
        } else {
            m.insert(i, (k, v))
        }),
    decreases i,
{
    if i == 0 {
        if m.len() > 0 && m[0].0 != k {
            assert(seq![(k, v)] + m =~= m.insert(0, (k, v)));
        }
    } else {
        let rest = m.drop_first();
        assert forall|q: int| 0 <= q < i - 1 implies !stops_at((#[trigger] rest[q]).0, k) by {
            assert(rest[q] == m[q + 1]);
        }
        lemma_sorted_insert_at(rest, k, v, i - 1);
        assert(!stops_at(m[0].0, k));
        if i < m.len() && m[i].0 == k {
            assert(seq![m[0]] + rest.update(i - 1, (k, v)) =~= m.update(i, (k, v)));
        } else {
            assert(seq![m[0]] + rest.insert(i - 1, (k, v)) =~= m.insert(i, (k, v)));
        }
    }
}

/// Whether the keys increase strictly along the list.
pub open spec fn strictly_sorted<V>(m: Seq<(Seq<char>, V)>) -> bool {
    forall|i: int, j: int| 0 <= i < j < m.len() ==> key_less((#[trigger] m[i]).0, (#[trigger] m[j]).0)
}

proof fn lemma_key_less_irreflexive(a: Seq<char>)
    ensures
        !key_less(a, a),
    decreases a.len(),
{
    if a.len() > 0 {
        lemma_key_less_irreflexive(a.drop_first());
    }
}

proof fn lemma_key_less_transitive(a: Seq<char>, b: Seq<char>, c: Seq<char>)
    requires
        key_less(a, b),
        key_less(b, c),
    ensures
        key_less(a, c),
    decreases a.len(),
{
    if a.len() > 0 && b.len() > 0 && c.len() > 0 && a[0] == b[0] && b[0] == c[0] {
        lemma_key_less_transitive(a.drop_first(), b.drop_first(), c.drop_first());
    }
}

proof fn lemma_key_less_total(a: Seq<char>, b: Seq<char>)
    ensures
        a == b || key_less(a, b) || key_less(b, a),
    decreases a.len(),
{
    if a.len() > 0 && b.len() > 0 && a[0] == b[0] {
        lemma_key_less_total(a.drop_first(), b.drop_first());
        if a.drop_first() == b.drop_first() {
            assert(a =~= seq![a[0]] + a.drop_first());
            assert(b =~= seq![b[0]] + b.drop_first());
        }
    } else if a.len() == 0 && b.len() == 0 {
        assert(a =~= b);
    }
}

/// Whether some pair of the list has key `k`.
pub open spec fn has_key<V>(m: Seq<(Seq<char>, V)>, k: Seq<char>) -> bool {
    exists|j: int| 0 <= j < m.len() && (#[trigger] m[j]).0 == k
}

proof fn lemma_sorted_insert_keeps_order<V>(m: Seq<(Seq<char>, V)>, k: Seq<char>, v: V)
    requires
        strictly_sorted(m),
    ensures
        strictly_sorted(sorted_insert(m, k, v)),
        has_key(sorted_insert(m, k, v), k),
        forall|x: Seq<char>| #[trigger] has_key(m, x) ==> has_key(sorted_insert(m, k, v), x),
        forall|x: Seq<char>| #[trigger] has_key(sorted_insert(m, k, v), x) ==> x == k || has_key(m, x),
    decreases m.len(),
{
    let r = sorted_insert(m, k, v);
    if m.len() == 0 {
        assert(r[0].0 == k);
    } else if m[0].0 == k {
        assert(r[0].0 == k);
        assert forall|x: Seq<char>| #[trigger] has_key(m, x) implies has_key(r, x) by {
            let q = choose|q: int| 0 <= q < m.len() && (#[trigger] m[q]).0 == x;
            assert(r[q].0 == m[q].0);
        }
        assert forall|x: Seq<char>| #[trigger] has_key(r, x) implies x == k || has_key(m, x) by {
            let q = choose|q: int| 0 <= q < r.len() && (#[trigger] r[q]).0 == x;
            assert(r[q].0 == m[q].0);
        }
    } else if key_less(k, m[0].0) {
        assert(r[0].0 == k);
        assert forall|i: int, j: int| 0 <= i < j < r.len() implies key_less((#[trigger] r[i]).0, (#[trigger] r[j]).0) by {
            if i == 0 {
                if j > 1 {
                    lemma_key_less_transitive(k, m[0].0, m[j - 1].0);
                }
            } else {
                assert(r[i] == m[i - 1] && r[j] == m[j - 1]);
            }
        }
        assert forall|x: Seq<char>| #[trigger] has_key(m, x) implies has_key(r, x) by {
            let q = choose|q: int| 0 <= q < m.len() && (#[trigger] m[q]).0 == x;
            assert(r[q + 1].0 == m[q].0);
        }
        assert forall|x: Seq<char>| #[trigger] has_key(r, x) implies x == k || has_key(m, x) by {
            let q = choose|q: int| 0 <= q < r.len() && (#[trigger] r[q]).0 == x;
            if q > 0 {
                assert(r[q].0 == m[q - 1].0);
            }
        }
    } else {
        let rest = m.drop_first();
        assert forall|i: int, j: int| 0 <= i < j < rest.len() implies key_less((#[trigger] rest[i]).0, (#[trigger] rest[j]).0) by {
            assert(rest[i] == m[i + 1] && rest[j] == m[j + 1]);
        }
        lemma_sorted_insert_keeps_order(rest, k, v);
        let rr = sorted_insert(rest, k, v);
        assert(r == seq![m[0]] + rr);
        lemma_key_less_total(k, m[0].0);
        assert(key_less(m[0].0, k));
        assert forall|j: int| 0 <= j < rr.len() implies key_less(m[0].0, (#[trigger] rr[j]).0) by {
            if rr[j].0 != k {
                assert(has_key(rr, rr[j].0));
                assert(has_key(rest, rr[j].0));
                let q = choose|q: int| 0 <= q < rest.len() && (#[trigger] rest[q]).0 == rr[j].0;
                assert(rest[q] == m[q + 1]);
            }
        }
        assert forall|i: int, j: int| 0 <= i < j < r.len() implies key_less((#[trigger] r[i]).0, (#[trigger] r[j]).0) by {
            if i == 0 {
                assert(r[j] == rr[j - 1]);
            } else {
                assert(r[i] == rr[i - 1] && r[j] == rr[j - 1]);
            }
        }
        let jk = choose|j: int| 0 <= j < rr.len() && (#[trigger] rr[j]).0 == k;
        assert(r[jk + 1].0 == k);
        assert forall|x: Seq<char>| #[trigger] has_key(m, x) implies has_key(r, x) by {
            let q = choose|q: int| 0 <= q < m.len() && (#[trigger] m[q]).0 == x;
            if q == 0 {
                assert(r[0].0 == x);
            } else {
                assert(rest[q - 1] == m[q]);
                assert(has_key(rest, x));
                let j = choose|j: int| 0 <= j < rr.len() && (#[trigger] rr[j]).0 == x;
                assert(r[j + 1].0 == x);
            }
        }
        assert forall|x: Seq<char>| #[trigger] has_key(r, x) implies x == k || has_key(m, x) by {
            let q = choose|q: int| 0 <= q < r.len() && (#[trigger] r[q]).0 == x;
            if q == 0 {
                assert(m[0].0 == x);
            } else {
                assert(r[q] == rr[q - 1]);
                assert(has_key(rr, x));
                if x != k {
                    let q2 = choose|q2: int| 0 <= q2 < rest.len() && (#[trigger] rest[q2]).0 == x;
                    assert(m[q2 + 1].0 == x);
                }
            }
        }
    }
}

/// The data file lists its songs in increasing order of song id, so each id once; the song
/// ids it lists are exactly those of the rows.
pub proof fn law_song_entries_sorted_and_complete(songs: Seq<SongRow>)
    ensures
        strictly_sorted(song_entries(songs)),
        forall|x: Seq<char>| #[trigger] has_key(song_entries(songs), x) <==> exists|i: int|
            0 <= i < songs.len() && (#[trigger] songs[i]).song_id@ == x,
    decreases songs.len(),
{
    if songs.len() > 0 {
        let prev = songs.drop_last();
        law_song_entries_sorted_and_complete(prev);
        let m = song_entries(prev);
        let k = songs.last().song_id@;
        lemma_sorted_insert_keeps_order(m, k, songs.last());
        let r = song_entries(songs);
        assert forall|x: Seq<char>| #[trigger] has_key(r, x) implies exists|i: int|
            0 <= i < songs.len() && (#[trigger] songs[i]).song_id@ == x by {
            if x == k {
                assert(songs[songs.len() - 1].song_id@ == x);
            } else {
                assert(has_key(m, x));
                let i0 = choose|i: int| 0 <= i < prev.len() && (#[trigger] prev[i]).song_id@ == x;
                assert(songs[i0] == prev[i0]);
            }
        }
        assert forall|x: Seq<char>| (exists|i: int| 0 <= i < songs.len() && (#[trigger] songs[i]).song_id@ == x) implies #[trigger] has_key(r, x) by {
            let i = choose|i: int| 0 <= i < songs.len() && (#[trigger] songs[i]).song_id@ == x;
            if i < prev.len() {
                assert(prev[i] == songs[i]);
                assert(has_key(m, x));
            }
        }
    }
}

/// The songs of the data file, keyed by song id and sorted: each id once, with the last
/// song row that has it.
pub open spec fn song_entries(songs: Seq<SongRow>) -> Seq<(Seq<char>, SongRow)>
    decreases songs.len(),
{
    if songs.len() == 0 {
        Seq::empty()
    } else {
        sorted_insert(song_entries(songs.drop_last()), songs.last().song_id@, songs.last())
    }
}

/// The chart rows of a song, in order.
pub open spec fn sheets_of(sheets: Seq<SheetRow>, id: Seq<char>) -> Seq<SheetRow>
    decreases sheets.len(),
{
    if sheets.len() == 0 {
        Seq::empty()
    } else {
        let prev = sheets_of(sheets.drop_last(), id);
        if sheets.last().song_id@ == id {
            prev.push(sheets.last())
        } else {
            prev
        }
    }
}

/// The internal level of a chart: the first internal-level row of the chart, trimmed.
pub open spec fn internal_level_of(levels: Seq<InternalLevelRow>, sh: SheetRow) -> Option<Seq<char>> {
    match key_index(levels, (sh.song_id@, sh.sheet_type, sh.difficulty)) {
        Some(i) => Some(trim(levels[i].internal_level@)),
        None => None,
    }
}

/// The tier of a chart of the song titled `title`, when tiers are given.
pub open spec fn user_level_of(
    tiers: Option<Seq<(UserTierKey, UserTierValue)>>,
    title: Seq<char>,
    sh: SheetRow,
) -> Option<Seq<char>> {
    match tiers {
        None => None,
        Some(t) => match assoc_get(
            tier_map_view(t),
            (title, sh.sheet_type.name(), sh.difficulty.name()),
        ) {
            Some(v) => Some(v.grade@),
            None => None,
        },
    }
}

/// A chart of the data file seen as (type, difficulty, level, internal level, tier).
pub open spec fn data_sheet_view(s: SongDataSheet) -> (
    Seq<char>,
    Seq<char>,
    Seq<char>,
    Option<Seq<char>>,
    Option<Seq<char>>,
) {
    (s.sheet_type@, s.difficulty@, s.level@, opt_view(s.internal_level), opt_view(s.user_level))
}

/// The chart of the data file that a chart row gives.
pub open spec fn data_sheet_spec(
    sh: SheetRow,
    title: Seq<char>,
    levels: Seq<InternalLevelRow>,
    tiers: Option<Seq<(UserTierKey, UserTierValue)>>,
) -> (Seq<char>, Seq<char>, Seq<char>, Option<Seq<char>>, Option<Seq<char>>) {
    (
        sh.sheet_type.lower_name(),
        sh.difficulty.lower_name(),
        sh.level@,
        internal_level_of(levels, sh),
        user_level_of(tiers, title, sh),
    )
}

/// Whether `out` is the song of the data file for the song row `row` with id `id`: its title,
/// version and cover, and a chart for each chart row of the id, in order.
pub open spec fn data_song_spec(
    out: SongDataSong,
    id: Seq<char>,
    row: SongRow,
    sheets: Seq<SheetRow>,
    levels: Seq<InternalLevelRow>,
    tiers: Option<Seq<(UserTierKey, UserTierValue)>>,
) -> bool {
    &&& out.title@ == row.title@
    &&& opt_view(out.version) == opt_view(row.version)
    &&& opt_view(out.image_name) == Some(row.image_name@)
    &&& out.sheets@.map_values(|s: SongDataSheet| data_sheet_view(s)) == sheets_of(sheets, id).map_values(
        |sh: SheetRow| data_sheet_spec(sh, row.title@, levels, tiers),
    )
}

/// Whether `root` is the data file for the given rows: one song per song id, sorted by id.
pub open spec fn data_root_spec(
    root: SongDataRoot,
    songs: Seq<SongRow>,
    sheets: Seq<SheetRow>,
    levels: Seq<InternalLevelRow>,
    tiers: Option<Seq<(UserTierKey, UserTierValue)>>,
) -> bool {
    let entries = song_entries(songs);
    &&& root.songs@.len() == entries.len()
    &&& forall|i: int|
        0 <= i < entries.len() ==> data_song_spec(
            #[trigger] root.songs@[i],
            entries[i].0,
            entries[i].1,
            sheets,
            levels,
            tiers,
        )
}

spec fn entries_view(keys: Seq<Vec<char>>, idx: Seq<usize>, songs: Seq<SongRow>) -> Seq<
    (Seq<char>, SongRow),
> {
    Seq::new(keys.len(), |i: int| (keys[i]@, songs[idx[i] as int]))
}

fn find_level(levels: &[InternalLevelRow], sh: &SheetRow) -> (r: Option<usize>)
    ensures
        match r {
            Some(i) => i < levels.len() && key_index(levels@, (sh.song_id@, sh.sheet_type, sh.difficulty))
                == Some(i as int),
            None => key_index(levels@, (sh.song_id@, sh.sheet_type, sh.difficulty)) is None,
        },
{
    let key = chars_of(sh.song_id.as_str());
    let ghost kv = (sh.song_id@, sh.sheet_type, sh.difficulty);
    let mut i: usize = 0;
    while i < levels.len()
        invariant
            i <= levels.len(),
            key@ == sh.song_id@,
            kv == (sh.song_id@, sh.sheet_type, sh.difficulty),
            forall|q: int| 0 <= q < i ==> level_key(#[trigger] levels@[q]) != kv,
        decreases levels.len() - i,
    {
        let row = &levels[i];
        if row.sheet_type == sh.sheet_type && row.difficulty == sh.difficulty && eq_chars(
            chars_of(row.song_id.as_str()).as_slice(),
            key.as_slice(),
        ) {
            proof {
                lemma_key_index(levels@, kv);
                assert(level_key(levels@[i as int]) == kv);
            }
            return Some(i);
        }
        i += 1;
    }
    proof {
        lemma_key_index(levels@, kv);
    }
    None
}

fn find_tier(
    tiers: &[(UserTierKey, UserTierValue)],
    title: &[char],
    chart_type: &str,
    difficulty: &str,
) -> (r: Option<usize>)
    ensures
        match r {
            Some(i) => i < tiers.len() && crate::assoc::first_key_index(
                tier_map_view(tiers@),
                (title@, chart_type@, difficulty@),
            ) == Some(i as int),
            None => crate::assoc::first_key_index(
                tier_map_view(tiers@),
                (title@, chart_type@, difficulty@),
            ) is None,
        },
{
    let ghost m = tier_map_view(tiers@);
    let ghost kv = (title@, chart_type@, difficulty@);
    let ct = chars_of(chart_type);
    let df = chars_of(difficulty);
    let mut i: usize = 0;
    while i < tiers.len()
        invariant
            i <= tiers.len(),
            m == tier_map_view(tiers@),
            kv == (title@, chart_type@, difficulty@),
            ct@ == chart_type@,
            df@ == difficulty@,
            forall|q: int| 0 <= q < i ==> (#[trigger] m[q]).0 != kv,
        decreases tiers.len() - i,
    {
        let k = &tiers[i].0;
        if eq_chars(chars_of(k.title.as_str()).as_slice(), title) && eq_chars(
            chars_of(k.chart_type.as_str()).as_slice(),
            ct.as_slice(),
        ) && eq_chars(chars_of(k.difficulty.as_str()).as_slice(), df.as_slice()) {
            proof {
                lemma_first_key_index(m, kv);
                assert(m[i as int].0 == kv);
            }
            return Some(i);
        }
        i += 1;
    }
    proof {
        lemma_first_key_index(m, kv);
    }
    None
}

fn data_sheet(
    sh: &SheetRow,
    title: &String,
    levels: &[InternalLevelRow],
    tiers: Option<&[(UserTierKey, UserTierValue)]>,
) -> (r: SongDataSheet)
    ensures
        data_sheet_view(r) == data_sheet_spec(
            *sh,
            title@,
            levels@,
            match tiers {
                Some(t) => Some(t@),
                None => None,
            },
        ),
{
    let internal_level = match find_level(levels, sh) {
        Some(i) => Some(string_of(trimmed(levels[i].internal_level.as_str()).as_slice())),
        None => None,
    };
    let user_level = match tiers {
        None => None,
        Some(t) => {
            let tc = chars_of(title.as_str());
            match find_tier(t, tc.as_slice(), sh.sheet_type.as_str(), sh.difficulty.as_str()) {
                Some(i) => Some(t[i].1.grade.clone()),
                None => None,
            }
        },
    };
    SongDataSheet {
        sheet_type: String::from_str(sh.sheet_type.as_lowercase()),
        difficulty: String::from_str(sh.difficulty.as_lowercase()),
        level: sh.level.clone(),
        internal_level,
        user_level,
    }
}

/// The song data file for the song and chart rows: the songs sorted by id, each id once (the
/// last row with it), each with its charts in order, their internal levels and, when tiers
/// are given, their tiers.
pub fn build_data_root(
    songs: &[SongRow],
    sheets: &[SheetRow],
    internal_levels: &[InternalLevelRow],
    user_tiers: Option<&[(UserTierKey, UserTierValue)]>,
) -> (r: SongDataRoot)
    ensures
        data_root_spec(
            r,
            songs@,
            sheets@,
            internal_levels@,
            match user_tiers {
                Some(t) => Some(t@),
                None => None,
            },
        ),
{
    let ghost tiers = match user_tiers {
        Some(t) => Some(t@),
        None => None,
    };
    let mut keys: Vec<Vec<char>> = Vec::new();
    let mut idx: Vec<usize> = Vec::new();
    let mut n: usize = 0;
    assert(songs@.take(0) =~= Seq::<SongRow>::empty());
    assert(entries_view(keys@, idx@, songs@) =~= Seq::<(Seq<char>, SongRow)>::empty());
    while n < songs.len()
        invariant
            n <= songs.len(),
            keys@.len() == idx@.len(),
            forall|q: int| 0 <= q < idx@.len() ==> (#[trigger] idx@[q]) < n,
            entries_view(keys@, idx@, songs@) == song_entries(songs@.take(n as int)),
        decreases songs.len() - n,
    {
        assert(songs@.take(n + 1).drop_last() =~= songs@.take(n as int));
        assert(songs@.take(n + 1).last() == songs@[n as int]);
        let ghost m = entries_view(keys@, idx@, songs@);
        let k = chars_of(songs[n].song_id.as_str());
        let mut p: usize = 0;
        while p < keys.len() && !(eq_chars(keys[p].as_slice(), k.as_slice()) || chars_less(
            k.as_slice(),
            keys[p].as_slice(),
        ))
            invariant
                p <= keys.len(),
                keys@.len() == idx@.len(),
                m == entries_view(keys@, idx@, songs@),
                forall|q: int| 0 <= q < p ==> !stops_at((#[trigger] m[q]).0, k@),
            decreases keys.len() - p,
        {
            p += 1;
        }
        proof {
            lemma_sorted_insert_at(m, k@, songs@[n as int], p as int);
        }
        if p < keys.len() && eq_chars(keys[p].as_slice(), k.as_slice()) {
            idx.set(p, n);
            assert(entries_view(keys@, idx@, songs@) =~= m.update(
                p as int,
                (k@, songs@[n as int]),
            ));
        } else {
            keys.insert(p, k);
            idx.insert(p, n);
            assert(entries_view(keys@, idx@, songs@) =~= m.insert(
                p as int,
                (songs@[n as int].song_id@, songs@[n as int]),
            ));
        }
        n += 1;
    }
    assert(songs@.take(songs.len() as int) =~= songs@);
    let ghost entries = song_entries(songs@);
    let mut out: Vec<SongDataSong> = Vec::new();
    let mut e: usize = 0;
    while e < keys.len()
        invariant
            e <= keys.len(),
            keys@.len() == idx@.len(),
            forall|q: int| 0 <= q < idx@.len() ==> (#[trigger] idx@[q]) < songs@.len(),
            entries == entries_view(keys@, idx@, songs@),
            tiers == (match user_tiers {
                Some(t) => Some(t@),
                None => None,
            }),
            out@.len() == e,
            forall|q: int|
                0 <= q < e ==> data_song_spec(
                    #[trigger] out@[q],
                    entries[q].0,
                    entries[q].1,
                    sheets@,
                    internal_levels@,
                    tiers,
                ),
        decreases keys.len() - e,
    {
        let row = &songs[idx[e]];
        let key = &keys[e];
        let mut data_sheets: Vec<SongDataSheet> = Vec::new();
        let mut s: usize = 0;
        assert(sheets@.take(0) =~= Seq::<SheetRow>::empty());
        while s < sheets.len()
            invariant
                s <= sheets.len(),
                tiers == (match user_tiers {
                    Some(t) => Some(t@),
                    None => None,
                }),
                data_sheets@.map_values(|d: SongDataSheet| data_sheet_view(d)) == sheets_of(
                    sheets@.take(s as int),
                    key@,
                ).map_values(|sh: SheetRow| data_sheet_spec(sh, row.title@, internal_levels@, tiers)),
            decreases sheets.len() - s,
        {
            assert(sheets@.take(s + 1).drop_last() =~= sheets@.take(s as int));
            assert(sheets@.take(s + 1).last() == sheets@[s as int]);
            let ghost before = data_sheets@;
            if eq_chars(chars_of(sheets[s].song_id.as_str()).as_slice(), key.as_slice()) {
                let d = data_sheet(&sheets[s], &row.title, internal_levels, user_tiers);
                data_sheets.push(d);
                assert(data_sheets@.map_values(|d: SongDataSheet| data_sheet_view(d))
                    =~= before.map_values(|d: SongDataSheet| data_sheet_view(d)).push(
                    data_sheet_view(d),
                ));
            }
            s += 1;
        }
        assert(sheets@.take(sheets.len() as int) =~= sheets@);
        let song = SongDataSong {
            title: row.title.clone(),
            version: row.version.clone(),
            image_name: Some(row.image_name.clone()),
            sheets: data_sheets,
        };
        out.push(song);
        assert(out@[e as int] == song);
        e += 1;
    }
    SongDataRoot { songs: out }
}

/// The song database: songs, charts, internal levels (one row per chart) and tiers.
#[derive(Debug, Clone)]
pub struct SongDatabase {
    songs: Vec<SongRow>,
    sheets: Vec<SheetRow>,
    internal_levels: Vec<InternalLevelRow>,
    user_tiers: Vec<(UserTierKey, UserTierValue)>,
}

impl SongDatabase {
    pub closed spec fn songs_view(self) -> Seq<SongRow> {
        self.songs@
    }

    pub closed spec fn sheets_view(self) -> Seq<SheetRow> {
        self.sheets@
    }

    pub closed spec fn levels_view(self) -> Seq<InternalLevelRow> {
        self.internal_levels@
    }

    pub closed spec fn tiers_view(self) -> Seq<(UserTierKey, UserTierValue)> {
        self.user_tiers@
    }

    /// A database of the rows that were fetched.
    pub fn from_parts(
        songs: Vec<SongRow>,
        sheets: Vec<SheetRow>,
        internal_levels: Vec<InternalLevelRow>,
        user_tiers: Vec<(UserTierKey, UserTierValue)>,
    ) -> (r: Self)
        ensures
            r.songs_view() == songs@,
            r.sheets_view() == sheets@,
            r.levels_view() == internal_levels@,
            r.tiers_view() == user_tiers@,
    {
        SongDatabase { songs, sheets, internal_levels, user_tiers }
    }

    /// The song data file of the database, with tiers.
    pub fn into_data_root(self) -> (r: SongDataRoot)
        ensures
            data_root_spec(
                r,
                self.songs_view(),
                self.sheets_view(),
                self.levels_view(),
                Some(self.tiers_view()),
            ),
    {
        build_data_root(
            self.songs.as_slice(),
            self.sheets.as_slice(),
            self.internal_levels.as_slice(),
            Some(self.user_tiers.as_slice()),
        )
    }

    /// The song data of the database, indexed by title.
    pub fn into_index(self) -> (r: SongDataIndex)
        ensures
            r.songs_view().len() == song_entries(self.songs_view()).len(),
            forall|i: int|
                0 <= i < r.songs_view().len() ==> data_song_spec(
                    #[trigger] r.songs_view()[i],
                    song_entries(self.songs_view())[i].0,
                    song_entries(self.songs_view())[i].1,
                    self.sheets_view(),
                    self.levels_view(),
                    Some(self.tiers_view()),
                ),
    {
        let root = self.into_data_root();
        SongDataIndex::from_root(root)
    }
}

} // verus!
