//! Decisions of the bot's commands that do not depend on Discord: which plays form the last
//! credit, how a title search is resolved, and the texts that go with them.
use vstd::prelude::*;

use crate::models::game_domain::FcStatus;
use crate::models::song_catalog::SongChartRegion;
use crate::models::song_title::opt_view;
use crate::songdb::catalog::key_less;
use crate::bot::updown::{format_rate_x10000, rate_text};
use crate::models::api_models::SongDetailScoreApiResponse;
use crate::text::{
    chars_of, contains, contains_chars, decimal, eq_chars, eq_lit, push_decimal, string_of, trim,
    trimmed,
};

verus! {

/// The number of plays of the latest credit: the plays up to the first with track number 1,
/// or at most four when none has it.
pub open spec fn latest_credit_len_spec(tracks: Seq<Option<i64>>) -> int {
    match first_track_one(tracks) {
        Some(i) => i + 1,
        None => if tracks.len() < 4 {
            tracks.len() as int
        } else {
            4
        },
    }
}

/// The index of the first play with track number 1.
pub open spec fn first_track_one(tracks: Seq<Option<i64>>) -> Option<int>
    decreases tracks.len(),
{
    if tracks.len() == 0 {
        None
    } else {
        match first_track_one(tracks.drop_last()) {
            Some(i) => Some(i),
            None => if tracks.last() == Some(1i64) {
                Some(tracks.len() - 1)
            } else {
                None
            },
        }
    }
}

proof fn lemma_first_track_one(tracks: Seq<Option<i64>>)
    ensures
        match first_track_one(tracks) {
            Some(i) => 0 <= i < tracks.len() && tracks[i] == Some(1i64) && forall|j: int|
                0 <= j < i ==> tracks[j] != Some(1i64),
            None => forall|j: int| 0 <= j < tracks.len() ==> tracks[j] != Some(1i64),
        },
    decreases tracks.len(),
{
    if tracks.len() > 0 {
        let prev = tracks.drop_last();
        lemma_first_track_one(prev);
        assert forall|j: int| 0 <= j < prev.len() implies #[trigger] tracks[j] == prev[j] by {}
    }
}

/// The number of plays (newest first) that make up the latest credit.
pub fn latest_credit_len(tracks: &[Option<i64>]) -> (r: usize)
    ensures
        r == latest_credit_len_spec(tracks@),
{
    proof {
        lemma_first_track_one(tracks@);
    }
    let mut i: usize = 0;
    while i < tracks.len()
        invariant
            i <= tracks.len(),
            forall|j: int| 0 <= j < i ==> tracks@[j] != Some(1i64),
            match first_track_one(tracks@) {
                Some(f) => 0 <= f < tracks.len() && tracks@[f] == Some(1i64) && forall|j: int|
                    0 <= j < f ==> tracks@[j] != Some(1i64),
                None => forall|j: int| 0 <= j < tracks.len() ==> tracks@[j] != Some(1i64),
            },
        decreases tracks.len() - i,
    {
        if tracks[i] == Some(1i64) {
            return i + 1;
        }
        i += 1;
    }
    if tracks.len() < 4 {
        tracks.len()
    } else {
        4
    }
}

/// Whether a full-combo status is an all perfect (AP or AP+).
pub fn is_ap_like(fc: Option<FcStatus>) -> (b: bool)
    ensures
        b == (fc == Some(FcStatus::Ap) || fc == Some(FcStatus::ApPlus)),
{
    match fc {
        Some(FcStatus::Ap) | Some(FcStatus::ApPlus) => true,
        _ => false,
    }
}

/// The order of (title, genre, artist) keys: by title, then genre, then artist.
pub open spec fn triple_less(
    a: (Seq<char>, Seq<char>, Seq<char>),
    b: (Seq<char>, Seq<char>, Seq<char>),
) -> bool {
    key_less(a.0, b.0) || (a.0 == b.0 && (key_less(a.1, b.1) || (a.1 == b.1 && key_less(a.2, b.2))))
}

/// Adds a key to a list kept sorted and without repeats.
pub open spec fn sorted_add(
    m: Seq<(Seq<char>, Seq<char>, Seq<char>)>,
    k: (Seq<char>, Seq<char>, Seq<char>),
) -> Seq<(Seq<char>, Seq<char>, Seq<char>)>
    decreases m.len(),
{
    if m.len() == 0 {
        seq![k]
    } else if m[0] == k {
        m
    } else if triple_less(k, m[0]) {
        seq![k] + m
    } else {
        seq![m[0]] + sorted_add(m.drop_first(), k)
    }
}

/// The distinct songs of search results, in key order.
pub open spec fn unique_songs(items: Seq<(Seq<char>, Seq<char>, Seq<char>)>) -> Seq<
    (Seq<char>, Seq<char>, Seq<char>),
>
    decreases items.len(),
{
    if items.len() == 0 {
        Seq::empty()
    } else {
        sorted_add(unique_songs(items.drop_last()), items.last())
    }
}

pub open spec fn triple_view(t: (String, String, String)) -> (Seq<char>, Seq<char>, Seq<char>) {
    (t.0@, t.1@, t.2@)
}

pub open spec fn triples_view(v: Seq<(String, String, String)>) -> Seq<(Seq<char>, Seq<char>, Seq<char>)> {
    v.map_values(|t: (String, String, String)| triple_view(t))
}

fn chars_less(a: &[char], b: &[char]) -> (r: bool)
    ensures
        r == key_less(a@, b@),
{
    let mut i: usize = 0;
    assert(a@.skip(0) =~= a@);
    assert(b@.skip(0) =~= b@);
    while i < a.len() && i < b.len() && a[i] == b[i]
        invariant
            i <= a.len(),
            i <= b.len(),
            key_less(a@, b@) == key_less(a@.skip(i as int), b@.skip(i as int)),
        decreases a.len() - i,
    {
        assert(a@.skip(i as int).drop_first() =~= a@.skip(i + 1));
        assert(b@.skip(i as int).drop_first() =~= b@.skip(i + 1));
        i += 1;
    }
    if i >= b.len() {
        return false;
    }
    if i >= a.len() {
        return true;
    }
    a[i] < b[i]
}

fn triple_less_exec(a: &(Vec<char>, Vec<char>, Vec<char>), b: &(Vec<char>, Vec<char>, Vec<char>)) -> (r:
    bool)
    ensures
        r == triple_less((a.0@, a.1@, a.2@), (b.0@, b.1@, b.2@)),
{
    chars_less(a.0.as_slice(), b.0.as_slice()) || (eq_chars(a.0.as_slice(), b.0.as_slice()) && (
    chars_less(a.1.as_slice(), b.1.as_slice()) || (eq_chars(a.1.as_slice(), b.1.as_slice())
        && chars_less(a.2.as_slice(), b.2.as_slice()))))
}

spec fn cv(v: Seq<(Vec<char>, Vec<char>, Vec<char>)>) -> Seq<(Seq<char>, Seq<char>, Seq<char>)> {
    v.map_values(|t: (Vec<char>, Vec<char>, Vec<char>)| (t.0@, t.1@, t.2@))
}

proof fn lemma_sorted_add_at(
    m: Seq<(Seq<char>, Seq<char>, Seq<char>)>,
    k: (Seq<char>, Seq<char>, Seq<char>),
    i: int,
)
    requires
        0 <= i <= m.len(),
        forall|q: int| 0 <= q < i ==> (#[trigger] m[q]) != k && !triple_less(k, m[q]),
        i < m.len() ==> (m[i] == k || triple_less(k, m[i])),
    ensures
        sorted_add(m, k) == (if i < m.len() && m[i] == k {
            m
        } else {
            m.insert(i, k)
        }),
    decreases i,
{
    if i == 0 {
        if m.len() > 0 && m[0] != k {
            assert(seq![k] + m =~= m.insert(0, k));
        }
    } else {
        let rest = m.drop_first();
        assert forall|q: int| 0 <= q < i - 1 implies (#[trigger] rest[q]) != k && !triple_less(
            k,
            rest[q],
        ) by {
            assert(rest[q] == m[q + 1]);
        }
        lemma_sorted_add_at(rest, k, i - 1);
        if i < m.len() && m[i] == k {
            assert(seq![m[0]] + rest =~= m);
        } else {
            assert(seq![m[0]] + rest.insert(i - 1, k) =~= m.insert(i, k));
        }
    }
}

/// The distinct (title, genre, artist) keys of search results, in key order.
pub fn unique_song_keys(items: &[(String, String, String)]) -> (r: Vec<(String, String, String)>)
    ensures
        triples_view(r@) == unique_songs(triples_view(items@)),
{
    let ghost iv = triples_view(items@);
    let mut keys: Vec<(Vec<char>, Vec<char>, Vec<char>)> = Vec::new();
    let mut n: usize = 0;
    assert(iv.take(0) =~= Seq::<(Seq<char>, Seq<char>, Seq<char>)>::empty());
    assert(cv(keys@) =~= Seq::<(Seq<char>, Seq<char>, Seq<char>)>::empty());
    while n < items.len()
        invariant
            n <= items.len(),
            iv == triples_view(items@),
            cv(keys@) == unique_songs(iv.take(n as int)),
        decreases items.len() - n,
    {
        assert(iv.take(n + 1).drop_last() =~= iv.take(n as int));
        assert(iv.take(n + 1).last() == triple_view(items@[n as int]));
        let k = (
            chars_of(items[n].0.as_str()),
            chars_of(items[n].1.as_str()),
            chars_of(items[n].2.as_str()),
        );
        let ghost m = cv(keys@);
        let ghost kv = (k.0@, k.1@, k.2@);
        let mut p: usize = 0;
        while p < keys.len() && !(eq_chars(keys[p].0.as_slice(), k.0.as_slice()) && eq_chars(
            keys[p].1.as_slice(),
            k.1.as_slice(),
        ) && eq_chars(keys[p].2.as_slice(), k.2.as_slice())) && !triple_less_exec(&k, &keys[p])
            invariant
                p <= keys.len(),
                m == cv(keys@),
                kv == (k.0@, k.1@, k.2@),
                forall|q: int| 0 <= q < p ==> (#[trigger] m[q]) != kv && !triple_less(kv, m[q]),
            decreases keys.len() - p,
        {
            p += 1;
        }
        proof {
            lemma_sorted_add_at(m, kv, p as int);
        }
        if p < keys.len() && eq_chars(keys[p].0.as_slice(), k.0.as_slice()) && eq_chars(
            keys[p].1.as_slice(),
            k.1.as_slice(),
        ) && eq_chars(keys[p].2.as_slice(), k.2.as_slice()) {
            assert(m[p as int] == kv);
        } else {
            keys.insert(p, k);
            assert(cv(keys@) =~= m.insert(p as int, kv));
        }
        n += 1;
    }
    assert(iv.take(items.len() as int) =~= iv);
    let mut out: Vec<(String, String, String)> = Vec::new();
    let mut i: usize = 0;
    while i < keys.len()
        invariant
            i <= keys.len(),
            triples_view(out@) == cv(keys@).take(i as int),
        decreases keys.len() - i,
    {
        let t = (
            crate::text::string_of(keys[i].0.as_slice()),
            crate::text::string_of(keys[i].1.as_slice()),
            crate::text::string_of(keys[i].2.as_slice()),
        );
        let ghost before = out@;
        out.push(t);
        assert(triples_view(out@) =~= triples_view(before).push(triple_view(t)));
        assert(cv(keys@).take(i + 1) =~= cv(keys@).take(i as int).push(cv(keys@)[i as int]));
        i += 1;
    }
    assert(cv(keys@).take(keys.len() as int) =~= cv(keys@));
    out
}

/// The list of candidates that an ambiguous title search shows: the first eight, one per line
/// as `` `title` / `genre` / `artist` ``.
pub open spec fn candidate_lines(c: Seq<(Seq<char>, Seq<char>, Seq<char>)>) -> Seq<char>
    decreases c.len(),
{
    if c.len() == 0 {
        Seq::empty()
    } else {
        let prev = candidate_lines(c.drop_last());
        let t = c.last();
        let line = "`"@ + t.0 + "` / `"@ + t.1 + "` / `"@ + t.2 + "`"@;
        if c.len() == 1 {
            line
        } else {
            prev + "\n"@ + line
        }
    }
}

/// The message of an ambiguous title search, with its first eight candidates.
pub open spec fn duplicate_description_spec(c: Seq<(Seq<char>, Seq<char>, Seq<char>)>) -> Seq<char> {
    "검색어와 정확히 일치하는 곡이 여러 개 있습니다.\n후보:\n"@ + candidate_lines(
        if c.len() > 8 {
            c.take(8)
        } else {
            c
        },
    )
}

/// The first eight candidates (all when there are fewer).
pub open spec fn first_eight(c: Seq<(Seq<char>, Seq<char>, Seq<char>)>) -> Seq<(Seq<char>, Seq<char>, Seq<char>)> {
    if c.len() > 8 {
        c.take(8)
    } else {
        c
    }
}

/// The candidate lines of an ambiguous search (see `candidate_lines`), for the first eight.
fn candidate_list(candidates: &[(String, String, String)]) -> (r: String)
    ensures
        r@ == candidate_lines(first_eight(triples_view(candidates@))),
{
    let ghost all = triples_view(candidates@);
    let n: usize = if candidates.len() > 8 {
        8
    } else {
        candidates.len()
    };
    let ghost shown = if all.len() > 8 {
        all.take(8)
    } else {
        all
    };
    assert(shown =~= all.take(n as int));
    let mut lines = String::new();
    let mut i: usize = 0;
    assert(all.take(0) =~= Seq::<(Seq<char>, Seq<char>, Seq<char>)>::empty());
    while i < n
        invariant
            i <= n <= candidates.len(),
            all == triples_view(candidates@),
            lines@ == candidate_lines(all.take(i as int)),
        decreases n - i,
    {
        assert(all.take(i + 1).drop_last() =~= all.take(i as int));
        assert(all.take(i + 1).last() == triple_view(candidates@[i as int]));
        if i > 0 {
            lines.push_str("\n");
        }
        lines.push_str("`");
        lines.push_str(candidates[i].0.as_str());
        lines.push_str("` / `");
        lines.push_str(candidates[i].1.as_str());
        lines.push_str("` / `");
        lines.push_str(candidates[i].2.as_str());
        lines.push_str("`");
        proof {
            reveal_strlit("\n");
            reveal_strlit("`");
            reveal_strlit("` / `");
        }
        i += 1;
    }
    lines
}

/// The message of an ambiguous title search, with its first eight candidates.
pub fn duplicate_song_candidates_description(candidates: &[(String, String, String)]) -> (r: String)
    ensures
        r@ == duplicate_description_spec(triples_view(candidates@)),
{
    let mut s = String::from_str("검색어와 정확히 일치하는 곡이 여러 개 있습니다.\n후보:\n");
    let lines = candidate_list(candidates);
    s.push_str(lines.as_str());
    proof {
        reveal_strlit("검색어와 정확히 일치하는 곡이 여러 개 있습니다.\n후보:\n");
    }
    s
}

/// The message of a song-card search that found more than two songs, with its first eight.
pub open spec fn song_info_candidates_spec(c: Seq<(Seq<char>, Seq<char>, Seq<char>)>) -> Seq<char> {
    "정확히 일치하는 제목의 곡이 여러 개 있습니다.\n후보:\n"@ + candidate_lines(first_eight(c))
}

/// The message of a song-card search that found more than two songs (in key order).
pub fn song_info_candidates_description(candidates: &[(String, String, String)]) -> (r: String)
    ensures
        r@ == song_info_candidates_spec(triples_view(candidates@)),
{
    let mut s = String::from_str("정확히 일치하는 제목의 곡이 여러 개 있습니다.\n후보:\n");
    let lines = candidate_list(candidates);
    s.push_str(lines.as_str());
    s
}

/// What a score search is made of: the title searched for (the text trimmed), or, when only
/// whitespace was given, the reply that asks for a title (its heading and its text).
#[derive(Debug, Clone)]
pub enum ScoreSearch {
    Title(String),
    AskForTitle(String, String),
}

/// What a score search is made of (see above).
pub fn score_search(search: &str) -> (r: ScoreSearch)
    ensures
        trim(search@).len() == 0 ==> (r matches ScoreSearch::AskForTitle(h, d) && h@
            == "No records found"@ && d@ == "Please provide a title."@),
        trim(search@).len() > 0 ==> (r matches ScoreSearch::Title(t) && t@ == trim(search@)),
{
    let t = trimmed(search);
    if t.len() == 0 {
        ScoreSearch::AskForTitle(
            String::from_str("No records found"),
            String::from_str("Please provide a title."),
        )
    } else {
        ScoreSearch::Title(string_of(t.as_slice()))
    }
}

/// How a title search ends: no song, several songs (with the message listing them), or one song.
#[derive(Debug, Clone)]
pub enum TitleSearchOutcome {
    NoSong,
    Ambiguous(String),
    Single(String, String, String),
}

/// How a title search ends, from the (title, genre, artist) of its results.
pub fn resolve_title_search(items: &[(String, String, String)]) -> (r: TitleSearchOutcome)
    ensures
        unique_songs(triples_view(items@)).len() == 0 <==> r is NoSong,
        unique_songs(triples_view(items@)).len() > 1 <==> r is Ambiguous,
        r matches TitleSearchOutcome::Ambiguous(d) ==> d@ == duplicate_description_spec(
            unique_songs(triples_view(items@)),
        ),
        r matches TitleSearchOutcome::Single(t, g, a) ==> unique_songs(triples_view(items@)) == seq![
            (t@, g@, a@),
        ],
{
    let keys = unique_song_keys(items);
    if keys.len() == 0 {
        return TitleSearchOutcome::NoSong;
    }
    if keys.len() > 1 {
        return TitleSearchOutcome::Ambiguous(duplicate_song_candidates_description(keys.as_slice()));
    }
    let ghost kv = triples_view(keys@);
    let (t, g, a) = (keys[0].0.clone(), keys[0].1.clone(), keys[0].2.clone());
    assert(kv =~= seq![(t@, g@, a@)]);
    TitleSearchOutcome::Single(t, g, a)
}

/// The line that tells in which region a song is not out: `INTL` when only Japanese charts
/// exist, `JP` when only international ones do.
pub fn build_region_unreleased_line(regions: &[SongChartRegion]) -> (r: Option<String>)
    ensures
        match r {
            Some(s) => ((exists|i: int| 0 <= i < regions.len() && regions@[i].jp) && !(exists|i: int|
                0 <= i < regions.len() && regions@[i].intl) && s@ == "**INTL**: Unreleased"@) || (!(
            exists|i: int| 0 <= i < regions.len() && regions@[i].jp) && (exists|i: int|
                0 <= i < regions.len() && regions@[i].intl) && s@ == "**JP**: Unreleased"@),
            None => (exists|i: int| 0 <= i < regions.len() && regions@[i].jp) == (exists|i: int|
                0 <= i < regions.len() && regions@[i].intl),
        },
{
    let mut has_jp = false;
    let mut has_intl = false;
    let mut i: usize = 0;
    while i < regions.len()
        invariant
            i <= regions.len(),
            has_jp == exists|q: int| 0 <= q < i && regions@[q].jp,
            has_intl == exists|q: int| 0 <= q < i && regions@[q].intl,
        decreases regions.len() - i,
    {
        if regions[i].jp {
            has_jp = true;
        }
        if regions[i].intl {
            has_intl = true;
        }
        i += 1;
    }
    if has_jp && !has_intl {
        Some(String::from_str("**INTL**: Unreleased"))
    } else if !has_jp && has_intl {
        Some(String::from_str("**JP**: Unreleased"))
    } else {
        None
    }
}

/// How a failed fetch of a song's scores is answered.
#[derive(Debug, Clone, Copy, PartialEq, Eq, Structural)]
pub enum SongDetailFailure {
    /// The site is under maintenance.
    Maintenance,
    /// The collector has no scores for the song.
    NotFound,
    /// Any other failure: it is passed on.
    Other,
}

/// How a failed fetch is answered, from the collector's error code (when it sent one) and the
/// error's text.
pub open spec fn song_detail_failure_spec(code: Option<Seq<char>>, message: Seq<char>) -> SongDetailFailure {
    if code == Some("MAINTENANCE"@) {
        SongDetailFailure::Maintenance
    } else if code == Some("NOT_FOUND"@) {
        SongDetailFailure::NotFound
    } else if contains(message, "maintenance"@) {
        SongDetailFailure::Maintenance
    } else {
        SongDetailFailure::Other
    }
}

/// How a failed fetch of a song's scores is answered (see above).
pub fn classify_song_detail_failure(api_code: Option<&str>, message: &str) -> (r: SongDetailFailure)
    ensures
        r == song_detail_failure_spec(
            match api_code {
                Some(c) => Some(c@),
                None => None,
            },
            message@,
        ),
{
    if let Some(code) = api_code {
        let c = chars_of(code);
        if eq_lit(c.as_slice(), "MAINTENANCE") {
            return SongDetailFailure::Maintenance;
        }
        if eq_lit(c.as_slice(), "NOT_FOUND") {
            return SongDetailFailure::NotFound;
        }
    }
    let m = chars_of(message);
    let p = chars_of("maintenance");
    if contains_chars(m.as_slice(), p.as_slice()) {
        SongDetailFailure::Maintenance
    } else {
        SongDetailFailure::Other
    }
}

/// The second line of a score: when it was last played and how often, joined by ` • `.
pub open spec fn score_detail_suffix(last_played: Option<Seq<char>>, play_count: Option<u32>) -> Seq<char> {
    let lp = match last_played {
        Some(v) => "Last: "@ + v,
        None => Seq::<char>::empty(),
    };
    let pc = match play_count {
        Some(n) => "Plays: "@ + decimal(n as nat),
        None => Seq::<char>::empty(),
    };
    if last_played is Some && play_count is Some {
        lp + " • "@ + pc
    } else {
        lp + pc
    }
}

/// The text of one score in the song's score list: achievement, rank, FC and sync marks,
/// then the detail line when there is one.
pub open spec fn score_field_value_spec(
    achievement_x10000: Option<i64>,
    rank: Seq<char>,
    fc: Seq<char>,
    sync: Seq<char>,
    last_played: Option<Seq<char>>,
    play_count: Option<u32>,
) -> Seq<char> {
    let ach = match achievement_x10000 {
        Some(v) => v as int,
        None => 0,
    };
    let head = rate_text(ach) + " • "@ + rank + " • "@ + fc + " • "@ + sync;
    let suffix = score_detail_suffix(last_played, play_count);
    if suffix.len() == 0 {
        head
    } else {
        head + "\n"@ + suffix
    }
}

/// The text of one score in the song's score list (see above); `rank`, `fc` and `sync` are
/// the marks already formatted.
pub fn score_field_value(score: &SongDetailScoreApiResponse, rank: &str, fc: &str, sync: &str) -> (r:
    String)
    requires
        score.achievement_x10000 matches Some(v) ==> -0x20_0000_0000_0000 <= v <= 0x20_0000_0000_0000,
    ensures
        r@ == score_field_value_spec(
            score.achievement_x10000,
            rank@,
            fc@,
            sync@,
            opt_view(score.last_played_at),
            score.play_count,
        ),
{
    let ach: i64 = match score.achievement_x10000 {
        Some(v) => v,
        None => 0,
    };
    let mut s = format_rate_x10000(ach);
    s.push_str(" • ");
    s.push_str(rank);
    s.push_str(" • ");
    s.push_str(fc);
    s.push_str(" • ");
    s.push_str(sync);
    let mut suffix = String::new();
    if let Some(v) = &score.last_played_at {
        suffix.push_str("Last: ");
        suffix.push_str(v.as_str());
    }
    if let Some(n) = score.play_count {
        if score.last_played_at.is_some() {
            suffix.push_str(" • ");
        }
        suffix.push_str("Plays: ");
        push_decimal(&mut suffix, n as u64);
    }
    proof {
        reveal_strlit(" • ");
        reveal_strlit("Last: ");
        reveal_strlit("Plays: ");
        reveal_strlit("\n");
    }
    let ghost lp = opt_view(score.last_played_at);
    assert(suffix@ =~= score_detail_suffix(lp, score.play_count));
    let has_suffix = score.last_played_at.is_some() || score.play_count.is_some();
    assert(has_suffix <==> suffix@.len() > 0);
    if has_suffix {
        s.push_str("\n");
        s.push_str(suffix.as_str());
    }
    s
}

/// How a failed profile check of a collector being registered is answered.
#[derive(Debug, Clone)]
pub enum RegistrationFailure {
    /// The site is under maintenance.
    Maintenance,
    /// The registration is refused with this message.
    Refused(String),
}

/// How a failed profile check is answered, from the collector's error (code and message) when
/// it sent one: maintenance for `MAINTENANCE`, else its message, or a general message when it
/// has none.
pub open spec fn registration_failure_spec(api_error: Option<(Seq<char>, Seq<char>)>) -> Result<(), Seq<char>> {
    match api_error {
        Some((code, message)) => if code == "MAINTENANCE"@ {
            Ok(())
        } else if message.len() > 0 {
            Err(message)
        } else {
            Err("Record collector validation failed."@)
        },
        None => Err("Record collector validation failed."@),
    }
}

/// How a failed profile check of a collector being registered is answered (see above;
/// `Ok(())` there is the maintenance notice).
pub fn registration_failure(api_error: Option<(&str, &str)>) -> (r: RegistrationFailure)
    ensures
        match registration_failure_spec(
            match api_error {
                Some((c, m)) => Some((c@, m@)),
                None => None,
            },
        ) {
            Ok(()) => r is Maintenance,
            Err(m) => r matches RegistrationFailure::Refused(t) && t@ == m,
        },
{
    match api_error {
        Some((code, message)) => {
            if eq_lit(chars_of(code).as_slice(), "MAINTENANCE") {
                RegistrationFailure::Maintenance
            } else if chars_of(message).len() > 0 {
                RegistrationFailure::Refused(String::from_str(message))
            } else {
                RegistrationFailure::Refused(String::from_str("Record collector validation failed."))
            }
        },
        None => RegistrationFailure::Refused(String::from_str("Record collector validation failed.")),
    }
}

} // verus!
