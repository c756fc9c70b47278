//! The song catalog as the bot reads it, and the search over its charts.
use vstd::prelude::*;

use crate::models::game_domain::{ChartType, DifficultyCategory};
use crate::models::song_catalog::{SongAliases, SongChartRegion};
use crate::models::song_title::opt_view;
use crate::text::{chars_of, eq_chars};

verus! {

/// One chart of the catalog. The internal level stays the text the catalog holds.
#[derive(Debug, Clone)]
pub struct CatalogSheet {
    pub chart_type: ChartType,
    pub diff_category: DifficultyCategory,
    pub level: String,
    pub version: Option<String>,
    pub internal_level: Option<String>,
    pub region: SongChartRegion,
}

/// One song of the catalog with its charts.
#[derive(Debug, Clone)]
pub struct CatalogSong {
    pub title: String,
    pub genre: String,
    pub artist: String,
    pub image_name: Option<String>,
    pub aliases: SongAliases,
    pub sheets: Vec<CatalogSheet>,
}

/// A search over the catalog: each field that is given must match exactly, and at most
/// `limits` charts are returned.
#[derive(Debug, Clone)]
pub struct SongMetadataSearchRequest {
    pub title: Option<String>,
    pub genre: Option<String>,
    pub artist: Option<String>,
    pub chart_type: Option<String>,
    pub diff_category: Option<String>,
    pub limits: Option<usize>,
}

/// The result of a search: how many charts matched, and the first of them (at most the
/// limit) as (song index, chart index) pairs, in catalog order.
#[derive(Debug, Clone)]
pub struct SongMetadataHits {
    pub total: usize,
    pub hits: Vec<(usize, usize)>,
}

/// A field matches when the search does not name it or names exactly its value.
pub open spec fn field_matches(want: Option<Seq<char>>, have: Seq<char>) -> bool {
    match want {
        Some(w) => w == have,
        None => true,
    }
}

/// The fields a search filters on: title, genre, artist, chart type and difficulty.
pub type Filters = (Option<Seq<char>>, Option<Seq<char>>, Option<Seq<char>>, Option<Seq<char>>, Option<
    Seq<char>,
>);

/// The filters of a search request.
pub open spec fn request_filters(req: SongMetadataSearchRequest) -> Filters {
    (
        opt_view(req.title),
        opt_view(req.genre),
        opt_view(req.artist),
        opt_view(req.chart_type),
        opt_view(req.diff_category),
    )
}

/// Whether a song matches the title, genre and artist filters.
pub open spec fn song_matches(song: CatalogSong, f: Filters) -> bool {
    &&& field_matches(f.0, song.title@)
    &&& field_matches(f.1, song.genre@)
    &&& field_matches(f.2, song.artist@)
}

/// Whether a chart matches the chart type and difficulty filters.
pub open spec fn sheet_matches(sheet: CatalogSheet, f: Filters) -> bool {
    &&& field_matches(f.3, sheet.chart_type.name())
    &&& field_matches(f.4, sheet.diff_category.name())
}

/// The matching charts among `sheets` of song `i`, in order.
pub open spec fn sheet_hits(i: int, sheets: Seq<CatalogSheet>, req: Filters) -> Seq<(int, int)>
    decreases sheets.len(),
{
    if sheets.len() == 0 {
        Seq::empty()
    } else {
        sheet_hits(i, sheets.drop_last(), req) + if sheet_matches(sheets.last(), req) {
            seq![(i, sheets.len() - 1)]
        } else {
            Seq::empty()
        }
    }
}

/// All matching charts of the catalog, song by song, in order.
pub open spec fn all_hits(songs: Seq<CatalogSong>, req: Filters) -> Seq<(int, int)>
    decreases songs.len(),
{
    if songs.len() == 0 {
        Seq::empty()
    } else {
        all_hits(songs.drop_last(), req) + if song_matches(songs.last(), req) {
            sheet_hits(songs.len() - 1, songs.last().sheets@, req)
        } else {
            Seq::empty()
        }
    }
}

/// The pairs as integers.
pub open spec fn pairs_view(v: Seq<(usize, usize)>) -> Seq<(int, int)> {
    v.map_values(|p: (usize, usize)| (p.0 as int, p.1 as int))
}

/// Whether a field matches (see `field_matches`).
fn field_matches_exec(want: &Option<String>, have: &str) -> (b: bool)
    ensures
        b == field_matches(opt_view(*want), have@),
{
    match want {
        Some(w) => {
            let a = chars_of(w.as_str());
            let b = chars_of(have);
            eq_chars(a.as_slice(), b.as_slice())
        },
        None => true,
    }
}

/// The charts of the catalog that match a search, with their count before the limit.
pub fn search_song_metadata(songs: &[CatalogSong], request: &SongMetadataSearchRequest) -> (r:
    SongMetadataHits)
    ensures
        r.total == all_hits(songs@, request_filters(*request)).len(),
        pairs_view(r.hits@) == match request.limits {
            Some(n) => if n < all_hits(songs@, request_filters(*request)).len() {
                all_hits(songs@, request_filters(*request)).take(n as int)
            } else {
                all_hits(songs@, request_filters(*request))
            },
            None => all_hits(songs@, request_filters(*request)),
        },
{
    let ghost req = request_filters(*request);
    let mut found: Vec<(usize, usize)> = Vec::new();
    let mut i: usize = 0;
    while i < songs.len()
        invariant
            i <= songs.len(),
            req == request_filters(*request),
            pairs_view(found@) == all_hits(songs@.take(i as int), req),
        decreases songs.len() - i,
    {
        let song = &songs[i];
        assert(songs@.take(i + 1).drop_last() =~= songs@.take(i as int));
        assert(songs@.take(i + 1).last() == songs@[i as int]);
        let matches_song = field_matches_exec(&request.title, song.title.as_str())
            && field_matches_exec(&request.genre, song.genre.as_str())
            && field_matches_exec(&request.artist, song.artist.as_str());
        if matches_song {
            let ghost before = found@;
            let mut j: usize = 0;
            while j < song.sheets.len()
                invariant
                    j <= song.sheets.len(),
                    i < songs.len(),
                    song == songs@[i as int],
                    req == request_filters(*request),
                    pairs_view(found@) == pairs_view(before) + sheet_hits(
                        i as int,
                        song.sheets@.take(j as int),
                        req,
                    ),
                decreases song.sheets.len() - j,
            {
                let sheet = &song.sheets[j];
                assert(song.sheets@.take(j + 1).drop_last() =~= song.sheets@.take(j as int));
                assert(song.sheets@.take(j + 1).last() == song.sheets@[j as int]);
                let ct = sheet.chart_type.as_str();
                let dc = sheet.diff_category.as_str();
                if field_matches_exec(&request.chart_type, ct) && field_matches_exec(
                    &request.diff_category,
                    dc,
                ) {
                    let ghost prev = found@;
                    found.push((i, j));
                    assert(pairs_view(found@) =~= pairs_view(prev) + seq![(i as int, j as int)]);
                } else {
                    assert(pairs_view(found@) =~= pairs_view(found@) + Seq::<(int, int)>::empty());
                }
                j += 1;
                assert(pairs_view(found@) =~= pairs_view(before) + sheet_hits(
                    i as int,
                    song.sheets@.take(j as int),
                    req,
                ));
            }
            assert(song.sheets@.take(song.sheets.len() as int) =~= song.sheets@);
        } else {
            assert(all_hits(songs@.take(i + 1), req) =~= all_hits(songs@.take(i as int), req));
        }
        i += 1;
    }
    assert(songs@.take(songs.len() as int) =~= songs@);
    let total = found.len();
    if let Some(limit) = request.limits {
        let ghost prev = found@;
        found.truncate(limit);
        proof {
            if limit < prev.len() {
                assert(pairs_view(found@) =~= pairs_view(prev).take(limit as int));
            }
        }
    }
    SongMetadataHits { total, hits: found }
}

/// Why a lookup by exact identity failed: several charts matched it.
#[derive(Debug, Clone, Copy, PartialEq, Eq, Structural)]
pub struct AmbiguousIdentity {
    pub matches: usize,
}

/// The filters of a lookup by exact identity: every field given.
pub open spec fn identity_filters(
    title: Seq<char>,
    genre: Seq<char>,
    artist: Seq<char>,
    chart_type: ChartType,
    diff_category: DifficultyCategory,
) -> Filters {
    (Some(title), Some(genre), Some(artist), Some(chart_type.name()), Some(diff_category.name()))
}

/// The chart of a song given by title, genre and artist, with its chart type and difficulty:
/// none, the one chart that matches, or an error when several match.
pub fn find_song_metadata(
    songs: &[CatalogSong],
    title: &str,
    genre: &str,
    artist: &str,
    chart_type: ChartType,
    diff_category: DifficultyCategory,
) -> (r: Result<Option<(usize, usize)>, AmbiguousIdentity>)
    ensures
        ({
            let hits = all_hits(songs@, identity_filters(title@, genre@, artist@, chart_type, diff_category));
            match r {
                Ok(None) => hits.len() == 0,
                Ok(Some(p)) => hits.len() == 1 && hits[0] == (p.0 as int, p.1 as int),
                Err(e) => hits.len() > 1 && e.matches == hits.len(),
            }
        }),
{
    let request = SongMetadataSearchRequest {
        title: Some(String::from_str(title)),
        genre: Some(String::from_str(genre)),
        artist: Some(String::from_str(artist)),
        chart_type: Some(String::from_str(chart_type.as_str())),
        diff_category: Some(String::from_str(diff_category.as_str())),
        limits: Some(2),
    };
    let found = search_song_metadata(songs, &request);
    assert(request_filters(request) == identity_filters(title@, genre@, artist@, chart_type, diff_category));
    if found.total > 1 {
        return Err(AmbiguousIdentity { matches: found.total });
    }
    if found.hits.len() == 0 {
        Ok(None)
    } else {
        assert(pairs_view(found.hits@)[0] == all_hits(songs@, request_filters(request))[0]);
        Ok(Some(found.hits[0]))
    }
}

/// Whether one (song, chart) pair comes before another in catalog order.
pub open spec fn hit_before(a: (int, int), b: (int, int)) -> bool {
    a.0 < b.0 || (a.0 == b.0 && a.1 < b.1)
}

proof fn lemma_sheet_hits(i: int, sheets: Seq<CatalogSheet>, f: Filters)
    ensures
        forall|k: int|
            0 <= k < sheet_hits(i, sheets, f).len() ==> (#[trigger] sheet_hits(i, sheets, f)[k]).0 == i
                && 0 <= sheet_hits(i, sheets, f)[k].1 < sheets.len() && sheet_matches(
                sheets[sheet_hits(i, sheets, f)[k].1],
                f,
            ),
        forall|k1: int, k2: int|
            0 <= k1 < k2 < sheet_hits(i, sheets, f).len() ==> (#[trigger] sheet_hits(i, sheets, f)[k1]).1
                < (#[trigger] sheet_hits(i, sheets, f)[k2]).1,
        forall|j: int|
            0 <= j < sheets.len() && sheet_matches(sheets[j], f) ==> #[trigger] sheet_hits(i, sheets, f).contains(
                (i, j),
            ),
    decreases sheets.len(),
{
    if sheets.len() > 0 {
        let prev = sheets.drop_last();
        lemma_sheet_hits(i, prev, f);
        let ph = sheet_hits(i, prev, f);
        let h = sheet_hits(i, sheets, f);
        assert forall|k: int| 0 <= k < ph.len() implies h[k] == ph[k] && sheets[ph[k].1] == prev[ph[k].1] by {
        }
        if sheet_matches(sheets.last(), f) {
            assert(h == ph + seq![(i, sheets.len() - 1)]);
            assert(h[ph.len() as int] == (i, sheets.len() - 1));
        } else {
            assert(h =~= ph);
        }
        assert forall|j: int| 0 <= j < sheets.len() && sheet_matches(sheets[j], f) implies #[trigger] h.contains(
            (i, j),
        ) by {
            if j < sheets.len() - 1 {
                assert(prev[j] == sheets[j]);
                assert(ph.contains((i, j)));
                let w = choose|w: int| 0 <= w < ph.len() && ph[w] == (i, j);
                assert(h[w] == (i, j));
            } else {
                assert(h[ph.len() as int] == (i, j));
            }
        }
    }
}

/// The charts that a search finds are exactly the charts that match it, each once, in
/// catalog order: by song, then by chart.
pub proof fn law_search_finds_exactly_the_matching_charts(songs: Seq<CatalogSong>, f: Filters)
    ensures
        forall|k: int|
            0 <= k < all_hits(songs, f).len() ==> {
                let h = #[trigger] all_hits(songs, f)[k];
                &&& 0 <= h.0 < songs.len()
                &&& 0 <= h.1 < songs[h.0].sheets@.len()
                &&& song_matches(songs[h.0], f)
                &&& sheet_matches(songs[h.0].sheets@[h.1], f)
            },
        forall|k1: int, k2: int|
            0 <= k1 < k2 < all_hits(songs, f).len() ==> hit_before(
                #[trigger] all_hits(songs, f)[k1],
                #[trigger] all_hits(songs, f)[k2],
            ),
        forall|i: int, j: int|
            0 <= i < songs.len() && 0 <= j < songs[i].sheets@.len() && song_matches(songs[i], f)
                && sheet_matches(songs[i].sheets@[j], f) ==> #[trigger] all_hits(songs, f).contains((i, j)),
    decreases songs.len(),
{
    if songs.len() > 0 {
        let prev = songs.drop_last();
        law_search_finds_exactly_the_matching_charts(prev, f);
        let n = songs.len() - 1;
        lemma_sheet_hits(n, songs.last().sheets@, f);
        let ph = all_hits(prev, f);
        let h = all_hits(songs, f);
        let add = if song_matches(songs.last(), f) {
            sheet_hits(n, songs.last().sheets@, f)
        } else {
            Seq::empty()
        };
        assert(h == ph + add);
        assert forall|k: int| 0 <= k < h.len() implies {
            let x = #[trigger] h[k];
            &&& 0 <= x.0 < songs.len()
            &&& 0 <= x.1 < songs[x.0].sheets@.len()
            &&& song_matches(songs[x.0], f)
            &&& sheet_matches(songs[x.0].sheets@[x.1], f)
        } by {
            if k < ph.len() {
                assert(h[k] == ph[k]);
                assert(songs[ph[k].0] == prev[ph[k].0]);
            } else {
                assert(h[k] == add[k - ph.len()]);
            }
        }
        assert forall|k1: int, k2: int| 0 <= k1 < k2 < h.len() implies hit_before(
            #[trigger] h[k1],
            #[trigger] h[k2],
        ) by {
            if k2 < ph.len() {
                assert(h[k1] == ph[k1] && h[k2] == ph[k2]);
            } else if k1 < ph.len() {
                assert(h[k1] == ph[k1] && h[k2] == add[k2 - ph.len()]);
            } else {
                assert(h[k1] == add[k1 - ph.len()] && h[k2] == add[k2 - ph.len()]);
            }
        }
        assert forall|i: int, j: int|
            0 <= i < songs.len() && 0 <= j < songs[i].sheets@.len() && song_matches(songs[i], f)
                && sheet_matches(songs[i].sheets@[j], f) implies #[trigger] h.contains((i, j)) by {
            if i < n {
                assert(prev[i] == songs[i]);
                assert(ph.contains((i, j)));
                let w = choose|w: int| 0 <= w < ph.len() && ph[w] == (i, j);
                assert(h[w] == (i, j));
            } else {
                assert(add.contains((i, j)));
                let w = choose|w: int| 0 <= w < add.len() && add[w] == (i, j);
                assert(h[ph.len() + w] == (i, j));
            }
        }
    }
}

} // verus!
