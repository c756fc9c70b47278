//! The game version of each chart, from the version search of the international site: each
//! title found there is resolved to a song of the official (Japanese) list.
use vstd::prelude::*;

use crate::assoc::{assoc_get, assoc_set, first_key_index, lemma_first_key_index};
use crate::models::game_domain::{ChartType, SongGenre};
use crate::models::parser_models::ParsedScoreEntry;
use crate::parsers::html::document_nested_texts_of;
use crate::parsers::score_list::{entry_selector, parse_scores_html, score_page_spec, some_level_missing};
use crate::parsers::ParseError;
use crate::text::{chars_of, eq_chars, string_of, trim, trimmed};

verus! {

/// Where the international site lists the songs of a version.
pub const INTL_VERSION_SEARCH_URL: &'static str =
    "https://maimaidx-eng.com/maimai-mobile/record/musicVersion/search/";

/// A song of the official list: title, genre and artist.
#[derive(Debug, Clone)]
pub struct SongIdentity {
    pub title: String,
    pub genre: SongGenre,
    pub artist: String,
}

pub type IdentityView = (Seq<char>, SongGenre, Seq<char>);

pub open spec fn id_view(i: SongIdentity) -> IdentityView {
    (i.title@, i.genre, i.artist@)
}

impl SongIdentity {
    pub fn new(title: &str, genre: SongGenre, artist: &str) -> (r: Self)
        ensures
            id_view(r) == (title@, genre, artist@),
    {
        SongIdentity { title: String::from_str(title), genre, artist: String::from_str(artist) }
    }

    /// A copy of the identity.
    pub fn duplicate(&self) -> (r: Self)
        ensures
            id_view(r) == id_view(*self),
    {
        SongIdentity { title: self.title.clone(), genre: self.genre, artist: self.artist.clone() }
    }
}

fn same_identity(a: &SongIdentity, b: &SongIdentity) -> (r: bool)
    ensures
        r == (id_view(*a) == id_view(*b)),
{
    a.genre == b.genre && eq_chars(chars_of(a.title.as_str()).as_slice(), chars_of(b.title.as_str()).as_slice())
        && eq_chars(chars_of(a.artist.as_str()).as_slice(), chars_of(b.artist.as_str()).as_slice())
}

/// A chart row as the resolver needs it: its song, its type, and whether it comes from the
/// official list (rather than from the international site alone).
#[derive(Debug, Clone)]
pub struct VersionSheet {
    pub song_identity: SongIdentity,
    pub sheet_type: ChartType,
    pub is_official: bool,
}

/// Which song a title stands for, for a title that several official songs share.
#[derive(Debug, Clone)]
pub struct DuplicateResolutionOverride {
    pub title: String,
    pub version: String,
    pub chart_type: ChartType,
    pub genre: SongGenre,
    pub artist: String,
}

/// An official song that a title may stand for, with the chart types it has.
#[derive(Debug, Clone)]
pub struct SongCandidate {
    pub identity: SongIdentity,
    pub chart_types: Vec<ChartType>,
}

pub open spec fn cand_view(c: SongCandidate) -> (IdentityView, Seq<ChartType>) {
    (id_view(c.identity), c.chart_types@)
}

pub open spec fn cands_view(v: Seq<SongCandidate>) -> Seq<(IdentityView, Seq<ChartType>)> {
    v.map_values(|c: SongCandidate| cand_view(c))
}

/// The key of an override: title, version and chart type.
#[derive(Debug, Clone)]
pub struct OverrideLookupKey {
    pub title: String,
    pub version: String,
    pub chart_type: ChartType,
}

/// Resolves the titles of the international version search to official songs.
#[derive(Debug, Clone)]
pub struct SongVersionResolver {
    candidates_by_title: Vec<(String, Vec<SongCandidate>)>,
    intl_only_titles: Vec<String>,
    overrides: Vec<(OverrideLookupKey, (SongGenre, String))>,
}

/// Why a title could not be resolved.
#[derive(Debug, Clone, Copy, PartialEq, Eq, Structural)]
pub enum ResolveErrorKind {
    NoOfficialSong,
    AmbiguousWithoutOverride,
    OverrideMatchedNone,
    OverrideMatchedMany,
}

/// A title that could not be resolved, with the (trimmed) title and version of the query.
#[derive(Debug, Clone)]
pub struct ResolveError {
    pub kind: ResolveErrorKind,
    pub title: String,
    pub version_name: String,
    pub chart_type: ChartType,
}

/// The official chart types of a song, in the order of the chart rows.
pub open spec fn official_types(sheets: Seq<VersionSheet>, id: IdentityView) -> Seq<ChartType>
    decreases sheets.len(),
{
    if sheets.len() == 0 {
        Seq::empty()
    } else {
        let prev = official_types(sheets.drop_last(), id);
        let s = sheets.last();
        if s.is_official && id_view(s.song_identity) == id {
            prev.push(s.sheet_type)
        } else {
            prev
        }
    }
}

/// The candidates of each (trimmed) title: the songs with official charts, in order.
pub open spec fn build_candidates(songs: Seq<SongIdentity>, sheets: Seq<VersionSheet>) -> Seq<
    (Seq<char>, Seq<(IdentityView, Seq<ChartType>)>),
>
    decreases songs.len(),
{
    if songs.len() == 0 {
        Seq::empty()
    } else {
        let prev = build_candidates(songs.drop_last(), sheets);
        let s = songs.last();
        let types = official_types(sheets, id_view(s));
        if types.len() == 0 {
            prev
        } else {
            let t = trim(s.title@);
            let existing = match assoc_get(prev, t) {
                Some(c) => c,
                None => Seq::empty(),
            };
            assoc_set(prev, t, existing.push((id_view(s), types)))
        }
    }
}

/// The (trimmed) titles of the songs without official charts, in order.
pub open spec fn build_intl_only(songs: Seq<SongIdentity>, sheets: Seq<VersionSheet>) -> Seq<
    Seq<char>,
>
    decreases songs.len(),
{
    if songs.len() == 0 {
        Seq::empty()
    } else {
        let prev = build_intl_only(songs.drop_last(), sheets);
        let s = songs.last();
        if official_types(sheets, id_view(s)).len() == 0 {
            prev.push(trim(s.title@))
        } else {
            prev
        }
    }
}

pub open spec fn override_key(o: DuplicateResolutionOverride) -> (Seq<char>, Seq<char>, ChartType) {
    (trim(o.title@), trim(o.version@), o.chart_type)
}

/// The overrides by (trimmed title, trimmed version, chart type); a later one replaces an
/// earlier one with the same key.
pub open spec fn build_overrides(ovs: Seq<DuplicateResolutionOverride>) -> Seq<
    ((Seq<char>, Seq<char>, ChartType), (SongGenre, Seq<char>)),
>
    decreases ovs.len(),
{
    if ovs.len() == 0 {
        Seq::empty()
    } else {
        let o = ovs.last();
        assoc_set(build_overrides(ovs.drop_last()), override_key(o), (o.genre, trim(o.artist@)))
    }
}

/// The candidates with a chart of type `ct`, in order.
pub open spec fn with_type(cands: Seq<(IdentityView, Seq<ChartType>)>, ct: ChartType) -> Seq<
    (IdentityView, Seq<ChartType>),
>
    decreases cands.len(),
{
    if cands.len() == 0 {
        cands
    } else {
        let prev = with_type(cands.drop_last(), ct);
        if cands.last().1.contains(ct) {
            prev.push(cands.last())
        } else {
            prev
        }
    }
}

/// The candidates with this genre and artist, in order.
pub open spec fn with_genre_artist(
    cands: Seq<(IdentityView, Seq<ChartType>)>,
    genre: SongGenre,
    artist: Seq<char>,
) -> Seq<(IdentityView, Seq<ChartType>)>
    decreases cands.len(),
{
    if cands.len() == 0 {
        cands
    } else {
        let prev = with_genre_artist(cands.drop_last(), genre, artist);
        if cands.last().0.1 == genre && cands.last().0.2 == artist {
            prev.push(cands.last())
        } else {
            prev
        }
    }
}

/// The song that a title of the version search stands for: none for a title that only the
/// international site has; the only song with the title; else the only one with a chart of
/// the type; else the song that the override names. Anything else is an error.
pub open spec fn resolve_spec(
    cands_by_title: Seq<(Seq<char>, Seq<(IdentityView, Seq<ChartType>)>)>,
    intl_only: Seq<Seq<char>>,
    overrides: Seq<((Seq<char>, Seq<char>, ChartType), (SongGenre, Seq<char>))>,
    title: Seq<char>,
    version: Seq<char>,
    ct: ChartType,
) -> Result<Option<IdentityView>, ResolveErrorKind> {
    let t = trim(title);
    let v = trim(version);
    let cands = match assoc_get(cands_by_title, t) {
        Some(c) => c,
        None => Seq::empty(),
    };
    if cands.len() == 0 {
        if intl_only.contains(t) {
            Ok(None)
        } else {
            Err(ResolveErrorKind::NoOfficialSong)
        }
    } else if cands.len() == 1 {
        Ok(Some(cands[0].0))
    } else if with_type(cands, ct).len() == 1 {
        Ok(Some(with_type(cands, ct)[0].0))
    } else {
        match assoc_get(overrides, (t, v, ct)) {
            None => Err(ResolveErrorKind::AmbiguousWithoutOverride),
            Some((g, a)) => {
                let m = with_genre_artist(cands, g, a);
                if m.len() == 1 {
                    Ok(Some(m[0].0))
                } else if m.len() == 0 {
                    Err(ResolveErrorKind::OverrideMatchedNone)
                } else {
                    Err(ResolveErrorKind::OverrideMatchedMany)
                }
            },
        }
    }
}

pub open spec fn title_list_view(m: Seq<(String, Vec<SongCandidate>)>) -> Seq<
    (Seq<char>, Seq<(IdentityView, Seq<ChartType>)>),
> {
    m.map_values(|p: (String, Vec<SongCandidate>)| (p.0@, cands_view(p.1@)))
}

pub open spec fn override_list_view(m: Seq<(OverrideLookupKey, (SongGenre, String))>) -> Seq<
    ((Seq<char>, Seq<char>, ChartType), (SongGenre, Seq<char>)),
> {
    m.map_values(
        |p: (OverrideLookupKey, (SongGenre, String))|
            ((p.0.title@, p.0.version@, p.0.chart_type), (p.1.0, p.1.1@)),
    )
}

pub open spec fn title_strings(v: Seq<String>) -> Seq<Seq<char>> {
    v.map_values(|s: String| s@)
}

fn official_chart_types(sheets: &[VersionSheet], id: &SongIdentity) -> (r: Vec<ChartType>)
    ensures
        r@ == official_types(sheets@, id_view(*id)),
{
    let mut out: Vec<ChartType> = Vec::new();
    let mut i: usize = 0;
    assert(sheets@.take(0) =~= Seq::<VersionSheet>::empty());
    while i < sheets.len()
        invariant
            i <= sheets.len(),
            out@ == official_types(sheets@.take(i as int), id_view(*id)),
        decreases sheets.len() - i,
    {
        assert(sheets@.take(i + 1).drop_last() =~= sheets@.take(i as int));
        assert(sheets@.take(i + 1).last() == sheets@[i as int]);
        if sheets[i].is_official && same_identity(&sheets[i].song_identity, id) {
            out.push(sheets[i].sheet_type);
        }
        i += 1;
    }
    assert(sheets@.take(sheets.len() as int) =~= sheets@);
    out
}

fn find_title_entry(m: &Vec<(String, Vec<SongCandidate>)>, t: &[char]) -> (r: Option<usize>)
    ensures
        match r {
            Some(i) => i < m.len() && first_key_index(title_list_view(m@), t@) == Some(i as int),
            None => first_key_index(title_list_view(m@), t@) is None,
        },
{
    let ghost mv = title_list_view(m@);
    let mut i: usize = 0;
    while i < m.len()
        invariant
            i <= m.len(),
            mv == title_list_view(m@),
            forall|q: int| 0 <= q < i ==> (#[trigger] mv[q]).0 != t@,
        decreases m.len() - i,
    {
        if eq_chars(chars_of(m[i].0.as_str()).as_slice(), t) {
            proof {
                lemma_first_key_index(mv, t@);
                assert(mv[i as int].0 == t@);
            }
            return Some(i);
        }
        i += 1;
    }
    proof {
        lemma_first_key_index(mv, t@);
    }
    None
}

fn find_override(
    m: &Vec<(OverrideLookupKey, (SongGenre, String))>,
    t: &[char],
    v: &[char],
    ct: ChartType,
) -> (r: Option<usize>)
    ensures
        match r {
            Some(i) => i < m.len() && first_key_index(override_list_view(m@), (t@, v@, ct)) == Some(
                i as int,
            ),
            None => first_key_index(override_list_view(m@), (t@, v@, ct)) is None,
        },
{
    let ghost mv = override_list_view(m@);
    let ghost k = (t@, v@, ct);
    let mut i: usize = 0;
    while i < m.len()
        invariant
            i <= m.len(),
            mv == override_list_view(m@),
            k == (t@, v@, ct),
            forall|q: int| 0 <= q < i ==> (#[trigger] mv[q]).0 != k,
        decreases m.len() - i,
    {
        let key = &m[i].0;
        if key.chart_type == ct && eq_chars(chars_of(key.title.as_str()).as_slice(), t) && eq_chars(
            chars_of(key.version.as_str()).as_slice(),
            v,
        ) {
            proof {
                lemma_first_key_index(mv, k);
                assert(mv[i as int].0 == k);
            }
            return Some(i);
        }
        i += 1;
    }
    proof {
        lemma_first_key_index(mv, k);
    }
    None
}

fn contains_title(list: &Vec<String>, t: &[char]) -> (b: bool)
    ensures
        b == title_strings(list@).contains(t@),
{
    let ghost lv = title_strings(list@);
    let mut k: usize = 0;
    while k < list.len()
        invariant
            k <= list.len(),
            lv == title_strings(list@),
            forall|q: int| 0 <= q < k ==> lv[q] != t@,
        decreases list.len() - k,
    {
        if eq_chars(chars_of(list[k].as_str()).as_slice(), t) {
            assert(lv[k as int] == t@);
            return true;
        }
        k += 1;
    }
    false
}

fn contains_type(v: &Vec<ChartType>, ct: ChartType) -> (b: bool)
    ensures
        b == v@.contains(ct),
{
    let mut i: usize = 0;
    while i < v.len()
        invariant
            i <= v.len(),
            forall|q: int| 0 <= q < i ==> v@[q] != ct,
        decreases v.len() - i,
    {
        if v[i] == ct {
            assert(v@[i as int] == ct);
            return true;
        }
        i += 1;
    }
    false
}

impl SongVersionResolver {
    pub closed spec fn candidates_view(self) -> Seq<(Seq<char>, Seq<(IdentityView, Seq<ChartType>)>)> {
        title_list_view(self.candidates_by_title@)
    }

    pub closed spec fn intl_only_view(self) -> Seq<Seq<char>> {
        title_strings(self.intl_only_titles@)
    }

    pub closed spec fn overrides_view(self) -> Seq<((Seq<char>, Seq<char>, ChartType), (SongGenre, Seq<char>))> {
        override_list_view(self.overrides@)
    }

    /// A resolver over the official songs and their charts, with the overrides of the
    /// duplicate titles.
    pub fn new(
        songs: &[SongIdentity],
        sheets: &[VersionSheet],
        overrides: &[DuplicateResolutionOverride],
    ) -> (r: Self)
        ensures
            r.candidates_view() == build_candidates(songs@, sheets@),
            r.intl_only_view() == build_intl_only(songs@, sheets@),
            r.overrides_view() == build_overrides(overrides@),
    {
        let mut cands: Vec<(String, Vec<SongCandidate>)> = Vec::new();
        let mut intl_only: Vec<String> = Vec::new();
        let mut i: usize = 0;
        assert(songs@.take(0) =~= Seq::<SongIdentity>::empty());
        assert(title_list_view(cands@) =~= Seq::<(Seq<char>, Seq<(IdentityView, Seq<ChartType>)>)>::empty());
        assert(title_strings(intl_only@) =~= Seq::<Seq<char>>::empty());
        while i < songs.len()
            invariant
                i <= songs.len(),
                title_list_view(cands@) == build_candidates(songs@.take(i as int), sheets@),
                title_strings(intl_only@) == build_intl_only(songs@.take(i as int), sheets@),
            decreases songs.len() - i,
        {
            assert(songs@.take(i + 1).drop_last() =~= songs@.take(i as int));
            assert(songs@.take(i + 1).last() == songs@[i as int]);
            let song = &songs[i];
            let types = official_chart_types(sheets, song);
            let t = trimmed(song.title.as_str());
            if types.len() == 0 {
                let ghost before = intl_only@;
                intl_only.push(string_of(t.as_slice()));
                assert(title_strings(intl_only@) =~= title_strings(before).push(t@));
            } else {
                let ghost mv = title_list_view(cands@);
                let cand = SongCandidate { identity: song.duplicate(), chart_types: types };
                match find_title_entry(&cands, t.as_slice()) {
                    Some(p) => {
                        proof {
                            lemma_first_key_index(mv, t@);
                        }
                        let ghost before = cands@;
                        let mut entry = cands.remove(p);
                        let ghost old_list = cands_view(entry.1@);
                        assert(old_list == mv[p as int].1);
                        entry.1.push(cand);
                        assert(cands_view(entry.1@) =~= old_list.push(cand_view(cand)));
                        cands.insert(p, entry);
                        assert(cands@ =~= before.update(p as int, entry));
                        assert(title_list_view(cands@) =~= mv.update(
                            p as int,
                            (t@, old_list.push(cand_view(cand))),
                        ));
                    },
                    None => {
                        let mut list: Vec<SongCandidate> = Vec::new();
                        list.push(cand);
                        assert(cands_view(list@) =~= Seq::<(IdentityView, Seq<ChartType>)>::empty().push(
                            cand_view(cand),
                        ));
                        cands.push((string_of(t.as_slice()), list));
                        assert(title_list_view(cands@) =~= mv.push(
                            (t@, Seq::<(IdentityView, Seq<ChartType>)>::empty().push(cand_view(cand))),
                        ));
                    },
                }
            }
            i += 1;
        }
        assert(songs@.take(songs.len() as int) =~= songs@);
        let mut ovs: Vec<(OverrideLookupKey, (SongGenre, String))> = Vec::new();
        let mut j: usize = 0;
        assert(overrides@.take(0) =~= Seq::<DuplicateResolutionOverride>::empty());
        assert(override_list_view(ovs@) =~= Seq::<((Seq<char>, Seq<char>, ChartType), (SongGenre, Seq<char>))>::empty());
        while j < overrides.len()
            invariant
                j <= overrides.len(),
                override_list_view(ovs@) == build_overrides(overrides@.take(j as int)),
            decreases overrides.len() - j,
        {
            assert(overrides@.take(j + 1).drop_last() =~= overrides@.take(j as int));
            assert(overrides@.take(j + 1).last() == overrides@[j as int]);
            let o = &overrides[j];
            let t = trimmed(o.title.as_str());
            let v = trimmed(o.version.as_str());
            let a = trimmed(o.artist.as_str());
            let ghost mv = override_list_view(ovs@);
            let ghost kv = (t@, v@, o.chart_type);
            let key = OverrideLookupKey {
                title: string_of(t.as_slice()),
                version: string_of(v.as_slice()),
                chart_type: o.chart_type,
            };
            let val = (o.genre, string_of(a.as_slice()));
            match find_override(&ovs, t.as_slice(), v.as_slice(), o.chart_type) {
                Some(p) => {
                    ovs.set(p, (key, val));
                    assert(override_list_view(ovs@) =~= mv.update(p as int, (kv, (o.genre, a@))));
                },
                None => {
                    ovs.push((key, val));
                    assert(override_list_view(ovs@) =~= mv.push((kv, (o.genre, a@))));
                },
            }
            j += 1;
        }
        assert(overrides@.take(overrides.len() as int) =~= overrides@);
        SongVersionResolver { candidates_by_title: cands, intl_only_titles: intl_only, overrides: ovs }
    }

    /// The official song that a title of the version search stands for (`None` for a title
    /// that only the international site has).
    pub fn resolve_song_identity(&self, title: &str, version_name: &str, chart_type: ChartType) -> (r:
        Result<Option<SongIdentity>, ResolveError>)
        ensures
            match r {
                Ok(Some(id)) => resolve_spec(
                    self.candidates_view(),
                    self.intl_only_view(),
                    self.overrides_view(),
                    title@,
                    version_name@,
                    chart_type,
                ) == Ok::<Option<IdentityView>, ResolveErrorKind>(Some(id_view(id))),
                Ok(None) => resolve_spec(
                    self.candidates_view(),
                    self.intl_only_view(),
                    self.overrides_view(),
                    title@,
                    version_name@,
                    chart_type,
                ) == Ok::<Option<IdentityView>, ResolveErrorKind>(None),
                Err(e) => resolve_spec(
                    self.candidates_view(),
                    self.intl_only_view(),
                    self.overrides_view(),
                    title@,
                    version_name@,
                    chart_type,
                ) == Err::<Option<IdentityView>, ResolveErrorKind>(e.kind) && e.title@ == trim(
                    title@,
                ) && e.version_name@ == trim(version_name@) && e.chart_type == chart_type,
            },
    {
        let t = trimmed(title);
        let v = trimmed(version_name);
        let ghost spec_result = resolve_spec(
            self.candidates_view(),
            self.intl_only_view(),
            self.overrides_view(),
            title@,
            version_name@,
            chart_type,
        );
        let pos = find_title_entry(&self.candidates_by_title, t.as_slice());
        let ghost cv = self.candidates_view();
        let pos = match pos {
            Some(p) => p,
            None => {
                if contains_title(&self.intl_only_titles, t.as_slice()) {
                    return Ok(None);
                }
                return Err(
                    ResolveError {
                        kind: ResolveErrorKind::NoOfficialSong,
                        title: string_of(t.as_slice()),
                        version_name: string_of(v.as_slice()),
                        chart_type,
                    },
                );
            },
        };
        let cands = &self.candidates_by_title[pos].1;
        let ghost cs = cands_view(cands@);
        assert(cs == cv[pos as int].1);
        if cands.len() == 0 {
            if contains_title(&self.intl_only_titles, t.as_slice()) {
                return Ok(None);
            }
            return Err(
                ResolveError {
                    kind: ResolveErrorKind::NoOfficialSong,
                    title: string_of(t.as_slice()),
                    version_name: string_of(v.as_slice()),
                    chart_type,
                },
            );
        }
        if cands.len() == 1 {
            return Ok(Some(cands[0].identity.duplicate()));
        }
        let typed = typed_indices(cands, chart_type);
        if typed.len() == 1 {
            return Ok(Some(cands[typed[0]].identity.duplicate()));
        }
        let opos = match find_override(&self.overrides, t.as_slice(), v.as_slice(), chart_type) {
            Some(p) => p,
            None => {
                return Err(
                    ResolveError {
                        kind: ResolveErrorKind::AmbiguousWithoutOverride,
                        title: string_of(t.as_slice()),
                        version_name: string_of(v.as_slice()),
                        chart_type,
                    },
                );
            },
        };
        let genre = self.overrides[opos].1.0;
        let artist = &self.overrides[opos].1.1;
        let matched = matching_indices(cands, genre, artist);
        if matched.len() == 1 {
            return Ok(Some(cands[matched[0]].identity.duplicate()));
        }
        let kind = if matched.len() == 0 {
            ResolveErrorKind::OverrideMatchedNone
        } else {
            ResolveErrorKind::OverrideMatchedMany
        };
        Err(
            ResolveError {
                kind,
                title: string_of(t.as_slice()),
                version_name: string_of(v.as_slice()),
                chart_type,
            },
        )
    }
}

fn typed_indices(cands: &Vec<SongCandidate>, ct: ChartType) -> (r: Vec<usize>)
    ensures
        r@.len() == with_type(cands_view(cands@), ct).len(),
        forall|q: int|
            0 <= q < r@.len() ==> (#[trigger] r@[q]) < cands@.len() && cand_view(cands@[r@[q] as int])
                == with_type(cands_view(cands@), ct)[q],
{
    let ghost cs = cands_view(cands@);
    let mut out: Vec<usize> = Vec::new();
    let mut i: usize = 0;
    assert(cs.take(0) =~= Seq::<(IdentityView, Seq<ChartType>)>::empty());
    while i < cands.len()
        invariant
            i <= cands.len(),
            cs == cands_view(cands@),
            out@.len() == with_type(cs.take(i as int), ct).len(),
            forall|q: int|
                0 <= q < out@.len() ==> (#[trigger] out@[q]) < cands@.len() && cand_view(
                    cands@[out@[q] as int],
                ) == with_type(cs.take(i as int), ct)[q],
        decreases cands.len() - i,
    {
        assert(cs.take(i + 1).drop_last() =~= cs.take(i as int));
        assert(cs.take(i + 1).last() == cand_view(cands@[i as int]));
        if contains_type(&cands[i].chart_types, ct) {
            out.push(i);
        }
        i += 1;
    }
    assert(cs.take(cands.len() as int) =~= cs);
    out
}

fn matching_indices(cands: &Vec<SongCandidate>, genre: SongGenre, artist: &String) -> (r: Vec<usize>)
    ensures
        r@.len() == with_genre_artist(cands_view(cands@), genre, artist@).len(),
        forall|q: int|
            0 <= q < r@.len() ==> (#[trigger] r@[q]) < cands@.len() && cand_view(cands@[r@[q] as int])
                == with_genre_artist(cands_view(cands@), genre, artist@)[q],
{
    let ghost cs = cands_view(cands@);
    let a = chars_of(artist.as_str());
    let mut out: Vec<usize> = Vec::new();
    let mut i: usize = 0;
    assert(cs.take(0) =~= Seq::<(IdentityView, Seq<ChartType>)>::empty());
    while i < cands.len()
        invariant
            i <= cands.len(),
            cs == cands_view(cands@),
            a@ == artist@,
            out@.len() == with_genre_artist(cs.take(i as int), genre, artist@).len(),
            forall|q: int|
                0 <= q < out@.len() ==> (#[trigger] out@[q]) < cands@.len() && cand_view(
                    cands@[out@[q] as int],
                ) == with_genre_artist(cs.take(i as int), genre, artist@)[q],
        decreases cands.len() - i,
    {
        assert(cs.take(i + 1).drop_last() =~= cs.take(i as int));
        assert(cs.take(i + 1).last() == cand_view(cands@[i as int]));
        if cands[i].identity.genre == genre && eq_chars(
            chars_of(cands[i].identity.artist.as_str()).as_slice(),
            a.as_slice(),
        ) {
            out.push(i);
        }
        i += 1;
    }
    assert(cs.take(cands.len() as int) =~= cs);
    out
}

/// Why the charts of a version page could not be read.
#[derive(Debug, Clone)]
pub enum SheetVersionError {
    Parse(ParseError),
    Resolve(ResolveError),
    DuplicateSheet(SongIdentity, ChartType),
}

pub open spec fn resolver_resolve(
    r: SongVersionResolver,
    title: Seq<char>,
    version: Seq<char>,
    ct: ChartType,
) -> Result<Option<IdentityView>, ResolveErrorKind> {
    resolve_spec(r.candidates_view(), r.intl_only_view(), r.overrides_view(), title, version, ct)
}

/// The charts of a version page, from its (title, chart type) entries in order: each resolved
/// entry gives its song and chart type, the titles of the international site alone give
/// nothing, and the first entry that cannot be resolved makes it an error.
pub open spec fn version_rows(
    r: SongVersionResolver,
    entries: Seq<(Seq<char>, ChartType)>,
    version: Seq<char>,
) -> Result<Seq<(IdentityView, ChartType)>, ResolveErrorKind>
    decreases entries.len(),
{
    if entries.len() == 0 {
        Ok(Seq::empty())
    } else {
        match version_rows(r, entries.drop_last(), version) {
            Err(k) => Err(k),
            Ok(prev) => match resolver_resolve(r, entries.last().0, version, entries.last().1) {
                Err(k) => Err(k),
                Ok(None) => Ok(prev),
                Ok(Some(id)) => Ok(prev.push((id, entries.last().1))),
            },
        }
    }
}

pub open spec fn entry_keys(v: Seq<ParsedScoreEntry>) -> Seq<(Seq<char>, ChartType)> {
    v.map_values(|e: ParsedScoreEntry| (e.title@, e.chart_type))
}

pub open spec fn rows_view(v: Seq<(SongIdentity, ChartType)>) -> Seq<(IdentityView, ChartType)> {
    v.map_values(|p: (SongIdentity, ChartType)| (id_view(p.0), p.1))
}

proof fn lemma_version_rows_err_persists(
    r: SongVersionResolver,
    entries: Seq<(Seq<char>, ChartType)>,
    version: Seq<char>,
    n: int,
    k: ResolveErrorKind,
)
    requires
        0 <= n <= entries.len(),
        version_rows(r, entries.take(n), version) == Err::<Seq<(IdentityView, ChartType)>, ResolveErrorKind>(k),
    ensures
        version_rows(r, entries, version) == Err::<Seq<(IdentityView, ChartType)>, ResolveErrorKind>(k),
    decreases entries.len() - n,
{
    if n < entries.len() {
        assert(entries.take(n + 1).drop_last() =~= entries.take(n));
        lemma_version_rows_err_persists(r, entries, version, n + 1, k);
    } else {
        assert(entries.take(n) =~= entries);
    }
}

/// The charts of the entries of a version page.
pub fn rows_from_entries(
    entries: &[ParsedScoreEntry],
    version_name: &str,
    resolver: &SongVersionResolver,
) -> (r: Result<Vec<(SongIdentity, ChartType)>, ResolveError>)
    ensures
        match r {
            Ok(rows) => version_rows(*resolver, entry_keys(entries@), version_name@) == Ok::<
                Seq<(IdentityView, ChartType)>,
                ResolveErrorKind,
            >(rows_view(rows@)),
            Err(e) => version_rows(*resolver, entry_keys(entries@), version_name@) == Err::<
                Seq<(IdentityView, ChartType)>,
                ResolveErrorKind,
            >(e.kind),
        },
{
    let ghost keys = entry_keys(entries@);
    let mut out: Vec<(SongIdentity, ChartType)> = Vec::new();
    let mut i: usize = 0;
    assert(keys.take(0) =~= Seq::<(Seq<char>, ChartType)>::empty());
    assert(rows_view(out@) =~= Seq::<(IdentityView, ChartType)>::empty());
    while i < entries.len()
        invariant
            i <= entries.len(),
            keys == entry_keys(entries@),
            version_rows(*resolver, keys.take(i as int), version_name@) == Ok::<
                Seq<(IdentityView, ChartType)>,
                ResolveErrorKind,
            >(rows_view(out@)),
        decreases entries.len() - i,
    {
        assert(keys.take(i + 1).drop_last() =~= keys.take(i as int));
        assert(keys.take(i + 1).last() == (entries@[i as int].title@, entries@[i as int].chart_type));
        let e = &entries[i];
        match resolver.resolve_song_identity(e.title.as_str(), version_name, e.chart_type) {
            Err(err) => {
                proof {
                    lemma_version_rows_err_persists(*resolver, keys, version_name@, i + 1, err.kind);
                }
                return Err(err);
            },
            Ok(None) => {},
            Ok(Some(id)) => {
                let ghost before = out@;
                out.push((id, e.chart_type));
                assert(rows_view(out@) =~= rows_view(before).push((id_view(id), e.chart_type)));
            },
        }
        i += 1;
    }
    assert(keys.take(entries.len() as int) =~= keys);
    Ok(out)
}

/// The charts of a version page of the international site (score-list HTML, difficulty 0):
/// a parse error exactly when an entry has no level; else the charts of the page's entries,
/// or the first error of resolving their songs.
pub fn parse_rows(html: &str, version_name: &str, resolver: &SongVersionResolver) -> (r: Result<
    Vec<(SongIdentity, ChartType)>,
    SheetVersionError,
>)
    ensures
        r matches Err(SheetVersionError::Parse(e)) ==> e == ParseError::MissingLevel,
        r matches Err(SheetVersionError::Parse(_)) <==> some_level_missing(
            document_nested_texts_of(html@, entry_selector(), ".music_lv_block"@),
            document_nested_texts_of(html@, entry_selector(), ".music_name_block"@).len() as int,
        ),
        r matches Ok(rows) ==> exists|entries: Seq<ParsedScoreEntry>|
            score_page_spec(html@, 0, entries) && #[trigger] version_rows(
                *resolver,
                entry_keys(entries),
                version_name@,
            ) == Ok::<Seq<(IdentityView, ChartType)>, ResolveErrorKind>(rows_view(rows@)),
        r matches Err(SheetVersionError::Resolve(e)) ==> exists|entries: Seq<ParsedScoreEntry>|
            score_page_spec(html@, 0, entries) && #[trigger] version_rows(
                *resolver,
                entry_keys(entries),
                version_name@,
            ) == Err::<Seq<(IdentityView, ChartType)>, ResolveErrorKind>(e.kind),
        !(r matches Err(SheetVersionError::DuplicateSheet(_, _))),
{
    match parse_scores_html(html, 0) {
        Err(e) => Err(SheetVersionError::Parse(e)),
        Ok(entries) => match rows_from_entries(entries.as_slice(), version_name, resolver) {
            Ok(rows) => Ok(rows),
            Err(e) => Err(SheetVersionError::Resolve(e)),
        },
    }
}

pub open spec fn version_map_view(m: Seq<((SongIdentity, ChartType), String)>) -> Seq<
    ((IdentityView, ChartType), Seq<char>),
> {
    m.map_values(|p: ((SongIdentity, ChartType), String)| ((id_view(p.0.0), p.0.1), p.1@))
}

/// Whether a chart already has a version in the map.
pub open spec fn has_chart(m: Seq<((IdentityView, ChartType), Seq<char>)>, k: (IdentityView, ChartType)) -> bool {
    exists|i: int| 0 <= i < m.len() && (#[trigger] m[i]).0 == k
}

/// The map with the charts of one version page added, or `None` when a chart was seen
/// before (on an earlier page or earlier on this one).
pub open spec fn add_version_rows(
    m: Seq<((IdentityView, ChartType), Seq<char>)>,
    rows: Seq<(IdentityView, ChartType)>,
    version: Seq<char>,
) -> Option<Seq<((IdentityView, ChartType), Seq<char>)>>
    decreases rows.len(),
{
    if rows.len() == 0 {
        Some(m)
    } else {
        match add_version_rows(m, rows.drop_last(), version) {
            None => None,
            Some(p) => if has_chart(p, rows.last()) {
                None
            } else {
                Some(p.push((rows.last(), version)))
            },
        }
    }
}

fn find_chart(m: &Vec<((SongIdentity, ChartType), String)>, id: &SongIdentity, ct: ChartType) -> (b: bool)
    ensures
        b == has_chart(version_map_view(m@), (id_view(*id), ct)),
{
    let ghost mv = version_map_view(m@);
    let mut i: usize = 0;
    while i < m.len()
        invariant
            i <= m.len(),
            mv == version_map_view(m@),
            forall|q: int| 0 <= q < i ==> (#[trigger] mv[q]).0 != (id_view(*id), ct),
        decreases m.len() - i,
    {
        if m[i].0.1 == ct && same_identity(&m[i].0.0, id) {
            assert(mv[i as int].0 == (id_view(*id), ct));
            return true;
        }
        i += 1;
    }
    false
}

proof fn lemma_add_version_rows_none_persists(
    m: Seq<((IdentityView, ChartType), Seq<char>)>,
    rows: Seq<(IdentityView, ChartType)>,
    version: Seq<char>,
    n: int,
)
    requires
        0 <= n <= rows.len(),
        add_version_rows(m, rows.take(n), version) is None,
    ensures
        add_version_rows(m, rows, version) is None,
    decreases rows.len() - n,
{
    if n < rows.len() {
        assert(rows.take(n + 1).drop_last() =~= rows.take(n));
        lemma_add_version_rows_none_persists(m, rows, version, n + 1);
    } else {
        assert(rows.take(n) =~= rows);
    }
}

/// Adds the charts of one version page to the version map; a chart seen before is an error.
pub fn record_version_rows(
    map: &mut Vec<((SongIdentity, ChartType), String)>,
    rows: Vec<(SongIdentity, ChartType)>,
    version_name: &str,
) -> (r: Result<(), SheetVersionError>)
    ensures
        r is Ok <==> add_version_rows(version_map_view(old(map)@), rows_view(rows@), version_name@) is Some,
        r is Ok ==> Some(version_map_view(final(map)@)) == add_version_rows(
            version_map_view(old(map)@),
            rows_view(rows@),
            version_name@,
        ),
        r matches Err(e) ==> e is DuplicateSheet,
{
    let ghost start = version_map_view(map@);
    let ghost rv = rows_view(rows@);
    let ghost all = rows@;
    assert(rv.take(0) =~= Seq::<(IdentityView, ChartType)>::empty());
    for row in it: rows
        invariant
            it.seq() == all,
            rv == rows_view(all),
            start == version_map_view(old(map)@),
            add_version_rows(start, rv.take(it.index() as int), version_name@) == Some(
                version_map_view(map@),
            ),
    {
        assert(rv.take(it.index() + 1).drop_last() =~= rv.take(it.index() as int));
        assert(rv.take(it.index() + 1).last() == (id_view(row.0), row.1));
        let (id, ct) = row;
        if find_chart(map, &id, ct) {
            proof {
                lemma_add_version_rows_none_persists(start, rv, version_name@, it.index() + 1);
            }
            return Err(SheetVersionError::DuplicateSheet(id, ct));
        }
        let ghost before = version_map_view(map@);
        map.push(((id, ct), String::from_str(version_name)));
        assert(version_map_view(map@) =~= before.push(((id_view(id), ct), version_name@)));
    }
    assert(rv.take(rv.len() as int) =~= rv);
    Ok(())
}

} // verus!
