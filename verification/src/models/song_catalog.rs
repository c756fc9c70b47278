//! The song data file: songs with their charts, levels and tiers.
use vstd::prelude::*;

use crate::models::song_title::opt_view;
use crate::text::{chars_of, eq_chars};

verus! {

/// The aliases of a song in English and in Korean.
#[derive(Debug, Clone, Default)]
pub struct SongAliases {
    pub en: Vec<String>,
    pub ko: Vec<String>,
}

/// In which regions a chart can be played.
#[derive(Debug, Clone, Copy, PartialEq, Eq, Structural)]
pub struct SongChartRegion {
    pub jp: bool,
    pub intl: bool,
}

/// One chart of the song catalog.
#[derive(Debug, Clone)]
pub struct SongCatalogChart {
    pub chart_type: String,
    pub difficulty: String,
    pub level: String,
    pub version_name: Option<String>,
    pub internal_level: Option<String>,
    pub user_level: Option<String>,
    pub region: SongChartRegion,
}

/// One chart of the song data file.
#[derive(Debug, Clone)]
pub struct SongDataSheet {
    pub sheet_type: String,
    pub difficulty: String,
    pub level: String,
    pub internal_level: Option<String>,
    pub user_level: Option<String>,
}

/// One song of the song data file.
#[derive(Debug, Clone)]
pub struct SongDataSong {
    pub title: String,
    pub version: Option<String>,
    pub image_name: Option<String>,
    pub sheets: Vec<SongDataSheet>,
}

/// The song data file.
#[derive(Debug, Clone)]
pub struct SongDataRoot {
    pub songs: Vec<SongDataSong>,
}

/// The song data, looked up by title.
#[derive(Debug, Clone)]
pub struct SongDataIndex {
    songs: Vec<SongDataSong>,
}

/// The index of the first song with the title `title`.
pub open spec fn first_song_with_title(songs: Seq<SongDataSong>, title: Seq<char>) -> Option<int>
    decreases songs.len(),
{
    if songs.len() == 0 {
        None
    } else {
        match first_song_with_title(songs.drop_last(), title) {
            Some(i) => Some(i),
            None => if songs.last().title@ == title {
                Some(songs.len() - 1)
            } else {
                None
            },
        }
    }
}

pub proof fn lemma_first_song_with_title(songs: Seq<SongDataSong>, title: Seq<char>)
    ensures
        match first_song_with_title(songs, title) {
            Some(i) => 0 <= i < songs.len() && songs[i].title@ == title && forall|j: int|
                0 <= j < i ==> (#[trigger] songs[j]).title@ != title,
            None => forall|j: int| 0 <= j < songs.len() ==> (#[trigger] songs[j]).title@ != title,
        },
    decreases songs.len(),
{
    if songs.len() > 0 {
        let prev = songs.drop_last();
        lemma_first_song_with_title(prev, title);
        assert forall|j: int| 0 <= j < prev.len() implies #[trigger] songs[j] == prev[j] by {}
    }
}

/// The index of the first song of `songs` titled `title`.
pub fn find_song_by_title(songs: &[SongDataSong], title: &str) -> (r: Option<usize>)
    ensures
        match r {
            Some(i) => i < songs.len() && first_song_with_title(songs@, title@) == Some(i as int),
            None => first_song_with_title(songs@, title@) is None,
        },
{
    let t = chars_of(title);
    let mut i: usize = 0;
    while i < songs.len()
        invariant
            i <= songs.len(),
            t@ == title@,
            forall|j: int| 0 <= j < i ==> (#[trigger] songs@[j]).title@ != title@,
        decreases songs.len() - i,
    {
        let s = chars_of(songs[i].title.as_str());
        if eq_chars(s.as_slice(), t.as_slice()) {
            proof {
                lemma_first_song_with_title(songs@, title@);
            }
            return Some(i);
        }
        i += 1;
    }
    proof {
        lemma_first_song_with_title(songs@, title@);
    }
    None
}

impl SongDataIndex {
    /// The songs of the index, in the order of the file.
    pub closed spec fn songs_view(self) -> Seq<SongDataSong> {
        self.songs@
    }

    /// An index over the songs of a song data file.
    pub fn from_root(root: SongDataRoot) -> (r: Self)
        ensures
            r.songs_view() == root.songs@,
    {
        SongDataIndex { songs: root.songs }
    }

    /// An index without songs.
    pub fn empty() -> (r: Self)
        ensures
            r.songs_view().len() == 0,
    {
        SongDataIndex { songs: Vec::new() }
    }

    /// The cover image file of the first song titled `title`.
    pub fn image_name(&self, title: &str) -> (r: Option<String>)
        ensures
            opt_view(r) == (match first_song_with_title(self.songs_view(), title@) {
                Some(i) => opt_view(self.songs_view()[i].image_name),
                None => None,
            }),
    {
        match find_song_by_title(self.songs.as_slice(), title) {
            Some(i) => self.songs[i].image_name.clone(),
            None => None,
        }
    }
}

} // verus!
