//! Building the song database from the official song list.
pub mod aliases;
pub mod catalog;
pub mod internal_levels;
pub mod sheet_versions;
pub mod user_tiers;

use sha2::Digest;
use vstd::prelude::*;
use vstd::utf8::encode_utf8;

use crate::models::game_domain::{ChartType, DifficultyCategory, MaimaiVersion};
use crate::models::song_title::opt_view;
use crate::text::{
    chars_in_bytes, chars_of, copy_range, count_chars_in_bytes, eq_chars, eq_lit, parse_i64,
    parse_int_spec, push_chars, string_of, trim, trimmed, utf8_len, utf8_width_of,
};

verus! {

/// Where cover images of the official site are served from.
pub const IMAGE_BASE_URL: &'static str = "https://maimaidx.jp/maimai-mobile/img/Music/";

/// One song of the official song list, as it is read.
#[derive(Debug, Clone)]
pub struct RawSong {
    pub catcode: String,
    pub title: String,
    pub artist: Option<String>,
    pub image_url: String,
    pub version: String,
    pub release: Option<String>,
    pub comment: Option<String>,
    pub utage_comment: Option<String>,
    pub buddy: Option<String>,
    pub date: Option<String>,
    pub key: Option<String>,
    pub dx_lev_bas: Option<String>,
    pub dx_lev_adv: Option<String>,
    pub dx_lev_exp: Option<String>,
    pub dx_lev_mas: Option<String>,
    pub dx_lev_remas: Option<String>,
    pub lev_bas: Option<String>,
    pub lev_adv: Option<String>,
    pub lev_exp: Option<String>,
    pub lev_mas: Option<String>,
    pub lev_remas: Option<String>,
    pub lev_utage: Option<String>,
    pub kanji: Option<String>,
    pub utage_type: Option<String>,
}

/// One song of the database.
#[derive(Debug, Clone)]
pub struct SongRow {
    pub song_id: String,
    pub category: Option<String>,
    pub title: String,
    pub artist: Option<String>,
    pub image_name: String,
    pub image_url: String,
    pub version: Option<String>,
    pub release_date: Option<String>,
    pub sort_order: Option<i64>,
    pub is_new: bool,
    pub is_locked: bool,
    pub comment: Option<String>,
}

/// One chart of the database.
#[derive(Debug, Clone)]
pub struct SheetRow {
    pub song_id: String,
    pub sheet_type: ChartType,
    pub difficulty: DifficultyCategory,
    pub level: String,
}

/// Why the song list was refused.
#[derive(Debug, Clone)]
pub enum SongDbError {
    DuplicateSongIds(Vec<String>),
}

/// The identifier of a song: its title, except for the songs that share a title.
pub open spec fn song_id_spec(catcode: Seq<char>, title: Seq<char>, comment: Option<Seq<char>>) -> Seq<
    char,
> {
    if catcode == "宴会場"@ {
        if title == "[協]青春コンプレックス"@ && comment == Some(
            "バンドメンバーを集めて楽しもう！（入門編）"@,
        ) {
            "[協]青春コンプレックス（入門編）"@
        } else if title == "[協]青春コンプレックス"@ && comment == Some(
            "バンドメンバーを集めて挑め！（ヒーロー級）"@,
        ) {
            "[協]青春コンプレックス（ヒーロー級）"@
        } else {
            title
        }
    } else if title == "Link"@ && catcode == "maimai"@ {
        "Link"@
    } else if title == "Link"@ && catcode == "niconico＆ボーカロイド"@ {
        "Link (2)"@
    } else if title == "Bad Apple!! feat nomico"@ {
        "Bad Apple!! feat.nomico"@
    } else {
        title
    }
}

pub open spec fn raw_song_id(raw: RawSong) -> Seq<char> {
    song_id_spec(raw.catcode@, raw.title@, opt_view(raw.comment))
}

fn opt_eq_lit(o: &Option<String>, lit: &str) -> (b: bool)
    ensures
        b == (opt_view(*o) == Some(lit@)),
{
    match o {
        Some(s) => eq_lit(chars_of(s.as_str()).as_slice(), lit),
        None => false,
    }
}

/// The identifier of a song of the official list.
pub fn derive_song_id(raw_song: &RawSong) -> (r: String)
    ensures
        r@ == raw_song_id(*raw_song),
{
    let cat = chars_of(raw_song.catcode.as_str());
    let title = chars_of(raw_song.title.as_str());
    if eq_lit(cat.as_slice(), "宴会場") {
        if eq_lit(title.as_slice(), "[協]青春コンプレックス") {
            if opt_eq_lit(&raw_song.comment, "バンドメンバーを集めて楽しもう！（入門編）") {
                return String::from_str("[協]青春コンプレックス（入門編）");
            }
            if opt_eq_lit(&raw_song.comment, "バンドメンバーを集めて挑め！（ヒーロー級）") {
                return String::from_str("[協]青春コンプレックス（ヒーロー級）");
            }
        }
        return raw_song.title.clone();
    }
    if eq_lit(title.as_slice(), "Link") {
        if eq_lit(cat.as_slice(), "maimai") {
            return String::from_str("Link");
        }
        if eq_lit(cat.as_slice(), "niconico＆ボーカロイド") {
            return String::from_str("Link (2)");
        }
    }
    if eq_lit(title.as_slice(), "Bad Apple!! feat nomico") {
        return String::from_str("Bad Apple!! feat.nomico");
    }
    raw_song.title.clone()
}

/// The songs that are not utage charts, in order.
pub open spec fn non_utage(songs: Seq<RawSong>) -> Seq<RawSong>
    decreases songs.len(),
{
    if songs.len() == 0 {
        songs
    } else {
        let prev = non_utage(songs.drop_last());
        if songs.last().lev_utage is None {
            prev.push(songs.last())
        } else {
            prev
        }
    }
}

proof fn lemma_non_utage_len(songs: Seq<RawSong>)
    ensures
        non_utage(songs).len() <= songs.len(),
    decreases songs.len(),
{
    if songs.len() > 0 {
        lemma_non_utage_len(songs.drop_last());
    }
}

/// Drops the utage entries, and counts them.
pub fn filter_out_utage_entries(raw_songs: Vec<RawSong>) -> (r: (Vec<RawSong>, usize))
    ensures
        r.0@ == non_utage(raw_songs@),
        r.1 == raw_songs.len() - non_utage(raw_songs@).len(),
{
    let ghost all = raw_songs@;
    let before = raw_songs.len();
    let mut filtered: Vec<RawSong> = Vec::new();
    assert(all.take(0) =~= Seq::<RawSong>::empty());
    for song in it: raw_songs
        invariant
            it.seq() == all,
            filtered@ == non_utage(all.take(it.index() as int)),
            before == all.len(),
    {
        assert(all.take(it.index() + 1).drop_last() =~= all.take(it.index() as int));
        assert(all.take(it.index() + 1).last() == song);
        if song.lev_utage.is_none() {
            filtered.push(song);
        }
    }
    assert(all.take(all.len() as int) =~= all);
    proof {
        lemma_non_utage_len(all);
    }
    let dropped = before - filtered.len();
    (filtered, dropped)
}

/// The identifiers that repeat an earlier one, in order.
pub open spec fn repeated_ids(ids: Seq<Seq<char>>) -> Seq<Seq<char>>
    decreases ids.len(),
{
    if ids.len() == 0 {
        ids
    } else {
        let prev = repeated_ids(ids.drop_last());
        if ids.drop_last().contains(ids.last()) {
            prev.push(ids.last())
        } else {
            prev
        }
    }
}

pub open spec fn song_ids(songs: Seq<RawSong>) -> Seq<Seq<char>> {
    songs.map_values(|s: RawSong| raw_song_id(s))
}

fn contains_string(v: &Vec<String>, s: &String) -> (b: bool)
    ensures
        b == v@.map_values(|x: String| x@).contains(s@),
{
    let ghost vv = v@.map_values(|x: String| x@);
    let sv = chars_of(s.as_str());
    let mut i: usize = 0;
    while i < v.len()
        invariant
            i <= v.len(),
            vv == v@.map_values(|x: String| x@),
            sv@ == s@,
            forall|k: int| 0 <= k < i ==> vv[k] != s@,
        decreases v.len() - i,
    {
        let x = chars_of(v[i].as_str());
        if eq_chars(x.as_slice(), sv.as_slice()) {
            assert(vv[i as int] == s@);
            return true;
        }
        i += 1;
    }
    false
}

/// Refuses a song list in which two songs get the same identifier; the error lists every
/// identifier that repeats an earlier one.
pub fn ensure_unique_song_ids(raw_songs: &[RawSong]) -> (r: Result<(), SongDbError>)
    ensures
        r is Ok <==> repeated_ids(song_ids(raw_songs@)).len() == 0,
        r matches Err(SongDbError::DuplicateSongIds(d)) ==> d@.map_values(|x: String| x@)
            == repeated_ids(song_ids(raw_songs@)),
{
    let ghost ids = song_ids(raw_songs@);
    let mut seen: Vec<String> = Vec::new();
    let mut duplicates: Vec<String> = Vec::new();
    let mut i: usize = 0;
    assert(ids.take(0) =~= Seq::<Seq<char>>::empty());
    assert(seen@.map_values(|x: String| x@) =~= Seq::<Seq<char>>::empty());
    assert(duplicates@.map_values(|x: String| x@) =~= Seq::<Seq<char>>::empty());
    while i < raw_songs.len()
        invariant
            i <= raw_songs.len(),
            ids == song_ids(raw_songs@),
            seen@.map_values(|x: String| x@) == ids.take(i as int),
            duplicates@.map_values(|x: String| x@) == repeated_ids(ids.take(i as int)),
        decreases raw_songs.len() - i,
    {
        assert(ids.take(i + 1).drop_last() =~= ids.take(i as int));
        let id = derive_song_id(&raw_songs[i]);
        assert(ids.take(i + 1).last() == id@);
        let ghost seen_before = seen@;
        let ghost dup_before = duplicates@;
        if contains_string(&seen, &id) {
            let dup = id.clone();
            duplicates.push(dup);
            assert(duplicates@.map_values(|x: String| x@) =~= dup_before.map_values(
                |x: String| x@,
            ).push(id@));
        }
        seen.push(id);
        assert(seen@.map_values(|x: String| x@) =~= seen_before.map_values(|x: String| x@).push(
            ids[i as int],
        ));
        assert(ids.take(i + 1) =~= ids.take(i as int).push(ids[i as int]));
        i += 1;
    }
    assert(ids.take(raw_songs.len() as int) =~= ids);
    if duplicates.len() > 0 {
        return Err(SongDbError::DuplicateSongIds(duplicates));
    }
    Ok(())
}

/// Whether an optional text holds something besides whitespace.
pub open spec fn truthy(o: Option<Seq<char>>) -> bool {
    match o {
        Some(t) => trim(t).len() > 0,
        None => false,
    }
}

pub fn is_truthy(value: &Option<String>) -> (b: bool)
    ensures
        b == truthy(opt_view(*value)),
{
    match value {
        Some(t) => trimmed(t.as_str()).len() > 0,
        None => false,
    }
}

/// A level as the database keeps it: trimmed, and absent when empty.
pub open spec fn normalized_level(level: Option<Seq<char>>) -> Option<Seq<char>> {
    match level {
        Some(l) => if trim(l).len() > 0 {
            Some(trim(l))
        } else {
            None
        },
        None => None,
    }
}

pub fn normalize_level(level: Option<&str>) -> (r: Option<String>)
    ensures
        opt_view(r) == normalized_level(
            match level {
                Some(l) => Some(l@),
                None => None,
            },
        ),
{
    let level = match level {
        Some(l) => l,
        None => {
            return None;
        },
    };
    let t = trimmed(level);
    if t.len() == 0 {
        None
    } else {
        Some(string_of(t.as_slice()))
    }
}

/// The comment of a song: its comment, else its utage comment, marked when it is a buddy chart.
pub open spec fn comment_spec(raw: RawSong) -> Option<Seq<char>> {
    let base = match opt_view(raw.comment) {
        Some(c) => Some(c),
        None => opt_view(raw.utage_comment),
    };
    match base {
        None => None,
        Some(c) => if truthy(opt_view(raw.buddy)) {
            Some("【🤝バディ】"@ + c)
        } else {
            Some(c)
        },
    }
}

pub fn extract_comment(raw_song: &RawSong) -> (r: Option<String>)
    ensures
        opt_view(r) == comment_spec(*raw_song),
{
    let comment = match &raw_song.comment {
        Some(c) => c.clone(),
        None => match &raw_song.utage_comment {
            Some(c) => c.clone(),
            None => {
                return None;
            },
        },
    };
    if is_truthy(&raw_song.buddy) {
        let mut s = String::from_str("【🤝バディ】");
        s.push_str(comment.as_str());
        return Some(s);
    }
    Some(comment)
}

/// The version that the first three digits of a version code name.
pub open spec fn version_name_of_id(version_id: int) -> Option<Seq<char>> {
    if version_id == 100 {
        Some("maimai"@)
    } else if version_id == 110 {
        Some("maimai PLUS"@)
    } else if version_id == 120 {
        Some("GreeN"@)
    } else if version_id == 130 {
        Some("GreeN PLUS"@)
    } else if version_id == 140 {
        Some("ORANGE"@)
    } else if version_id == 150 {
        Some("ORANGE PLUS"@)
    } else if version_id == 160 {
        Some("PiNK"@)
    } else if version_id == 170 {
        Some("PiNK PLUS"@)
    } else if version_id == 180 {
        Some("MURASAKi"@)
    } else if version_id == 185 {
        Some("MURASAKi PLUS"@)
    } else if version_id == 190 {
        Some("MiLK"@)
    } else if version_id == 195 {
        Some("MiLK PLUS"@)
    } else if version_id == 199 {
        Some("FiNALE"@)
    } else if version_id == 200 {
        Some("maimaiでらっくす"@)
    } else if version_id == 205 {
        Some("maimaiでらっくす PLUS"@)
    } else if version_id == 210 {
        Some("Splash"@)
    } else if version_id == 215 {
        Some("Splash PLUS"@)
    } else if version_id == 220 {
        Some("UNiVERSE"@)
    } else if version_id == 225 {
        Some("UNiVERSE PLUS"@)
    } else if version_id == 230 {
        Some("FESTiVAL"@)
    } else if version_id == 235 {
        Some("FESTiVAL PLUS"@)
    } else if version_id == 240 {
        Some("BUDDiES"@)
    } else if version_id == 245 {
        Some("BUDDiES PLUS"@)
    } else if version_id == 250 {
        Some("PRiSM"@)
    } else if version_id == 255 {
        Some("PRiSM PLUS"@)
    } else if version_id == 260 {
        Some("CiRCLE"@)
    } else {
        None
    }
}

pub fn version_from_version_id(version_id: i32) -> (r: Option<&'static str>)
    ensures
        match version_name_of_id(version_id as int) {
            Some(n) => r matches Some(s) && s@ == n,
            None => r is None,
        },
{
    match version_id {
        100 => Some("maimai"),
        110 => Some("maimai PLUS"),
        120 => Some("GreeN"),
        130 => Some("GreeN PLUS"),
        140 => Some("ORANGE"),
        150 => Some("ORANGE PLUS"),
        160 => Some("PiNK"),
        170 => Some("PiNK PLUS"),
        180 => Some("MURASAKi"),
        185 => Some("MURASAKi PLUS"),
        190 => Some("MiLK"),
        195 => Some("MiLK PLUS"),
        199 => Some("FiNALE"),
        200 => Some("maimaiでらっくす"),
        205 => Some("maimaiでらっくす PLUS"),
        210 => Some("Splash"),
        215 => Some("Splash PLUS"),
        220 => Some("UNiVERSE"),
        225 => Some("UNiVERSE PLUS"),
        230 => Some("FESTiVAL"),
        235 => Some("FESTiVAL PLUS"),
        240 => Some("BUDDiES"),
        245 => Some("BUDDiES PLUS"),
        250 => Some("PRiSM"),
        255 => Some("PRiSM PLUS"),
        260 => Some("CiRCLE"),
        _ => None,
    }
}

/// The SHA-256 digest of some bytes.
pub uninterp spec fn sha256_of(data: Seq<u8>) -> Seq<u8>;

/// Calls `sha2::Sha256::digest`. Trusted: the digest is a function of the bytes alone, and is
/// 32 bytes long; what the bytes are is left to the name `sha256_of`.
#[verifier::external_body]
fn sha256_digest(data: &[u8]) -> (r: Vec<u8>)
    ensures
        r@ == sha256_of(data@),
        r@.len() == 32,
{
    sha2::Sha256::digest(data).to_vec()
}

/// The lower-case hexadecimal digit of a value below 16.
pub open spec fn hex_digit(n: int) -> char {
    if n < 10 {
        ((48 + n) as u32) as char
    } else {
        ((87 + n) as u32) as char
    }
}

/// Each byte as two lower-case hexadecimal digits, high half first.
pub open spec fn hex_lower(bytes: Seq<u8>) -> Seq<char>
    decreases bytes.len(),
{
    if bytes.len() == 0 {
        Seq::empty()
    } else {
        hex_lower(bytes.drop_last()) + seq![
            hex_digit(bytes.last() as int / 16),
            hex_digit(bytes.last() as int % 16),
        ]
    }
}

/// The lower-case hexadecimal digit of a value below 16.
fn hex_char(n: u8) -> (c: char)
    requires
        n < 16,
    ensures
        c == hex_digit(n as int),
{
    if n < 10 {
        (48u8 + n) as char
    } else {
        (87u8 + n) as char
    }
}

/// Writes each byte as two lower-case hexadecimal digits, high half first.
fn hex_encode(data: &[u8]) -> (r: String)
    ensures
        r@ == hex_lower(data@),
{
    let mut out = String::new();
    let mut i: usize = 0;
    while i < data.len()
        invariant
            i <= data.len(),
            out@ == hex_lower(data@.take(i as int)),
        decreases data.len() - i,
    {
        let b = data[i];
        assert(data@.take(i + 1).drop_last() =~= data@.take(i as int));
        out.push(hex_char(b / 16));
        out.push(hex_char(b % 16));
        i += 1;
    }
    assert(data@.take(data.len() as int) =~= data@);
    out
}

/// The SHA-256 digest of the UTF-8 bytes of a text, in lower-case hexadecimal.
pub open spec fn sha256_hex_spec(value: Seq<char>) -> Seq<char> {
    hex_lower(sha256_of(encode_utf8(value)))
}

proof fn lemma_hex_lower_len(bytes: Seq<u8>)
    ensures
        hex_lower(bytes).len() == 2 * bytes.len(),
    decreases bytes.len(),
{
    if bytes.len() > 0 {
        lemma_hex_lower_len(bytes.drop_last());
    }
}

/// The SHA-256 digest of a text, as 64 lower-case hexadecimal digits.
pub fn sha256_hex(value: &str) -> (r: String)
    ensures
        r@ == sha256_hex_spec(value@),
        r@.len() == 64,
{
    let digest = sha256_digest(value.as_bytes());
    let r = hex_encode(digest.as_slice());
    proof {
        lemma_hex_lower_len(digest@);
    }
    r
}

/// A text without the characters `c` it starts with.
pub open spec fn strip_leading(s: Seq<char>, c: char) -> Seq<char>
    decreases s.len(),
{
    if s.len() > 0 && s[0] == c {
        strip_leading(s.drop_first(), c)
    } else {
        s
    }
}

fn strip_leading_chars(v: &[char], c: char) -> (r: Vec<char>)
    ensures
        r@ == strip_leading(v@, c),
{
    let mut i: usize = 0;
    assert(v@.skip(0) =~= v@);
    while i < v.len() && v[i] == c
        invariant
            i <= v.len(),
            strip_leading(v@, c) == strip_leading(v@.skip(i as int), c),
        decreases v.len() - i,
    {
        assert(v@.skip(i as int).drop_first() =~= v@.skip(i + 1));
        i += 1;
    }
    let r = copy_range(v, i, v.len());
    assert(r@ =~= v@.skip(i as int));
    r
}

/// The address of the cover image of a song.
pub open spec fn image_url_spec(raw: RawSong) -> Seq<char> {
    IMAGE_BASE_URL@ + strip_leading(raw.image_url@, '/')
}

/// The version code of a song: its first three bytes read as a number, or 0.
pub open spec fn version_id_spec(version: Seq<char>) -> int {
    match chars_in_bytes(version, 3) {
        Some(k) => match parse_int_spec(version.take(k), i32::MIN as int, i32::MAX as int) {
            Some(x) => x,
            None => 0,
        },
        None => 0,
    }
}

fn version_id_of(version: &[char]) -> (r: i32)
    ensures
        r as int == version_id_spec(version@),
{
    match count_chars_in_bytes(version, 3) {
        Some(k) => {
            let prefix = copy_range(version, 0, k);
            assert(prefix@ =~= version@.take(k as int));
            match parse_i32(prefix.as_slice()) {
                Some(x) => x,
                None => 0,
            }
        },
        None => 0,
    }
}

/// Whether the song row `r` is what the official entry `raw` gives.
pub open spec fn song_row_spec(raw: RawSong, r: SongRow) -> bool {
    &&& r.song_id@ == raw_song_id(raw)
    &&& opt_view(r.category) == Some(raw.catcode@)
    &&& r.title@ == raw.title@
    &&& opt_view(r.artist) == normalized_level(opt_view(raw.artist))
    &&& r.image_url@ == image_url_spec(raw)
    &&& r.image_name@ == sha256_hex_spec(image_url_spec(raw)) + ".png"@
    &&& opt_view(r.version) == version_name_of_id(version_id_spec(raw.version@))
    &&& opt_view(r.release_date) == release_date_spec(opt_view(raw.release))
    &&& r.sort_order == (match parse_int_spec(raw.version@, i64::MIN as int, i64::MAX as int) {
        Some(x) => Some(x as i64),
        None => None::<i64>,
    })
    &&& r.is_new == truthy(opt_view(raw.date))
    &&& r.is_locked == truthy(opt_view(raw.key))
    &&& opt_view(r.comment) == comment_spec(raw)
}

/// The database row of an official song entry.
pub fn extract_song(raw_song: &RawSong) -> (r: SongRow)
    requires
        release_date_cuttable(opt_view(raw_song.release)),
    ensures
        song_row_spec(*raw_song, r),
{
    let stripped = strip_leading_chars(chars_of(raw_song.image_url.as_str()).as_slice(), '/');
    let mut image_url = String::from_str(IMAGE_BASE_URL);
    push_chars(&mut image_url, stripped.as_slice());
    let mut image_name = sha256_hex(image_url.as_str());
    image_name.push_str(".png");
    let version_chars = chars_of(raw_song.version.as_str());
    let version_id = version_id_of(version_chars.as_slice());
    let version = match version_from_version_id(version_id) {
        Some(v) => Some(String::from_str(v)),
        None => None,
    };
    let release_date = parse_release_date(
        match &raw_song.release {
            Some(r) => Some(r.as_str()),
            None => None,
        },
    );
    let sort_order = parse_i64(version_chars.as_slice());
    let artist = normalize_level(
        match &raw_song.artist {
            Some(a) => Some(a.as_str()),
            None => None,
        },
    );
    proof {
        reveal_strlit(".png");
    }
    SongRow {
        song_id: derive_song_id(raw_song),
        category: Some(raw_song.catcode.clone()),
        title: raw_song.title.clone(),
        artist,
        image_name,
        image_url,
        version,
        release_date,
        sort_order,
        is_new: is_truthy(&raw_song.date),
        is_locked: is_truthy(&raw_song.key),
        comment: extract_comment(raw_song),
    }
}

/// The level fields of an entry, in the order its charts are listed: the DX charts from Basic
/// to Re:Master, then the standard charts.
pub open spec fn sheet_candidates(raw: RawSong) -> Seq<(ChartType, DifficultyCategory, Option<Seq<char>>)> {
    seq![
        (ChartType::Dx, DifficultyCategory::Basic, opt_view(raw.dx_lev_bas)),
        (ChartType::Dx, DifficultyCategory::Advanced, opt_view(raw.dx_lev_adv)),
        (ChartType::Dx, DifficultyCategory::Expert, opt_view(raw.dx_lev_exp)),
        (ChartType::Dx, DifficultyCategory::Master, opt_view(raw.dx_lev_mas)),
        (ChartType::Dx, DifficultyCategory::ReMaster, opt_view(raw.dx_lev_remas)),
        (ChartType::Std, DifficultyCategory::Basic, opt_view(raw.lev_bas)),
        (ChartType::Std, DifficultyCategory::Advanced, opt_view(raw.lev_adv)),
        (ChartType::Std, DifficultyCategory::Expert, opt_view(raw.lev_exp)),
        (ChartType::Std, DifficultyCategory::Master, opt_view(raw.lev_mas)),
        (ChartType::Std, DifficultyCategory::ReMaster, opt_view(raw.lev_remas)),
    ]
}

/// The charts of candidates that carry a level, in order, as (type, difficulty, level).
pub open spec fn kept_sheets(c: Seq<(ChartType, DifficultyCategory, Option<Seq<char>>)>) -> Seq<
    (ChartType, DifficultyCategory, Seq<char>),
>
    decreases c.len(),
{
    if c.len() == 0 {
        Seq::empty()
    } else {
        let prev = kept_sheets(c.drop_last());
        let (t, d, l) = c.last();
        match normalized_level(l) {
            Some(level) => prev.push((t, d, level)),
            None => prev,
        }
    }
}

/// A chart row seen as (song, type, difficulty, level).
pub open spec fn sheet_view(s: SheetRow) -> (Seq<char>, ChartType, DifficultyCategory, Seq<char>) {
    (s.song_id@, s.sheet_type, s.difficulty, s.level@)
}

/// The chart rows of an official entry: one for each level field that holds a level, in the
/// order of `sheet_candidates`.
pub open spec fn sheets_spec(raw: RawSong) -> Seq<(Seq<char>, ChartType, DifficultyCategory, Seq<char>)> {
    kept_sheets(sheet_candidates(raw)).map_values(
        |k: (ChartType, DifficultyCategory, Seq<char>)| (raw_song_id(raw), k.0, k.1, k.2),
    )
}

fn opt_str(o: &Option<String>) -> (r: Option<&str>)
    ensures
        match r {
            Some(s) => opt_view(*o) == Some(s@),
            None => opt_view(*o) is None,
        },
{
    match o {
        Some(s) => Some(s.as_str()),
        None => None,
    }
}

/// The chart rows of an official entry.
pub fn extract_sheets(raw_song: &RawSong) -> (r: Vec<SheetRow>)
    ensures
        r@.map_values(|s: SheetRow| sheet_view(s)) == sheets_spec(*raw_song),
{
    let song_id = derive_song_id(raw_song);
    let candidates: Vec<(ChartType, DifficultyCategory, Option<&str>)> = vec![
        (ChartType::Dx, DifficultyCategory::Basic, opt_str(&raw_song.dx_lev_bas)),
        (ChartType::Dx, DifficultyCategory::Advanced, opt_str(&raw_song.dx_lev_adv)),
        (ChartType::Dx, DifficultyCategory::Expert, opt_str(&raw_song.dx_lev_exp)),
        (ChartType::Dx, DifficultyCategory::Master, opt_str(&raw_song.dx_lev_mas)),
        (ChartType::Dx, DifficultyCategory::ReMaster, opt_str(&raw_song.dx_lev_remas)),
        (ChartType::Std, DifficultyCategory::Basic, opt_str(&raw_song.lev_bas)),
        (ChartType::Std, DifficultyCategory::Advanced, opt_str(&raw_song.lev_adv)),
        (ChartType::Std, DifficultyCategory::Expert, opt_str(&raw_song.lev_exp)),
        (ChartType::Std, DifficultyCategory::Master, opt_str(&raw_song.lev_mas)),
        (ChartType::Std, DifficultyCategory::ReMaster, opt_str(&raw_song.lev_remas)),
    ];
    let ghost cands = sheet_candidates(*raw_song);
    let ghost cv = candidates@.map_values(
        |c: (ChartType, DifficultyCategory, Option<&str>)| (c.0, c.1, match c.2 {
            Some(s) => Some(s@),
            None => None,
        }),
    );
    assert(cv =~= cands);
    let mut out: Vec<SheetRow> = Vec::new();
    let mut i: usize = 0;
    assert(cands.take(0) =~= Seq::<(ChartType, DifficultyCategory, Option<Seq<char>>)>::empty());
    while i < candidates.len()
        invariant
            i <= candidates.len(),
            cv == cands,
            cv == candidates@.map_values(
                |c: (ChartType, DifficultyCategory, Option<&str>)| (c.0, c.1, match c.2 {
                    Some(s) => Some(s@),
                    None => None,
                }),
            ),
            song_id@ == raw_song_id(*raw_song),
            out@.map_values(|s: SheetRow| sheet_view(s)) == kept_sheets(cands.take(i as int)).map_values(
                |k: (ChartType, DifficultyCategory, Seq<char>)| (raw_song_id(*raw_song), k.0, k.1, k.2),
            ),
        decreases candidates.len() - i,
    {
        let (sheet_type, difficulty, level) = candidates[i];
        assert(cands.take(i + 1).drop_last() =~= cands.take(i as int));
        assert(cands.take(i + 1).last() == cv[i as int]);
        let ghost before = out@;
        match normalize_level(level) {
            Some(l) => {
                out.push(SheetRow { song_id: song_id.clone(), sheet_type, difficulty, level: l });
                assert(out@.map_values(|s: SheetRow| sheet_view(s)) =~= before.map_values(
                    |s: SheetRow| sheet_view(s),
                ).push(sheet_view(out@.last())));
            },
            None => {},
        }
        i += 1;
    }
    assert(cands.take(10) =~= cands);
    out
}

/// Whether a text is a zero as `i32::from_str` reads it (`0`, `+00`, `-0`, ...).
pub open spec fn reads_as_zero(t: Seq<char>) -> bool {
    parse_int_spec(t, i32::MIN as int, i32::MAX as int) == Some(0int)
}

/// Whether the release text passes the checks before it is cut up.
pub open spec fn release_date_candidate(t: Seq<char>) -> bool {
    t.len() > 0 && t != "0"@ && !reads_as_zero(t) && utf8_len(t) >= 6
}

/// The release date `20YY-MM-DD` of a `YYMMDD` text (cut by bytes, as the source does).
pub open spec fn release_date_spec(value: Option<Seq<char>>) -> Option<Seq<char>> {
    match value {
        None => None,
        Some(v) => {
            let t = trim(v);
            if !release_date_candidate(t) {
                None
            } else {
                let a = chars_in_bytes(t, 2)->0;
                let b = chars_in_bytes(t, 4)->0;
                let c = chars_in_bytes(t, 6)->0;
                Some(
                    "20"@ + t.subrange(0, a) + "-"@ + t.subrange(a, b) + "-"@ + t.subrange(b, c),
                )
            }
        },
    }
}

/// Whether the byte positions 2, 4 and 6 of a release text that passes the checks fall between
/// characters (the source slices the text there, and would panic otherwise).
pub open spec fn release_date_cuttable(value: Option<Seq<char>>) -> bool {
    match value {
        None => true,
        Some(v) => {
            let t = trim(v);
            release_date_candidate(t) ==> chars_in_bytes(t, 2) is Some && chars_in_bytes(t, 4) is Some
                && chars_in_bytes(t, 6) is Some
        },
    }
}

fn utf8_len_of(v: &[char]) -> (n: usize)
    requires
        v.len() < 0x1000_0000,
    ensures
        n == utf8_len(v@),
{
    let mut n: usize = 0;
    let mut i: usize = v.len();
    assert(v@.skip(v.len() as int) =~= Seq::<char>::empty());
    while i > 0
        invariant
            i <= v.len() < 0x1000_0000,
            n == utf8_len(v@.skip(i as int)),
            n <= 4 * (v.len() - i),
        decreases i,
    {
        assert(v@.skip(i - 1).drop_first() =~= v@.skip(i as int));
        n = n + utf8_width_of(v[i - 1]);
        i -= 1;
    }
    assert(v@.skip(0) =~= v@);
    n
}

fn parse_i32(v: &[char]) -> (r: Option<i32>)
    ensures
        r matches Some(x) ==> parse_int_spec(v@, i32::MIN as int, i32::MAX as int) == Some(x as int),
        r is None <==> parse_int_spec(v@, i32::MIN as int, i32::MAX as int) is None,
{
    match parse_i64(v) {
        Some(x) => if i32::MIN as i64 <= x && x <= i32::MAX as i64 {
            Some(x as i32)
        } else {
            None
        },
        None => None,
    }
}

/// Turns a `YYMMDD` release text into `20YY-MM-DD`; empty, zero and short texts give nothing.
pub fn parse_release_date(value: Option<&str>) -> (r: Option<String>)
    requires
        release_date_cuttable(
            match value {
                Some(v) => Some(v@),
                None => None,
            },
        ),
    ensures
        opt_view(r) == release_date_spec(
            match value {
                Some(v) => Some(v@),
                None => None,
            },
        ),
{
    let value = match value {
        Some(v) => v,
        None => {
            return None;
        },
    };
    let t = trimmed(value);
    let ts = t.as_slice();
    if t.len() == 0 || eq_lit(ts, "0") {
        return None;
    }
    match parse_i32(ts) {
        Some(x) => if x == 0 {
            return None;
        },
        None => {},
    }
    if t.len() >= 0x1000_0000 {
        assert(utf8_len(t@) >= t@.len()) by {
            lemma_utf8_len_ge_len(t@);
        }
    } else if utf8_len_of(ts) < 6 {
        return None;
    }
    let a = match count_chars_in_bytes(ts, 2) {
        Some(a) => a,
        None => {
            return None;
        },
    };
    let b = match count_chars_in_bytes(ts, 4) {
        Some(b) => b,
        None => {
            return None;
        },
    };
    let c = match count_chars_in_bytes(ts, 6) {
        Some(c) => c,
        None => {
            return None;
        },
    };
    proof {
        lemma_chars_in_bytes_monotone(t@, 2, 4);
        lemma_chars_in_bytes_monotone(t@, 4, 6);
    }
    let mut s = String::from_str("20");
    push_chars(&mut s, copy_range(ts, 0, a).as_slice());
    s.push('-');
    push_chars(&mut s, copy_range(ts, a, b).as_slice());
    s.push('-');
    push_chars(&mut s, copy_range(ts, b, c).as_slice());
    proof {
        reveal_strlit("20");
        reveal_strlit("-");
    }
    assert(s@ =~= "20"@ + t@.subrange(0, a as int) + "-"@ + t@.subrange(a as int, b as int) + "-"@
        + t@.subrange(b as int, c as int));
    Some(s)
}

proof fn lemma_utf8_len_ge_len(s: Seq<char>)
    ensures
        utf8_len(s) >= s.len(),
    decreases s.len(),
{
    if s.len() > 0 {
        lemma_utf8_len_ge_len(s.drop_first());
    }
}

proof fn lemma_chars_in_bytes_monotone(s: Seq<char>, b1: int, b2: int)
    requires
        0 <= b1 <= b2,
        chars_in_bytes(s, b1) is Some,
        chars_in_bytes(s, b2) is Some,
    ensures
        chars_in_bytes(s, b1)->0 <= chars_in_bytes(s, b2)->0,
    decreases s.len(),
{
    crate::text::lemma_chars_in_bytes_bound(s, b1);
    crate::text::lemma_chars_in_bytes_bound(s, b2);
    if b1 == 0 {
    } else {
        let w = crate::text::utf8_width(s[0]) as int;
        lemma_chars_in_bytes_monotone(s.drop_first(), b1 - w, b2 - w);
    }
}

/// The accounts and keys that fetching the song database needs.
#[derive(Clone)]
pub struct SongDbConfig {
    pub intl_sega_id: String,
    pub intl_sega_password: String,
    pub jp_sega_id: String,
    pub jp_sega_password: String,
    pub user_agent: String,
    pub google_api_key: String,
}

/// A setting that the environment lacks: the name of its variable (or variables).
#[derive(Debug, Clone)]
pub enum SongDbConfigError {
    MissingEnvVar(&'static str),
}

/// The first of two optional values that is there.
pub open spec fn or_else(a: Option<String>, b: Option<String>) -> Option<String> {
    match a {
        Some(x) => Some(x),
        None => b,
    }
}

fn take_or(a: Option<String>, b: Option<String>) -> (r: Option<String>)
    ensures
        r == or_else(a, b),
{
    match a {
        Some(x) => Some(x),
        None => b,
    }
}

/// The first setting that is missing, in the order the configuration reads them.
pub open spec fn missing_setting(
    intl_sega_id: Option<String>,
    intl_sega_password: Option<String>,
    jp_sega_id: Option<String>,
    jp_sega_password: Option<String>,
    user_agent: Option<String>,
    google_api_key: Option<String>,
) -> Option<Seq<char>> {
    if intl_sega_id is None {
        Some("MAIMAI_INTL_SEGA_ID or SEGA_ID"@)
    } else if intl_sega_password is None {
        Some("MAIMAI_INTL_SEGA_PASSWORD or SEGA_PASSWORD"@)
    } else if jp_sega_id is None {
        Some("MAIMAI_JP_SEGA_ID"@)
    } else if jp_sega_password is None {
        Some("MAIMAI_JP_SEGA_PASSWORD"@)
    } else if user_agent is None {
        Some("USER_AGENT"@)
    } else if google_api_key is None {
        Some("GOOGLE_API_KEY"@)
    } else {
        None
    }
}

impl SongDbConfig {
    /// The configuration from the values of its environment variables: the international
    /// account may come from `MAIMAI_INTL_SEGA_ID`/`MAIMAI_INTL_SEGA_PASSWORD` or else from
    /// `SEGA_ID`/`SEGA_PASSWORD`; the first setting that is missing is reported.
    pub fn from_env_values(
        intl_sega_id: Option<String>,
        sega_id: Option<String>,
        intl_sega_password: Option<String>,
        sega_password: Option<String>,
        jp_sega_id: Option<String>,
        jp_sega_password: Option<String>,
        user_agent: Option<String>,
        google_api_key: Option<String>,
    ) -> (r: Result<Self, SongDbConfigError>)
        ensures
            match r {
                Ok(c) => missing_setting(
                    or_else(intl_sega_id, sega_id),
                    or_else(intl_sega_password, sega_password),
                    jp_sega_id,
                    jp_sega_password,
                    user_agent,
                    google_api_key,
                ) is None && Some(c.intl_sega_id) == or_else(intl_sega_id, sega_id) && Some(
                    c.intl_sega_password,
                ) == or_else(intl_sega_password, sega_password) && Some(c.jp_sega_id) == jp_sega_id
                    && Some(c.jp_sega_password) == jp_sega_password && Some(c.user_agent)
                    == user_agent && Some(c.google_api_key) == google_api_key,
                Err(SongDbConfigError::MissingEnvVar(n)) => missing_setting(
                    or_else(intl_sega_id, sega_id),
                    or_else(intl_sega_password, sega_password),
                    jp_sega_id,
                    jp_sega_password,
                    user_agent,
                    google_api_key,
                ) == Some(n@),
            },
    {
        let intl_sega_id = match take_or(intl_sega_id, sega_id) {
            Some(v) => v,
            None => {
                return Err(SongDbConfigError::MissingEnvVar("MAIMAI_INTL_SEGA_ID or SEGA_ID"));
            },
        };
        let intl_sega_password = match take_or(intl_sega_password, sega_password) {
            Some(v) => v,
            None => {
                return Err(
                    SongDbConfigError::MissingEnvVar("MAIMAI_INTL_SEGA_PASSWORD or SEGA_PASSWORD"),
                );
            },
        };
        let jp_sega_id = match jp_sega_id {
            Some(v) => v,
            None => {
                return Err(SongDbConfigError::MissingEnvVar("MAIMAI_JP_SEGA_ID"));
            },
        };
        let jp_sega_password = match jp_sega_password {
            Some(v) => v,
            None => {
                return Err(SongDbConfigError::MissingEnvVar("MAIMAI_JP_SEGA_PASSWORD"));
            },
        };
        let user_agent = match user_agent {
            Some(v) => v,
            None => {
                return Err(SongDbConfigError::MissingEnvVar("USER_AGENT"));
            },
        };
        let google_api_key = match google_api_key {
            Some(v) => v,
            None => {
                return Err(SongDbConfigError::MissingEnvVar("GOOGLE_API_KEY"));
            },
        };
        Ok(
            SongDbConfig {
                intl_sega_id,
                intl_sega_password,
                jp_sega_id,
                jp_sega_password,
                user_agent,
                google_api_key,
            },
        )
    }
}

/// Whether a level field holds a level: present and not blank.
pub open spec fn holds_level(level: Option<Seq<char>>) -> bool {
    level matches Some(l) && trim(l).len() > 0
}

/// The positions of the candidates that hold a level, in order.
pub open spec fn level_positions(c: Seq<(ChartType, DifficultyCategory, Option<Seq<char>>)>) -> Seq<int>
    decreases c.len(),
{
    if c.len() == 0 {
        Seq::empty()
    } else {
        level_positions(c.drop_last()) + if holds_level(c.last().2) {
            seq![c.len() - 1]
        } else {
            Seq::empty()
        }
    }
}

proof fn lemma_kept_sheets_positions(c: Seq<(ChartType, DifficultyCategory, Option<Seq<char>>)>)
    ensures
        kept_sheets(c).len() == level_positions(c).len(),
        forall|k: int|
            0 <= k < level_positions(c).len() ==> {
                let i = #[trigger] level_positions(c)[k];
                &&& 0 <= i < c.len()
                &&& holds_level(c[i].2)
                &&& kept_sheets(c)[k] == (c[i].0, c[i].1, trim(c[i].2->0))
            },
        forall|k1: int, k2: int|
            0 <= k1 < k2 < level_positions(c).len() ==> #[trigger] level_positions(c)[k1]
                < #[trigger] level_positions(c)[k2],
        forall|i: int| 0 <= i < c.len() && holds_level(c[i].2) ==> #[trigger] level_positions(c).contains(i),
    decreases c.len(),
{
    if c.len() > 0 {
        let prev = c.drop_last();
        lemma_kept_sheets_positions(prev);
        let pp = level_positions(prev);
        let p = level_positions(c);
        let kp = kept_sheets(prev);
        let kc = kept_sheets(c);
        assert forall|k: int| 0 <= k < pp.len() implies p[k] == pp[k] && kc[k] == kp[k] && c[pp[k]]
            == prev[pp[k]] by {}
        if holds_level(c.last().2) {
            assert(p[pp.len() as int] == c.len() - 1);
        }
        assert forall|i: int| 0 <= i < c.len() && holds_level(c[i].2) implies #[trigger] p.contains(i) by {
            if i < c.len() - 1 {
                assert(prev[i] == c[i]);
                assert(pp.contains(i));
                let w = choose|w: int| 0 <= w < pp.len() && pp[w] == i;
                assert(p[w] == i);
            } else {
                assert(p[pp.len() as int] == i);
            }
        }
    }
}

/// The chart rows of an official entry are one row per level field that holds a level, in
/// the order DX basic to Re:MASTER then standard basic to Re:MASTER: each with the entry's
/// song id, the field's chart type and difficulty, and the trimmed level. No other field (the
/// utage level among them) gives a row.
pub proof fn law_extract_sheets_rows(raw: RawSong)
    ensures
        sheets_spec(raw).len() == level_positions(sheet_candidates(raw)).len(),
        forall|k: int|
            0 <= k < sheets_spec(raw).len() ==> {
                let i = #[trigger] level_positions(sheet_candidates(raw))[k];
                let f = sheet_candidates(raw)[i];
                &&& 0 <= i < 10
                &&& holds_level(f.2)
                &&& sheets_spec(raw)[k] == (raw_song_id(raw), f.0, f.1, trim(f.2->0))
            },
        forall|k1: int, k2: int|
            0 <= k1 < k2 < sheets_spec(raw).len() ==> #[trigger] level_positions(sheet_candidates(raw))[k1]
                < #[trigger] level_positions(sheet_candidates(raw))[k2],
        forall|i: int|
            0 <= i < 10 && holds_level(sheet_candidates(raw)[i].2) ==> #[trigger] level_positions(
                sheet_candidates(raw),
            ).contains(i),
{
    let c = sheet_candidates(raw);
    lemma_kept_sheets_positions(c);
    assert(c.len() == 10);
}


/// The version code of the official list that names a version (a proof device for the laws
/// below).
spec fn code_of_version(v: MaimaiVersion) -> int {
    match v {
        MaimaiVersion::Maimai => 100,
        MaimaiVersion::MaimaiPlus => 110,
        MaimaiVersion::Green => 120,
        MaimaiVersion::GreenPlus => 130,
        MaimaiVersion::Orange => 140,
        MaimaiVersion::OrangePlus => 150,
        MaimaiVersion::Pink => 160,
        MaimaiVersion::PinkPlus => 170,
        MaimaiVersion::Murasaki => 180,
        MaimaiVersion::MurasakiPlus => 185,
        MaimaiVersion::Milk => 190,
        MaimaiVersion::MilkPlus => 195,
        MaimaiVersion::Finale => 199,
        MaimaiVersion::Deluxe => 200,
        MaimaiVersion::DeluxePlus => 205,
        MaimaiVersion::Splash => 210,
        MaimaiVersion::SplashPlus => 215,
        MaimaiVersion::Universe => 220,
        MaimaiVersion::UniversePlus => 225,
        MaimaiVersion::Festival => 230,
        MaimaiVersion::FestivalPlus => 235,
        MaimaiVersion::Buddies => 240,
        MaimaiVersion::BuddiesPlus => 245,
        MaimaiVersion::Prism => 250,
        MaimaiVersion::PrismPlus => 255,
        MaimaiVersion::Circle => 260,
    }
}

proof fn lemma_code_names_version(id: int, v: MaimaiVersion)
    ensures
        version_name_of_id(id) == Some(v.name()) ==> id == code_of_version(v),
        version_name_of_id(code_of_version(v)) == Some(v.name()),
{
    reveal_strlit("maimai");
    reveal_strlit("maimai PLUS");
    reveal_strlit("GreeN");
    reveal_strlit("GreeN PLUS");
    reveal_strlit("ORANGE");
    reveal_strlit("ORANGE PLUS");
    reveal_strlit("PiNK");
    reveal_strlit("PiNK PLUS");
    reveal_strlit("MURASAKi");
    reveal_strlit("MURASAKi PLUS");
    reveal_strlit("MiLK");
    reveal_strlit("MiLK PLUS");
    reveal_strlit("FiNALE");
    reveal_strlit("maimaiでらっくす");
    reveal_strlit("maimaiでらっくす PLUS");
    reveal_strlit("Splash");
    reveal_strlit("Splash PLUS");
    reveal_strlit("UNiVERSE");
    reveal_strlit("UNiVERSE PLUS");
    reveal_strlit("FESTiVAL");
    reveal_strlit("FESTiVAL PLUS");
    reveal_strlit("BUDDiES");
    reveal_strlit("BUDDiES PLUS");
    reveal_strlit("PRiSM");
    reveal_strlit("PRiSM PLUS");
    reveal_strlit("CiRCLE");
    assert("maimai"@[0] != "ORANGE"@[0]);
    assert("maimai"@[0] != "FiNALE"@[0]);
    assert("maimai"@[0] != "Splash"@[0]);
    assert("maimai"@[0] != "CiRCLE"@[0]);
    assert("maimai PLUS"@[0] != "ORANGE PLUS"@[0]);
    assert("maimai PLUS"@[6] != "maimaiでらっくす"@[6]);
    assert("maimai PLUS"@[0] != "Splash PLUS"@[0]);
    assert("GreeN"@[0] != "PRiSM"@[0]);
    assert("GreeN PLUS"@[0] != "PRiSM PLUS"@[0]);
    assert("ORANGE"@[0] != "FiNALE"@[0]);
    assert("ORANGE"@[0] != "Splash"@[0]);
    assert("ORANGE"@[0] != "CiRCLE"@[0]);
    assert("ORANGE PLUS"@[0] != "maimaiでらっくす"@[0]);
    assert("ORANGE PLUS"@[0] != "Splash PLUS"@[0]);
    assert("PiNK"@[0] != "MiLK"@[0]);
    assert("PiNK PLUS"@[0] != "MiLK PLUS"@[0]);
    assert("MURASAKi"@[0] != "UNiVERSE"@[0]);
    assert("MURASAKi"@[0] != "FESTiVAL"@[0]);
    assert("MURASAKi PLUS"@[0] != "UNiVERSE PLUS"@[0]);
    assert("MURASAKi PLUS"@[0] != "FESTiVAL PLUS"@[0]);
    assert("FiNALE"@[0] != "Splash"@[0]);
    assert("FiNALE"@[0] != "CiRCLE"@[0]);
    assert("maimaiでらっくす"@[0] != "Splash PLUS"@[0]);
    assert("Splash"@[0] != "CiRCLE"@[0]);
    assert("UNiVERSE"@[0] != "FESTiVAL"@[0]);
    assert("UNiVERSE PLUS"@[0] != "FESTiVAL PLUS"@[0]);
    match v {
        MaimaiVersion::Maimai => {
            assert(v.name() == "maimai"@);
            assert(version_name_of_id(id) == Some("maimai"@) ==> id == 100);
        },
        MaimaiVersion::MaimaiPlus => {
            assert(v.name() == "maimai PLUS"@);
            assert(version_name_of_id(id) == Some("maimai PLUS"@) ==> id == 110);
        },
        MaimaiVersion::Green => {
            assert(v.name() == "GreeN"@);
            assert(version_name_of_id(id) == Some("GreeN"@) ==> id == 120);
        },
        MaimaiVersion::GreenPlus => {
            assert(v.name() == "GreeN PLUS"@);
            assert(version_name_of_id(id) == Some("GreeN PLUS"@) ==> id == 130);
        },
        MaimaiVersion::Orange => {
            assert(v.name() == "ORANGE"@);
            assert(version_name_of_id(id) == Some("ORANGE"@) ==> id == 140);
        },
        MaimaiVersion::OrangePlus => {
            assert(v.name() == "ORANGE PLUS"@);
            assert(version_name_of_id(id) == Some("ORANGE PLUS"@) ==> id == 150);
        },
        MaimaiVersion::Pink => {
            assert(v.name() == "PiNK"@);
            assert(version_name_of_id(id) == Some("PiNK"@) ==> id == 160);
        },
        MaimaiVersion::PinkPlus => {
            assert(v.name() == "PiNK PLUS"@);
            assert(version_name_of_id(id) == Some("PiNK PLUS"@) ==> id == 170);
        },
        MaimaiVersion::Murasaki => {
            assert(v.name() == "MURASAKi"@);
            assert(version_name_of_id(id) == Some("MURASAKi"@) ==> id == 180);
        },
        MaimaiVersion::MurasakiPlus => {
            assert(v.name() == "MURASAKi PLUS"@);
            assert(version_name_of_id(id) == Some("MURASAKi PLUS"@) ==> id == 185);
        },
        MaimaiVersion::Milk => {
            assert(v.name() == "MiLK"@);
            assert(version_name_of_id(id) == Some("MiLK"@) ==> id == 190);
        },
        MaimaiVersion::MilkPlus => {
            assert(v.name() == "MiLK PLUS"@);
            assert(version_name_of_id(id) == Some("MiLK PLUS"@) ==> id == 195);
        },
        MaimaiVersion::Finale => {
            assert(v.name() == "FiNALE"@);
            assert(version_name_of_id(id) == Some("FiNALE"@) ==> id == 199);
        },
        MaimaiVersion::Deluxe => {
            assert(v.name() == "maimaiでらっくす"@);
            assert(version_name_of_id(id) == Some("maimaiでらっくす"@) ==> id == 200);
        },
        MaimaiVersion::DeluxePlus => {
            assert(v.name() == "maimaiでらっくす PLUS"@);
            assert(version_name_of_id(id) == Some("maimaiでらっくす PLUS"@) ==> id == 205);
        },
        MaimaiVersion::Splash => {
            assert(v.name() == "Splash"@);
            assert(version_name_of_id(id) == Some("Splash"@) ==> id == 210);
        },
        MaimaiVersion::SplashPlus => {
            assert(v.name() == "Splash PLUS"@);
            assert(version_name_of_id(id) == Some("Splash PLUS"@) ==> id == 215);
        },
        MaimaiVersion::Universe => {
            assert(v.name() == "UNiVERSE"@);
            assert(version_name_of_id(id) == Some("UNiVERSE"@) ==> id == 220);
        },
        MaimaiVersion::UniversePlus => {
            assert(v.name() == "UNiVERSE PLUS"@);
            assert(version_name_of_id(id) == Some("UNiVERSE PLUS"@) ==> id == 225);
        },
        MaimaiVersion::Festival => {
            assert(v.name() == "FESTiVAL"@);
            assert(version_name_of_id(id) == Some("FESTiVAL"@) ==> id == 230);
        },
        MaimaiVersion::FestivalPlus => {
            assert(v.name() == "FESTiVAL PLUS"@);
            assert(version_name_of_id(id) == Some("FESTiVAL PLUS"@) ==> id == 235);
        },
        MaimaiVersion::Buddies => {
            assert(v.name() == "BUDDiES"@);
            assert(version_name_of_id(id) == Some("BUDDiES"@) ==> id == 240);
        },
        MaimaiVersion::BuddiesPlus => {
            assert(v.name() == "BUDDiES PLUS"@);
            assert(version_name_of_id(id) == Some("BUDDiES PLUS"@) ==> id == 245);
        },
        MaimaiVersion::Prism => {
            assert(v.name() == "PRiSM"@);
            assert(version_name_of_id(id) == Some("PRiSM"@) ==> id == 250);
        },
        MaimaiVersion::PrismPlus => {
            assert(v.name() == "PRiSM PLUS"@);
            assert(version_name_of_id(id) == Some("PRiSM PLUS"@) ==> id == 255);
        },
        MaimaiVersion::Circle => {
            assert(v.name() == "CiRCLE"@);
            assert(version_name_of_id(id) == Some("CiRCLE"@) ==> id == 260);
        },
    }
}

proof fn lemma_codes_in_release_order(v: MaimaiVersion, w: MaimaiVersion)
    ensures
        code_of_version(v) < code_of_version(w) ==> v.index() < w.index(),
{
}

/// Every code of the official list that names something names a version.
pub proof fn law_version_codes_name_versions(id: int)
    ensures
        version_name_of_id(id) matches Some(n) ==> exists|v: MaimaiVersion| #[trigger] v.name() == n,
{
    reveal_strlit("maimai");
    reveal_strlit("maimai PLUS");
    reveal_strlit("GreeN");
    reveal_strlit("GreeN PLUS");
    reveal_strlit("ORANGE");
    reveal_strlit("ORANGE PLUS");
    reveal_strlit("PiNK");
    reveal_strlit("PiNK PLUS");
    reveal_strlit("MURASAKi");
    reveal_strlit("MURASAKi PLUS");
    reveal_strlit("MiLK");
    reveal_strlit("MiLK PLUS");
    reveal_strlit("FiNALE");
    reveal_strlit("maimaiでらっくす");
    reveal_strlit("maimaiでらっくす PLUS");
    reveal_strlit("Splash");
    reveal_strlit("Splash PLUS");
    reveal_strlit("UNiVERSE");
    reveal_strlit("UNiVERSE PLUS");
    reveal_strlit("FESTiVAL");
    reveal_strlit("FESTiVAL PLUS");
    reveal_strlit("BUDDiES");
    reveal_strlit("BUDDiES PLUS");
    reveal_strlit("PRiSM");
    reveal_strlit("PRiSM PLUS");
    reveal_strlit("CiRCLE");
    if version_name_of_id(id) is Some {
        let v = MaimaiVersion::parse_name(version_name_of_id(id)->0)->0;
        assert(v.name() == version_name_of_id(id)->0);
    }
}

/// Every version is named by a code of the official list.
pub proof fn law_every_version_has_a_code(v: MaimaiVersion)
    ensures
        exists|id: int| #[trigger] version_name_of_id(id) == Some(v.name()),
{
    lemma_code_names_version(code_of_version(v), v);
}

/// Codes name versions in release order: a larger code never names an earlier version (230 is
/// FESTiVAL and 235 FESTiVAL PLUS), so with the two laws above each version has its own code
/// and the codes follow the versions one to one.
pub proof fn law_version_codes_in_release_order(i: int, j: int, vi: MaimaiVersion, vj: MaimaiVersion)
    requires
        i < j,
        version_name_of_id(i) == Some(vi.name()),
        version_name_of_id(j) == Some(vj.name()),
    ensures
        vi.index() < vj.index(),
{
    lemma_code_names_version(i, vi);
    lemma_code_names_version(j, vj);
    lemma_codes_in_release_order(vi, vj);
}

} // verus!

