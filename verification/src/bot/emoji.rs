//! Custom emojis for the rank, full-combo and sync icons, and the texts that use them.
use vstd::prelude::*;

use crate::assoc::{assoc_get, assoc_set, first_key_index, lemma_first_key_index};
use crate::models::game_domain::{FcStatus, ScoreRank, SyncStatus};
use crate::models::song_title::opt_view;
use crate::text::{chars_of, eq_chars};

verus! {

/// The name of the emoji of a rank.
pub open spec fn rank_emoji_spec(value: ScoreRank) -> Seq<char> {
    match value {
        ScoreRank::SssPlus => "maimai_rank_sssp"@,
        ScoreRank::Sss => "maimai_rank_sss"@,
        ScoreRank::SsPlus => "maimai_rank_ssp"@,
        ScoreRank::Ss => "maimai_rank_ss"@,
        ScoreRank::SPlus => "maimai_rank_sp"@,
        ScoreRank::S => "maimai_rank_s"@,
        ScoreRank::Aaa => "maimai_rank_aaa"@,
        ScoreRank::Aa => "maimai_rank_aa"@,
        ScoreRank::A => "maimai_rank_a"@,
        ScoreRank::Bbb => "maimai_rank_bbb"@,
        ScoreRank::Bb => "maimai_rank_bb"@,
        ScoreRank::B => "maimai_rank_b"@,
        ScoreRank::C => "maimai_rank_c"@,
        ScoreRank::D => "maimai_rank_d"@,
    }
}

/// The name of the emoji of a full-combo status.
pub open spec fn fc_emoji_spec(value: FcStatus) -> Seq<char> {
    match value {
        FcStatus::ApPlus => "maimai_fc_app"@,
        FcStatus::Ap => "maimai_fc_ap"@,
        FcStatus::FcPlus => "maimai_fc_fcp"@,
        FcStatus::Fc => "maimai_fc_fc"@,
    }
}

/// The name of the emoji of a sync status.
pub open spec fn sync_emoji_spec(value: SyncStatus) -> Seq<char> {
    match value {
        SyncStatus::FdxPlus => "maimai_sync_fdxp"@,
        SyncStatus::Fdx => "maimai_sync_fdx"@,
        SyncStatus::FsPlus => "maimai_sync_fsp"@,
        SyncStatus::Fs => "maimai_sync_fs"@,
        SyncStatus::Sync => "maimai_sync_sync"@,
    }
}

pub fn rank_emoji_name(value: ScoreRank) -> (r: &'static str)
    ensures
        r@ == rank_emoji_spec(value),
{
    match value {
        ScoreRank::SssPlus => "maimai_rank_sssp",
        ScoreRank::Sss => "maimai_rank_sss",
        ScoreRank::SsPlus => "maimai_rank_ssp",
        ScoreRank::Ss => "maimai_rank_ss",
        ScoreRank::SPlus => "maimai_rank_sp",
        ScoreRank::S => "maimai_rank_s",
        ScoreRank::Aaa => "maimai_rank_aaa",
        ScoreRank::Aa => "maimai_rank_aa",
        ScoreRank::A => "maimai_rank_a",
        ScoreRank::Bbb => "maimai_rank_bbb",
        ScoreRank::Bb => "maimai_rank_bb",
        ScoreRank::B => "maimai_rank_b",
        ScoreRank::C => "maimai_rank_c",
        ScoreRank::D => "maimai_rank_d",
    }
}

pub fn fc_emoji_name(value: FcStatus) -> (r: &'static str)
    ensures
        r@ == fc_emoji_spec(value),
{
    match value {
        FcStatus::ApPlus => "maimai_fc_app",
        FcStatus::Ap => "maimai_fc_ap",
        FcStatus::FcPlus => "maimai_fc_fcp",
        FcStatus::Fc => "maimai_fc_fc",
    }
}

pub fn sync_emoji_name(value: SyncStatus) -> (r: &'static str)
    ensures
        r@ == sync_emoji_spec(value),
{
    match value {
        SyncStatus::FdxPlus => "maimai_sync_fdxp",
        SyncStatus::Fdx => "maimai_sync_fdx",
        SyncStatus::FsPlus => "maimai_sync_fsp",
        SyncStatus::Fs => "maimai_sync_fs",
        SyncStatus::Sync => "maimai_sync_sync",
    }
}

/// The emojis that the bot has uploaded: the mention text of each emoji name.
#[derive(Debug, Clone, Default)]
pub struct MaimaiStatusEmojis {
    mentions: Vec<(String, String)>,
}

pub open spec fn mention_view(m: Seq<(String, String)>) -> Seq<(Seq<char>, Seq<char>)> {
    m.map_values(|p: (String, String)| (p.0@, p.1@))
}

impl MaimaiStatusEmojis {
    /// The mentions, by emoji name.
    pub closed spec fn mentions_view(self) -> Seq<(Seq<char>, Seq<char>)> {
        mention_view(self.mentions@)
    }

    /// No emojis.
    pub fn new() -> (r: Self)
        ensures
            r.mentions_view().len() == 0,
    {
        MaimaiStatusEmojis { mentions: Vec::new() }
    }

    /// Records the mention text of an emoji (replacing an earlier one of the same name).
    pub fn insert_mention(&mut self, name: &str, mention: String)
        ensures
            final(self).mentions_view() == assoc_set(old(self).mentions_view(), name@, mention@),
    {
        let ghost mv = mention_view(self.mentions@);
        proof {
            lemma_first_key_index(mv, name@);
        }
        match self.find(name) {
            Some(i) => {
                self.mentions.set(i, (String::from_str(name), mention));
                assert(mention_view(self.mentions@) =~= mv.update(i as int, (name@, mention@)));
            },
            None => {
                self.mentions.push((String::from_str(name), mention));
                assert(mention_view(self.mentions@) =~= mv.push((name@, mention@)));
            },
        }
    }

    fn find(&self, name: &str) -> (r: Option<usize>)
        ensures
            match r {
                Some(i) => i < self.mentions@.len() && first_key_index(self.mentions_view(), name@)
                    == Some(i as int),
                None => first_key_index(self.mentions_view(), name@) is None,
            },
    {
        let ghost mv = mention_view(self.mentions@);
        let n = chars_of(name);
        let mut i: usize = 0;
        while i < self.mentions.len()
            invariant
                i <= self.mentions@.len(),
                mv == mention_view(self.mentions@),
                n@ == name@,
                forall|q: int| 0 <= q < i ==> (#[trigger] mv[q]).0 != name@,
            decreases self.mentions@.len() - i,
        {
            if eq_chars(chars_of(self.mentions[i].0.as_str()).as_slice(), n.as_slice()) {
                proof {
                    lemma_first_key_index(mv, name@);
                    assert(mv[i as int].0 == name@);
                }
                return Some(i);
            }
            i += 1;
        }
        proof {
            lemma_first_key_index(mv, name@);
        }
        None
    }

    fn mention(&self, name: &str) -> (r: Option<String>)
        ensures
            opt_view(r) == assoc_get(self.mentions_view(), name@),
    {
        match self.find(name) {
            Some(i) => Some(self.mentions[i].1.clone()),
            None => None,
        }
    }

    /// The mention of the emoji of a rank, when it was uploaded.
    pub fn rank(&self, value: ScoreRank) -> (r: Option<String>)
        ensures
            opt_view(r) == assoc_get(self.mentions_view(), rank_emoji_spec(value)),
    {
        self.mention(rank_emoji_name(value))
    }

    /// The mention of the emoji of a full-combo status, when it was uploaded.
    pub fn fc(&self, value: FcStatus) -> (r: Option<String>)
        ensures
            opt_view(r) == assoc_get(self.mentions_view(), fc_emoji_spec(value)),
    {
        self.mention(fc_emoji_name(value))
    }

    /// The mention of the emoji of a sync status, when it was uploaded.
    pub fn sync(&self, value: SyncStatus) -> (r: Option<String>)
        ensures
            opt_view(r) == assoc_get(self.mentions_view(), sync_emoji_spec(value)),
    {
        self.mention(sync_emoji_name(value))
    }
}

/// The text of a rank mark: its emoji when uploaded, else its name; `missing` when there is
/// none.
pub open spec fn rank_text(mentions: Seq<(Seq<char>, Seq<char>)>, value: Option<ScoreRank>, missing: Seq<char>) -> Seq<
    char,
> {
    match value {
        Some(v) => match assoc_get(mentions, rank_emoji_spec(v)) {
            Some(m) => m,
            None => v.name(),
        },
        None => missing,
    }
}

/// A rank as its emoji, else as its name; `missing` when there is no rank.
pub fn format_rank(emojis: &MaimaiStatusEmojis, rank: Option<ScoreRank>, missing: &str) -> (r: String)
    ensures
        r@ == rank_text(emojis.mentions_view(), rank, missing@),
{
    match rank {
        Some(v) => match emojis.rank(v) {
            Some(m) => m,
            None => String::from_str(v.as_str()),
        },
        None => String::from_str(missing),
    }
}

/// The text of a fc mark: its emoji when uploaded, else its name; `missing` when there is
/// none.
pub open spec fn fc_text(mentions: Seq<(Seq<char>, Seq<char>)>, value: Option<FcStatus>, missing: Seq<char>) -> Seq<
    char,
> {
    match value {
        Some(v) => match assoc_get(mentions, fc_emoji_spec(v)) {
            Some(m) => m,
            None => v.name(),
        },
        None => missing,
    }
}

/// A full-combo status as its emoji, else as its name; `missing` when there is none.
pub fn format_fc(emojis: &MaimaiStatusEmojis, fc: Option<FcStatus>, missing: &str) -> (r: String)
    ensures
        r@ == fc_text(emojis.mentions_view(), fc, missing@),
{
    match fc {
        Some(v) => match emojis.fc(v) {
            Some(m) => m,
            None => String::from_str(v.as_str()),
        },
        None => String::from_str(missing),
    }
}

/// The text of a sync mark: its emoji when uploaded, else its name; `missing` when there is
/// none.
pub open spec fn sync_text(mentions: Seq<(Seq<char>, Seq<char>)>, value: Option<SyncStatus>, missing: Seq<char>) -> Seq<
    char,
> {
    match value {
        Some(v) => match assoc_get(mentions, sync_emoji_spec(v)) {
            Some(m) => m,
            None => v.name(),
        },
        None => missing,
    }
}

/// A sync status as its emoji, else as its name; `missing` when there is none.
pub fn format_sync(emojis: &MaimaiStatusEmojis, sync: Option<SyncStatus>, missing: &str) -> (r: String)
    ensures
        r@ == sync_text(emojis.mentions_view(), sync, missing@),
{
    match sync {
        Some(v) => match emojis.sync(v) {
            Some(m) => m,
            None => String::from_str(v.as_str()),
        },
        None => String::from_str(missing),
    }
}

/// The character of a 6-bit value in the standard base64 alphabet `A-Z a-z 0-9 + /`.
pub open spec fn base64_char(n: int) -> char {
    if n < 26 {
        (65 + n) as char
    } else if n < 52 {
        (97 + n - 26) as char
    } else if n < 62 {
        (48 + n - 52) as char
    } else if n == 62 {
        '+'
    } else {
        '/'
    }
}

/// The standard base64 text of some bytes: each group of three bytes as four characters of
/// six bits each, high bits first; a last group of one or two bytes is padded with `=`.
pub open spec fn base64_standard(bytes: Seq<u8>) -> Seq<char>
    decreases bytes.len(),
{
    if bytes.len() == 0 {
        Seq::empty()
    } else if bytes.len() == 1 {
        seq![base64_char(bytes[0] as int / 4), base64_char((bytes[0] as int % 4) * 16), '=', '=']
    } else if bytes.len() == 2 {
        seq![
            base64_char(bytes[0] as int / 4),
            base64_char((bytes[0] as int % 4) * 16 + bytes[1] as int / 16),
            base64_char((bytes[1] as int % 16) * 4),
            '=',
        ]
    } else {
        seq![
            base64_char(bytes[0] as int / 4),
            base64_char((bytes[0] as int % 4) * 16 + bytes[1] as int / 16),
            base64_char((bytes[1] as int % 16) * 4 + bytes[2] as int / 64),
            base64_char(bytes[2] as int % 64),
        ] + base64_standard(bytes.skip(3))
    }
}

/// Trusted: `base64::engine::general_purpose::STANDARD.encode`, the standard alphabet with
/// padding; the length bound keeps clear of the size overflow on which `encode` panics.
#[verifier::external_body]
fn base64_encode(bytes: &[u8]) -> (r: String)
    requires
        bytes@.len() <= usize::MAX / 2,
    ensures
        r@ == base64_standard(bytes@),
{
    base64::Engine::encode(&base64::engine::general_purpose::STANDARD, bytes)
}

/// The image of an emoji as the Discord API takes it: a PNG data URI.
pub fn emoji_image_data_uri(png: &[u8]) -> (r: String)
    requires
        png@.len() <= usize::MAX / 2,
    ensures
        r@ == "data:image/png;base64,"@ + base64_standard(png@),
{
    let encoded = base64_encode(png);
    let mut s = String::from_str("data:image/png;base64,");
    s.push_str(encoded.as_str());
    s
}

} // verus!
