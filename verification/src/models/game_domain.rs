use vstd::prelude::*;

use crate::text::{lemma_trim_noop, chars_of, starts_with, eq_ignore_case, eq_lit, eq_lit_ignore_case, lower_seq, to_ascii_lower, trim, trimmed};

verus! {

/// The genre a song is filed under on the official song list.
#[derive(Debug, Clone, Copy, PartialEq, Eq, Structural, PartialOrd, Ord, Hash)]
pub enum SongGenre {
    PopsAnime,
    NiconicoVocaloid,
    TouhouProject,
    GameVariety,
    Maimai,
    OngekiChunithm,
    Utage,
}

impl SongGenre {
    /// The international name of the genre.
    pub open spec fn name(self) -> Seq<char> {
        match self {
            SongGenre::PopsAnime => "POPS＆ANIME"@,
            SongGenre::NiconicoVocaloid => "niconico＆VOCALOID™"@,
            SongGenre::TouhouProject => "東方Project"@,
            SongGenre::GameVariety => "GAME＆VARIETY"@,
            SongGenre::Maimai => "maimai"@,
            SongGenre::OngekiChunithm => "オンゲキ＆CHUNITHM"@,
            SongGenre::Utage => "宴会場"@,
        }
    }

    /// The genre that a (trimmed) name denotes, in either the international or the Japanese spelling.
    pub open spec fn parse_name(s: Seq<char>) -> Option<SongGenre> {
        if s == "POPS＆ANIME"@ || s == "POPS＆アニメ"@ {
            Some(SongGenre::PopsAnime)
        } else if s == "niconico＆VOCALOID™"@ || s == "niconico＆ボーカロイド"@ {
            Some(SongGenre::NiconicoVocaloid)
        } else if s == "東方Project"@ {
            Some(SongGenre::TouhouProject)
        } else if s == "GAME＆VARIETY"@ || s == "ゲーム＆バラエティ"@ {
            Some(SongGenre::GameVariety)
        } else if s == "maimai"@ {
            Some(SongGenre::Maimai)
        } else if s == "オンゲキ＆CHUNITHM"@ {
            Some(SongGenre::OngekiChunithm)
        } else if s == "宴会場"@ {
            Some(SongGenre::Utage)
        } else {
            None
        }
    }

    pub fn from_name(name: &str) -> (r: Option<Self>)
        ensures
            r == Self::parse_name(trim(name@)),
    {
        let t = trimmed(name);
        let t = t.as_slice();
        if eq_lit(t, "POPS＆ANIME") || eq_lit(t, "POPS＆アニメ") {
            Some(SongGenre::PopsAnime)
        } else if eq_lit(t, "niconico＆VOCALOID™") || eq_lit(t, "niconico＆ボーカロイド") {
            Some(SongGenre::NiconicoVocaloid)
        } else if eq_lit(t, "東方Project") {
            Some(SongGenre::TouhouProject)
        } else if eq_lit(t, "GAME＆VARIETY") || eq_lit(t, "ゲーム＆バラエティ") {
            Some(SongGenre::GameVariety)
        } else if eq_lit(t, "maimai") {
            Some(SongGenre::Maimai)
        } else if eq_lit(t, "オンゲキ＆CHUNITHM") {
            Some(SongGenre::OngekiChunithm)
        } else if eq_lit(t, "宴会場") {
            Some(SongGenre::Utage)
        } else {
            None
        }
    }

    pub fn as_str(&self) -> (r: &'static str)
        ensures
            r@ == self.name(),
    {
        match self {
            SongGenre::PopsAnime => "POPS＆ANIME",
            SongGenre::NiconicoVocaloid => "niconico＆VOCALOID™",
            SongGenre::TouhouProject => "東方Project",
            SongGenre::GameVariety => "GAME＆VARIETY",
            SongGenre::Maimai => "maimai",
            SongGenre::OngekiChunithm => "オンゲキ＆CHUNITHM",
            SongGenre::Utage => "宴会場",
        }
    }
}

/// The two chart kinds: standard and deluxe.
#[derive(Debug, Clone, Copy, PartialEq, Eq, Structural, PartialOrd, Ord, Hash)]
pub enum ChartType {
    Std,
    Dx,
}

impl ChartType {
    pub open spec fn index(self) -> u8 {
        match self {
            ChartType::Std => 0,
            ChartType::Dx => 1,
        }
    }

    pub open spec fn name(self) -> Seq<char> {
        match self {
            ChartType::Std => "STD"@,
            ChartType::Dx => "DX"@,
        }
    }

    pub open spec fn lower_name(self) -> Seq<char> {
        match self {
            ChartType::Std => "std"@,
            ChartType::Dx => "dx"@,
        }
    }

    /// The chart type that a (trimmed) name denotes, ignoring ASCII case.
    pub open spec fn parse_name(s: Seq<char>) -> Option<ChartType> {
        if eq_ignore_case(s, "std"@) {
            Some(ChartType::Std)
        } else if eq_ignore_case(s, "dx"@) {
            Some(ChartType::Dx)
        } else {
            None
        }
    }

    pub fn as_u8(self) -> (r: u8)
        ensures
            r == self.index(),
    {
        match self {
            ChartType::Std => 0,
            ChartType::Dx => 1,
        }
    }

    pub fn as_str(self) -> (r: &'static str)
        ensures
            r@ == self.name(),
    {
        match self {
            ChartType::Std => "STD",
            ChartType::Dx => "DX",
        }
    }

    pub fn from_lowercase(s: &str) -> (r: Option<Self>)
        ensures
            r == Self::parse_name(trim(s@)),
    {
        let t = trimmed(s);
        if eq_lit_ignore_case(t.as_slice(), "std") {
            Some(ChartType::Std)
        } else if eq_lit_ignore_case(t.as_slice(), "dx") {
            Some(ChartType::Dx)
        } else {
            None
        }
    }

    pub fn as_lowercase(&self) -> (r: &'static str)
        ensures
            r@ == self.lower_name(),
    {
        match self {
            ChartType::Std => "std",
            ChartType::Dx => "dx",
        }
    }
}

/// The five difficulty categories of a chart.
#[derive(Debug, Clone, Copy, PartialEq, Eq, Structural, PartialOrd, Ord, Hash)]
pub enum DifficultyCategory {
    Basic,
    Advanced,
    Expert,
    Master,
    ReMaster,
}

impl DifficultyCategory {
    pub open spec fn index(self) -> u8 {
        match self {
            DifficultyCategory::Basic => 0,
            DifficultyCategory::Advanced => 1,
            DifficultyCategory::Expert => 2,
            DifficultyCategory::Master => 3,
            DifficultyCategory::ReMaster => 4,
        }
    }

    pub open spec fn from_index_spec(index: u8) -> Option<DifficultyCategory> {
        if index == 0 {
            Some(DifficultyCategory::Basic)
        } else if index == 1 {
            Some(DifficultyCategory::Advanced)
        } else if index == 2 {
            Some(DifficultyCategory::Expert)
        } else if index == 3 {
            Some(DifficultyCategory::Master)
        } else if index == 4 {
            Some(DifficultyCategory::ReMaster)
        } else {
            None
        }
    }

    pub open spec fn name(self) -> Seq<char> {
        match self {
            DifficultyCategory::Basic => "BASIC"@,
            DifficultyCategory::Advanced => "ADVANCED"@,
            DifficultyCategory::Expert => "EXPERT"@,
            DifficultyCategory::Master => "MASTER"@,
            DifficultyCategory::ReMaster => "Re:MASTER"@,
        }
    }

    pub open spec fn lower_name(self) -> Seq<char> {
        match self {
            DifficultyCategory::Basic => "basic"@,
            DifficultyCategory::Advanced => "advanced"@,
            DifficultyCategory::Expert => "expert"@,
            DifficultyCategory::Master => "master"@,
            DifficultyCategory::ReMaster => "remaster"@,
        }
    }

    /// The difficulty that a (trimmed) name denotes, ignoring ASCII case.
    pub open spec fn parse_name(s: Seq<char>) -> Option<DifficultyCategory> {
        if eq_ignore_case(s, "basic"@) {
            Some(DifficultyCategory::Basic)
        } else if eq_ignore_case(s, "advanced"@) {
            Some(DifficultyCategory::Advanced)
        } else if eq_ignore_case(s, "expert"@) {
            Some(DifficultyCategory::Expert)
        } else if eq_ignore_case(s, "master"@) {
            Some(DifficultyCategory::Master)
        } else if eq_ignore_case(s, "re:master"@) || eq_ignore_case(s, "remaster"@) {
            Some(DifficultyCategory::ReMaster)
        } else {
            None
        }
    }

    /// The difficulty named by an abbreviation of the internal-level spreadsheets.
    pub open spec fn parse_abbreviation(s: Seq<char>) -> Option<DifficultyCategory> {
        if s == "EXP"@ {
            Some(DifficultyCategory::Expert)
        } else if s == "MAS"@ {
            Some(DifficultyCategory::Master)
        } else if s == "ReMAS"@ {
            Some(DifficultyCategory::ReMaster)
        } else {
            None
        }
    }

    pub fn as_u8(self) -> (r: u8)
        ensures
            r == self.index(),
    {
        match self {
            DifficultyCategory::Basic => 0,
            DifficultyCategory::Advanced => 1,
            DifficultyCategory::Expert => 2,
            DifficultyCategory::Master => 3,
            DifficultyCategory::ReMaster => 4,
        }
    }

    pub fn from_index(index: u8) -> (r: Option<Self>)
        ensures
            r == Self::from_index_spec(index),
    {
        match index {
            0 => Some(DifficultyCategory::Basic),
            1 => Some(DifficultyCategory::Advanced),
            2 => Some(DifficultyCategory::Expert),
            3 => Some(DifficultyCategory::Master),
            4 => Some(DifficultyCategory::ReMaster),
            _ => None,
        }
    }

    pub fn as_str(self) -> (r: &'static str)
        ensures
            r@ == self.name(),
    {
        match self {
            DifficultyCategory::Basic => "BASIC",
            DifficultyCategory::Advanced => "ADVANCED",
            DifficultyCategory::Expert => "EXPERT",
            DifficultyCategory::Master => "MASTER",
            DifficultyCategory::ReMaster => "Re:MASTER",
        }
    }

    pub fn from_lowercase(s: &str) -> (r: Option<Self>)
        ensures
            r == Self::parse_name(trim(s@)),
    {
        let t = trimmed(s);
        let t = t.as_slice();
        if eq_lit_ignore_case(t, "basic") {
            Some(DifficultyCategory::Basic)
        } else if eq_lit_ignore_case(t, "advanced") {
            Some(DifficultyCategory::Advanced)
        } else if eq_lit_ignore_case(t, "expert") {
            Some(DifficultyCategory::Expert)
        } else if eq_lit_ignore_case(t, "master") {
            Some(DifficultyCategory::Master)
        } else if eq_lit_ignore_case(t, "re:master") || eq_lit_ignore_case(t, "remaster") {
            Some(DifficultyCategory::ReMaster)
        } else {
            None
        }
    }

    pub fn as_lowercase(&self) -> (r: &'static str)
        ensures
            r@ == self.lower_name(),
    {
        match self {
            DifficultyCategory::Basic => "basic",
            DifficultyCategory::Advanced => "advanced",
            DifficultyCategory::Expert => "expert",
            DifficultyCategory::Master => "master",
            DifficultyCategory::ReMaster => "remaster",
        }
    }

    pub fn from_sheet_abbreviation(s: &str) -> (r: Option<Self>)
        ensures
            r == Self::parse_abbreviation(trim(s@)),
    {
        let t = trimmed(s);
        let t = t.as_slice();
        if eq_lit(t, "EXP") {
            Some(DifficultyCategory::Expert)
        } else if eq_lit(t, "MAS") {
            Some(DifficultyCategory::Master)
        } else if eq_lit(t, "ReMAS") {
            Some(DifficultyCategory::ReMaster)
        } else {
            None
        }
    }
}

/// The game versions, in release order.
#[derive(Debug, Clone, Copy, PartialEq, Eq, Structural, PartialOrd, Ord, Hash)]
pub enum MaimaiVersion {
    Maimai,
    MaimaiPlus,
    Green,
    GreenPlus,
    Orange,
    OrangePlus,
    Pink,
    PinkPlus,
    Murasaki,
    MurasakiPlus,
    Milk,
    MilkPlus,
    Finale,
    Deluxe,
    DeluxePlus,
    Splash,
    SplashPlus,
    Universe,
    UniversePlus,
    Festival,
    FestivalPlus,
    Buddies,
    BuddiesPlus,
    Prism,
    PrismPlus,
    Circle,
}

impl MaimaiVersion {
    /// The position of the version in release order.
    pub open spec fn index(self) -> u8 {
        match self {
            MaimaiVersion::Maimai => 0,
            MaimaiVersion::MaimaiPlus => 1,
            MaimaiVersion::Green => 2,
            MaimaiVersion::GreenPlus => 3,
            MaimaiVersion::Orange => 4,
            MaimaiVersion::OrangePlus => 5,
            MaimaiVersion::Pink => 6,
            MaimaiVersion::PinkPlus => 7,
            MaimaiVersion::Murasaki => 8,
            MaimaiVersion::MurasakiPlus => 9,
            MaimaiVersion::Milk => 10,
            MaimaiVersion::MilkPlus => 11,
            MaimaiVersion::Finale => 12,
            MaimaiVersion::Deluxe => 13,
            MaimaiVersion::DeluxePlus => 14,
            MaimaiVersion::Splash => 15,
            MaimaiVersion::SplashPlus => 16,
            MaimaiVersion::Universe => 17,
            MaimaiVersion::UniversePlus => 18,
            MaimaiVersion::Festival => 19,
            MaimaiVersion::FestivalPlus => 20,
            MaimaiVersion::Buddies => 21,
            MaimaiVersion::BuddiesPlus => 22,
            MaimaiVersion::Prism => 23,
            MaimaiVersion::PrismPlus => 24,
            MaimaiVersion::Circle => 25,
        }
    }

    pub open spec fn from_index_spec(index: u8) -> Option<MaimaiVersion> {
        if index == 0 {
            Some(MaimaiVersion::Maimai)
        } else if index == 1 {
            Some(MaimaiVersion::MaimaiPlus)
        } else if index == 2 {
            Some(MaimaiVersion::Green)
        } else if index == 3 {
            Some(MaimaiVersion::GreenPlus)
        } else if index == 4 {
            Some(MaimaiVersion::Orange)
        } else if index == 5 {
            Some(MaimaiVersion::OrangePlus)
        } else if index == 6 {
            Some(MaimaiVersion::Pink)
        } else if index == 7 {
            Some(MaimaiVersion::PinkPlus)
        } else if index == 8 {
            Some(MaimaiVersion::Murasaki)
        } else if index == 9 {
            Some(MaimaiVersion::MurasakiPlus)
        } else if index == 10 {
            Some(MaimaiVersion::Milk)
        } else if index == 11 {
            Some(MaimaiVersion::MilkPlus)
        } else if index == 12 {
            Some(MaimaiVersion::Finale)
        } else if index == 13 {
            Some(MaimaiVersion::Deluxe)
        } else if index == 14 {
            Some(MaimaiVersion::DeluxePlus)
        } else if index == 15 {
            Some(MaimaiVersion::Splash)
        } else if index == 16 {
            Some(MaimaiVersion::SplashPlus)
        } else if index == 17 {
            Some(MaimaiVersion::Universe)
        } else if index == 18 {
            Some(MaimaiVersion::UniversePlus)
        } else if index == 19 {
            Some(MaimaiVersion::Festival)
        } else if index == 20 {
            Some(MaimaiVersion::FestivalPlus)
        } else if index == 21 {
            Some(MaimaiVersion::Buddies)
        } else if index == 22 {
            Some(MaimaiVersion::BuddiesPlus)
        } else if index == 23 {
            Some(MaimaiVersion::Prism)
        } else if index == 24 {
            Some(MaimaiVersion::PrismPlus)
        } else if index == 25 {
            Some(MaimaiVersion::Circle)
        } else {
            None
        }
    }

    pub open spec fn name(self) -> Seq<char> {
        match self {
            MaimaiVersion::Maimai => "maimai"@,
            MaimaiVersion::MaimaiPlus => "maimai PLUS"@,
            MaimaiVersion::Green => "GreeN"@,
            MaimaiVersion::GreenPlus => "GreeN PLUS"@,
            MaimaiVersion::Orange => "ORANGE"@,
            MaimaiVersion::OrangePlus => "ORANGE PLUS"@,
            MaimaiVersion::Pink => "PiNK"@,
            MaimaiVersion::PinkPlus => "PiNK PLUS"@,
            MaimaiVersion::Murasaki => "MURASAKi"@,
            MaimaiVersion::MurasakiPlus => "MURASAKi PLUS"@,
            MaimaiVersion::Milk => "MiLK"@,
            MaimaiVersion::MilkPlus => "MiLK PLUS"@,
            MaimaiVersion::Finale => "FiNALE"@,
            MaimaiVersion::Deluxe => "maimaiでらっくす"@,
            MaimaiVersion::DeluxePlus => "maimaiでらっくす PLUS"@,
            MaimaiVersion::Splash => "Splash"@,
            MaimaiVersion::SplashPlus => "Splash PLUS"@,
            MaimaiVersion::Universe => "UNiVERSE"@,
            MaimaiVersion::UniversePlus => "UNiVERSE PLUS"@,
            MaimaiVersion::Festival => "FESTiVAL"@,
            MaimaiVersion::FestivalPlus => "FESTiVAL PLUS"@,
            MaimaiVersion::Buddies => "BUDDiES"@,
            MaimaiVersion::BuddiesPlus => "BUDDiES PLUS"@,
            MaimaiVersion::Prism => "PRiSM"@,
            MaimaiVersion::PrismPlus => "PRiSM PLUS"@,
            MaimaiVersion::Circle => "CiRCLE"@,
        }
    }

    /// The first version, in release order, whose name is `s`.
    pub open spec fn parse_name(s: Seq<char>) -> Option<MaimaiVersion> {
        if s == "maimai"@ {
            Some(MaimaiVersion::Maimai)
        } else if s == "maimai PLUS"@ {
            Some(MaimaiVersion::MaimaiPlus)
        } else if s == "GreeN"@ {
            Some(MaimaiVersion::Green)
        } else if s == "GreeN PLUS"@ {
            Some(MaimaiVersion::GreenPlus)
        } else if s == "ORANGE"@ {
            Some(MaimaiVersion::Orange)
        } else if s == "ORANGE PLUS"@ {
            Some(MaimaiVersion::OrangePlus)
        } else if s == "PiNK"@ {
            Some(MaimaiVersion::Pink)
        } else if s == "PiNK PLUS"@ {
            Some(MaimaiVersion::PinkPlus)
        } else if s == "MURASAKi"@ {
            Some(MaimaiVersion::Murasaki)
        } else if s == "MURASAKi PLUS"@ {
            Some(MaimaiVersion::MurasakiPlus)
        } else if s == "MiLK"@ {
            Some(MaimaiVersion::Milk)
        } else if s == "MiLK PLUS"@ {
            Some(MaimaiVersion::MilkPlus)
        } else if s == "FiNALE"@ {
            Some(MaimaiVersion::Finale)
        } else if s == "maimaiでらっくす"@ {
            Some(MaimaiVersion::Deluxe)
        } else if s == "maimaiでらっくす PLUS"@ {
            Some(MaimaiVersion::DeluxePlus)
        } else if s == "Splash"@ {
            Some(MaimaiVersion::Splash)
        } else if s == "Splash PLUS"@ {
            Some(MaimaiVersion::SplashPlus)
        } else if s == "UNiVERSE"@ {
            Some(MaimaiVersion::Universe)
        } else if s == "UNiVERSE PLUS"@ {
            Some(MaimaiVersion::UniversePlus)
        } else if s == "FESTiVAL"@ {
            Some(MaimaiVersion::Festival)
        } else if s == "FESTiVAL PLUS"@ {
            Some(MaimaiVersion::FestivalPlus)
        } else if s == "BUDDiES"@ {
            Some(MaimaiVersion::Buddies)
        } else if s == "BUDDiES PLUS"@ {
            Some(MaimaiVersion::BuddiesPlus)
        } else if s == "PRiSM"@ {
            Some(MaimaiVersion::Prism)
        } else if s == "PRiSM PLUS"@ {
            Some(MaimaiVersion::PrismPlus)
        } else if s == "CiRCLE"@ {
            Some(MaimaiVersion::Circle)
        } else {
            None
        }
    }

    pub fn as_index(self) -> (r: u8)
        ensures
            r == self.index(),
    {
        match self {
            MaimaiVersion::Maimai => 0,
            MaimaiVersion::MaimaiPlus => 1,
            MaimaiVersion::Green => 2,
            MaimaiVersion::GreenPlus => 3,
            MaimaiVersion::Orange => 4,
            MaimaiVersion::OrangePlus => 5,
            MaimaiVersion::Pink => 6,
            MaimaiVersion::PinkPlus => 7,
            MaimaiVersion::Murasaki => 8,
            MaimaiVersion::MurasakiPlus => 9,
            MaimaiVersion::Milk => 10,
            MaimaiVersion::MilkPlus => 11,
            MaimaiVersion::Finale => 12,
            MaimaiVersion::Deluxe => 13,
            MaimaiVersion::DeluxePlus => 14,
            MaimaiVersion::Splash => 15,
            MaimaiVersion::SplashPlus => 16,
            MaimaiVersion::Universe => 17,
            MaimaiVersion::UniversePlus => 18,
            MaimaiVersion::Festival => 19,
            MaimaiVersion::FestivalPlus => 20,
            MaimaiVersion::Buddies => 21,
            MaimaiVersion::BuddiesPlus => 22,
            MaimaiVersion::Prism => 23,
            MaimaiVersion::PrismPlus => 24,
            MaimaiVersion::Circle => 25,
        }
    }

    pub fn as_str(self) -> (r: &'static str)
        ensures
            r@ == self.name(),
    {
        match self {
            MaimaiVersion::Maimai => "maimai",
            MaimaiVersion::MaimaiPlus => "maimai PLUS",
            MaimaiVersion::Green => "GreeN",
            MaimaiVersion::GreenPlus => "GreeN PLUS",
            MaimaiVersion::Orange => "ORANGE",
            MaimaiVersion::OrangePlus => "ORANGE PLUS",
            MaimaiVersion::Pink => "PiNK",
            MaimaiVersion::PinkPlus => "PiNK PLUS",
            MaimaiVersion::Murasaki => "MURASAKi",
            MaimaiVersion::MurasakiPlus => "MURASAKi PLUS",
            MaimaiVersion::Milk => "MiLK",
            MaimaiVersion::MilkPlus => "MiLK PLUS",
            MaimaiVersion::Finale => "FiNALE",
            MaimaiVersion::Deluxe => "maimaiでらっくす",
            MaimaiVersion::DeluxePlus => "maimaiでらっくす PLUS",
            MaimaiVersion::Splash => "Splash",
            MaimaiVersion::SplashPlus => "Splash PLUS",
            MaimaiVersion::Universe => "UNiVERSE",
            MaimaiVersion::UniversePlus => "UNiVERSE PLUS",
            MaimaiVersion::Festival => "FESTiVAL",
            MaimaiVersion::FestivalPlus => "FESTiVAL PLUS",
            MaimaiVersion::Buddies => "BUDDiES",
            MaimaiVersion::BuddiesPlus => "BUDDiES PLUS",
            MaimaiVersion::Prism => "PRiSM",
            MaimaiVersion::PrismPlus => "PRiSM PLUS",
            MaimaiVersion::Circle => "CiRCLE",
        }
    }

    pub fn from_index(index: u8) -> (r: Option<Self>)
        ensures
            r == Self::from_index_spec(index),
    {
        match index {
            0 => Some(MaimaiVersion::Maimai),
            1 => Some(MaimaiVersion::MaimaiPlus),
            2 => Some(MaimaiVersion::Green),
            3 => Some(MaimaiVersion::GreenPlus),
            4 => Some(MaimaiVersion::Orange),
            5 => Some(MaimaiVersion::OrangePlus),
            6 => Some(MaimaiVersion::Pink),
            7 => Some(MaimaiVersion::PinkPlus),
            8 => Some(MaimaiVersion::Murasaki),
            9 => Some(MaimaiVersion::MurasakiPlus),
            10 => Some(MaimaiVersion::Milk),
            11 => Some(MaimaiVersion::MilkPlus),
            12 => Some(MaimaiVersion::Finale),
            13 => Some(MaimaiVersion::Deluxe),
            14 => Some(MaimaiVersion::DeluxePlus),
            15 => Some(MaimaiVersion::Splash),
            16 => Some(MaimaiVersion::SplashPlus),
            17 => Some(MaimaiVersion::Universe),
            18 => Some(MaimaiVersion::UniversePlus),
            19 => Some(MaimaiVersion::Festival),
            20 => Some(MaimaiVersion::FestivalPlus),
            21 => Some(MaimaiVersion::Buddies),
            22 => Some(MaimaiVersion::BuddiesPlus),
            23 => Some(MaimaiVersion::Prism),
            24 => Some(MaimaiVersion::PrismPlus),
            25 => Some(MaimaiVersion::Circle),
            _ => None,
        }
    }

    pub fn from_name(name: &str) -> (r: Option<Self>)
        ensures
            r == Self::parse_name(trim(name@)),
    {
        let t = trimmed(name);
        let t = t.as_slice();
        if eq_lit(t, "maimai") {
            Some(MaimaiVersion::Maimai)
        } else if eq_lit(t, "maimai PLUS") {
            Some(MaimaiVersion::MaimaiPlus)
        } else if eq_lit(t, "GreeN") {
            Some(MaimaiVersion::Green)
        } else if eq_lit(t, "GreeN PLUS") {
            Some(MaimaiVersion::GreenPlus)
        } else if eq_lit(t, "ORANGE") {
            Some(MaimaiVersion::Orange)
        } else if eq_lit(t, "ORANGE PLUS") {
            Some(MaimaiVersion::OrangePlus)
        } else if eq_lit(t, "PiNK") {
            Some(MaimaiVersion::Pink)
        } else if eq_lit(t, "PiNK PLUS") {
            Some(MaimaiVersion::PinkPlus)
        } else if eq_lit(t, "MURASAKi") {
            Some(MaimaiVersion::Murasaki)
        } else if eq_lit(t, "MURASAKi PLUS") {
            Some(MaimaiVersion::MurasakiPlus)
        } else if eq_lit(t, "MiLK") {
            Some(MaimaiVersion::Milk)
        } else if eq_lit(t, "MiLK PLUS") {
            Some(MaimaiVersion::MilkPlus)
        } else if eq_lit(t, "FiNALE") {
            Some(MaimaiVersion::Finale)
        } else if eq_lit(t, "maimaiでらっくす") {
            Some(MaimaiVersion::Deluxe)
        } else if eq_lit(t, "maimaiでらっくす PLUS") {
            Some(MaimaiVersion::DeluxePlus)
        } else if eq_lit(t, "Splash") {
            Some(MaimaiVersion::Splash)
        } else if eq_lit(t, "Splash PLUS") {
            Some(MaimaiVersion::SplashPlus)
        } else if eq_lit(t, "UNiVERSE") {
            Some(MaimaiVersion::Universe)
        } else if eq_lit(t, "UNiVERSE PLUS") {
            Some(MaimaiVersion::UniversePlus)
        } else if eq_lit(t, "FESTiVAL") {
            Some(MaimaiVersion::Festival)
        } else if eq_lit(t, "FESTiVAL PLUS") {
            Some(MaimaiVersion::FestivalPlus)
        } else if eq_lit(t, "BUDDiES") {
            Some(MaimaiVersion::Buddies)
        } else if eq_lit(t, "BUDDiES PLUS") {
            Some(MaimaiVersion::BuddiesPlus)
        } else if eq_lit(t, "PRiSM") {
            Some(MaimaiVersion::Prism)
        } else if eq_lit(t, "PRiSM PLUS") {
            Some(MaimaiVersion::PrismPlus)
        } else if eq_lit(t, "CiRCLE") {
            Some(MaimaiVersion::Circle)
        } else {
            None
        }
    }
}

/// The rank letter of an achievement.
#[derive(Debug, Clone, Copy, PartialEq, Eq, Structural)]
pub enum ScoreRank {
    SssPlus,
    Sss,
    SsPlus,
    Ss,
    SPlus,
    S,
    Aaa,
    Aa,
    A,
    Bbb,
    Bb,
    B,
    C,
    D,
}

impl ScoreRank {
    pub open spec fn name(self) -> Seq<char> {
        match self {
            ScoreRank::SssPlus => "SSS+"@,
            ScoreRank::Sss => "SSS"@,
            ScoreRank::SsPlus => "SS+"@,
            ScoreRank::Ss => "SS"@,
            ScoreRank::SPlus => "S+"@,
            ScoreRank::S => "S"@,
            ScoreRank::Aaa => "AAA"@,
            ScoreRank::Aa => "AA"@,
            ScoreRank::A => "A"@,
            ScoreRank::Bbb => "BBB"@,
            ScoreRank::Bb => "BB"@,
            ScoreRank::B => "B"@,
            ScoreRank::C => "C"@,
            ScoreRank::D => "D"@,
        }
    }

    /// The rank that the key of a score-list icon file denotes.
    pub open spec fn parse_icon_key(s: Seq<char>) -> Option<ScoreRank> {
        if s == "sssp"@ {
            Some(ScoreRank::SssPlus)
        } else if s == "sss"@ {
            Some(ScoreRank::Sss)
        } else if s == "ssp"@ {
            Some(ScoreRank::SsPlus)
        } else if s == "ss"@ {
            Some(ScoreRank::Ss)
        } else if s == "sp"@ {
            Some(ScoreRank::SPlus)
        } else if s == "s"@ {
            Some(ScoreRank::S)
        } else if s == "aaa"@ {
            Some(ScoreRank::Aaa)
        } else if s == "aa"@ {
            Some(ScoreRank::Aa)
        } else if s == "a"@ {
            Some(ScoreRank::A)
        } else if s == "bbb"@ {
            Some(ScoreRank::Bbb)
        } else if s == "bb"@ {
            Some(ScoreRank::Bb)
        } else if s == "b"@ {
            Some(ScoreRank::B)
        } else if s == "c"@ {
            Some(ScoreRank::C)
        } else if s == "d"@ {
            Some(ScoreRank::D)
        } else {
            None
        }
    }

    /// The rank that the stem of a play-log icon file denotes (already lowercased).
    pub open spec fn parse_playlog_stem(s: Seq<char>) -> Option<ScoreRank> {
        if s == "sssplus"@ {
            Some(ScoreRank::SssPlus)
        } else if s == "sss"@ {
            Some(ScoreRank::Sss)
        } else if s == "ssplus"@ {
            Some(ScoreRank::SsPlus)
        } else if s == "ss"@ {
            Some(ScoreRank::Ss)
        } else if s == "splus"@ {
            Some(ScoreRank::SPlus)
        } else if s == "s"@ {
            Some(ScoreRank::S)
        } else if s == "aaa"@ {
            Some(ScoreRank::Aaa)
        } else if s == "aa"@ {
            Some(ScoreRank::Aa)
        } else if s == "a"@ {
            Some(ScoreRank::A)
        } else if s == "bbb"@ {
            Some(ScoreRank::Bbb)
        } else if s == "bb"@ {
            Some(ScoreRank::Bb)
        } else if s == "b"@ {
            Some(ScoreRank::B)
        } else if s == "c"@ {
            Some(ScoreRank::C)
        } else if s == "d"@ {
            Some(ScoreRank::D)
        } else {
            None
        }
    }

    pub fn as_str(self) -> (r: &'static str)
        ensures
            r@ == self.name(),
    {
        match self {
            ScoreRank::SssPlus => "SSS+",
            ScoreRank::Sss => "SSS",
            ScoreRank::SsPlus => "SS+",
            ScoreRank::Ss => "SS",
            ScoreRank::SPlus => "S+",
            ScoreRank::S => "S",
            ScoreRank::Aaa => "AAA",
            ScoreRank::Aa => "AA",
            ScoreRank::A => "A",
            ScoreRank::Bbb => "BBB",
            ScoreRank::Bb => "BB",
            ScoreRank::B => "B",
            ScoreRank::C => "C",
            ScoreRank::D => "D",
        }
    }

    pub fn from_score_icon_key(key: &str) -> (r: Option<Self>)
        ensures
            r == Self::parse_icon_key(key@),
    {
        let k = chars_of(key);
        let k = k.as_slice();
        if eq_lit(k, "sssp") {
            Some(ScoreRank::SssPlus)
        } else if eq_lit(k, "sss") {
            Some(ScoreRank::Sss)
        } else if eq_lit(k, "ssp") {
            Some(ScoreRank::SsPlus)
        } else if eq_lit(k, "ss") {
            Some(ScoreRank::Ss)
        } else if eq_lit(k, "sp") {
            Some(ScoreRank::SPlus)
        } else if eq_lit(k, "s") {
            Some(ScoreRank::S)
        } else if eq_lit(k, "aaa") {
            Some(ScoreRank::Aaa)
        } else if eq_lit(k, "aa") {
            Some(ScoreRank::Aa)
        } else if eq_lit(k, "a") {
            Some(ScoreRank::A)
        } else if eq_lit(k, "bbb") {
            Some(ScoreRank::Bbb)
        } else if eq_lit(k, "bb") {
            Some(ScoreRank::Bb)
        } else if eq_lit(k, "b") {
            Some(ScoreRank::B)
        } else if eq_lit(k, "c") {
            Some(ScoreRank::C)
        } else if eq_lit(k, "d") {
            Some(ScoreRank::D)
        } else {
            None
        }
    }

    pub fn from_playlog_stem(stem: &str) -> (r: Option<Self>)
        ensures
            r == Self::parse_playlog_stem(lower_seq(trim(stem@))),
    {
        let t = trimmed(stem);
        let k = to_ascii_lower(t.as_slice());
        let k = k.as_slice();
        if eq_lit(k, "sssplus") {
            Some(ScoreRank::SssPlus)
        } else if eq_lit(k, "sss") {
            Some(ScoreRank::Sss)
        } else if eq_lit(k, "ssplus") {
            Some(ScoreRank::SsPlus)
        } else if eq_lit(k, "ss") {
            Some(ScoreRank::Ss)
        } else if eq_lit(k, "splus") {
            Some(ScoreRank::SPlus)
        } else if eq_lit(k, "s") {
            Some(ScoreRank::S)
        } else if eq_lit(k, "aaa") {
            Some(ScoreRank::Aaa)
        } else if eq_lit(k, "aa") {
            Some(ScoreRank::Aa)
        } else if eq_lit(k, "a") {
            Some(ScoreRank::A)
        } else if eq_lit(k, "bbb") {
            Some(ScoreRank::Bbb)
        } else if eq_lit(k, "bb") {
            Some(ScoreRank::Bb)
        } else if eq_lit(k, "b") {
            Some(ScoreRank::B)
        } else if eq_lit(k, "c") {
            Some(ScoreRank::C)
        } else if eq_lit(k, "d") {
            Some(ScoreRank::D)
        } else {
            None
        }
    }
}

/// The full-combo status of a play.
#[derive(Debug, Clone, Copy, PartialEq, Eq, Structural)]
pub enum FcStatus {
    ApPlus,
    Ap,
    FcPlus,
    Fc,
}

impl FcStatus {
    pub open spec fn name(self) -> Seq<char> {
        match self {
            FcStatus::ApPlus => "AP+"@,
            FcStatus::Ap => "AP"@,
            FcStatus::FcPlus => "FC+"@,
            FcStatus::Fc => "FC"@,
        }
    }

    /// The status that an icon key denotes.
    pub open spec fn parse_key(s: Seq<char>) -> Option<FcStatus> {
        if s == "app"@ {
            Some(FcStatus::ApPlus)
        } else if s == "ap"@ {
            Some(FcStatus::Ap)
        } else if s == "fcp"@ {
            Some(FcStatus::FcPlus)
        } else if s == "fc"@ {
            Some(FcStatus::Fc)
        } else {
            None
        }
    }

    pub fn as_str(self) -> (r: &'static str)
        ensures
            r@ == self.name(),
    {
        match self {
            FcStatus::ApPlus => "AP+",
            FcStatus::Ap => "AP",
            FcStatus::FcPlus => "FC+",
            FcStatus::Fc => "FC",
        }
    }

    fn from_key_chars(k: &[char]) -> (r: Option<Self>)
        ensures
            r == Self::parse_key(k@),
    {
        if eq_lit(k, "app") {
            Some(FcStatus::ApPlus)
        } else if eq_lit(k, "ap") {
            Some(FcStatus::Ap)
        } else if eq_lit(k, "fcp") {
            Some(FcStatus::FcPlus)
        } else if eq_lit(k, "fc") {
            Some(FcStatus::Fc)
        } else {
            None
        }
    }

    pub fn from_score_icon_key(key: &str) -> (r: Option<Self>)
        ensures
            r == Self::parse_key(key@),
    {
        let k = chars_of(key);
        Self::from_key_chars(k.as_slice())
    }

    pub fn from_playlog_key(key: &str) -> (r: Option<Self>)
        ensures
            r == Self::parse_key(lower_seq(trim(key@))),
    {
        let t = trimmed(key);
        let k = to_ascii_lower(t.as_slice());
        Self::from_key_chars(k.as_slice())
    }
}

/// The sync status of a play.
#[derive(Debug, Clone, Copy, PartialEq, Eq, Structural)]
pub enum SyncStatus {
    FdxPlus,
    Fdx,
    FsPlus,
    Fs,
    Sync,
}

impl SyncStatus {
    pub open spec fn name(self) -> Seq<char> {
        match self {
            SyncStatus::FdxPlus => "FDX+"@,
            SyncStatus::Fdx => "FDX"@,
            SyncStatus::FsPlus => "FS+"@,
            SyncStatus::Fs => "FS"@,
            SyncStatus::Sync => "SYNC"@,
        }
    }

    pub open spec fn rank_value(self) -> u8 {
        match self {
            SyncStatus::FdxPlus => 5,
            SyncStatus::Fdx => 4,
            SyncStatus::FsPlus => 3,
            SyncStatus::Fs => 2,
            SyncStatus::Sync => 1,
        }
    }

    /// The status that an icon key denotes.
    pub open spec fn parse_key(s: Seq<char>) -> Option<SyncStatus> {
        if s == "fdxp"@ {
            Some(SyncStatus::FdxPlus)
        } else if s == "fdx"@ {
            Some(SyncStatus::Fdx)
        } else if s == "fsp"@ {
            Some(SyncStatus::FsPlus)
        } else if s == "fs"@ {
            Some(SyncStatus::Fs)
        } else if s == "sync"@ {
            Some(SyncStatus::Sync)
        } else {
            None
        }
    }

    pub fn as_str(self) -> (r: &'static str)
        ensures
            r@ == self.name(),
    {
        match self {
            SyncStatus::FdxPlus => "FDX+",
            SyncStatus::Fdx => "FDX",
            SyncStatus::FsPlus => "FS+",
            SyncStatus::Fs => "FS",
            SyncStatus::Sync => "SYNC",
        }
    }

    pub fn priority(self) -> (r: u8)
        ensures
            r == self.rank_value(),
    {
        match self {
            SyncStatus::FdxPlus => 5,
            SyncStatus::Fdx => 4,
            SyncStatus::FsPlus => 3,
            SyncStatus::Fs => 2,
            SyncStatus::Sync => 1,
        }
    }

    fn from_key_chars(k: &[char]) -> (r: Option<Self>)
        ensures
            r == Self::parse_key(k@),
    {
        if eq_lit(k, "fdxp") {
            Some(SyncStatus::FdxPlus)
        } else if eq_lit(k, "fdx") {
            Some(SyncStatus::Fdx)
        } else if eq_lit(k, "fsp") {
            Some(SyncStatus::FsPlus)
        } else if eq_lit(k, "fs") {
            Some(SyncStatus::Fs)
        } else if eq_lit(k, "sync") {
            Some(SyncStatus::Sync)
        } else {
            None
        }
    }

    pub fn from_score_icon_key(key: &str) -> (r: Option<Self>)
        ensures
            r == Self::parse_key(key@),
    {
        let k = chars_of(key);
        Self::from_key_chars(k.as_slice())
    }

    pub fn from_playlog_key(key: &str) -> (r: Option<Self>)
        ensures
            r == Self::parse_key(lower_seq(trim(key@))),
    {
        let t = trimmed(key);
        let k = to_ascii_lower(t.as_slice());
        Self::from_key_chars(k.as_slice())
    }
}

/// A version is found again from its position in release order.
pub proof fn law_version_index_roundtrip(v: MaimaiVersion)
    ensures
        MaimaiVersion::from_index_spec(v.index()) == Some(v),
{
}

/// Exactly the positions below the number of versions name a version.
pub proof fn law_version_index_range(i: u8)
    ensures
        MaimaiVersion::from_index_spec(i) is Some <==> i < 26,
        MaimaiVersion::from_index_spec(i) matches Some(v) ==> v.index() == i,
{
}

/// A version is found again from its name.
pub proof fn law_version_name_roundtrip(v: MaimaiVersion)
    ensures
        MaimaiVersion::parse_name(trim(v.name())) == Some(v),
{
    reveal_strlit("maimai");
    reveal_strlit("maimai PLUS");
    reveal_strlit("GreeN");
    reveal_strlit("GreeN PLUS");
    reveal_strlit("ORANGE");
    reveal_strlit("ORANGE PLUS");
    reveal_strlit("PiNK");
    reveal_strlit("PiNK PLUS");
    reveal_strlit("MURASAKi");
    reveal_strlit("MURASAKi PLUS");
    reveal_strlit("MiLK");
    reveal_strlit("MiLK PLUS");
    reveal_strlit("FiNALE");
    reveal_strlit("maimaiでらっくす");
    reveal_strlit("maimaiでらっくす PLUS");
    reveal_strlit("Splash");
    reveal_strlit("Splash PLUS");
    reveal_strlit("UNiVERSE");
    reveal_strlit("UNiVERSE PLUS");
    reveal_strlit("FESTiVAL");
    reveal_strlit("FESTiVAL PLUS");
    reveal_strlit("BUDDiES");
    reveal_strlit("BUDDiES PLUS");
    reveal_strlit("PRiSM");
    reveal_strlit("PRiSM PLUS");
    reveal_strlit("CiRCLE");
    lemma_trim_noop(v.name());
}

/// A genre is found again from its international name.
pub proof fn law_genre_name_roundtrip(g: SongGenre)
    ensures
        SongGenre::parse_name(trim(g.name())) == Some(g),
{
    reveal_strlit("POPS＆ANIME");
    reveal_strlit("POPS＆アニメ");
    reveal_strlit("niconico＆VOCALOID™");
    reveal_strlit("niconico＆ボーカロイド");
    reveal_strlit("東方Project");
    reveal_strlit("GAME＆VARIETY");
    reveal_strlit("ゲーム＆バラエティ");
    reveal_strlit("maimai");
    reveal_strlit("オンゲキ＆CHUNITHM");
    reveal_strlit("宴会場");
    lemma_trim_noop(g.name());
}

/// A chart type is found again from its display name and from its lowercase name.
pub proof fn law_chart_type_name_roundtrip(c: ChartType)
    ensures
        ChartType::parse_name(trim(c.name())) == Some(c),
        ChartType::parse_name(trim(c.lower_name())) == Some(c),
{
    reveal_strlit("STD");
    reveal_strlit("DX");
    reveal_strlit("std");
    reveal_strlit("dx");
    lemma_trim_noop(c.name());
    lemma_trim_noop(c.lower_name());
    assert(lower_seq("STD"@) =~= "std"@);
    assert(lower_seq("std"@) =~= "std"@);
    assert(lower_seq("DX"@) =~= "dx"@);
    assert(lower_seq("dx"@) =~= "dx"@);
}

/// A difficulty is found again from its position.
pub proof fn law_difficulty_index_roundtrip(d: DifficultyCategory)
    ensures
        DifficultyCategory::from_index_spec(d.index()) == Some(d),
{
}

/// A difficulty is found again from its display name and from its lowercase name.
pub proof fn law_difficulty_name_roundtrip(d: DifficultyCategory)
    ensures
        DifficultyCategory::parse_name(trim(d.name())) == Some(d),
        DifficultyCategory::parse_name(trim(d.lower_name())) == Some(d),
{
    reveal_strlit("BASIC");
    reveal_strlit("ADVANCED");
    reveal_strlit("EXPERT");
    reveal_strlit("MASTER");
    reveal_strlit("Re:MASTER");
    reveal_strlit("basic");
    reveal_strlit("advanced");
    reveal_strlit("expert");
    reveal_strlit("master");
    reveal_strlit("re:master");
    reveal_strlit("remaster");
    lemma_trim_noop(d.name());
    lemma_trim_noop(d.lower_name());
    assert(lower_seq("BASIC"@) =~= "basic"@);
    assert(lower_seq("basic"@) =~= "basic"@);
    assert(lower_seq("ADVANCED"@) =~= "advanced"@);
    assert(lower_seq("advanced"@) =~= "advanced"@);
    assert(lower_seq("EXPERT"@) =~= "expert"@);
    assert(lower_seq("expert"@) =~= "expert"@);
    assert(lower_seq("MASTER"@) =~= "master"@);
    assert(lower_seq("master"@) =~= "master"@);
    assert(lower_seq("Re:MASTER"@) =~= "re:master"@);
    assert(lower_seq("re:master"@) =~= "re:master"@);
    assert(lower_seq("remaster"@) =~= "remaster"@);
}


/// The key of a score-list icon file for a name: the name in lower case, with `+` written `p`
/// (`S+` has the icon `music_icon_sp.png`).
pub open spec fn icon_key_of_name(name: Seq<char>) -> Seq<char> {
    lower_seq(name).map_values(|c: char| if c == '+' { 'p' } else { c })
}

/// The stem of a play-log icon file for a name: the name in lower case, with a final `+`
/// written `plus` (`S+` has the stem `splus`).
pub open spec fn playlog_stem_of_name(name: Seq<char>) -> Seq<char> {
    if name.len() > 0 && name.last() == '+' {
        lower_seq(name.drop_last()) + "plus"@
    } else {
        lower_seq(name)
    }
}

/// A score-list icon key denotes a rank exactly when it is that rank's name in lower case with
/// `+` written `p`: each rank has one key, and no two ranks share one.
pub proof fn law_rank_icon_key(r: ScoreRank, k: Seq<char>)
    ensures
        ScoreRank::parse_icon_key(k) == Some(r) <==> k == icon_key_of_name(r.name()),
{
    reveal_strlit("SSS+");
    reveal_strlit("SSS");
    reveal_strlit("SS+");
    reveal_strlit("SS");
    reveal_strlit("S+");
    reveal_strlit("S");
    reveal_strlit("AAA");
    reveal_strlit("AA");
    reveal_strlit("A");
    reveal_strlit("BBB");
    reveal_strlit("BB");
    reveal_strlit("B");
    reveal_strlit("C");
    reveal_strlit("D");
    reveal_strlit("sssp");
    reveal_strlit("sss");
    reveal_strlit("ssp");
    reveal_strlit("ss");
    reveal_strlit("sp");
    reveal_strlit("s");
    reveal_strlit("aaa");
    reveal_strlit("aa");
    reveal_strlit("a");
    reveal_strlit("bbb");
    reveal_strlit("bb");
    reveal_strlit("b");
    reveal_strlit("c");
    reveal_strlit("d");
    assert("sss"@[2] != "ssp"@[2]);
    assert("sss"@[0] != "aaa"@[0]);
    assert("sss"@[0] != "bbb"@[0]);
    assert("ssp"@[0] != "aaa"@[0]);
    assert("ssp"@[0] != "bbb"@[0]);
    assert("ss"@[1] != "sp"@[1]);
    assert("ss"@[0] != "aa"@[0]);
    assert("ss"@[0] != "bb"@[0]);
    assert("sp"@[0] != "aa"@[0]);
    assert("sp"@[0] != "bb"@[0]);
    assert("s"@[0] != "a"@[0]);
    assert("s"@[0] != "b"@[0]);
    assert("s"@[0] != "c"@[0]);
    assert("s"@[0] != "d"@[0]);
    assert("aaa"@[0] != "bbb"@[0]);
    assert("aa"@[0] != "bb"@[0]);
    assert("a"@[0] != "b"@[0]);
    assert("a"@[0] != "c"@[0]);
    assert("a"@[0] != "d"@[0]);
    assert("b"@[0] != "c"@[0]);
    assert("b"@[0] != "d"@[0]);
    assert("c"@[0] != "d"@[0]);
    match r {
        ScoreRank::SssPlus => {
            assert(icon_key_of_name("SSS+"@) =~= "sssp"@);
            assert(k == "sssp"@ ==> ScoreRank::parse_icon_key(k) == Some(ScoreRank::SssPlus));
            assert(ScoreRank::parse_icon_key(k) == Some(ScoreRank::SssPlus) ==> k == "sssp"@);
        },
        ScoreRank::Sss => {
            assert(icon_key_of_name("SSS"@) =~= "sss"@);
            assert(k == "sss"@ ==> ScoreRank::parse_icon_key(k) == Some(ScoreRank::Sss));
            assert(ScoreRank::parse_icon_key(k) == Some(ScoreRank::Sss) ==> k == "sss"@);
        },
        ScoreRank::SsPlus => {
            assert(icon_key_of_name("SS+"@) =~= "ssp"@);
            assert(k == "ssp"@ ==> ScoreRank::parse_icon_key(k) == Some(ScoreRank::SsPlus));
            assert(ScoreRank::parse_icon_key(k) == Some(ScoreRank::SsPlus) ==> k == "ssp"@);
        },
        ScoreRank::Ss => {
            assert(icon_key_of_name("SS"@) =~= "ss"@);
            assert(k == "ss"@ ==> ScoreRank::parse_icon_key(k) == Some(ScoreRank::Ss));
            assert(ScoreRank::parse_icon_key(k) == Some(ScoreRank::Ss) ==> k == "ss"@);
        },
        ScoreRank::SPlus => {
            assert(icon_key_of_name("S+"@) =~= "sp"@);
            assert(k == "sp"@ ==> ScoreRank::parse_icon_key(k) == Some(ScoreRank::SPlus));
            assert(ScoreRank::parse_icon_key(k) == Some(ScoreRank::SPlus) ==> k == "sp"@);
        },
        ScoreRank::S => {
            assert(icon_key_of_name("S"@) =~= "s"@);
            assert(k == "s"@ ==> ScoreRank::parse_icon_key(k) == Some(ScoreRank::S));
            assert(ScoreRank::parse_icon_key(k) == Some(ScoreRank::S) ==> k == "s"@);
        },
        ScoreRank::Aaa => {
            assert(icon_key_of_name("AAA"@) =~= "aaa"@);
            assert(k == "aaa"@ ==> ScoreRank::parse_icon_key(k) == Some(ScoreRank::Aaa));
            assert(ScoreRank::parse_icon_key(k) == Some(ScoreRank::Aaa) ==> k == "aaa"@);
        },
        ScoreRank::Aa => {
            assert(icon_key_of_name("AA"@) =~= "aa"@);
            assert(k == "aa"@ ==> ScoreRank::parse_icon_key(k) == Some(ScoreRank::Aa));
            assert(ScoreRank::parse_icon_key(k) == Some(ScoreRank::Aa) ==> k == "aa"@);
        },
        ScoreRank::A => {
            assert(icon_key_of_name("A"@) =~= "a"@);
            assert(k == "a"@ ==> ScoreRank::parse_icon_key(k) == Some(ScoreRank::A));
            assert(ScoreRank::parse_icon_key(k) == Some(ScoreRank::A) ==> k == "a"@);
        },
        ScoreRank::Bbb => {
            assert(icon_key_of_name("BBB"@) =~= "bbb"@);
            assert(k == "bbb"@ ==> ScoreRank::parse_icon_key(k) == Some(ScoreRank::Bbb));
            assert(ScoreRank::parse_icon_key(k) == Some(ScoreRank::Bbb) ==> k == "bbb"@);
        },
        ScoreRank::Bb => {
            assert(icon_key_of_name("BB"@) =~= "bb"@);
            assert(k == "bb"@ ==> ScoreRank::parse_icon_key(k) == Some(ScoreRank::Bb));
            assert(ScoreRank::parse_icon_key(k) == Some(ScoreRank::Bb) ==> k == "bb"@);
        },
        ScoreRank::B => {
            assert(icon_key_of_name("B"@) =~= "b"@);
            assert(k == "b"@ ==> ScoreRank::parse_icon_key(k) == Some(ScoreRank::B));
            assert(ScoreRank::parse_icon_key(k) == Some(ScoreRank::B) ==> k == "b"@);
        },
        ScoreRank::C => {
            assert(icon_key_of_name("C"@) =~= "c"@);
            assert(k == "c"@ ==> ScoreRank::parse_icon_key(k) == Some(ScoreRank::C));
            assert(ScoreRank::parse_icon_key(k) == Some(ScoreRank::C) ==> k == "c"@);
        },
        ScoreRank::D => {
            assert(icon_key_of_name("D"@) =~= "d"@);
            assert(k == "d"@ ==> ScoreRank::parse_icon_key(k) == Some(ScoreRank::D));
            assert(ScoreRank::parse_icon_key(k) == Some(ScoreRank::D) ==> k == "d"@);
        },
    }
}

/// A play-log icon stem denotes a rank exactly when it is that rank's name in lower case with a
/// final `+` written `plus`.
pub proof fn law_rank_playlog_stem(r: ScoreRank, k: Seq<char>)
    ensures
        ScoreRank::parse_playlog_stem(k) == Some(r) <==> k == playlog_stem_of_name(r.name()),
{
    reveal_strlit("SSS+");
    reveal_strlit("SSS");
    reveal_strlit("SS+");
    reveal_strlit("SS");
    reveal_strlit("S+");
    reveal_strlit("S");
    reveal_strlit("AAA");
    reveal_strlit("AA");
    reveal_strlit("A");
    reveal_strlit("BBB");
    reveal_strlit("BB");
    reveal_strlit("B");
    reveal_strlit("C");
    reveal_strlit("D");
    reveal_strlit("sssplus");
    reveal_strlit("sss");
    reveal_strlit("ssplus");
    reveal_strlit("ss");
    reveal_strlit("splus");
    reveal_strlit("s");
    reveal_strlit("aaa");
    reveal_strlit("aa");
    reveal_strlit("a");
    reveal_strlit("bbb");
    reveal_strlit("bb");
    reveal_strlit("b");
    reveal_strlit("c");
    reveal_strlit("d");
    reveal_strlit("plus");
    assert("sss"@[0] != "aaa"@[0]);
    assert("sss"@[0] != "bbb"@[0]);
    assert("ss"@[0] != "aa"@[0]);
    assert("ss"@[0] != "bb"@[0]);
    assert("s"@[0] != "a"@[0]);
    assert("s"@[0] != "b"@[0]);
    assert("s"@[0] != "c"@[0]);
    assert("s"@[0] != "d"@[0]);
    assert("aaa"@[0] != "bbb"@[0]);
    assert("aa"@[0] != "bb"@[0]);
    assert("a"@[0] != "b"@[0]);
    assert("a"@[0] != "c"@[0]);
    assert("a"@[0] != "d"@[0]);
    assert("b"@[0] != "c"@[0]);
    assert("b"@[0] != "d"@[0]);
    assert("c"@[0] != "d"@[0]);
    match r {
        ScoreRank::SssPlus => {
            assert(playlog_stem_of_name("SSS+"@) =~= "sssplus"@);
            assert(k == "sssplus"@ ==> ScoreRank::parse_playlog_stem(k) == Some(ScoreRank::SssPlus));
            assert(ScoreRank::parse_playlog_stem(k) == Some(ScoreRank::SssPlus) ==> k == "sssplus"@);
        },
        ScoreRank::Sss => {
            assert(playlog_stem_of_name("SSS"@) =~= "sss"@);
            assert(k == "sss"@ ==> ScoreRank::parse_playlog_stem(k) == Some(ScoreRank::Sss));
            assert(ScoreRank::parse_playlog_stem(k) == Some(ScoreRank::Sss) ==> k == "sss"@);
        },
        ScoreRank::SsPlus => {
            assert(playlog_stem_of_name("SS+"@) =~= "ssplus"@);
            assert(k == "ssplus"@ ==> ScoreRank::parse_playlog_stem(k) == Some(ScoreRank::SsPlus));
            assert(ScoreRank::parse_playlog_stem(k) == Some(ScoreRank::SsPlus) ==> k == "ssplus"@);
        },
        ScoreRank::Ss => {
            assert(playlog_stem_of_name("SS"@) =~= "ss"@);
            assert(k == "ss"@ ==> ScoreRank::parse_playlog_stem(k) == Some(ScoreRank::Ss));
            assert(ScoreRank::parse_playlog_stem(k) == Some(ScoreRank::Ss) ==> k == "ss"@);
        },
        ScoreRank::SPlus => {
            assert(playlog_stem_of_name("S+"@) =~= "splus"@);
            assert(k == "splus"@ ==> ScoreRank::parse_playlog_stem(k) == Some(ScoreRank::SPlus));
            assert(ScoreRank::parse_playlog_stem(k) == Some(ScoreRank::SPlus) ==> k == "splus"@);
        },
        ScoreRank::S => {
            assert(playlog_stem_of_name("S"@) =~= "s"@);
            assert(k == "s"@ ==> ScoreRank::parse_playlog_stem(k) == Some(ScoreRank::S));
            assert(ScoreRank::parse_playlog_stem(k) == Some(ScoreRank::S) ==> k == "s"@);
        },
        ScoreRank::Aaa => {
            assert(playlog_stem_of_name("AAA"@) =~= "aaa"@);
            assert(k == "aaa"@ ==> ScoreRank::parse_playlog_stem(k) == Some(ScoreRank::Aaa));
            assert(ScoreRank::parse_playlog_stem(k) == Some(ScoreRank::Aaa) ==> k == "aaa"@);
        },
        ScoreRank::Aa => {
            assert(playlog_stem_of_name("AA"@) =~= "aa"@);
            assert(k == "aa"@ ==> ScoreRank::parse_playlog_stem(k) == Some(ScoreRank::Aa));
            assert(ScoreRank::parse_playlog_stem(k) == Some(ScoreRank::Aa) ==> k == "aa"@);
        },
        ScoreRank::A => {
            assert(playlog_stem_of_name("A"@) =~= "a"@);
            assert(k == "a"@ ==> ScoreRank::parse_playlog_stem(k) == Some(ScoreRank::A));
            assert(ScoreRank::parse_playlog_stem(k) == Some(ScoreRank::A) ==> k == "a"@);
        },
        ScoreRank::Bbb => {
            assert(playlog_stem_of_name("BBB"@) =~= "bbb"@);
            assert(k == "bbb"@ ==> ScoreRank::parse_playlog_stem(k) == Some(ScoreRank::Bbb));
            assert(ScoreRank::parse_playlog_stem(k) == Some(ScoreRank::Bbb) ==> k == "bbb"@);
        },
        ScoreRank::Bb => {
            assert(playlog_stem_of_name("BB"@) =~= "bb"@);
            assert(k == "bb"@ ==> ScoreRank::parse_playlog_stem(k) == Some(ScoreRank::Bb));
            assert(ScoreRank::parse_playlog_stem(k) == Some(ScoreRank::Bb) ==> k == "bb"@);
        },
        ScoreRank::B => {
            assert(playlog_stem_of_name("B"@) =~= "b"@);
            assert(k == "b"@ ==> ScoreRank::parse_playlog_stem(k) == Some(ScoreRank::B));
            assert(ScoreRank::parse_playlog_stem(k) == Some(ScoreRank::B) ==> k == "b"@);
        },
        ScoreRank::C => {
            assert(playlog_stem_of_name("C"@) =~= "c"@);
            assert(k == "c"@ ==> ScoreRank::parse_playlog_stem(k) == Some(ScoreRank::C));
            assert(ScoreRank::parse_playlog_stem(k) == Some(ScoreRank::C) ==> k == "c"@);
        },
        ScoreRank::D => {
            assert(playlog_stem_of_name("D"@) =~= "d"@);
            assert(k == "d"@ ==> ScoreRank::parse_playlog_stem(k) == Some(ScoreRank::D));
            assert(ScoreRank::parse_playlog_stem(k) == Some(ScoreRank::D) ==> k == "d"@);
        },
    }
}

/// An icon key denotes a full-combo status exactly when it is that status's name in lower case
/// with `+` written `p`.
pub proof fn law_fc_icon_key(f: FcStatus, k: Seq<char>)
    ensures
        FcStatus::parse_key(k) == Some(f) <==> k == icon_key_of_name(f.name()),
{
    reveal_strlit("AP+");
    reveal_strlit("AP");
    reveal_strlit("FC+");
    reveal_strlit("FC");
    reveal_strlit("app");
    reveal_strlit("ap");
    reveal_strlit("fcp");
    reveal_strlit("fc");
    assert("app"@[0] != "fcp"@[0]);
    assert("ap"@[0] != "fc"@[0]);
    match f {
        FcStatus::ApPlus => {
            assert(icon_key_of_name("AP+"@) =~= "app"@);
            assert(k == "app"@ ==> FcStatus::parse_key(k) == Some(FcStatus::ApPlus));
            assert(FcStatus::parse_key(k) == Some(FcStatus::ApPlus) ==> k == "app"@);
        },
        FcStatus::Ap => {
            assert(icon_key_of_name("AP"@) =~= "ap"@);
            assert(k == "ap"@ ==> FcStatus::parse_key(k) == Some(FcStatus::Ap));
            assert(FcStatus::parse_key(k) == Some(FcStatus::Ap) ==> k == "ap"@);
        },
        FcStatus::FcPlus => {
            assert(icon_key_of_name("FC+"@) =~= "fcp"@);
            assert(k == "fcp"@ ==> FcStatus::parse_key(k) == Some(FcStatus::FcPlus));
            assert(FcStatus::parse_key(k) == Some(FcStatus::FcPlus) ==> k == "fcp"@);
        },
        FcStatus::Fc => {
            assert(icon_key_of_name("FC"@) =~= "fc"@);
            assert(k == "fc"@ ==> FcStatus::parse_key(k) == Some(FcStatus::Fc));
            assert(FcStatus::parse_key(k) == Some(FcStatus::Fc) ==> k == "fc"@);
        },
    }
}

/// An icon key denotes a sync status exactly when it is that status's name in lower case with
/// `+` written `p`.
pub proof fn law_sync_icon_key(y: SyncStatus, k: Seq<char>)
    ensures
        SyncStatus::parse_key(k) == Some(y) <==> k == icon_key_of_name(y.name()),
{
    reveal_strlit("FDX+");
    reveal_strlit("FDX");
    reveal_strlit("FS+");
    reveal_strlit("FS");
    reveal_strlit("SYNC");
    reveal_strlit("fdxp");
    reveal_strlit("fdx");
    reveal_strlit("fsp");
    reveal_strlit("fs");
    reveal_strlit("sync");
    assert("fdxp"@[0] != "sync"@[0]);
    assert("fdx"@[1] != "fsp"@[1]);
    match y {
        SyncStatus::FdxPlus => {
            assert(icon_key_of_name("FDX+"@) =~= "fdxp"@);
            assert(k == "fdxp"@ ==> SyncStatus::parse_key(k) == Some(SyncStatus::FdxPlus));
            assert(SyncStatus::parse_key(k) == Some(SyncStatus::FdxPlus) ==> k == "fdxp"@);
        },
        SyncStatus::Fdx => {
            assert(icon_key_of_name("FDX"@) =~= "fdx"@);
            assert(k == "fdx"@ ==> SyncStatus::parse_key(k) == Some(SyncStatus::Fdx));
            assert(SyncStatus::parse_key(k) == Some(SyncStatus::Fdx) ==> k == "fdx"@);
        },
        SyncStatus::FsPlus => {
            assert(icon_key_of_name("FS+"@) =~= "fsp"@);
            assert(k == "fsp"@ ==> SyncStatus::parse_key(k) == Some(SyncStatus::FsPlus));
            assert(SyncStatus::parse_key(k) == Some(SyncStatus::FsPlus) ==> k == "fsp"@);
        },
        SyncStatus::Fs => {
            assert(icon_key_of_name("FS"@) =~= "fs"@);
            assert(k == "fs"@ ==> SyncStatus::parse_key(k) == Some(SyncStatus::Fs));
            assert(SyncStatus::parse_key(k) == Some(SyncStatus::Fs) ==> k == "fs"@);
        },
        SyncStatus::Sync => {
            assert(icon_key_of_name("SYNC"@) =~= "sync"@);
            assert(k == "sync"@ ==> SyncStatus::parse_key(k) == Some(SyncStatus::Sync));
            assert(SyncStatus::parse_key(k) == Some(SyncStatus::Sync) ==> k == "sync"@);
        },
    }
}

/// The abbreviation of a difficulty in the internal-level spreadsheets: its display name
/// without `:` and without its last three letters (`EXP`, `MAS`, `ReMAS`).
pub open spec fn abbreviation_of(name: Seq<char>) -> Seq<char> {
    let n = name.filter(|c: char| c != ':');
    n.take(n.len() - 3)
}

/// The spreadsheets abbreviate EXPERT, MASTER and Re:MASTER, each by its own abbreviation.
pub proof fn law_difficulty_abbreviation(d: DifficultyCategory, s: Seq<char>)
    ensures
        DifficultyCategory::parse_abbreviation(s) == Some(d) ==> d.index() >= 2 && s
            == abbreviation_of(d.name()),
        d.index() >= 2 ==> DifficultyCategory::parse_abbreviation(abbreviation_of(d.name())) == Some(d),
{
    reveal_strlit("EXPERT");
    reveal_strlit("MASTER");
    reveal_strlit("Re:MASTER");
    reveal_strlit("EXP");
    reveal_strlit("MAS");
    reveal_strlit("ReMAS");
    reveal_strlit("BASIC");
    reveal_strlit("ADVANCED");
    assert("EXP"@[0] != "MAS"@[0]);
    assert("EXPERT"@.filter(|c: char| c != ':') =~= "EXPERT"@) by {
        reveal_with_fuel(Seq::filter, 7);
    }
    assert("MASTER"@.filter(|c: char| c != ':') =~= "MASTER"@) by {
        reveal_with_fuel(Seq::filter, 7);
    }
    reveal_strlit("ReMASTER");
    assert("Re:MASTER"@.filter(|c: char| c != ':') =~= "ReMASTER"@) by {
        reveal_with_fuel(Seq::filter, 10);
    }
    assert(abbreviation_of("EXPERT"@) =~= "EXP"@);
    assert(abbreviation_of("MASTER"@) =~= "MAS"@);
    assert(abbreviation_of("Re:MASTER"@) =~= "ReMAS"@);
}

/// Sync statuses rank FDX above FS above SYNC, and each `+` status just above its plain one.
pub proof fn law_sync_priority_order(a: SyncStatus, b: SyncStatus)
    ensures
        a.name() == b.name() + "+"@ ==> a.rank_value() == b.rank_value() + 1,
        starts_with(a.name(), "FDX"@) && !starts_with(b.name(), "FDX"@) ==> a.rank_value()
            > b.rank_value(),
        b.name() == "SYNC"@ && a != b ==> a.rank_value() > b.rank_value(),
{
    reveal_strlit("FDX+");
    reveal_strlit("FDX");
    reveal_strlit("FS+");
    reveal_strlit("FS");
    reveal_strlit("SYNC");
    reveal_strlit("+");
    assert("FDX"@ + "+"@ =~= "FDX+"@);
    assert("FS"@ + "+"@ =~= "FS+"@);
    assert("FDX+"@.take(3) =~= "FDX"@);
    assert("FS+"@.take(3) =~= "FS+"@);
    assert("SYNC"@.take(3) =~= "SYN"@) by {
        reveal_strlit("SYN");
    }
    assert("FDX"@[1] != "FS+"@[1]);
    assert("FDX"@[0] != "SYN"@[0]);
}

} // verus!

