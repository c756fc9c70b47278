pub mod html;
pub mod icons;
pub mod internal_level_page;
pub mod numbers;
pub mod player_data;
pub mod playlog_detail;
pub mod rating_target;
pub mod score_list;

use vstd::prelude::*;

verus! {

/// Why a page could not be read.
#[derive(Debug, Clone, Copy, PartialEq, Eq, Structural)]
pub enum ParseError {
    InvalidDifficulty,
    MissingLevel,
    MissingTitle,
    MissingDifficultyIcon,
    MissingSectionMarker,
    TooFewTargets,
    MissingUserName,
    MissingRating,
    MissingPlayCountBlock,
    MissingCurrentVersionPlayCount,
    MissingTotalPlayCount,
    MissingPlaylogTitle,
    MissingMusicDetailIdx,
    MissingChartTypeIcon,
    UnknownChartTypeIcon,
    UnknownDifficultyClass,
}

/// The first text of a selection, or nothing when the selection is empty.
pub open spec fn first_or_empty(v: Seq<Seq<char>>) -> Seq<char> {
    if v.len() > 0 {
        v[0]
    } else {
        Seq::<char>::empty()
    }
}

/// The first entry of a selection, when there is one.
pub open spec fn first_of<T>(v: Seq<T>) -> Option<T> {
    if v.len() > 0 {
        Some(v[0])
    } else {
        None
    }
}

} // verus!
