use vstd::prelude::*;

use crate::models::parser_models::ParsedPlayerProfile;
use crate::parsers::html::{document_texts, document_texts_of};
use crate::parsers::numbers::{
    extract_number_after, number_after_spec, parse_u32_digits, u32_digits_spec,
};
use crate::parsers::{first_or_empty, ParseError};
use crate::text::{chars_of, contains, contains_chars, string_of, trim, trim_chars};

verus! {

/// The first text that contains `needle`.
pub open spec fn first_containing(texts: Seq<Seq<char>>, needle: Seq<char>) -> Option<Seq<char>>
    decreases texts.len(),
{
    if texts.len() == 0 {
        None
    } else if contains(texts[0], needle) {
        Some(texts[0])
    } else {
        first_containing(texts.drop_first(), needle)
    }
}

/// The play-count block: the first text that holds the current-version count's label.
pub open spec fn play_count_block(counts: Seq<Seq<char>>) -> Seq<char> {
    match first_containing(counts, "play count of current version"@) {
        Some(t) => t,
        None => Seq::<char>::empty(),
    }
}

/// The player summary that the name, rating and play-count blocks of a page give.
pub open spec fn player_profile_spec(
    names: Seq<Seq<char>>,
    ratings: Seq<Seq<char>>,
    counts: Seq<Seq<char>>,
) -> Result<(Seq<char>, nat, nat, nat), ParseError> {
    let name = trim(first_or_empty(names));
    let counts_text = play_count_block(counts);
    if name.len() == 0 {
        Err(ParseError::MissingUserName)
    } else if u32_digits_spec(first_or_empty(ratings)) is None {
        Err(ParseError::MissingRating)
    } else if counts_text.len() == 0 {
        Err(ParseError::MissingPlayCountBlock)
    } else if number_after_spec(counts_text, "play count of current version"@) is None {
        Err(ParseError::MissingCurrentVersionPlayCount)
    } else if number_after_spec(counts_text, "maimaiDX total play count"@) is None {
        Err(ParseError::MissingTotalPlayCount)
    } else {
        Ok(
            (
                name,
                u32_digits_spec(first_or_empty(ratings))->0,
                number_after_spec(counts_text, "play count of current version"@)->0,
                number_after_spec(counts_text, "maimaiDX total play count"@)->0,
            ),
        )
    }
}

pub open spec fn profile_view(r: Result<ParsedPlayerProfile, ParseError>) -> Result<
    (Seq<char>, nat, nat, nat),
    ParseError,
> {
    match r {
        Ok(p) => Ok(
            (
                p.user_name@,
                p.rating as nat,
                p.current_version_play_count as nat,
                p.total_play_count as nat,
            ),
        ),
        Err(e) => Err(e),
    }
}

/// The position of the first text that contains `needle`.
pub fn first_containing_index(v: &Vec<String>, needle: &[char]) -> (r: Option<usize>)
    ensures
        match first_containing(v@.map_values(|s: String| s@), needle@) {
            Some(t) => r matches Some(k) && k < v.len() && v@[k as int]@ == t,
            None => r is None,
        },
{
    let ghost vv = v@.map_values(|s: String| s@);
    let mut i: usize = 0;
    assert(vv.skip(0) =~= vv);
    while i < v.len()
        invariant
            i <= v.len(),
            vv == v@.map_values(|s: String| s@),
            first_containing(vv, needle@) == first_containing(vv.skip(i as int), needle@),
        decreases v.len() - i,
    {
        let t = chars_of(v[i].as_str());
        assert(vv.skip(i as int).drop_first() =~= vv.skip(i + 1));
        if contains_chars(t.as_slice(), needle) {
            return Some(i);
        }
        i += 1;
    }
    assert(vv.skip(i as int) =~= Seq::<Seq<char>>::empty());
    None
}

fn first_or_empty_string(v: &Vec<String>) -> (r: String)
    ensures
        r@ == first_or_empty(v@.map_values(|s: String| s@)),
{
    if v.len() > 0 {
        v[0].clone()
    } else {
        String::new()
    }
}

/// The player summary read from the texts of the name, rating and play-count blocks.
pub fn player_profile_from_blocks(names: &Vec<String>, ratings: &Vec<String>, counts: &Vec<String>) -> (r: Result<
    ParsedPlayerProfile,
    ParseError,
>)
    ensures
        profile_view(r) == player_profile_spec(
            names@.map_values(|s: String| s@),
            ratings@.map_values(|s: String| s@),
            counts@.map_values(|s: String| s@),
        ),
        r matches Ok(p) ==> p.user_name@ == trim(first_or_empty(names@.map_values(|s: String| s@))),
        r matches Ok(p) ==> Some(p.rating as nat) == u32_digits_spec(
            first_or_empty(ratings@.map_values(|s: String| s@)),
        ),
        r matches Ok(p) ==> Some(p.current_version_play_count as nat) == number_after_spec(
            play_count_block(counts@.map_values(|s: String| s@)),
            "play count of current version"@,
        ),
        r matches Ok(p) ==> Some(p.total_play_count as nat) == number_after_spec(
            play_count_block(counts@.map_values(|s: String| s@)),
            "maimaiDX total play count"@,
        ),
{
    let ghost counts_v = counts@.map_values(|s: String| s@);
    let name_raw = first_or_empty_string(names);
    let name = trim_chars(chars_of(name_raw.as_str()).as_slice());
    let needle = chars_of("play count of current version");
    let counts_text: Vec<char> = match first_containing_index(counts, needle.as_slice()) {
        Some(k) => chars_of(counts[k].as_str()),
        None => Vec::new(),
    };
    assert(counts_text@ == (match first_containing(counts_v, needle@) {
        Some(t) => t,
        None => Seq::<char>::empty(),
    }));
    if name.len() == 0 {
        return Err(ParseError::MissingUserName);
    }
    let rating_text = first_or_empty_string(ratings);
    let rating = match parse_u32_digits(rating_text.as_str()) {
        Some(r) => r,
        None => {
            return Err(ParseError::MissingRating);
        },
    };
    if counts_text.len() == 0 {
        return Err(ParseError::MissingPlayCountBlock);
    }
    let counts_str = string_of(counts_text.as_slice());
    let current = match extract_number_after(counts_str.as_str(), "play count of current version") {
        Some(c) => c,
        None => {
            return Err(ParseError::MissingCurrentVersionPlayCount);
        },
    };
    let total = match extract_number_after(counts_str.as_str(), "maimaiDX total play count") {
        Some(t) => t,
        None => {
            return Err(ParseError::MissingTotalPlayCount);
        },
    };
    Ok(
        ParsedPlayerProfile {
            user_name: string_of(name.as_slice()),
            rating,
            current_version_play_count: current,
            total_play_count: total,
        },
    )
}

/// Reads the player summary of the player data page.
pub fn parse_player_data_html(html: &str) -> (r: Result<ParsedPlayerProfile, ParseError>)
    ensures
        profile_view(r) == player_profile_spec(
            document_texts_of(html@, ".name_block"@),
            document_texts_of(html@, ".rating_block"@),
            document_texts_of(html@, "div.m_5.m_b_5.t_r.f_12"@),
        ),
        r matches Ok(p) ==> Some(p.current_version_play_count as nat) == number_after_spec(
            play_count_block(document_texts_of(html@, "div.m_5.m_b_5.t_r.f_12"@)),
            "play count of current version"@,
        ),
        r matches Ok(p) ==> Some(p.total_play_count as nat) == number_after_spec(
            play_count_block(document_texts_of(html@, "div.m_5.m_b_5.t_r.f_12"@)),
            "maimaiDX total play count"@,
        ),
{
    let names = document_texts(html, ".name_block");
    let ratings = document_texts(html, ".rating_block");
    let counts = document_texts(html, "div.m_5.m_b_5.t_r.f_12");
    player_profile_from_blocks(&names, &ratings, &counts)
}

/// What the player data page says, field by field: the name is the first name text trimmed,
/// the rating the digits of the first rating text, the current-version play count the number
/// after `play count of current version` in the play-count block and the total play count the
/// number after `maimaiDX total play count` there; the summary is read exactly when all of them
/// are there.
pub proof fn law_player_profile_fields(names: Seq<Seq<char>>, ratings: Seq<Seq<char>>, counts: Seq<Seq<char>>)
    ensures
        player_profile_spec(names, ratings, counts) is Ok <==> (trim(first_or_empty(names)).len() > 0
            && u32_digits_spec(first_or_empty(ratings)) is Some && number_after_spec(
            play_count_block(counts),
            "play count of current version"@,
        ) is Some && number_after_spec(play_count_block(counts), "maimaiDX total play count"@) is Some),
        player_profile_spec(names, ratings, counts) matches Ok(t) ==> t.0 == trim(first_or_empty(names))
            && Some(t.1) == u32_digits_spec(first_or_empty(ratings)) && Some(t.2) == number_after_spec(
            play_count_block(counts),
            "play count of current version"@,
        ) && Some(t.3) == number_after_spec(play_count_block(counts), "maimaiDX total play count"@),
{
    reveal_strlit("play count of current version");
    if play_count_block(counts).len() == 0 {
        assert(number_after_spec(play_count_block(counts), "play count of current version"@) is None);
    }
}

} // verus!
