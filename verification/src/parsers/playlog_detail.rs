use vstd::prelude::*;

use crate::models::parser_models::ParsedPlaylogDetail;
use crate::models::song_title::opt_view;
use crate::parsers::html::{
    document_nested_attrs, document_nested_attrs_of, document_texts, document_texts_of,
    nested_opt_texts_view, opt_texts_view, texts_view,
};
use crate::parsers::{first_of, ParseError};
use crate::text::{chars_of, string_of, trim, trim_chars};

verus! {

/// The title given by one selection: its first text, trimmed, when that is nonempty.
pub open spec fn title_candidate(texts: Seq<Seq<char>>) -> Option<Seq<char>> {
    match first_of(texts) {
        Some(t) => if trim(t).len() > 0 {
            Some(trim(t))
        } else {
            None
        },
        None => None,
    }
}

/// The record index given by the `idx` inputs of one form: the first input's value, trimmed,
/// when it has one and that is nonempty.
pub open spec fn idx_candidate(values: Seq<Option<Seq<char>>>) -> Option<Seq<char>> {
    match first_of(values) {
        Some(Some(v)) => if trim(v).len() > 0 {
            Some(trim(v))
        } else {
            None
        },
        _ => None,
    }
}

/// The index given by the first form that gives one.
pub open spec fn first_idx(forms: Seq<Seq<Option<Seq<char>>>>) -> Option<Seq<char>>
    decreases forms.len(),
{
    if forms.len() == 0 {
        None
    } else {
        match idx_candidate(forms[0]) {
            Some(v) => Some(v),
            None => first_idx(forms.drop_first()),
        }
    }
}

/// What a play-log detail page gives: a title from the first of three title selections that
/// has one, and the record index of the first `MY RECORD` form that has one.
pub open spec fn playlog_detail_spec(
    basic: Seq<Seq<char>>,
    name_block: Seq<Seq<char>>,
    playlog_title: Seq<Seq<char>>,
    forms: Seq<Seq<Option<Seq<char>>>>,
) -> Result<(Seq<char>, Seq<char>), ParseError> {
    let title = match title_candidate(basic) {
        Some(t) => Some(t),
        None => match title_candidate(name_block) {
            Some(t) => Some(t),
            None => title_candidate(playlog_title),
        },
    };
    match title {
        None => Err(ParseError::MissingPlaylogTitle),
        Some(t) => match first_idx(forms) {
            None => Err(ParseError::MissingMusicDetailIdx),
            Some(i) => Ok((t, i)),
        },
    }
}

fn title_candidate_of(texts: &Vec<String>) -> (r: Option<Vec<char>>)
    ensures
        match title_candidate(texts_view(texts@)) {
            Some(t) => r matches Some(v) && v@ == t,
            None => r is None,
        },
{
    if texts.len() == 0 {
        return None;
    }
    let t = chars_of(texts[0].as_str());
    let t = trim_chars(t.as_slice());
    if t.len() > 0 {
        Some(t)
    } else {
        None
    }
}

fn first_idx_of(forms: &Vec<Vec<Option<String>>>) -> (r: Option<Vec<char>>)
    ensures
        match first_idx(nested_opt_texts_view(forms@)) {
            Some(t) => r matches Some(v) && v@ == t,
            None => r is None,
        },
{
    let ghost fv = nested_opt_texts_view(forms@);
    let mut i: usize = 0;
    assert(fv.skip(0) =~= fv);
    while i < forms.len()
        invariant
            i <= forms.len(),
            fv == nested_opt_texts_view(forms@),
            first_idx(fv) == first_idx(fv.skip(i as int)),
        decreases forms.len() - i,
    {
        assert(fv.skip(i as int).drop_first() =~= fv.skip(i + 1));
        assert(fv.skip(i as int)[0] == opt_texts_view(forms@[i as int]@));
        let values = &forms[i];
        if values.len() > 0 {
            assert(first_of(opt_texts_view(values@)) == Some(opt_view(values@[0])));
            if let Some(v) = &values[0] {
                let t = trim_chars(chars_of(v.as_str()).as_slice());
                if t.len() > 0 {
                    return Some(t);
                }
            }
        }
        i += 1;
    }
    assert(fv.skip(i as int) =~= Seq::<Seq<Option<Seq<char>>>>::empty());
    None
}

pub open spec fn playlog_view(r: Result<ParsedPlaylogDetail, ParseError>) -> Result<
    (Seq<char>, Seq<char>),
    ParseError,
> {
    match r {
        Ok(d) => Ok((d.title@, d.music_detail_idx@)),
        Err(e) => Err(e),
    }
}

/// The play-log detail from the three title selections and the `idx` inputs of each form.
pub fn playlog_detail_from_selections(
    basic: &Vec<String>,
    name_block: &Vec<String>,
    playlog_title: &Vec<String>,
    forms: &Vec<Vec<Option<String>>>,
) -> (r: Result<ParsedPlaylogDetail, ParseError>)
    ensures
        playlog_view(r) == playlog_detail_spec(
            texts_view(basic@),
            texts_view(name_block@),
            texts_view(playlog_title@),
            nested_opt_texts_view(forms@),
        ),
{
    let title = match title_candidate_of(basic) {
        Some(t) => t,
        None => match title_candidate_of(name_block) {
            Some(t) => t,
            None => match title_candidate_of(playlog_title) {
                Some(t) => t,
                None => {
                    return Err(ParseError::MissingPlaylogTitle);
                },
            },
        },
    };
    let idx = match first_idx_of(forms) {
        Some(i) => i,
        None => {
            return Err(ParseError::MissingMusicDetailIdx);
        },
    };
    Ok(
        ParsedPlaylogDetail {
            title: string_of(title.as_slice()),
            music_detail_idx: string_of(idx.as_slice()),
        },
    )
}

/// Reads a play-log detail page.
pub fn parse_playlog_detail_html(html: &str) -> (r: Result<ParsedPlaylogDetail, ParseError>)
    ensures
        playlog_view(r) == playlog_detail_spec(
            document_texts_of(html@, "div.basic_block div.f_15.break"@),
            document_texts_of(html@, ".music_name_block"@),
            document_texts_of(html@, ".playlog_music_title"@),
            document_nested_attrs_of(
                html@,
                "form[action*=\"/record/musicDetail/\"]"@,
                "input[name=\"idx\"]"@,
                "value"@,
            ),
        ),
{
    let basic = document_texts(html, "div.basic_block div.f_15.break");
    let name_block = document_texts(html, ".music_name_block");
    let playlog_title = document_texts(html, ".playlog_music_title");
    let forms = document_nested_attrs(
        html,
        "form[action*=\"/record/musicDetail/\"]",
        "input[name=\"idx\"]",
        "value",
    );
    playlog_detail_from_selections(&basic, &name_block, &playlog_title, &forms)
}

} // verus!
