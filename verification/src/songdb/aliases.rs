//! Song aliases, read from tab-separated lists in English and Korean.
use vstd::prelude::*;

use crate::assoc::{assoc_get, assoc_set, first_key_index, lemma_first_key_index};
use crate::models::song_catalog::SongAliases;
use crate::text::{chars_of, eq_chars, split_char, split_chars, string_of, trim, trim_chars};

verus! {

/// Where the English alias list is published.
pub const EN_ALIAS_URL: &'static str =
    "https://raw.githubusercontent.com/lomotos10/GCM-bot/main/data/aliases/en/maimai.tsv";

/// Where the Korean alias list is published.
pub const KO_ALIAS_URL: &'static str =
    "https://raw.githubusercontent.com/lomotos10/GCM-bot/main/data/aliases/ko/maimai.tsv";

/// Why an alias list was refused.
#[derive(Debug, Clone)]
pub enum AliasParseError {
    MissingTitle(usize),
}

/// The trimmed pieces of a text that are not empty, in order.
pub open spec fn nonempty_trimmed(pieces: Seq<Seq<char>>) -> Seq<Seq<char>>
    decreases pieces.len(),
{
    if pieces.len() == 0 {
        Seq::empty()
    } else {
        let prev = nonempty_trimmed(pieces.drop_last());
        if trim(pieces.last()).len() > 0 {
            prev.push(trim(pieces.last()))
        } else {
            prev
        }
    }
}

/// The columns of a line: the trimmed cells between tabs that are not empty.
pub open spec fn columns(line: Seq<char>) -> Seq<Seq<char>> {
    nonempty_trimmed(split_char(trim(line), '\t'))
}

/// The aliases of a title after a line with these alias columns: each column that is not the
/// title and not there yet is added, in order.
pub open spec fn add_aliases(existing: Seq<Seq<char>>, title: Seq<char>, cols: Seq<Seq<char>>) -> Seq<
    Seq<char>,
>
    decreases cols.len(),
{
    if cols.len() == 0 {
        existing
    } else {
        let prev = add_aliases(existing, title, cols.drop_last());
        let a = cols.last();
        if a == title || prev.contains(a) {
            prev
        } else {
            prev.push(a)
        }
    }
}

/// The aliases after one more line: a line with columns files its later columns under its
/// first one.
pub open spec fn alias_step(m: Seq<(Seq<char>, Seq<Seq<char>>)>, line: Seq<char>) -> Seq<
    (Seq<char>, Seq<Seq<char>>),
> {
    let cols = columns(line);
    if cols.len() == 0 {
        m
    } else {
        let title = cols[0];
        let existing = match assoc_get(m, title) {
            Some(a) => a,
            None => Seq::empty(),
        };
        assoc_set(m, title, add_aliases(existing, title, cols.drop_first()))
    }
}

/// The aliases of all lines, by title.
pub open spec fn alias_map(lines: Seq<Seq<char>>) -> Seq<(Seq<char>, Seq<Seq<char>>)>
    decreases lines.len(),
{
    if lines.len() == 0 {
        Seq::empty()
    } else {
        alias_step(alias_map(lines.drop_last()), lines.last())
    }
}

pub open spec fn strings_view(v: Seq<String>) -> Seq<Seq<char>> {
    v.map_values(|s: String| s@)
}

pub open spec fn alias_list_view(m: Seq<(String, Vec<String>)>) -> Seq<(Seq<char>, Seq<Seq<char>>)> {
    m.map_values(|p: (String, Vec<String>)| (p.0@, strings_view(p.1@)))
}

fn trimmed_columns(line: &[char]) -> (r: Vec<Vec<char>>)
    ensures
        r@.map_values(|c: Vec<char>| c@) == columns(line@),
{
    let t = trim_chars(line);
    let pieces = split_chars(t.as_slice(), '\t');
    let ghost ps = split_char(t@, '\t');
    assert(pieces@.map_values(|p: Vec<char>| p@) =~= ps);
    let mut out: Vec<Vec<char>> = Vec::new();
    let mut i: usize = 0;
    assert(ps.take(0) =~= Seq::<Seq<char>>::empty());
    while i < pieces.len()
        invariant
            i <= pieces.len(),
            ps == split_char(t@, '\t'),
            pieces@.map_values(|p: Vec<char>| p@) == ps,
            out@.map_values(|c: Vec<char>| c@) == nonempty_trimmed(ps.take(i as int)),
        decreases pieces.len() - i,
    {
        assert(ps.take(i + 1).drop_last() =~= ps.take(i as int));
        assert(ps.take(i + 1).last() == pieces@[i as int]@);
        let c = trim_chars(pieces[i].as_slice());
        let ghost before = out@;
        if c.len() > 0 {
            out.push(c);
            assert(out@.map_values(|c: Vec<char>| c@) =~= before.map_values(|c: Vec<char>| c@).push(
                trim(ps[i as int]),
            ));
        }
        i += 1;
    }
    assert(ps.take(pieces.len() as int) =~= ps);
    out
}

fn clone_strings(v: &Vec<String>) -> (r: Vec<String>)
    ensures
        strings_view(r@) == strings_view(v@),
{
    let mut out: Vec<String> = Vec::new();
    let mut k: usize = 0;
    while k < v.len()
        invariant
            k <= v.len(),
            strings_view(out@) == strings_view(v@).take(k as int),
        decreases v.len() - k,
    {
        let ghost before = out@;
        out.push(v[k].clone());
        assert(strings_view(out@) =~= strings_view(before).push(v@[k as int]@));
        assert(strings_view(v@).take(k + 1) =~= strings_view(v@).take(k as int).push(v@[k as int]@));
        k += 1;
    }
    assert(strings_view(v@).take(v.len() as int) =~= strings_view(v@));
    out
}

fn contains_chars_in(list: &Vec<String>, a: &[char]) -> (b: bool)
    ensures
        b == strings_view(list@).contains(a@),
{
    let ghost lv = strings_view(list@);
    let mut i: usize = 0;
    while i < list.len()
        invariant
            i <= list.len(),
            lv == strings_view(list@),
            forall|k: int| 0 <= k < i ==> lv[k] != a@,
        decreases list.len() - i,
    {
        if eq_chars(chars_of(list[i].as_str()).as_slice(), a) {
            assert(lv[i as int] == a@);
            return true;
        }
        i += 1;
    }
    false
}

fn find_title(m: &Vec<(String, Vec<String>)>, title: &[char]) -> (r: Option<usize>)
    ensures
        match r {
            Some(i) => i < m.len() && first_key_index(alias_list_view(m@), title@) == Some(i as int),
            None => first_key_index(alias_list_view(m@), title@) is None,
        },
{
    let ghost mv = alias_list_view(m@);
    let mut i: usize = 0;
    while i < m.len()
        invariant
            i <= m.len(),
            mv == alias_list_view(m@),
            forall|q: int| 0 <= q < i ==> (#[trigger] mv[q]).0 != title@,
        decreases m.len() - i,
    {
        if eq_chars(chars_of(m[i].0.as_str()).as_slice(), title) {
            proof {
                lemma_first_key_index(mv, title@);
                assert(mv[i as int].0 == title@);
            }
            return Some(i);
        }
        i += 1;
    }
    proof {
        lemma_first_key_index(mv, title@);
    }
    None
}

fn parse_alias_line(m: &mut Vec<(String, Vec<String>)>, line: &[char])
    ensures
        alias_list_view(final(m)@) == alias_step(alias_list_view(old(m)@), line@),
{
    let cols = trimmed_columns(line);
    let ghost cv = cols@.map_values(|c: Vec<char>| c@);
    if cols.len() == 0 {
        return;
    }
    let title = &cols[0];
    let ghost mv = alias_list_view(m@);
    proof {
        lemma_first_key_index(mv, title@);
    }
    let pos = find_title(m, title.as_slice());
    let mut aliases: Vec<String> = match pos {
        Some(i) => clone_strings(&m[i].1),
        None => Vec::new(),
    };
    let ghost existing = strings_view(aliases@);
    assert(existing == (match assoc_get(mv, title@) {
        Some(a) => a,
        None => Seq::<Seq<char>>::empty(),
    }));
    let ghost rest = cv.drop_first();
    let mut j: usize = 1;
    assert(rest.take(0) =~= Seq::<Seq<char>>::empty());
    while j < cols.len()
        invariant
            1 <= j <= cols.len(),
            cv == cols@.map_values(|c: Vec<char>| c@),
            rest == cv.drop_first(),
            title@ == cv[0],
            strings_view(aliases@) == add_aliases(existing, title@, rest.take(j - 1)),
        decreases cols.len() - j,
    {
        assert(rest.take(j as int).drop_last() =~= rest.take(j - 1));
        assert(rest.take(j as int).last() == cols@[j as int]@);
        let a = &cols[j];
        if !eq_chars(a.as_slice(), title.as_slice()) && !contains_chars_in(&aliases, a.as_slice()) {
            let ghost before = strings_view(aliases@);
            aliases.push(string_of(a.as_slice()));
            assert(strings_view(aliases@) =~= before.push(a@));
        }
        j += 1;
    }
    assert(rest.take(cols.len() - 1) =~= rest);
    let title_s = string_of(title.as_slice());
    match pos {
        Some(i) => {
            m.set(i, (title_s, aliases));
            assert(alias_list_view(m@) =~= mv.update(
                i as int,
                (title@, add_aliases(existing, title@, rest)),
            ));
        },
        None => {
            m.push((title_s, aliases));
            assert(alias_list_view(m@) =~= mv.push((title@, add_aliases(existing, title@, rest))));
        },
    }
}

/// The aliases of a tab-separated list: each line names a title and then its aliases; the
/// lines of one title add up, without repeats and without the title itself. Every text is
/// accepted.
pub fn parse_alias_tsv(input: &str) -> (r: Result<Vec<(String, Vec<String>)>, AliasParseError>)
    ensures
        r matches Ok(m) && alias_list_view(m@) == alias_map(split_char(input@, '\n')),
{
    let text = chars_of(input);
    let lines = split_chars(text.as_slice(), '\n');
    let ghost ls = split_char(input@, '\n');
    let mut m: Vec<(String, Vec<String>)> = Vec::new();
    let mut i: usize = 0;
    assert(ls.take(0) =~= Seq::<Seq<char>>::empty());
    assert(alias_list_view(m@) =~= Seq::<(Seq<char>, Seq<Seq<char>>)>::empty());
    while i < lines.len()
        invariant
            i <= lines.len(),
            ls == split_char(input@, '\n'),
            text@ == input@,
            lines@.len() == ls.len(),
            forall|k: int| 0 <= k < lines@.len() ==> #[trigger] lines@[k]@ == ls[k],
            alias_list_view(m@) == alias_map(ls.take(i as int)),
        decreases lines.len() - i,
    {
        assert(ls.take(i + 1).drop_last() =~= ls.take(i as int));
        assert(ls.take(i + 1).last() == lines@[i as int]@);
        parse_alias_line(&mut m, lines[i].as_slice());
        i += 1;
    }
    assert(ls.take(lines.len() as int) =~= ls);
    Ok(m)
}

/// Whether a list holds each text at most once.
pub open spec fn no_repeats(s: Seq<Seq<char>>) -> bool {
    forall|i: int, j: int| 0 <= i < j < s.len() ==> s[i] != s[j]
}

proof fn lemma_add_aliases(existing: Seq<Seq<char>>, title: Seq<char>, cols: Seq<Seq<char>>)
    requires
        no_repeats(existing),
        !existing.contains(title),
    ensures
        no_repeats(add_aliases(existing, title, cols)),
        !add_aliases(existing, title, cols).contains(title),
    decreases cols.len(),
{
    if cols.len() > 0 {
        lemma_add_aliases(existing, title, cols.drop_last());
        let prev = add_aliases(existing, title, cols.drop_last());
        let a = cols.last();
        if !(a == title || prev.contains(a)) {
            let r = prev.push(a);
            assert forall|i: int, j: int| 0 <= i < j < r.len() implies r[i] != r[j] by {
                if j == prev.len() {
                    assert(prev[i] == r[i]);
                }
            }
            assert forall|i: int| 0 <= i < r.len() implies r[i] != title by {
                if i < prev.len() {
                    assert(r[i] == prev[i]);
                }
            }
        }
    }
}

/// Whatever the list, no title is given an alias twice, nor itself as an alias.
pub proof fn law_alias_lists_have_no_repeats(lines: Seq<Seq<char>>)
    ensures
        forall|i: int|
            0 <= i < alias_map(lines).len() ==> no_repeats((#[trigger] alias_map(lines)[i]).1)
                && !alias_map(lines)[i].1.contains(alias_map(lines)[i].0),
    decreases lines.len(),
{
    if lines.len() > 0 {
        law_alias_lists_have_no_repeats(lines.drop_last());
        let m = alias_map(lines.drop_last());
        let cols = columns(lines.last());
        if cols.len() > 0 {
            let title = cols[0];
            lemma_first_key_index(m, title);
            let existing = match assoc_get(m, title) {
                Some(a) => a,
                None => Seq::<Seq<char>>::empty(),
            };
            if let Some(k) = first_key_index(m, title) {
                assert(m[k].0 == title);
            }
            lemma_add_aliases(existing, title, cols.drop_first());
            let r = alias_map(lines);
            assert forall|i: int| 0 <= i < r.len() implies no_repeats((#[trigger] r[i]).1)
                && !r[i].1.contains(r[i].0) by {
                match first_key_index(m, title) {
                    Some(k) => {
                        if i != k {
                            assert(r[i] == m[i]);
                        }
                    },
                    None => {
                        if i < m.len() {
                            assert(r[i] == m[i]);
                        }
                    },
                }
            }
        }
    }
}

/// The aliases of both languages under each title: English for the titles of the English
/// list, Korean for those of the Korean list, empty where a list lacks the title.
pub open spec fn set_en(
    m: Seq<(Seq<char>, (Seq<Seq<char>>, Seq<Seq<char>>))>,
    t: Seq<char>,
    a: Seq<Seq<char>>,
) -> Seq<(Seq<char>, (Seq<Seq<char>>, Seq<Seq<char>>))> {
    match first_key_index(m, t) {
        Some(i) => m.update(i, (t, (a, m[i].1.1))),
        None => m.push((t, (a, Seq::empty()))),
    }
}

pub open spec fn set_ko(
    m: Seq<(Seq<char>, (Seq<Seq<char>>, Seq<Seq<char>>))>,
    t: Seq<char>,
    a: Seq<Seq<char>>,
) -> Seq<(Seq<char>, (Seq<Seq<char>>, Seq<Seq<char>>))> {
    match first_key_index(m, t) {
        Some(i) => m.update(i, (t, (m[i].1.0, a))),
        None => m.push((t, (Seq::empty(), a))),
    }
}

pub open spec fn fold_en(
    m: Seq<(Seq<char>, (Seq<Seq<char>>, Seq<Seq<char>>))>,
    en: Seq<(Seq<char>, Seq<Seq<char>>)>,
) -> Seq<(Seq<char>, (Seq<Seq<char>>, Seq<Seq<char>>))>
    decreases en.len(),
{
    if en.len() == 0 {
        m
    } else {
        set_en(fold_en(m, en.drop_last()), en.last().0, en.last().1)
    }
}

pub open spec fn fold_ko(
    m: Seq<(Seq<char>, (Seq<Seq<char>>, Seq<Seq<char>>))>,
    ko: Seq<(Seq<char>, Seq<Seq<char>>)>,
) -> Seq<(Seq<char>, (Seq<Seq<char>>, Seq<Seq<char>>))>
    decreases ko.len(),
{
    if ko.len() == 0 {
        m
    } else {
        set_ko(fold_ko(m, ko.drop_last()), ko.last().0, ko.last().1)
    }
}

pub open spec fn merged_view(m: Seq<(String, SongAliases)>) -> Seq<
    (Seq<char>, (Seq<Seq<char>>, Seq<Seq<char>>)),
> {
    m.map_values(|p: (String, SongAliases)| (p.0@, (strings_view(p.1.en@), strings_view(p.1.ko@))))
}

fn find_merged(m: &Vec<(String, SongAliases)>, title: &String) -> (r: Option<usize>)
    ensures
        match r {
            Some(i) => i < m.len() && first_key_index(merged_view(m@), title@) == Some(i as int),
            None => first_key_index(merged_view(m@), title@) is None,
        },
{
    let ghost mv = merged_view(m@);
    let t = chars_of(title.as_str());
    let mut i: usize = 0;
    while i < m.len()
        invariant
            i <= m.len(),
            mv == merged_view(m@),
            t@ == title@,
            forall|q: int| 0 <= q < i ==> (#[trigger] mv[q]).0 != title@,
        decreases m.len() - i,
    {
        if eq_chars(chars_of(m[i].0.as_str()).as_slice(), t.as_slice()) {
            proof {
                lemma_first_key_index(mv, title@);
                assert(mv[i as int].0 == title@);
            }
            return Some(i);
        }
        i += 1;
    }
    proof {
        lemma_first_key_index(mv, title@);
    }
    None
}

/// The English and Korean aliases under each title.
pub fn merge_alias_maps(en: Vec<(String, Vec<String>)>, ko: Vec<(String, Vec<String>)>) -> (r: Vec<
    (String, SongAliases),
>)
    ensures
        merged_view(r@) == fold_ko(fold_en(Seq::empty(), alias_list_view(en@)), alias_list_view(ko@)),
{
    let ghost env = alias_list_view(en@);
    let ghost kov = alias_list_view(ko@);
    let mut merged: Vec<(String, SongAliases)> = Vec::new();
    assert(env.take(0) =~= Seq::<(Seq<char>, Seq<Seq<char>>)>::empty());
    assert(merged_view(merged@) =~= Seq::<(Seq<char>, (Seq<Seq<char>>, Seq<Seq<char>>))>::empty());
    for pair in it: en
        invariant
            it.seq() == en@,
            env == alias_list_view(en@),
            merged_view(merged@) == fold_en(Seq::empty(), env.take(it.index() as int)),
    {
        assert(env.take(it.index() + 1).drop_last() =~= env.take(it.index() as int));
        assert(env.take(it.index() + 1).last() == (pair.0@, strings_view(pair.1@)));
        let (title, aliases) = pair;
        let ghost before = merged_view(merged@);
        let ghost entry = (title@, strings_view(aliases@));
        match find_merged(&merged, &title) {
            Some(i) => {
                let ko_old = clone_strings(&merged[i].1.ko);
                merged.set(i, (title, SongAliases { en: aliases, ko: ko_old }));
                assert(merged_view(merged@) =~= set_en(before, entry.0, entry.1));
            },
            None => {
                let empty: Vec<String> = Vec::new();
                assert(strings_view(empty@) =~= Seq::<Seq<char>>::empty());
                merged.push((title, SongAliases { en: aliases, ko: empty }));
                assert(merged_view(merged@) =~= set_en(before, entry.0, entry.1));
            },
        }
    }
    assert(env.take(env.len() as int) =~= env);
    let ghost base = merged_view(merged@);
    assert(kov.take(0) =~= Seq::<(Seq<char>, Seq<Seq<char>>)>::empty());
    for pair in it: ko
        invariant
            it.seq() == ko@,
            kov == alias_list_view(ko@),
            merged_view(merged@) == fold_ko(base, kov.take(it.index() as int)),
    {
        assert(kov.take(it.index() + 1).drop_last() =~= kov.take(it.index() as int));
        assert(kov.take(it.index() + 1).last() == (pair.0@, strings_view(pair.1@)));
        let (title, aliases) = pair;
        let ghost before = merged_view(merged@);
        let ghost entry = (title@, strings_view(aliases@));
        match find_merged(&merged, &title) {
            Some(i) => {
                let en_old = clone_strings(&merged[i].1.en);
                merged.set(i, (title, SongAliases { en: en_old, ko: aliases }));
                assert(merged_view(merged@) =~= set_ko(before, entry.0, entry.1));
            },
            None => {
                let empty: Vec<String> = Vec::new();
                assert(strings_view(empty@) =~= Seq::<Seq<char>>::empty());
                merged.push((title, SongAliases { en: empty, ko: aliases }));
                assert(merged_view(merged@) =~= set_ko(before, entry.0, entry.1));
            },
        }
    }
    assert(kov.take(kov.len() as int) =~= kov);
    merged
}

} // verus!
