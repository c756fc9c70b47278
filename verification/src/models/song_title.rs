use vstd::prelude::*;

use crate::text::{
    chars_of, contains, copy_range, ends_with, ends_with_chars, eq_ignore_case, eq_lit,
    eq_lit_ignore_case, is_ws, lemma_trim_noop, lower_seq, push_chars, rfind, rfind_chars,
    rfind_upto, trim, trim_chars, trim_end, trim_start, trimmed,
};

verus! {

/// A song title with the optional qualifier that tells apart songs sharing a base title,
/// written `base [[qualifier]]` in canonical form.
#[derive(Debug, Clone, PartialEq, Eq, Hash)]
pub struct SongTitle {
    base_title: String,
    qualifier: Option<String>,
}

/// The view of an optional owned string.
pub open spec fn opt_view(o: Option<String>) -> Option<Seq<char>> {
    match o {
        Some(s) => Some(s@),
        None => None,
    }
}

impl View for SongTitle {
    type V = (Seq<char>, Option<Seq<char>>);

    closed spec fn view(&self) -> (Seq<char>, Option<Seq<char>>) {
        (self.base_title@, opt_view(self.qualifier))
    }
}

/// Whether a title is one of the base titles that several songs share ("Link", in any ASCII case).
pub open spec fn needs_qualifier(title: Seq<char>) -> bool {
    eq_ignore_case(trim(title), "Link"@)
}

/// The qualifier as it is stored for `base`: trimmed, and with the known aliases of a shared
/// title mapped to one spelling.
pub open spec fn normalized_qualifier(base: Seq<char>, qualifier: Seq<char>) -> Seq<char> {
    let q = trim(qualifier);
    if !needs_qualifier(base) {
        q
    } else if eq_ignore_case(base, "Link"@) {
        if q == "niconico＆ボーカロイド"@ || q == "niconico＆VOCALOID™"@ || q == "ORANGE"@ {
            "niconico＆VOCALOID™"@
        } else if eq_ignore_case(q, "maimai PLUS"@) || eq_ignore_case(q, "maimai"@) {
            "maimai"@
        } else {
            q
        }
    } else {
        q
    }
}

/// The title built from a base and an optional qualifier.
pub open spec fn title_from_parts(base: Seq<char>, qualifier: Option<Seq<char>>) -> (
    Seq<char>,
    Option<Seq<char>>,
) {
    let b = trim(base);
    let q = match qualifier {
        Some(q) => if trim(q).len() == 0 {
            None
        } else {
            Some(normalized_qualifier(b, trim(q)))
        },
        None => None,
    };
    (b, q)
}

/// The title that a text spells: `base [[qualifier]]` when both parts are nonempty after
/// trimming (the last `[[` separates them), else the whole trimmed text.
pub open spec fn parse_title(value: Seq<char>) -> (Seq<char>, Option<Seq<char>>) {
    let t = trim(value);
    if ends_with(t, "]]"@) {
        let w = t.take(t.len() - 2);
        match rfind(w, "[["@) {
            Some(k) => {
                let base = trim(w.take(k));
                let q = trim(w.skip(k + 2));
                if base.len() > 0 && q.len() > 0 {
                    title_from_parts(base, Some(q))
                } else {
                    title_from_parts(t, None)
                }
            },
            None => title_from_parts(t, None),
        }
    } else {
        title_from_parts(t, None)
    }
}

/// The canonical text of a title.
pub open spec fn canonical_text(t: (Seq<char>, Option<Seq<char>>)) -> Seq<char> {
    match t.1 {
        Some(q) => t.0 + " [["@ + q + "]]"@,
        None => t.0,
    }
}

fn needs_qualifier_chars(title: &[char]) -> (b: bool)
    ensures
        b == needs_qualifier(title@),
{
    let t = trim_chars(title);
    eq_lit_ignore_case(t.as_slice(), "Link")
}

fn normalize_qualifier_for_title(base_title: &[char], qualifier: &[char]) -> (r: Vec<char>)
    ensures
        r@ == normalized_qualifier(base_title@, qualifier@),
{
    let q = trim_chars(qualifier);
    if !needs_qualifier_chars(base_title) {
        return q;
    }
    if eq_lit_ignore_case(base_title, "Link") {
        let qs = q.as_slice();
        if eq_lit(qs, "niconico＆ボーカロイド") || eq_lit(qs, "niconico＆VOCALOID™") || eq_lit(
            qs,
            "ORANGE",
        ) {
            return chars_of("niconico＆VOCALOID™");
        }
        if eq_lit_ignore_case(qs, "maimai PLUS") || eq_lit_ignore_case(qs, "maimai") {
            return chars_of("maimai");
        }
    }
    q
}

fn string_of_chars(v: &[char]) -> (s: String)
    ensures
        s@ == v@,
{
    let mut s = String::new();
    push_chars(&mut s, v);
    s
}

impl SongTitle {
    fn from_parts_chars(base_title: &[char], qualifier: Option<&[char]>) -> (r: Self)
        ensures
            r@ == title_from_parts(base_title@, match qualifier {
                Some(q) => Some(q@),
                None => None,
            }),
    {
        let b = trim_chars(base_title);
        let q = match qualifier {
            Some(q) => {
                let tq = trim_chars(q);
                if tq.len() == 0 {
                    None
                } else {
                    let n = normalize_qualifier_for_title(b.as_slice(), tq.as_slice());
                    Some(string_of_chars(n.as_slice()))
                }
            },
            None => None,
        };
        SongTitle { base_title: string_of_chars(b.as_slice()), qualifier: q }
    }

    pub fn from_parts(base_title: &str, qualifier: Option<&str>) -> (r: Self)
        ensures
            r@ == title_from_parts(base_title@, match qualifier {
                Some(q) => Some(q@),
                None => None,
            }),
    {
        let b = chars_of(base_title);
        match qualifier {
            Some(q) => {
                let qv = chars_of(q);
                Self::from_parts_chars(b.as_slice(), Some(qv.as_slice()))
            },
            None => Self::from_parts_chars(b.as_slice(), None),
        }
    }

    pub fn parse(value: &str) -> (r: Self)
        ensures
            r@ == parse_title(value@),
    {
        proof {
            reveal_strlit("]]");
            reveal_strlit("[[");
        }
        let t = trimmed(value);
        let close = chars_of("]]");
        if ends_with_chars(t.as_slice(), close.as_slice()) {
            let w = copy_range(t.as_slice(), 0, t.len() - 2);
            assert(w@ == t@.take(t@.len() - 2));
            let open = chars_of("[[");
            if let Some(k) = rfind_chars(w.as_slice(), open.as_slice()) {
                let base_raw = copy_range(w.as_slice(), 0, k);
                let q_raw = copy_range(w.as_slice(), k + 2, w.len());
                assert(base_raw@ == w@.take(k as int));
                assert(q_raw@ == w@.skip(k + 2));
                let base = trim_chars(base_raw.as_slice());
                let q = trim_chars(q_raw.as_slice());
                if base.len() > 0 && q.len() > 0 {
                    return Self::from_parts_chars(base.as_slice(), Some(q.as_slice()));
                }
            }
        }
        Self::from_parts_chars(t.as_slice(), None)
    }

    pub fn base_title(&self) -> (r: &str)
        ensures
            r@ == self@.0,
    {
        self.base_title.as_str()
    }

    pub fn qualifier(&self) -> (r: Option<&str>)
        ensures
            r matches Some(q) ==> self@.1 == Some(q@),
            r is None <==> self@.1 is None,
    {
        match &self.qualifier {
            Some(q) => Some(q.as_str()),
            None => None,
        }
    }

    pub fn requires_qualifier(&self) -> (b: bool)
        ensures
            b == needs_qualifier(self@.0),
    {
        Self::requires_qualifier_for(self.base_title.as_str())
    }

    pub fn requires_qualifier_for(title: &str) -> (b: bool)
        ensures
            b == needs_qualifier(title@),
    {
        let t = chars_of(title);
        needs_qualifier_chars(t.as_slice())
    }

    pub fn is_ambiguous_unqualified(&self) -> (b: bool)
        ensures
            b == (needs_qualifier(self@.0) && self@.1 is None),
    {
        self.requires_qualifier() && self.qualifier.is_none()
    }

    pub fn canonical(&self) -> (r: String)
        ensures
            r@ == canonical_text(self@),
    {
        let mut s = String::new();
        s.push_str(self.base_title.as_str());
        match &self.qualifier {
            Some(q) => {
                s.push_str(" [[");
                s.push_str(q.as_str());
                s.push_str("]]");
            },
            None => {},
        }
        s
    }

    pub fn equals_canonical_ignore_ascii_case(&self, other: &SongTitle) -> (b: bool)
        ensures
            b == eq_ignore_case(canonical_text(self@), canonical_text(other@)),
    {
        let a = self.canonical();
        let o = other.canonical();
        let av = chars_of(a.as_str());
        let ov = chars_of(o.as_str());
        crate::text::eq_ignore_ascii_case(av.as_slice(), ov.as_slice())
    }
}

proof fn lemma_trim_start_ends(s: Seq<char>)
    ensures
        trim_start(s).len() > 0 ==> !is_ws(trim_start(s)[0]),
        trim_start(s).len() > 0 ==> trim_start(s).last() == s.last(),
        trim_start(s).len() <= s.len(),
    decreases s.len(),
{
    if s.len() > 0 && is_ws(s[0]) {
        lemma_trim_start_ends(s.drop_first());
    }
}

proof fn lemma_trim_end_ends(s: Seq<char>)
    ensures
        trim_end(s).len() > 0 ==> !is_ws(trim_end(s).last()),
        trim_end(s).len() > 0 ==> trim_end(s)[0] == s[0],
        trim_end(s).len() <= s.len(),
    decreases s.len(),
{
    if s.len() > 0 && is_ws(s.last()) {
        lemma_trim_end_ends(s.drop_last());
    }
}

/// A trimmed text nonempty has no whitespace at its ends.
proof fn lemma_trim_ends(s: Seq<char>)
    ensures
        trim(s).len() > 0 ==> !is_ws(trim(s)[0]) && !is_ws(trim(s).last()),
{
    lemma_trim_start_ends(s);
    lemma_trim_end_ends(trim_start(s));
}

proof fn lemma_trim_idempotent(s: Seq<char>)
    ensures
        trim(trim(s)) == trim(s),
{
    lemma_trim_ends(s);
    lemma_trim_noop(trim(s));
}

proof fn lemma_trim_trailing_space(b: Seq<char>)
    requires
        b.len() > 0,
        !is_ws(b[0]),
        !is_ws(b.last()),
    ensures
        trim(b + seq![' ']) == b,
{
    let s = b + seq![' '];
    assert(s[0] == b[0]);
    assert(trim_start(s) == s);
    assert(s.drop_last() =~= b);
    assert(is_ws(s.last()));
    assert(trim_end(s) == trim_end(b));
    lemma_trim_noop(b);
}

proof fn lemma_rfind_upto_at(s: Seq<char>, p: Seq<char>, i: int, m: int)
    requires
        0 <= m <= i,
        m + p.len() <= s.len(),
        s.subrange(m, m + p.len()) == p,
        forall|j: int| m < j <= i ==> !(j + p.len() <= s.len() && #[trigger] s.subrange(j, j + p.len()) == p),
    ensures
        rfind_upto(s, p, i) == Some(m),
    decreases i,
{
    if i > m {
        lemma_rfind_upto_at(s, p, i - 1, m);
    }
}

/// Whether a qualifier reads back the same from its canonical text: it does not start with
/// `[` and holds no `[[`.
pub open spec fn plain_qualifier(q: Seq<char>) -> bool {
    (q.len() > 0 ==> q[0] != '[') && !contains(q, "[["@)
}

proof fn lemma_normalized_idempotent(b: Seq<char>, x: Seq<char>)
    ensures
        normalized_qualifier(b, normalized_qualifier(b, x)) == normalized_qualifier(b, x),
        normalized_qualifier(b, x).len() > 0 ==> !is_ws(normalized_qualifier(b, x)[0]) && !is_ws(
            normalized_qualifier(b, x).last(),
        ),
        trim(x).len() > 0 ==> normalized_qualifier(b, x).len() > 0,
{
    reveal_strlit("niconico＆VOCALOID™");
    reveal_strlit("maimai");
    reveal_strlit("niconico＆ボーカロイド");
    reveal_strlit("ORANGE");
    reveal_strlit("maimai PLUS");
    reveal_strlit("Link");
    lemma_trim_ends(x);
    lemma_trim_idempotent(x);
    let n = normalized_qualifier(b, x);
    let v: Seq<char> = "niconico＆VOCALOID™"@;
    let m: Seq<char> = "maimai"@;
    lemma_trim_noop(v);
    lemma_trim_noop(m);
    assert(lower_seq(m) =~= m);
}

/// Reading a title back from its canonical text gives the title again, for every title whose
/// qualifier is plain.
pub proof fn law_parse_canonical_roundtrip(value: Seq<char>)
    requires
        parse_title(value).1 matches Some(q) ==> plain_qualifier(q),
    ensures
        parse_title(canonical_text(parse_title(value))) == parse_title(value),
{
    reveal_strlit("]]");
    reveal_strlit("[[");
    reveal_strlit(" [[");
    let t = parse_title(value);
    let b = t.0;
    lemma_trim_ends(value);
    match t.1 {
        None => {
            let tv = trim(value);
            lemma_trim_idempotent(value);
            assert(trim(tv) == tv);
            assert(parse_title(tv) == t);
            if ends_with(tv, "]]"@) {
                let w0 = tv.take(tv.len() - 2);
                if let Some(k0) = rfind(w0, "[["@) {
                    let q0 = trim(w0.skip(k0 + 2));
                    lemma_trim_idempotent(w0.skip(k0 + 2));
                    let base0 = trim(w0.take(k0));
                    if base0.len() > 0 && q0.len() > 0 {
                        assert(t.1 is Some);
                    }
                }
            }
            assert(b == tv);
            assert(canonical_text(t) == b);
        },
        Some(q) => {
            let tv = trim(value);
            let w0 = tv.take(tv.len() - 2);
            let k0 = rfind(w0, "[["@)->0;
            let base0 = trim(w0.take(k0));
            let q0 = trim(w0.skip(k0 + 2));
            lemma_trim_idempotent(w0.skip(k0 + 2));
            assert(ends_with(tv, "]]"@));
            assert(rfind(w0, "[["@) is Some);
            assert(base0.len() > 0 && q0.len() > 0);
            assert(b == trim(base0));
            lemma_trim_idempotent(w0.take(k0));
            lemma_trim_ends(w0.take(k0));
            assert(q == normalized_qualifier(b, trim(q0)));
            lemma_normalized_idempotent(b, trim(q0));
            lemma_trim_idempotent(w0.skip(k0 + 2));
            let c = b + " [["@ + q + "]]"@;
            assert(canonical_text(t) == c);
            assert(c[0] == b[0]);
            assert(c.last() == ']');
            lemma_trim_noop(c);
            assert(ends_with(c, "]]"@)) by {
                assert(c.skip(c.len() - 2) =~= "]]"@);
            }
            let w = c.take(c.len() - 2);
            assert(w =~= b + " [["@ + q);
            let k: int = b.len() as int + 1;
            assert(w.subrange(k, k + 2) =~= "[["@);
            assert(q.len() > 0);
            assert forall|j: int| k < j <= w.len() - 2 implies !(j + 2 <= w.len() && #[trigger] w.subrange(j, j + 2) == "[["@) by {
                if j == k + 1 {
                    assert(w.subrange(j, j + 2)[1] == q[0]);
                } else {
                    let off = j - (b.len() + 3);
                    assert(w.subrange(j, j + 2) =~= q.subrange(off, off + 2));
                    if w.subrange(j, j + 2) == "[["@ {
                        crate::text::lemma_find_from_exists(q, "[["@, off);
                    }
                }
            }
            lemma_rfind_upto_at(w, "[["@, w.len() - 2, k);
            assert(w.take(k) =~= b + seq![' ']);
            lemma_trim_trailing_space(b);
            assert(w.skip(k + 2) =~= q);
            lemma_trim_noop(q);
            lemma_trim_noop(b);
        },
    }
}

/// Trimming keeps a stretch of the text: `trim(s)` is `s.subrange(r.0, r.1)`.
proof fn lemma_trim_sub(s: Seq<char>) -> (r: (int, int))
    ensures
        0 <= r.0 <= r.1 <= s.len(),
        trim(s) =~= s.subrange(r.0, r.1),
{
    let a = lemma_trim_start_sub(s);
    let t = trim_start(s);
    let e = lemma_trim_end_sub(t);
    assert(trim(s) =~= s.subrange(a, a + e));
    (a, a + e)
}

proof fn lemma_trim_start_sub(s: Seq<char>) -> (a: int)
    ensures
        0 <= a <= s.len(),
        trim_start(s) =~= s.skip(a),
    decreases s.len(),
{
    if s.len() > 0 && is_ws(s[0]) {
        let a0 = lemma_trim_start_sub(s.drop_first());
        assert(s.drop_first().skip(a0) =~= s.skip(a0 + 1));
        a0 + 1
    } else {
        assert(s.skip(0) =~= s);
        0
    }
}

proof fn lemma_trim_end_sub(s: Seq<char>) -> (e: int)
    ensures
        0 <= e <= s.len(),
        trim_end(s) =~= s.take(e),
    decreases s.len(),
{
    if s.len() > 0 && is_ws(s.last()) {
        let e0 = lemma_trim_end_sub(s.drop_last());
        assert(s.drop_last().take(e0) =~= s.take(e0));
        e0
    } else {
        assert(s.take(s.len() as int) =~= s);
        s.len() as int
    }
}

proof fn lemma_rfind_upto_matches(s: Seq<char>, p: Seq<char>, i: int)
    ensures
        rfind_upto(s, p, i) matches Some(k) ==> 0 <= k && k + p.len() <= s.len() && s.subrange(
            k,
            k + p.len(),
        ) == p,
    decreases i + 1,
{
    if i >= 0 && !(i + p.len() <= s.len() && s.subrange(i, i + p.len()) == p) {
        lemma_rfind_upto_matches(s, p, i - 1);
    }
}

/// Whether a text holds no `[`.
pub open spec fn no_open_bracket(s: Seq<char>) -> bool {
    forall|i: int| 0 <= i < s.len() ==> s[i] != '['
}

proof fn lemma_no_bracket_plain(q: Seq<char>)
    requires
        no_open_bracket(q),
    ensures
        plain_qualifier(q),
{
    reveal_strlit("[[");
    crate::text::lemma_find_matches(q, "[["@);
    if let Some(k) = crate::text::find(q, "[["@) {
        assert(q.subrange(k, k + 2)[0] == q[k]);
    }
}

/// A title with a plain qualifier reads back from its canonical text.
proof fn lemma_canonical_qualified(b: Seq<char>, q: Seq<char>)
    requires
        b.len() > 0,
        !is_ws(b[0]),
        !is_ws(b.last()),
        q.len() > 0,
        !is_ws(q[0]),
        !is_ws(q.last()),
        plain_qualifier(q),
        normalized_qualifier(b, q) == q,
    ensures
        parse_title(b + " [["@ + q + "]]"@) == (b, Some(q)),
{
    reveal_strlit("]]");
    reveal_strlit("[[");
    reveal_strlit(" [[");
    let c = b + " [["@ + q + "]]"@;
    assert(c[0] == b[0]);
    assert(c.last() == ']');
    lemma_trim_noop(c);
    assert(ends_with(c, "]]"@)) by {
        assert(c.skip(c.len() - 2) =~= "]]"@);
    }
    let w = c.take(c.len() - 2);
    assert(w =~= b + " [["@ + q);
    let k: int = b.len() as int + 1;
    assert(w.subrange(k, k + 2) =~= "[["@);
    assert forall|j: int| k < j <= w.len() - 2 implies !(j + 2 <= w.len() && #[trigger] w.subrange(j, j + 2) == "[["@) by {
        if j == k + 1 {
            assert(w.subrange(j, j + 2)[1] == q[0]);
        } else {
            let off = j - (b.len() + 3);
            assert(w.subrange(j, j + 2) =~= q.subrange(off, off + 2));
            if w.subrange(j, j + 2) == "[["@ {
                crate::text::lemma_find_from_exists(q, "[["@, off);
            }
        }
    }
    lemma_rfind_upto_at(w, "[["@, w.len() - 2, k);
    assert(w.take(k) =~= b + seq![' ']);
    lemma_trim_trailing_space(b);
    assert(w.skip(k + 2) =~= q);
    lemma_trim_noop(q);
    lemma_trim_noop(b);
}

/// A title built from parts reads back from its canonical text: `SongTitle::parse` of the
/// `canonical` text of `SongTitle::from_parts(base, qualifier)` is that same title (these three
/// functions return exactly `parse_title`, `canonical_text` and `title_from_parts`), when the
/// base is not blank and holds no `[[`, and the qualifier holds no `[`. The canonical text is
/// the base alone when there is no qualifier, else `base [[qualifier]]`.
pub proof fn law_from_parts_canonical_roundtrip(base: Seq<char>, qualifier: Option<Seq<char>>)
    requires
        trim(base).len() > 0,
        !contains(base, "[["@),
        qualifier matches Some(q) ==> no_open_bracket(q),
    ensures
        title_from_parts(base, qualifier).1 is None ==> canonical_text(
            title_from_parts(base, qualifier),
        ) == title_from_parts(base, qualifier).0,
        title_from_parts(base, qualifier).1 matches Some(q) ==> canonical_text(
            title_from_parts(base, qualifier),
        ) == title_from_parts(base, qualifier).0 + " [["@ + q + "]]"@,
        parse_title(canonical_text(title_from_parts(base, qualifier))) == title_from_parts(
            base,
            qualifier,
        ),
{
    reveal_strlit("]]");
    reveal_strlit("[[");
    let t = title_from_parts(base, qualifier);
    let tb = trim(base);
    lemma_trim_ends(base);
    lemma_trim_idempotent(base);
    match t.1 {
        None => {
            assert(canonical_text(t) == tb);
            if ends_with(tb, "]]"@) {
                let w = tb.take(tb.len() - 2);
                lemma_rfind_upto_matches(w, "[["@, w.len() - 2);
                if let Some(k) = rfind(w, "[["@) {
                    let r = lemma_trim_sub(base);
                    assert(base.subrange(r.0 + k, r.0 + k + 2) =~= w.subrange(k, k + 2));
                    crate::text::lemma_find_from_exists(base, "[["@, r.0 + k);
                }
            }
        },
        Some(nq) => {
            let q = qualifier->0;
            let tq = trim(q);
            lemma_trim_idempotent(q);
            lemma_normalized_idempotent(tb, tq);
            let r = lemma_trim_sub(q);
            assert(no_open_bracket(tq)) by {
                assert forall|i: int| 0 <= i < tq.len() implies tq[i] != '[' by {
                    assert(tq[i] == q[r.0 + i]);
                }
            }
            reveal_strlit("niconico＆VOCALOID™");
            reveal_strlit("maimai");
            assert(no_open_bracket(nq));
            lemma_no_bracket_plain(nq);
            lemma_canonical_qualified(tb, nq);
        },
    }
}

} // verus!
