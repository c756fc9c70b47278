//! The rating breakdown: the best fifteen charts of the new versions and the best thirty-five
//! of the old ones, by rating points.
use vstd::prelude::*;

use crate::models::song_title::opt_view;
use crate::text::{chars_of, eq_lit};

verus! {

/// What the rating breakdown reads of a score: its achievement, its bucket (`New` or `Old`),
/// whether its chart has an internal level, and its rating points.
#[derive(Debug, Clone)]
pub struct RatedScoreInput {
    pub achievement_x10000: Option<i64>,
    pub bucket: Option<String>,
    pub has_internal_level: bool,
    pub rating_points: Option<u32>,
}

/// A rated chart: its index among the scores, bucket, rating points and achievement.
pub type RatedRow = (usize, Seq<char>, u32, i64);

/// The rated charts of the scores, in order, and how many scores with an achievement lacked
/// song data (bucket, internal level or rating points).
pub open spec fn rated_rows(scores: Seq<RatedScoreInput>) -> (Seq<RatedRow>, nat)
    decreases scores.len(),
{
    if scores.len() == 0 {
        (Seq::empty(), 0)
    } else {
        let (rows, missing) = rated_rows(scores.drop_last());
        let s = scores.last();
        let i = (scores.len() - 1) as usize;
        match s.achievement_x10000 {
            None => (rows, missing),
            Some(a) => match (opt_view(s.bucket), s.has_internal_level, s.rating_points) {
                (Some(b), true, Some(p)) => (rows.push((i, b, p, a)), missing),
                _ => (rows, missing + 1),
            },
        }
    }
}

/// The rows of a bucket, in order.
pub open spec fn in_bucket(rows: Seq<RatedRow>, bucket: Seq<char>) -> Seq<RatedRow>
    decreases rows.len(),
{
    if rows.len() == 0 {
        rows
    } else {
        let prev = in_bucket(rows.drop_last(), bucket);
        if rows.last().1 == bucket {
            prev.push(rows.last())
        } else {
            prev
        }
    }
}

/// Whether row `a` ranks below row `b`: fewer points, or as many and a lower achievement.
pub open spec fn ranks_below(a: RatedRow, b: RatedRow) -> bool {
    a.2 < b.2 || (a.2 == b.2 && a.3 < b.3)
}

/// Puts a row into a ranking: before the first row that ranks below it, so that rows that rank
/// the same keep their order.
pub open spec fn insert_ranked(s: Seq<RatedRow>, x: RatedRow) -> Seq<RatedRow>
    decreases s.len(),
{
    if s.len() == 0 {
        seq![x]
    } else if ranks_below(s[0], x) {
        seq![x] + s
    } else {
        seq![s[0]] + insert_ranked(s.drop_first(), x)
    }
}

/// The rows from best to worst, rows that rank the same in their order (a stable sort).
pub open spec fn ranked(rows: Seq<RatedRow>) -> Seq<RatedRow>
    decreases rows.len(),
{
    if rows.len() == 0 {
        rows
    } else {
        insert_ranked(ranked(rows.drop_last()), rows.last())
    }
}

/// The first `n` of a list (all of it when shorter).
pub open spec fn first_n(s: Seq<RatedRow>, n: nat) -> Seq<RatedRow> {
    if s.len() > n {
        s.take(n as int)
    } else {
        s
    }
}

/// The sum of the points of rows.
pub open spec fn points_sum(s: Seq<RatedRow>) -> nat
    decreases s.len(),
{
    if s.len() == 0 {
        0
    } else {
        points_sum(s.drop_last()) + s.last().2 as nat
    }
}

/// The rating breakdown: the indices of the best charts of each bucket, best first, their
/// point sums and total, and the count of scores without song data.
#[derive(Debug, Clone)]
pub struct RatingSelection {
    pub new_rows: Vec<usize>,
    pub old_rows: Vec<usize>,
    pub new_sum: u32,
    pub old_sum: u32,
    pub total: u32,
    pub missing_data: usize,
}

pub open spec fn indices(s: Seq<RatedRow>) -> Seq<usize> {
    s.map_values(|r: RatedRow| r.0)
}

pub open spec fn row_of(scores: Seq<RatedScoreInput>, i: usize) -> RatedRow {
    (i, opt_view(scores[i as int].bucket)->0, scores[i as int].rating_points->0, scores[i as int].achievement_x10000->0)
}

proof fn lemma_insert_ranked_at(s: Seq<RatedRow>, x: RatedRow, p: int)
    requires
        0 <= p <= s.len(),
        forall|q: int| 0 <= q < p ==> !ranks_below(#[trigger] s[q], x),
        p < s.len() ==> ranks_below(s[p], x),
    ensures
        insert_ranked(s, x) == s.insert(p, x),
    decreases p,
{
    if p == 0 {
        if s.len() > 0 {
            assert(seq![x] + s =~= s.insert(0, x));
        }
    } else {
        let rest = s.drop_first();
        assert forall|q: int| 0 <= q < p - 1 implies !ranks_below(#[trigger] rest[q], x) by {
            assert(rest[q] == s[q + 1]);
        }
        lemma_insert_ranked_at(rest, x, p - 1);
        assert(seq![s[0]] + rest.insert(p - 1, x) =~= s.insert(p, x));
    }
}

pub open spec fn rows_of(scores: Seq<RatedScoreInput>, idx: Seq<usize>) -> Seq<RatedRow> {
    idx.map_values(|i: usize| row_of(scores, i))
}

fn rank_bucket(scores: &[RatedScoreInput], rows: &Vec<usize>) -> (r: Vec<usize>)
    requires
        forall|q: int| 0 <= q < rows@.len() ==> (#[trigger] rows@[q]) < scores@.len() && (
            scores@[rows@[q] as int].rating_points is Some && scores@[rows@[q] as int].achievement_x10000
                is Some && opt_view(scores@[rows@[q] as int].bucket) is Some),
    ensures
        rows_of(scores@, r@) == ranked(rows_of(scores@, rows@)),
        forall|q: int| 0 <= q < r@.len() ==> (#[trigger] r@[q]) < scores@.len() && (
            scores@[r@[q] as int].rating_points is Some && scores@[r@[q] as int].achievement_x10000
                is Some),
{
    let ghost all = rows_of(scores@, rows@);
    let mut out: Vec<usize> = Vec::new();
    let mut n: usize = 0;
    assert(all.take(0) =~= Seq::<RatedRow>::empty());
    assert(rows_of(scores@, out@) =~= Seq::<RatedRow>::empty());
    while n < rows.len()
        invariant
            n <= rows.len(),
            all == rows_of(scores@, rows@),
            forall|q: int| 0 <= q < rows@.len() ==> (#[trigger] rows@[q]) < scores@.len() && (
                scores@[rows@[q] as int].rating_points is Some
                    && scores@[rows@[q] as int].achievement_x10000 is Some && opt_view(
                    scores@[rows@[q] as int].bucket,
                ) is Some),
            forall|q: int| 0 <= q < out@.len() ==> (#[trigger] out@[q]) < scores@.len() && (
                scores@[out@[q] as int].rating_points is Some
                    && scores@[out@[q] as int].achievement_x10000 is Some),
            rows_of(scores@, out@) == ranked(all.take(n as int)),
        decreases rows.len() - n,
    {
        assert(all.take(n + 1).drop_last() =~= all.take(n as int));
        let x = rows[n];
        let xp = match scores[x].rating_points {
            Some(p) => p,
            None => 0,
        };
        let xa = match scores[x].achievement_x10000 {
            Some(a) => a,
            None => 0,
        };
        let ghost xr = row_of(scores@, x);
        assert(all.take(n + 1).last() == xr);
        let ghost cur = rows_of(scores@, out@);
        let mut p: usize = 0;
        loop
            invariant
                p <= out@.len(),
                cur == rows_of(scores@, out@),
                xr == row_of(scores@, x),
                xr.2 == xp && xr.3 == xa,
                forall|q: int| 0 <= q < out@.len() ==> (#[trigger] out@[q]) < scores@.len() && (
                    scores@[out@[q] as int].rating_points is Some
                        && scores@[out@[q] as int].achievement_x10000 is Some),
                forall|q: int| 0 <= q < p ==> !ranks_below(#[trigger] cur[q], xr),
            ensures
                p <= out@.len(),
                p < out@.len() ==> ranks_below(cur[p as int], xr),
                forall|q: int| 0 <= q < p ==> !ranks_below(#[trigger] cur[q], xr),
            decreases out@.len() - p,
        {
            if p >= out.len() {
                break;
            }
            let y = out[p];
            let yp = match scores[y].rating_points {
                Some(v) => v,
                None => 0,
            };
            let ya = match scores[y].achievement_x10000 {
                Some(v) => v,
                None => 0,
            };
            assert(cur[p as int] == row_of(scores@, y));
            if yp < xp || (yp == xp && ya < xa) {
                break;
            }
            p += 1;
        }
        proof {
            lemma_insert_ranked_at(cur, xr, p as int);
        }
        out.insert(p, x);
        assert(rows_of(scores@, out@) =~= cur.insert(p as int, xr));
        n += 1;
    }
    assert(all.take(rows.len() as int) =~= all);
    out
}

fn bucket_rows(scores: &[RatedScoreInput], rows: &Vec<usize>, bucket: &str) -> (r: Vec<usize>)
    requires
        forall|q: int| 0 <= q < rows@.len() ==> (#[trigger] rows@[q]) < scores@.len() && (
            scores@[rows@[q] as int].rating_points is Some && scores@[rows@[q] as int].achievement_x10000
                is Some && opt_view(scores@[rows@[q] as int].bucket) is Some),
    ensures
        rows_of(scores@, r@) == in_bucket(rows_of(scores@, rows@), bucket@),
        forall|q: int| 0 <= q < r@.len() ==> (#[trigger] r@[q]) < scores@.len() && (
            scores@[r@[q] as int].rating_points is Some && scores@[r@[q] as int].achievement_x10000
                is Some && opt_view(scores@[r@[q] as int].bucket) is Some),
{
    let ghost all = rows_of(scores@, rows@);
    let mut out: Vec<usize> = Vec::new();
    let mut n: usize = 0;
    assert(all.take(0) =~= Seq::<RatedRow>::empty());
    assert(rows_of(scores@, out@) =~= Seq::<RatedRow>::empty());
    while n < rows.len()
        invariant
            n <= rows.len(),
            all == rows_of(scores@, rows@),
            forall|q: int| 0 <= q < rows@.len() ==> (#[trigger] rows@[q]) < scores@.len() && (
                scores@[rows@[q] as int].rating_points is Some
                    && scores@[rows@[q] as int].achievement_x10000 is Some && opt_view(
                    scores@[rows@[q] as int].bucket,
                ) is Some),
            forall|q: int| 0 <= q < out@.len() ==> (#[trigger] out@[q]) < scores@.len() && (
                scores@[out@[q] as int].rating_points is Some
                    && scores@[out@[q] as int].achievement_x10000 is Some && opt_view(
                    scores@[out@[q] as int].bucket,
                ) is Some),
            rows_of(scores@, out@) == in_bucket(all.take(n as int), bucket@),
        decreases rows.len() - n,
    {
        assert(all.take(n + 1).drop_last() =~= all.take(n as int));
        let x = rows[n];
        assert(all.take(n + 1).last() == row_of(scores@, x));
        let matches_bucket = match &scores[x].bucket {
            Some(b) => eq_lit(chars_of(b.as_str()).as_slice(), bucket),
            None => false,
        };
        if matches_bucket {
            let ghost before = out@;
            out.push(x);
            assert(rows_of(scores@, out@) =~= rows_of(scores@, before).push(row_of(scores@, x)));
        }
        n += 1;
    }
    assert(all.take(rows.len() as int) =~= all);
    out
}

proof fn lemma_points_sum_prefix(s: Seq<RatedRow>, n: int)
    requires
        0 <= n <= s.len(),
    ensures
        points_sum(s.take(n)) <= points_sum(s),
    decreases s.len(),
{
    if n < s.len() {
        assert(s.drop_last().take(n) =~= s.take(n));
        lemma_points_sum_prefix(s.drop_last(), n);
    } else {
        assert(s.take(n) =~= s);
    }
}

fn sum_points(scores: &[RatedScoreInput], rows: &Vec<usize>) -> (r: u32)
    requires
        forall|q: int| 0 <= q < rows@.len() ==> (#[trigger] rows@[q]) < scores@.len() && (
            scores@[rows@[q] as int].rating_points is Some && scores@[rows@[q] as int].achievement_x10000
                is Some),
        points_sum(rows_of(scores@, rows@)) <= u32::MAX,
    ensures
        r == points_sum(rows_of(scores@, rows@)),
{
    let ghost all = rows_of(scores@, rows@);
    let mut sum: u32 = 0;
    let mut n: usize = 0;
    assert(all.take(0) =~= Seq::<RatedRow>::empty());
    while n < rows.len()
        invariant
            n <= rows.len(),
            all == rows_of(scores@, rows@),
            all.len() == rows@.len(),
            forall|q: int| 0 <= q < rows@.len() ==> (#[trigger] rows@[q]) < scores@.len() && (
                scores@[rows@[q] as int].rating_points is Some
                    && scores@[rows@[q] as int].achievement_x10000 is Some),
            points_sum(all) <= u32::MAX,
            sum == points_sum(all.take(n as int)),
        decreases rows.len() - n,
    {
        assert(all.take(n + 1).drop_last() =~= all.take(n as int));
        let x = rows[n];
        assert(all.take(n + 1).last() == row_of(scores@, x));
        let p = match scores[x].rating_points {
            Some(p) => p,
            None => 0,
        };
        proof {
            lemma_points_sum_prefix(all, n + 1);
        }
        sum = sum + p;
        n += 1;
    }
    assert(all.take(rows.len() as int) =~= all);
    sum
}

/// The rating breakdown of the scores: for each bucket, its charts ranked by points and then
/// achievement (a stable sort), the best 15 new and 35 old, with their point sums and their
/// total (saturating), and the number of scores that lacked song data.
pub fn select_rating_rows(scores: &[RatedScoreInput]) -> (r: RatingSelection)
    requires
        points_sum(first_n(ranked(in_bucket(rated_rows(scores@).0, "New"@)), 15)) <= u32::MAX,
        points_sum(first_n(ranked(in_bucket(rated_rows(scores@).0, "Old"@)), 35)) <= u32::MAX,
    ensures
        rows_of(scores@, r.new_rows@) == first_n(
            ranked(in_bucket(rated_rows(scores@).0, "New"@)),
            15,
        ),
        rows_of(scores@, r.old_rows@) == first_n(
            ranked(in_bucket(rated_rows(scores@).0, "Old"@)),
            35,
        ),
        r.new_sum == points_sum(first_n(ranked(in_bucket(rated_rows(scores@).0, "New"@)), 15)),
        r.old_sum == points_sum(first_n(ranked(in_bucket(rated_rows(scores@).0, "Old"@)), 35)),
        r.total == (if r.new_sum + r.old_sum > u32::MAX {
            u32::MAX
        } else {
            (r.new_sum + r.old_sum) as u32
        }),
        r.missing_data == rated_rows(scores@).1,
{
    let mut rows: Vec<usize> = Vec::new();
    let mut missing: usize = 0;
    let mut i: usize = 0;
    assert(scores@.take(0) =~= Seq::<RatedScoreInput>::empty());
    assert(rows_of(scores@, rows@) =~= Seq::<RatedRow>::empty());
    while i < scores.len()
        invariant
            i <= scores.len(),
            missing <= i,
            forall|q: int| 0 <= q < rows@.len() ==> (#[trigger] rows@[q]) < scores@.len() && (
                scores@[rows@[q] as int].rating_points is Some
                    && scores@[rows@[q] as int].achievement_x10000 is Some && opt_view(
                    scores@[rows@[q] as int].bucket,
                ) is Some),
            rows_of(scores@, rows@) == rated_rows(scores@.take(i as int)).0,
            missing == rated_rows(scores@.take(i as int)).1,
        decreases scores.len() - i,
    {
        assert(scores@.take(i + 1).drop_last() =~= scores@.take(i as int));
        assert(scores@.take(i + 1).last() == scores@[i as int]);
        let s = &scores[i];
        if s.achievement_x10000.is_some() {
            if s.bucket.is_some() && s.has_internal_level && s.rating_points.is_some() {
                let ghost before = rows@;
                rows.push(i);
                assert(rows_of(scores@, rows@) =~= rows_of(scores@, before).push(row_of(scores@, i)));
            } else {
                missing = missing + 1;
            }
        }
        i += 1;
    }
    assert(scores@.take(scores.len() as int) =~= scores@);
    let new_b = bucket_rows(scores, &rows, "New");
    let old_b = bucket_rows(scores, &rows, "Old");
    let mut new_rows = rank_bucket(scores, &new_b);
    let mut old_rows = rank_bucket(scores, &old_b);
    let ghost nr = rows_of(scores@, new_rows@);
    let ghost orr = rows_of(scores@, old_rows@);
    if new_rows.len() > 15 {
        new_rows.truncate(15);
    }
    if old_rows.len() > 35 {
        old_rows.truncate(35);
    }
    assert(rows_of(scores@, new_rows@) =~= first_n(nr, 15));
    assert(rows_of(scores@, old_rows@) =~= first_n(orr, 35));
    let new_sum = sum_points(scores, &new_rows);
    let old_sum = sum_points(scores, &old_rows);
    let total = new_sum.saturating_add(old_sum);
    RatingSelection { new_rows, old_rows, new_sum, old_sum, total, missing_data: missing }
}

/// Whether no row ranks below a later one.
pub open spec fn best_first(s: Seq<RatedRow>) -> bool {
    forall|i: int, j: int| 0 <= i < j < s.len() ==> !ranks_below(#[trigger] s[i], #[trigger] s[j])
}

proof fn lemma_insert_ranked_sorted(s: Seq<RatedRow>, x: RatedRow)
    requires
        best_first(s),
    ensures
        best_first(insert_ranked(s, x)),
        insert_ranked(s, x).len() == s.len() + 1,
        forall|j: int| 0 <= j < insert_ranked(s, x).len() ==> (#[trigger] insert_ranked(s, x)[j]) == x
            || s.contains(insert_ranked(s, x)[j]),
    decreases s.len(),
{
    let r = insert_ranked(s, x);
    if s.len() == 0 {
    } else if ranks_below(s[0], x) {
        assert forall|i: int, j: int| 0 <= i < j < r.len() implies !ranks_below(#[trigger] r[i], #[trigger] r[j]) by {
            if i == 0 {
                assert(r[j] == s[j - 1]);
                if j > 1 {
                    assert(!ranks_below(s[0], s[j - 1]));
                }
            } else {
                assert(r[i] == s[i - 1] && r[j] == s[j - 1]);
            }
        }
        assert forall|j: int| 0 <= j < r.len() implies (#[trigger] r[j]) == x || s.contains(r[j]) by {
            if j > 0 {
                assert(r[j] == s[j - 1]);
            }
        }
    } else {
        let rest = s.drop_first();
        assert forall|i: int, j: int| 0 <= i < j < rest.len() implies !ranks_below(#[trigger] rest[i], #[trigger] rest[j]) by {
            assert(rest[i] == s[i + 1] && rest[j] == s[j + 1]);
        }
        lemma_insert_ranked_sorted(rest, x);
        let rr = insert_ranked(rest, x);
        assert(r == seq![s[0]] + rr);
        assert forall|j: int| 0 <= j < rr.len() implies !ranks_below(s[0], #[trigger] rr[j]) by {
            if rr[j] != x {
                assert(rest.contains(rr[j]));
                let q = choose|q: int| 0 <= q < rest.len() && rest[q] == rr[j];
                assert(rest[q] == s[q + 1]);
            }
        }
        assert forall|i: int, j: int| 0 <= i < j < r.len() implies !ranks_below(#[trigger] r[i], #[trigger] r[j]) by {
            if i == 0 {
                assert(r[j] == rr[j - 1]);
            } else {
                assert(r[i] == rr[i - 1] && r[j] == rr[j - 1]);
            }
        }
        assert forall|j: int| 0 <= j < r.len() implies (#[trigger] r[j]) == x || s.contains(r[j]) by {
            if j == 0 {
                assert(s[0] == r[0]);
            } else {
                assert(r[j] == rr[j - 1]);
                if rr[j - 1] != x {
                    let q = choose|q: int| 0 <= q < rest.len() && rest[q] == rr[j - 1];
                    assert(s[q + 1] == r[j]);
                }
            }
        }
    }
}

/// A ranking lists its rows best first (by points, then achievement) and keeps every row.
pub proof fn law_ranked_best_first(rows: Seq<RatedRow>)
    ensures
        best_first(ranked(rows)),
        ranked(rows).len() == rows.len(),
    decreases rows.len(),
{
    if rows.len() > 0 {
        law_ranked_best_first(rows.drop_last());
        lemma_insert_ranked_sorted(ranked(rows.drop_last()), rows.last());
    }
}

} // verus!
