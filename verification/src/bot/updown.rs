//! The up/down chart game: the bot shows a chart of some internal level, and the player's
//! reaction moves the level down, keeps it, or moves it up.
use vstd::prelude::*;

use std::collections::HashMap;
use crate::bot::chart_links::{linked_chart_label, youtube_search_url_spec};
use crate::bot::commands::score_detail_suffix;
use crate::bot::emoji::{fc_text, format_fc, format_rank, format_sync, rank_text, sync_text, MaimaiStatusEmojis};
use crate::bot::recent::{format_level_with_internal, level_with_internal};
use crate::models::api_models::SongDetailScoreApiResponse;
use crate::models::game_domain::{ChartType, DifficultyCategory};
use crate::models::song_title::opt_view;
use crate::text::{chars_of, decimal, eq_chars, push_decimal};

verus! {

/// The lowest internal level of the game, in tenths.
pub const MIN_LEVEL_TENTHS: i16 = 10;

/// The highest internal level of the game, in tenths.
pub const MAX_LEVEL_TENTHS: i16 = 150;

/// The reaction that lowers the level.
pub const REACTION_DOWN: &'static str = "⬇️";

/// The reaction that keeps the level.
pub const REACTION_STAY: &'static str = "⏺️";

/// The reaction that raises the level.
pub const REACTION_UP: &'static str = "⬆️";

/// The key of a chart among the scores of a player: title, genre, artist, type and difficulty,
/// separated by the unit separator U+001F.
pub open spec fn chart_identity_key_spec(
    title: Seq<char>,
    genre: Seq<char>,
    artist: Seq<char>,
    chart_type: ChartType,
    diff: DifficultyCategory,
) -> Seq<char> {
    title + seq!['\u{1f}'] + genre + seq!['\u{1f}'] + artist + seq!['\u{1f}'] + chart_type.name()
        + seq!['\u{1f}'] + diff.name()
}

pub fn chart_identity_key(
    title: &str,
    genre: &str,
    artist: &str,
    chart_type: ChartType,
    diff_category: DifficultyCategory,
) -> (r: String)
    ensures
        r@ == chart_identity_key_spec(title@, genre@, artist@, chart_type, diff_category),
{
    let mut s = String::from_str(title);
    s.push('\u{1f}');
    s.push_str(genre);
    s.push('\u{1f}');
    s.push_str(artist);
    s.push('\u{1f}');
    s.push_str(chart_type.as_str());
    s.push('\u{1f}');
    s.push_str(diff_category.as_str());
    s
}

/// A number of tenths with one decimal (`135` is `13.5`, `-5` is `-0.5`).
pub open spec fn tenths_text(v: int) -> Seq<char> {
    let a = if v < 0 {
        -v
    } else {
        v
    };
    let sign = if v < 0 {
        seq!['-']
    } else {
        Seq::<char>::empty()
    };
    sign + decimal((a / 10) as nat) + seq!['.'] + decimal((a % 10) as nat)
}

/// A level in tenths, with one decimal.
pub fn format_level_tenths(level_tenths: i16) -> (r: String)
    ensures
        r@ == tenths_text(level_tenths as int),
{
    let mut s = String::new();
    let a: u64 = if level_tenths < 0 {
        s.push('-');
        (-(level_tenths as i32)) as u64
    } else {
        level_tenths as u64
    };
    push_decimal(&mut s, a / 10);
    s.push('.');
    push_decimal(&mut s, a % 10);
    s
}

/// `n` in decimal with at least `width` digits (zeros in front).
pub open spec fn padded_decimal(n: nat, width: nat) -> Seq<char> {
    let d = decimal(n);
    if d.len() < width {
        Seq::new((width - d.len()) as nat, |i: int| '0') + d
    } else {
        d
    }
}

/// A rate in ten-thousandths of a percent unit, with four decimals and a `%` sign
/// (`1005000` is `100.5000%`).
pub open spec fn rate_text(v: int) -> Seq<char> {
    let a = if v < 0 {
        -v
    } else {
        v
    };
    let sign = if v < 0 {
        seq!['-']
    } else {
        Seq::<char>::empty()
    };
    sign + decimal((a / 10000) as nat) + seq!['.'] + padded_decimal((a % 10000) as nat, 4) + seq![
        '%',
    ]
}

proof fn lemma_decimal_len(n: nat)
    ensures
        1 <= decimal(n).len(),
        n < 10 ==> decimal(n).len() == 1,
        10 <= n < 100 ==> decimal(n).len() == 2,
        100 <= n < 1000 ==> decimal(n).len() == 3,
        1000 <= n < 10000 ==> decimal(n).len() == 4,
    decreases n,
{
    if n >= 10 {
        lemma_decimal_len(n / 10);
    }
}

/// A rate in ten-thousandths, with four decimals and a `%` sign.
pub fn format_rate_x10000(value: i64) -> (r: String)
    requires
        -0x20_0000_0000_0000 <= value <= 0x20_0000_0000_0000,
    ensures
        r@ == rate_text(value as int),
{
    let mut s = String::new();
    let a: u64 = if value < 0 {
        s.push('-');
        (-value) as u64
    } else {
        value as u64
    };
    push_decimal(&mut s, a / 10000);
    s.push('.');
    let frac = a % 10000;
    proof {
        lemma_decimal_len(frac as nat);
    }
    let ghost before = s@;
    if frac < 10 {
        s.push_str("000");
    } else if frac < 100 {
        s.push_str("00");
    } else if frac < 1000 {
        s.push_str("0");
    }
    proof {
        reveal_strlit("000");
        reveal_strlit("00");
        reveal_strlit("0");
        let d = decimal(frac as nat);
        if d.len() < 4 {
            assert(s@ =~= before + Seq::new((4 - d.len()) as nat, |i: int| '0'));
        } else {
            assert(s@ =~= before);
        }
    }
    push_decimal(&mut s, frac);
    s.push('%');
    s
}

/// The level change of a reaction: -1, 0 or +1 for the three arrows, nothing for others.
pub open spec fn reaction_delta_spec(emoji: Seq<char>) -> Option<i16> {
    if emoji == REACTION_DOWN@ {
        Some(-1i16)
    } else if emoji == REACTION_STAY@ {
        Some(0i16)
    } else if emoji == REACTION_UP@ {
        Some(1i16)
    } else {
        None
    }
}

/// The level change of a reaction (given as its Unicode text).
pub fn reaction_delta(emoji: &str) -> (r: Option<i16>)
    ensures
        r == reaction_delta_spec(emoji@),
{
    let e = chars_of(emoji);
    if eq_chars(e.as_slice(), chars_of(REACTION_DOWN).as_slice()) {
        Some(-1)
    } else if eq_chars(e.as_slice(), chars_of(REACTION_STAY).as_slice()) {
        Some(0)
    } else if eq_chars(e.as_slice(), chars_of(REACTION_UP).as_slice()) {
        Some(1)
    } else {
        None
    }
}

/// Whether a level lies in the range of the game.
pub open spec fn in_game_range(level: int) -> bool {
    MIN_LEVEL_TENTHS <= level <= MAX_LEVEL_TENTHS
}

/// The `j`th level from `current` in the direction of `delta`.
pub open spec fn level_at(current: int, delta: int, j: int) -> int {
    if delta > 0 {
        current + j
    } else {
        current - j
    }
}

/// The first level from `current + delta` on, stepping by `delta`, that has charts, before the
/// range of the game is left.
pub open spec fn next_level_spec(levels: Seq<i16>, current: int, delta: int, r: Option<i16>) -> bool {
    match r {
        Some(l) => {
            &&& in_game_range(l as int)
            &&& levels.contains(l)
            &&& exists|k: int|
                k >= 1 && l == #[trigger] level_at(current, delta, k) && forall|j: int|
                    1 <= j < k ==> !levels.contains(#[trigger] level_at(current, delta, j) as i16)
        },
        None => forall|k: int|
            k >= 1 && in_game_range(#[trigger] level_at(current, delta, k)) && (forall|j: int|
                1 <= j <= k ==> in_game_range(#[trigger] level_at(current, delta, j))) ==> !levels.contains(
                level_at(current, delta, k) as i16,
            ),
    }
}

fn level_has_charts(levels: &[i16], level: i16) -> (b: bool)
    ensures
        b == levels@.contains(level),
{
    let mut i: usize = 0;
    while i < levels.len()
        invariant
            i <= levels.len(),
            forall|q: int| 0 <= q < i ==> levels@[q] != level,
        decreases levels.len() - i,
    {
        if levels[i] == level {
            assert(levels@[i as int] == level);
            return true;
        }
        i += 1;
    }
    false
}

/// The level that an up or down reaction leads to: the first level in that direction that has
/// charts (given as the list of levels that have charts), if the range of the game has one.
pub fn choose_level_in_direction(levels: &[i16], current_level_tenths: i16, delta: i16) -> (r: Option<
    i16,
>)
    requires
        delta == 1 || delta == -1,
        in_game_range(current_level_tenths as int),
    ensures
        next_level_spec(levels@, current_level_tenths as int, delta as int, r),
{
    let mut next: i16 = current_level_tenths + delta;
    let ghost mut k: int = 1;
    let ghost cur = current_level_tenths as int;
    let ghost d = delta as int;
    while MIN_LEVEL_TENTHS <= next && next <= MAX_LEVEL_TENTHS
        invariant
            delta == 1 || delta == -1,
            cur == current_level_tenths,
            d == delta,
            k >= 1,
            next == level_at(cur, d, k),
            in_game_range(cur),
            MIN_LEVEL_TENTHS - 1 <= next <= MAX_LEVEL_TENTHS + 1,
            forall|j: int| 1 <= j < k ==> !levels@.contains(#[trigger] level_at(cur, d, j) as i16),
            forall|j: int| 1 <= j < k ==> in_game_range(#[trigger] level_at(cur, d, j)),
        decreases (if delta == 1 {
            MAX_LEVEL_TENTHS + 1 - next
        } else {
            next - MIN_LEVEL_TENTHS + 1
        }),
    {
        if level_has_charts(levels, next) {
            assert(next as int == level_at(cur, d, k));
            return Some(next);
        }
        next = next + delta;
        proof {
            k = k + 1;
        }
    }
    proof {
        assert forall|k2: int|
            k2 >= 1 && in_game_range(#[trigger] level_at(cur, d, k2)) && (forall|j: int|
                1 <= j <= k2 ==> in_game_range(#[trigger] level_at(cur, d, j))) implies !levels@.contains(
            level_at(cur, d, k2) as i16,
        ) by {
            if k2 >= k {
                assert(!in_game_range(level_at(cur, d, k)));
                assert(1 <= k <= k2);
            }
        }
    }
    None
}

/// What a reaction to the current pick does: show a chart of some level (with a note when the
/// level had to be skipped over), or tell the player why the level stays.
#[derive(Debug, Clone)]
pub enum ReactionPlan {
    Pick { level_tenths: i16, note: Option<String> },
    Notice(String),
}

/// What a reaction with level change `delta` does at the current level, given the levels that
/// have charts.
pub open spec fn reaction_plan_spec(
    levels: Seq<i16>,
    current: i16,
    delta: i16,
    plan: ReactionPlan,
) -> bool {
    if delta == 0 {
        if levels.contains(current) {
            plan matches ReactionPlan::Pick { level_tenths, note } && level_tenths == current
                && note is None
        } else {
            plan matches ReactionPlan::Notice(t) && t@ == "No eligible charts found at **"@
                + tenths_text(current as int) + "** with the current filters. Keeping the current level."@
        }
    } else {
        match plan {
            ReactionPlan::Pick { level_tenths, note } => {
                &&& next_level_spec(levels, current as int, delta as int, Some(level_tenths))
                &&& (level_tenths == current + delta ==> note is None)
                &&& (level_tenths != current + delta ==> (note matches Some(n) && n@
                    == "No eligible chart at **"@ + tenths_text(current + delta) + "**. Jumped to **"@
                    + tenths_text(level_tenths as int) + "** instead."@))
            },
            ReactionPlan::Notice(t) => next_level_spec(levels, current as int, delta as int, None)
                && t@ == "No eligible chart found before leaving the 1.0-15.0 range. Keeping **"@
                + tenths_text(current as int) + "**."@,
        }
    }
}

/// What a reaction with level change `delta` does at the current level.
pub fn plan_reaction(levels: &[i16], current_level_tenths: i16, delta: i16) -> (r: ReactionPlan)
    requires
        delta == 1 || delta == -1 || delta == 0,
        in_game_range(current_level_tenths as int),
    ensures
        reaction_plan_spec(levels@, current_level_tenths, delta, r),
{
    if delta == 0 {
        if level_has_charts(levels, current_level_tenths) {
            return ReactionPlan::Pick { level_tenths: current_level_tenths, note: None };
        }
        let mut t = String::from_str("No eligible charts found at **");
        t.push_str(format_level_tenths(current_level_tenths).as_str());
        t.push_str("** with the current filters. Keeping the current level.");
        return ReactionPlan::Notice(t);
    }
    let requested = current_level_tenths + delta;
    match choose_level_in_direction(levels, current_level_tenths, delta) {
        Some(found) => {
            let note = if found == requested {
                None
            } else {
                let mut n = String::from_str("No eligible chart at **");
                n.push_str(format_level_tenths(requested).as_str());
                n.push_str("**. Jumped to **");
                n.push_str(format_level_tenths(found).as_str());
                n.push_str("** instead.");
                Some(n)
            };
            ReactionPlan::Pick { level_tenths: found, note }
        },
        None => {
            let mut t = String::from_str(
                "No eligible chart found before leaving the 1.0-15.0 range. Keeping **",
            );
            t.push_str(format_level_tenths(current_level_tenths).as_str());
            t.push_str("**.");
            ReactionPlan::Notice(t)
        },
    }
}

/// The state of one player's game: the message of the current pick, the pick being handled
/// (claimed) if any, the thread of the game and the current level.
#[derive(Debug, Clone, Copy, PartialEq, Eq, Structural)]
pub struct SessionState {
    pub pick_message_id: u64,
    pub in_flight_pick_message_id: Option<u64>,
    pub thread_channel_id: u64,
    pub current_level_tenths: i16,
}

/// The games in progress, by player.
#[derive(Debug, Clone)]
pub struct UpdownSessionStore {
    sessions: HashMap<u64, SessionState>,
}

/// The game of a player, if there is one.
pub open spec fn session_of(m: Map<u64, SessionState>, user: u64) -> Option<SessionState> {
    if m.contains_key(user) {
        Some(m[user])
    } else {
        None
    }
}

/// Claiming a pick: only the current pick of a game, and only when no pick is being handled;
/// the claim marks the pick as being handled.
pub open spec fn claim_spec(m: Map<u64, SessionState>, user: u64, pick: u64) -> (
    Map<u64, SessionState>,
    Option<SessionState>,
) {
    match session_of(m, user) {
        Some(s) => if s.pick_message_id == pick && s.in_flight_pick_message_id is None {
            let n = SessionState { in_flight_pick_message_id: Some(pick), ..s };
            (m.insert(user, n), Some(n))
        } else {
            (m, None)
        },
        None => (m, None),
    }
}

/// Whether a claimed pick is the one being handled.
pub open spec fn claimed(s: SessionState, pick: u64) -> bool {
    s.pick_message_id == pick && s.in_flight_pick_message_id == Some(pick)
}

/// Finishing a claimed pick: the game moves to the new level and the new pick.
pub open spec fn finish_spec(
    m: Map<u64, SessionState>,
    user: u64,
    pick: u64,
    new_level: i16,
    new_pick: u64,
) -> (Map<u64, SessionState>, Option<SessionState>) {
    match session_of(m, user) {
        Some(s) => if claimed(s, pick) {
            let n = SessionState {
                current_level_tenths: new_level,
                pick_message_id: new_pick,
                in_flight_pick_message_id: None,
                ..s
            };
            (m.insert(user, n), Some(n))
        } else {
            (m, None)
        },
        None => (m, None),
    }
}

/// Releasing a claimed pick: the game stays as it was before the claim.
pub open spec fn release_spec(m: Map<u64, SessionState>, user: u64, pick: u64) -> (
    Map<u64, SessionState>,
    Option<SessionState>,
) {
    match session_of(m, user) {
        Some(s) => if claimed(s, pick) {
            let n = SessionState { in_flight_pick_message_id: None, ..s };
            (m.insert(user, n), Some(n))
        } else {
            (m, None)
        },
        None => (m, None),
    }
}

impl UpdownSessionStore {
    pub closed spec fn view_sessions(self) -> Map<u64, SessionState> {
        self.sessions@
    }

    /// A store without games.
    pub fn new() -> (r: Self)
        ensures
            r.view_sessions() == Map::<u64, SessionState>::empty(),
    {
        UpdownSessionStore { sessions: HashMap::new() }
    }

    /// Starts (or restarts) the game of a player.
    pub fn insert(&mut self, user: u64, state: SessionState)
        ensures
            final(self).view_sessions() == old(self).view_sessions().insert(user, state),
    {
        self.sessions.insert(user, state);
    }

    /// The game of a player.
    pub fn get(&self, user: u64) -> (r: Option<SessionState>)
        ensures
            r == session_of(self.view_sessions(), user),
    {
        match self.sessions.get(&user) {
            Some(s) => Some(*s),
            None => None,
        }
    }

    /// Claims the current pick of a player's game for handling a reaction.
    pub fn claim_session_by_pick_message(&mut self, user: u64, pick_message_id: u64) -> (r: Option<
        SessionState,
    >)
        ensures
            (final(self).view_sessions(), r) == claim_spec(old(self).view_sessions(), user, pick_message_id),
    {
        match self.get(user) {
            Some(s) => {
                if s.pick_message_id == pick_message_id && s.in_flight_pick_message_id.is_none() {
                    let n = SessionState { in_flight_pick_message_id: Some(pick_message_id), ..s };
                    self.sessions.insert(user, n);
                    Some(n)
                } else {
                    None
                }
            },
            None => None,
        }
    }

    /// Moves a player's game on after a claimed pick was answered with a new pick.
    pub fn finish_session_progress(
        &mut self,
        user: u64,
        pick_message_id: u64,
        new_level_tenths: i16,
        new_pick_message_id: u64,
    ) -> (r: Option<SessionState>)
        ensures
            (final(self).view_sessions(), r) == finish_spec(
                old(self).view_sessions(),
                user,
                pick_message_id,
                new_level_tenths,
                new_pick_message_id,
            ),
    {
        match self.get(user) {
            Some(s) => {
                if s.pick_message_id == pick_message_id && s.in_flight_pick_message_id == Some(
                    pick_message_id,
                ) {
                    let n = SessionState {
                        current_level_tenths: new_level_tenths,
                        pick_message_id: new_pick_message_id,
                        in_flight_pick_message_id: None,
                        ..s
                    };
                    self.sessions.insert(user, n);
                    Some(n)
                } else {
                    None
                }
            },
            None => None,
        }
    }

    /// Gives up a claimed pick, leaving the game as it was.
    pub fn release_session_claim(&mut self, user: u64, pick_message_id: u64) -> (r: Option<SessionState>)
        ensures
            (final(self).view_sessions(), r) == release_spec(old(self).view_sessions(), user, pick_message_id),
    {
        match self.get(user) {
            Some(s) => {
                if s.pick_message_id == pick_message_id && s.in_flight_pick_message_id == Some(
                    pick_message_id,
                ) {
                    let n = SessionState { in_flight_pick_message_id: None, ..s };
                    self.sessions.insert(user, n);
                    Some(n)
                } else {
                    None
                }
            },
            None => None,
        }
    }

    /// Ends the game played in a thread, returning it. Which game ends when several are played
    /// in the same thread depends on the order in which the map is walked, and is not stated.
    pub fn remove_session_by_thread_id(&mut self, thread_channel_id: u64) -> (r: Option<SessionState>)
        ensures
            match r {
                Some(s) => s.thread_channel_id == thread_channel_id && exists|user: u64|
                    #[trigger] old(self).view_sessions().contains_key(user) && old(
                        self,
                    ).view_sessions()[user] == s && final(self).view_sessions() == old(
                        self,
                    ).view_sessions().remove(user),
                None => final(self).view_sessions() == old(self).view_sessions() && forall|user: u64|
                    #[trigger] old(self).view_sessions().contains_key(user) ==> old(
                        self,
                    ).view_sessions()[user].thread_channel_id != thread_channel_id,
            },
    {
        let ghost m = self.sessions@;
        let ghost mut seen: Seq<u64> = Seq::empty();
        let mut found: Option<u64> = None;
        for entry in it: self.sessions.iter()
            invariant
                m == self.sessions@,
                it.seq().len() == m.dom().len(),
                forall|i: int|
                    0 <= i < it.seq().len() ==> m.contains_key(*(#[trigger] it.seq()[i]).0)
                        && m[*it.seq()[i].0] == *it.seq()[i].1,
                forall|k: u64| #[trigger] m.contains_key(k) ==> it.seq().contains((&k, &m[k])),
                seen.len() == it.index(),
                forall|i: int| 0 <= i < seen.len() ==> #[trigger] seen[i] == *it.seq()[i].0,
                forall|k: u64|
                    #[trigger] m.contains_key(k) ==> seen.contains(k) || it.index() < it.seq().len(),
                match found {
                    Some(u) => m.contains_key(u) && m[u].thread_channel_id == thread_channel_id,
                    None => forall|i: int|
                        0 <= i < seen.len() ==> m[#[trigger] seen[i]].thread_channel_id
                            != thread_channel_id,
                },
        {
            proof {
                let i = seen.len() as int;
                seen = seen.push(*entry.0);
                assert(entry == it.seq()[i]);
                assert forall|k: u64| #[trigger] m.contains_key(k) implies seen.contains(k) || i + 1
                    < it.seq().len() by {
                    if i + 1 >= it.seq().len() {
                        let j = it.seq().index_of((&k, &m[k]));
                        assert(seen[j] == k);
                    }
                }
            }
            if found.is_none() && entry.1.thread_channel_id == thread_channel_id {
                found = Some(*entry.0);
            }
        }
        match found {
            Some(user) => {
                let r = self.sessions.remove(&user);
                assert(self.sessions@ =~= m.remove(user));
                r
            },
            None => {
                proof {
                    assert forall|k: u64| #[trigger] m.contains_key(k) implies m[k].thread_channel_id
                        != thread_channel_id by {
                        let j = seen.index_of(k);
                        assert(seen[j] == k);
                    }
                }
                None
            },
        }
    }
}

/// A pick can be claimed only once: after a claim, a second claim of the same pick fails and
/// changes nothing.
pub proof fn law_claim_is_exclusive(m: Map<u64, SessionState>, user: u64, pick: u64)
    ensures
        claim_spec(claim_spec(m, user, pick).0, user, pick).1 is None,
        claim_spec(claim_spec(m, user, pick).0, user, pick).0 == claim_spec(m, user, pick).0,
{
}

/// Releasing a claim gives back the game as it was before the claim.
pub proof fn law_release_undoes_claim(m: Map<u64, SessionState>, user: u64, pick: u64)
    requires
        claim_spec(m, user, pick).1 is Some,
    ensures
        release_spec(claim_spec(m, user, pick).0, user, pick).1 == session_of(m, user),
        release_spec(claim_spec(m, user, pick).0, user, pick).0 == m,
{
    assert(m.insert(user, m[user]) =~= m);
}

/// After a claim, finishing the pick moves the game to the new level and pick, with nothing
/// being handled; without a claim, finishing does nothing.
pub proof fn law_finish_after_claim(
    m: Map<u64, SessionState>,
    user: u64,
    pick: u64,
    new_level: i16,
    new_pick: u64,
)
    ensures
        claim_spec(m, user, pick).1 matches Some(c) ==> finish_spec(
            claim_spec(m, user, pick).0,
            user,
            pick,
            new_level,
            new_pick,
        ).1 == Some(
            SessionState {
                current_level_tenths: new_level,
                pick_message_id: new_pick,
                in_flight_pick_message_id: None,
                thread_channel_id: c.thread_channel_id,
            },
        ),
        (session_of(m, user) matches Some(s) && s.in_flight_pick_message_id is None) ==> finish_spec(
            m,
            user,
            pick,
            new_level,
            new_pick,
        ) == (m, None::<SessionState>),
{
}

/// Trusted: `rand::Rng::gen_range` on `rand::thread_rng()` over `0..len`, which panics on an
/// empty range: a position below `len`, drawn at random; which one is not stated.
#[verifier::external_body]
fn random_position(len: usize) -> (r: usize)
    requires
        len > 0,
    ensures
        r < len,
{
    rand::Rng::gen_range(&mut rand::thread_rng(), 0..len)
}

/// A chart drawn at random from the pool of a level: the pool's size and the drawn position,
/// or none for an empty pool.
pub fn choose_candidate_at_level(pool_len: usize) -> (r: Option<(usize, usize)>)
    ensures
        pool_len == 0 ==> r is None,
        pool_len > 0 ==> (r matches Some((n, i)) && n == pool_len && i < pool_len),
{
    if pool_len == 0 {
        None
    } else {
        Some((pool_len, random_position(pool_len)))
    }
}

/// The text of a pick: the chart in bold, the player's achievement (or `Unplayed`) and marks,
/// then when it was last played and how often.
pub open spec fn pick_description_spec(
    title: Seq<char>,
    chart_type: ChartType,
    diff_category: DifficultyCategory,
    level: Seq<char>,
    internal_level: Seq<char>,
    score: Option<SongDetailScoreApiResponse>,
    mentions: Seq<(Seq<char>, Seq<char>)>,
) -> Seq<char> {
    let chart_line = "["@ + chart_type.name() + "] ["@ + diff_category.name() + "]("@
        + youtube_search_url_spec(title, chart_type, diff_category) + ") "@ + level_with_internal(
        level,
        Some(internal_level),
    );
    let achievement = match score {
        Some(s) => match s.achievement_x10000 {
            Some(a) => rate_text(a as int),
            None => "Unplayed"@,
        },
        None => "Unplayed"@,
    };
    let (rank, fc, sync, meta) = match score {
        Some(s) => (s.rank, s.fc, s.sync, score_detail_suffix(opt_view(s.last_played_at), s.play_count)),
        None => (None, None, None, Seq::empty()),
    };
    "**"@ + chart_line + "**\n"@ + achievement + " • "@ + rank_text(mentions, rank, "-"@) + " • "@
        + fc_text(mentions, fc, "-"@) + " • "@ + sync_text(mentions, sync, "-"@) + "\n"@ + meta
}

/// The text of a pick (see above); the internal level is already written with one decimal.
pub fn pick_description(
    title: &str,
    chart_type: ChartType,
    diff_category: DifficultyCategory,
    level: &str,
    internal_level: &str,
    score: Option<&SongDetailScoreApiResponse>,
    status_emojis: &MaimaiStatusEmojis,
) -> (r: String)
    requires
        score matches Some(s) ==> (s.achievement_x10000 matches Some(a) ==> -0x20_0000_0000_0000 <= a
            <= 0x20_0000_0000_0000),
    ensures
        r@ == pick_description_spec(
            title@,
            chart_type,
            diff_category,
            level@,
            internal_level@,
            match score {
                Some(s) => Some(*s),
                None => None,
            },
            status_emojis.mentions_view(),
        ),
{
    let level_text = format_level_with_internal(level, Some(internal_level));
    let chart_line = linked_chart_label(title, chart_type, diff_category, level_text.as_str());
    let achievement = match score {
        Some(s) => match s.achievement_x10000 {
            Some(a) => format_rate_x10000(a),
            None => String::from_str("Unplayed"),
        },
        None => String::from_str("Unplayed"),
    };
    let (rank, fc, sync) = match score {
        Some(s) => (s.rank, s.fc, s.sync),
        None => (None, None, None),
    };
    let mut meta = String::new();
    if let Some(s) = score {
        if let Some(v) = &s.last_played_at {
            meta.push_str("Last: ");
            meta.push_str(v.as_str());
        }
        if let Some(n) = s.play_count {
            if s.last_played_at.is_some() {
                meta.push_str(" • ");
            }
            meta.push_str("Plays: ");
            push_decimal(&mut meta, n as u64);
        }
        proof {
            reveal_strlit("Last: ");
            reveal_strlit(" • ");
            reveal_strlit("Plays: ");
        }
        assert(meta@ =~= score_detail_suffix(opt_view(s.last_played_at), s.play_count));
    }
    let mut out = String::from_str("**");
    out.push_str(chart_line.as_str());
    out.push_str("**\n");
    out.push_str(achievement.as_str());
    out.push_str(" • ");
    out.push_str(format_rank(status_emojis, rank, "-").as_str());
    out.push_str(" • ");
    out.push_str(format_fc(status_emojis, fc, "-").as_str());
    out.push_str(" • ");
    out.push_str(format_sync(status_emojis, sync, "-").as_str());
    out.push_str("\n");
    out.push_str(meta.as_str());
    out
}

/// The name of the thread of a game started at a level.
pub fn session_thread_name(start_level_tenths: i16) -> (r: String)
    ensures
        r@ == "mai-updown "@ + tenths_text(start_level_tenths as int),
{
    let mut s = String::from_str("mai-updown ");
    let level = format_level_tenths(start_level_tenths);
    s.push_str(level.as_str());
    s
}

/// The refusal of a game whose start level has no chart.
pub fn no_charts_at_level_message(level_tenths: i16) -> (r: String)
    ensures
        r@ == "No eligible charts found at internal level **"@ + tenths_text(level_tenths as int)
            + "** with the current filters."@,
{
    let mut s = String::from_str("No eligible charts found at internal level **");
    let level = format_level_tenths(level_tenths);
    s.push_str(level.as_str());
    s.push_str("** with the current filters.");
    s
}

/// The text of the card that opens a game: who started it, at which level, and the controls.
pub fn session_intro_text(user_id: u64, start_level_tenths: i16) -> (r: String)
    ensures
        r@ == "Started by <@"@ + decimal(user_id as nat) + ">\nStart level: **"@ + tenths_text(
            start_level_tenths as int,
        ) + "**\nControls: "@ + REACTION_DOWN@ + " `-0.1` • "@ + REACTION_STAY@ + " `±0.0` • "@
            + REACTION_UP@ + " `+0.1`"@,
{
    let mut s = String::from_str("Started by <@");
    push_decimal(&mut s, user_id);
    s.push_str(">\nStart level: **");
    let level = format_level_tenths(start_level_tenths);
    s.push_str(level.as_str());
    s.push_str("**\nControls: ");
    s.push_str(REACTION_DOWN);
    s.push_str(" `-0.1` • ");
    s.push_str(REACTION_STAY);
    s.push_str(" `±0.0` • ");
    s.push_str(REACTION_UP);
    s.push_str(" `+0.1`");
    s
}

/// Whether a reaction is one the game acts on, and then by whom and with which level change:
/// it must come from a known user that is neither this bot nor another bot, and be one of
/// the three arrows.
pub open spec fn actionable_reaction_spec(
    user_id: Option<u64>,
    own_user_id: u64,
    from_bot: bool,
    emoji: Seq<char>,
) -> Option<(u64, i16)> {
    match user_id {
        Some(u) => if u == own_user_id || from_bot {
            None
        } else {
            match reaction_delta_spec(emoji) {
                Some(d) => Some((u, d)),
                None => None,
            }
        },
        None => None,
    }
}

/// Whether a reaction is one the game acts on (see above); `from_bot` tells whether the member
/// or the cached user behind it is a bot.
pub fn actionable_reaction(user_id: Option<u64>, own_user_id: u64, from_bot: bool, emoji: &str) -> (r:
    Option<(u64, i16)>)
    ensures
        r == actionable_reaction_spec(user_id, own_user_id, from_bot, emoji@),
{
    let u = match user_id {
        Some(u) => u,
        None => {
            return None;
        },
    };
    if u == own_user_id || from_bot {
        return None;
    }
    match reaction_delta(emoji) {
        Some(d) => Some((u, d)),
        None => None,
    }
}

} // verus!
