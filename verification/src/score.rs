//! Score values and leaderboard assembly.
//!
//! The leaderboard of a community is an immutable snapshot: every member's
//! accumulated tracked time, sorted descending. Building one also stamps it
//! into the score cache, where it serves reads until its TTL elapses or a
//! delta invalidates it.

use vstd::prelude::*;

use crate::cache::expired_at;
use crate::cache::DataCache;
use crate::cache::SCORE_CACHE_TTL_SECS;
use crate::ids::GuildId;
use crate::ids::UserId;

verus! {

broadcast use vstd::seq_lib::group_to_multiset_ensures;

/// Which accumulator a duration counts toward: time in a regular tracked
/// channel, or time in the community's away channel.
#[derive(Clone, Copy, Debug, PartialEq, Eq, Structural)]
pub enum ScoreType {
    Voice,
    Afk,
}

/// One leaderboard row: a member's accumulated tracked time, in seconds.
#[derive(Clone, Copy, Debug, PartialEq, Eq, Structural)]
pub struct Score {
    pub guild_id: GuildId,
    pub user_id: UserId,
    pub score: u64,
}

/// Descending by accumulated time: every row outranks the rows after it.
pub open spec fn sorted_desc(s: Seq<Score>) -> bool {
    forall|i: int, j: int| 0 <= i < j < s.len() ==> s[i].score >= s[j].score
}

/// The leaderboard rows of `guild_id` made from raw (member id, seconds)
/// entries, in entry order.
pub open spec fn spec_rows(guild_id: GuildId, entries: Seq<(u64, u64)>) -> Seq<Score> {
    entries.map_values(|e: (u64, u64)| Score { guild_id, user_id: UserId(e.0), score: e.1 })
}

/// Inserts `row` into a descending leaderboard, keeping it descending: the
/// result holds exactly the old rows plus `row`.
fn insert_sorted(rows: &mut Vec<Score>, row: Score)
    requires
        sorted_desc(old(rows)@),
    ensures
        sorted_desc(final(rows)@),
        final(rows)@.to_multiset() == old(rows)@.to_multiset().insert(row),
        final(rows)@.len() == old(rows)@.len() + 1,
{
    let mut idx: usize = 0;
    while idx < rows.len() && rows[idx].score >= row.score
        invariant
            idx <= rows@.len(),
            forall|j: int| 0 <= j < idx ==> rows@[j].score >= row.score,
            rows@ == old(rows)@,
        decreases rows@.len() - idx,
    {
        idx = idx + 1;
    }
    rows.insert(idx, row);
    proof {
        assert forall|a: int, b: int|
            0 <= a < b < rows@.len() implies rows@[a].score >= rows@[b].score by {
            if a < idx && b < idx {
            } else if b == idx {
                assert(rows@[a] == old(rows)@[a]);
            } else if a == idx {
                assert(rows@[b] == old(rows)@[b - 1]);
                assert(old(rows)@[idx as int].score < row.score);
                assert(old(rows)@[b - 1].score <= old(rows)@[idx as int].score);
            } else if a < idx {
                assert(rows@[a] == old(rows)@[a]);
                assert(rows@[b] == old(rows)@[b - 1]);
            } else {
                assert(rows@[a] == old(rows)@[a - 1]);
                assert(rows@[b] == old(rows)@[b - 1]);
            }
        }
    }
}

/// Leaderboard assembly over the raw per-member totals read back from the
/// record store.
pub struct Scores {}

impl Scores {
    /// Builds the leaderboard of `guild_id` from raw (member id, seconds)
    /// entries: the same rows sorted descending by accumulated time. The
    /// result is also stamped into the score cache at `now` with the
    /// standard TTL, replacing any previous snapshot for this community.
    pub fn get_all_score(
        cache: &mut DataCache,
        guild_id: GuildId,
        entries: Vec<(u64, u64)>,
        now: u64,
    ) -> (r: Vec<Score>)
        ensures
            sorted_desc(r@),
            r@.to_multiset() == spec_rows(guild_id, entries@).to_multiset(),
            r@.len() == entries@.len(),
            match final(cache).spec_scores(guild_id) {
                Some(entry) => entry.spec_inner()@ == r@ && entry.spec_ttl()
                    == SCORE_CACHE_TTL_SECS && entry.spec_timestamp() == now,
                None => false,
            },
            forall|g2: GuildId|
                g2 != guild_id ==> final(cache).spec_scores(g2) == old(cache).spec_scores(g2),
            forall|g2: GuildId| final(cache).spec_config(g2) == old(cache).spec_config(g2),
    {
        let mut rows: Vec<Score> = Vec::new();
        let mut i: usize = 0;
        while i < entries.len()
            invariant
                i <= entries@.len(),
                sorted_desc(rows@),
                rows@.to_multiset() == spec_rows(guild_id, entries@.take(i as int)).to_multiset(),
                rows@.len() == i,
            decreases entries@.len() - i,
        {
            let entry = entries[i];
            let row = Score { guild_id, user_id: UserId(entry.0), score: entry.1 };
            proof {
                assert(spec_rows(guild_id, entries@.take(i + 1)) =~= spec_rows(
                    guild_id,
                    entries@.take(i as int),
                ).push(row));
            }
            insert_sorted(&mut rows, row);
            i = i + 1;
        }
        proof {
            assert(entries@.take(entries@.len() as int) =~= entries@);
        }
        let snapshot = copy_rows(&rows);
        cache.set_scores(guild_id, snapshot, now);
        rows
    }
}

/// An element-for-element copy of a leaderboard.
fn copy_rows(rows: &Vec<Score>) -> (r: Vec<Score>)
    ensures
        r@ == rows@,
{
    let mut out: Vec<Score> = Vec::new();
    let mut i: usize = 0;
    while i < rows.len()
        invariant
            i <= rows@.len(),
            out@ == rows@.take(i as int),
        decreases rows@.len() - i,
    {
        out.push(rows[i]);
        proof {
            assert(out@ =~= rows@.take(i + 1));
        }
        i = i + 1;
    }
    proof {
        assert(out@ =~= rows@);
    }
    out
}

/// The cached leaderboard of `guild_id`, if a snapshot exists and its TTL
/// has not elapsed at `now`: the read side serves this copy and only falls
/// back to a rebuild on a miss.
pub fn cached_leaderboard(cache: &DataCache, guild_id: GuildId, now: u64) -> (r: Option<
    Vec<Score>,
>)
    ensures
        match r {
            Some(v) => match cache.spec_scores(guild_id) {
                Some(entry) => !expired_at(entry.spec_timestamp(), entry.spec_ttl(), now) && v@
                    == entry.spec_inner()@,
                None => false,
            },
            None => match cache.spec_scores(guild_id) {
                Some(entry) => expired_at(entry.spec_timestamp(), entry.spec_ttl(), now),
                None => true,
            },
        },
{
    match cache.get_scores(guild_id) {
        Some(entry) => entry.get_cloned(now),
        None => None,
    }
}

} // verus!
