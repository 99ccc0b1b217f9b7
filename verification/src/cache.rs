//! Caches on the read side of the system.
//!
//! [`Cache`] is a TTL-bounded snapshot holder: once constructed it is never
//! edited, and after its TTL elapses it behaves as a miss. [`DataCache`]
//! groups the per-community caches: the community configuration (no TTL,
//! invalidated explicitly on write) and the most recent sorted leaderboard
//! (TTL-bounded, invalidated on any score mutation).

use vstd::prelude::*;

use crate::config::Config;
use crate::ids::GuildId;
use crate::score::Score;

verus! {

broadcast use vstd::std_specs::hash::group_hash_axioms;

/// How long a cached leaderboard stays fresh, in seconds.
pub const SCORE_CACHE_TTL_SECS: u64 = 3600;

/// Whether a snapshot taken at `timestamp` with time-to-live `ttl` is
/// already expired at `now`.
pub open spec fn expired_at(timestamp: u64, ttl: u64, now: u64) -> bool {
    now > timestamp + ttl
}

/// A snapshot with a creation instant and a fixed time-to-live. The snapshot
/// is immutable: invalidation replaces or discards the whole `Cache` value,
/// never edits it.
#[derive(Clone, Copy, Debug)]
pub struct Cache<T> {
    inner: T,
    ttl: u64,
    timestamp: u64,
}

impl<T> Cache<T> {
    /// The cached snapshot, independent of expiry.
    pub closed spec fn spec_inner(&self) -> T {
        self.inner
    }

    /// The snapshot's time-to-live in seconds.
    pub closed spec fn spec_ttl(&self) -> u64 {
        self.ttl
    }

    /// The instant the snapshot was taken.
    pub closed spec fn spec_timestamp(&self) -> u64 {
        self.timestamp
    }

    /// Wraps a snapshot taken at `now` with a time-to-live of `ttl` seconds.
    pub fn new(inner: T, ttl: u64, now: u64) -> (r: Cache<T>)
        ensures
            r.spec_inner() == inner,
            r.spec_ttl() == ttl,
            r.spec_timestamp() == now,
    {
        Cache { inner, ttl, timestamp: now }
    }

    /// The snapshot, unless its TTL has elapsed at `now`: an expired entry
    /// behaves exactly as a miss.
    pub fn get(&self, now: u64) -> (r: Option<&T>)
        ensures
            match r {
                Some(v) => !expired_at(self.spec_timestamp(), self.spec_ttl(), now) && *v
                    == self.spec_inner(),
                None => expired_at(self.spec_timestamp(), self.spec_ttl(), now),
            },
    {
        if self.is_expired(now) {
            None
        } else {
            Some(&self.inner)
        }
    }

    /// Whether the snapshot's TTL has elapsed at `now`. An instant earlier
    /// than the creation instant counts as no elapsed time at all.
    pub fn is_expired(&self, now: u64) -> (r: bool)
        ensures
            r == expired_at(self.spec_timestamp(), self.spec_ttl(), now),
    {
        if now <= self.timestamp {
            false
        } else {
            now - self.timestamp > self.ttl
        }
    }
}

impl Cache<Vec<Score>> {
    /// A copy of the cached leaderboard, unless the TTL has elapsed at
    /// `now`. The copy leaves the snapshot itself untouched.
    pub fn get_cloned(&self, now: u64) -> (r: Option<Vec<Score>>)
        ensures
            match r {
                Some(v) => !expired_at(self.spec_timestamp(), self.spec_ttl(), now) && v@
                    == self.spec_inner()@,
                None => expired_at(self.spec_timestamp(), self.spec_ttl(), now),
            },
    {
        match self.get(now) {
            Some(scores) => {
                let mut out: Vec<Score> = Vec::new();
                let mut i: usize = 0;
                while i < scores.len()
                    invariant
                        i <= scores@.len(),
                        out@ == scores@.take(i as int),
                    decreases scores@.len() - i,
                {
                    out.push(scores[i]);
                    proof {
                        assert(out@ =~= scores@.take(i + 1 as int));
                    }
                    i = i + 1;
                }
                proof {
                    assert(out@ =~= scores@);
                }
                Some(out)
            },
            None => None,
        }
    }
}

/// The per-community caches: configuration and the latest leaderboard.
pub struct DataCache {
    configs: vstd::hash_map::HashMapWithView<u64, Config>,
    scores: vstd::hash_map::HashMapWithView<u64, Cache<Vec<Score>>>,
}

impl DataCache {
    /// The cached configuration of `guild_id`, if any.
    pub closed spec fn spec_config(&self, guild_id: GuildId) -> Option<Config> {
        if self.configs@.contains_key(guild_id.0) {
            Some(self.configs@[guild_id.0])
        } else {
            None
        }
    }

    /// The cached leaderboard snapshot of `guild_id`, if any.
    pub closed spec fn spec_scores(&self, guild_id: GuildId) -> Option<Cache<Vec<Score>>> {
        if self.scores@.contains_key(guild_id.0) {
            Some(self.scores@[guild_id.0])
        } else {
            None
        }
    }

    /// An empty cache: no configuration and no leaderboard for any
    /// community.
    pub fn new() -> (r: DataCache)
        ensures
            forall|g: GuildId| r.spec_config(g) is None,
            forall|g: GuildId| r.spec_scores(g) is None,
    {
        DataCache {
            configs: vstd::hash_map::HashMapWithView::new(),
            scores: vstd::hash_map::HashMapWithView::new(),
        }
    }

    /// The cached configuration of `guild_id`, if any.
    pub fn get_config(&self, guild_id: GuildId) -> (r: Option<&Config>)
        ensures
            match r {
                Some(c) => self.spec_config(guild_id) == Some(*c),
                None => self.spec_config(guild_id) is None,
            },
    {
        self.configs.get(&guild_id.0)
    }

    /// Caches `config` for `guild_id`, returning the configuration it
    /// replaces, if any.
    pub fn insert_config(&mut self, guild_id: GuildId, config: Config) -> (r: Option<Config>)
        ensures
            r == old(self).spec_config(guild_id),
            final(self).spec_config(guild_id) == Some(config),
            forall|g2: GuildId|
                g2 != guild_id ==> final(self).spec_config(g2) == old(self).spec_config(g2),
            forall|g2: GuildId| final(self).spec_scores(g2) == old(self).spec_scores(g2),
    {
        let previous = match self.configs.get(&guild_id.0) {
            Some(c) => Some(*c),
            None => None,
        };
        self.configs.insert(guild_id.0, config);
        previous
    }

    /// Caches `scores` as the leaderboard of `guild_id`, stamped at `now`
    /// with the standard TTL.
    pub fn set_scores(&mut self, guild_id: GuildId, scores: Vec<Score>, now: u64)
        ensures
            match final(self).spec_scores(guild_id) {
                Some(entry) => entry.spec_inner()@ == scores@ && entry.spec_ttl()
                    == SCORE_CACHE_TTL_SECS && entry.spec_timestamp() == now,
                None => false,
            },
            forall|g2: GuildId|
                g2 != guild_id ==> final(self).spec_scores(g2) == old(self).spec_scores(g2),
            forall|g2: GuildId| final(self).spec_config(g2) == old(self).spec_config(g2),
    {
        let entry = Cache::new(scores, SCORE_CACHE_TTL_SECS, now);
        self.scores.insert(guild_id.0, entry);
    }

    /// The cached leaderboard snapshot of `guild_id`, if any, expired or
    /// not.
    pub fn get_scores(&self, guild_id: GuildId) -> (r: Option<&Cache<Vec<Score>>>)
        ensures
            match r {
                Some(entry) => self.spec_scores(guild_id) == Some(*entry),
                None => self.spec_scores(guild_id) is None,
            },
    {
        self.scores.get(&guild_id.0)
    }

    /// Invalidates the cached leaderboard of `guild_id`, whatever its TTL:
    /// called whenever a delta for that community is accepted, so a reader
    /// never sees a snapshot that predates a known mutation.
    pub fn rem_scores(&mut self, guild_id: GuildId)
        ensures
            final(self).spec_scores(guild_id) is None,
            forall|g2: GuildId|
                g2 != guild_id ==> final(self).spec_scores(g2) == old(self).spec_scores(g2),
            forall|g2: GuildId| final(self).spec_config(g2) == old(self).spec_config(g2),
    {
        self.scores.remove(&guild_id.0);
    }
}

} // verus!
