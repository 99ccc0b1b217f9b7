//! An exact in-memory model of the external record store.
//!
//! The remote store exposes list-with-filter, create and update over three
//! collections. [`StoreModel`] gives those operations precise semantics: a
//! created row gets a fresh store-assigned id, an update replaces the row
//! with that id, and a filtered list resolves natural keys exactly as the
//! remote filters do. The write pipeline's correctness statements — one
//! score row per member, accumulators equal to the sum of applied deltas —
//! are proved against this model.

use vstd::prelude::*;

use crate::records::DefaultFields;
use crate::records::GuildRecord;
use crate::records::PlayerRecord;
use crate::records::ScoreRecord;

verus! {

/// The index of the first element of `s` satisfying `p`, if any.
pub open spec fn first_match_idx<T>(s: Seq<T>, p: spec_fn(T) -> bool) -> Option<int>
    decreases s.len(),
{
    if s.len() == 0 {
        None
    } else if p(s[0]) {
        Some(0)
    } else {
        match first_match_idx(s.drop_first(), p) {
            Some(i) => Some(i + 1),
            None => None,
        }
    }
}

/// What `first_match_idx` finds: the element at the index satisfies `p`,
/// nothing before it does, and a `None` means nothing in `s` does.
pub proof fn lemma_first_match_props<T>(s: Seq<T>, p: spec_fn(T) -> bool)
    ensures
        match first_match_idx(s, p) {
            Some(i) => 0 <= i < s.len() && p(s[i]) && (forall|j: int| 0 <= j < i ==> !p(s[j])),
            None => forall|j: int| 0 <= j < s.len() ==> !p(s[j]),
        },
    decreases s.len(),
{
    if s.len() == 0 {
    } else if p(s[0]) {
    } else {
        lemma_first_match_props(s.drop_first(), p);
        match first_match_idx(s.drop_first(), p) {
            Some(i) => {
                assert forall|j: int| 0 <= j < i + 1 implies !p(s[j]) by {
                    if j > 0 {
                        assert(s.drop_first()[j - 1] == s[j]);
                    }
                }
            },
            None => {
                assert forall|j: int| 0 <= j < s.len() implies !p(s[j]) by {
                    if j > 0 {
                        assert(s.drop_first()[j - 1] == s[j]);
                    }
                }
            },
        }
    }
}

/// Appending an element leaves an existing first match where it was, and
/// otherwise the new element is the first match exactly when it satisfies
/// `p`.
pub proof fn lemma_first_match_push<T>(s: Seq<T>, p: spec_fn(T) -> bool, x: T)
    ensures
        first_match_idx(s.push(x), p) == (match first_match_idx(s, p) {
            Some(i) => Some(i),
            None => if p(x) {
                Some(s.len() as int)
            } else {
                None::<int>
            },
        }),
    decreases s.len(),
{
    if s.len() == 0 {
        assert(s.push(x)[0] == x);
        assert(s.push(x).drop_first() =~= Seq::<T>::empty());
        assert(first_match_idx(s.push(x).drop_first(), p) is None);
    } else {
        assert(s.push(x)[0] == s[0]);
        assert(s.push(x).drop_first() =~= s.drop_first().push(x));
        lemma_first_match_push(s.drop_first(), p, x);
        if p(s[0]) {
            assert(first_match_idx(s.push(x), p) == Some(0int));
            assert(first_match_idx(s, p) == Some(0int));
        } else {
            assert(first_match_idx(s.push(x), p) == (match first_match_idx(
                s.drop_first().push(x),
                p,
            ) {
                Some(i) => Some(i + 1),
                None => None::<int>,
            }));
            assert(first_match_idx(s, p) == (match first_match_idx(s.drop_first(), p) {
                Some(i) => Some(i + 1),
                None => None::<int>,
            }));
        }
    }
}

/// Two sequences whose elements agree pointwise on their predicates have the
/// same first match.
pub proof fn lemma_first_match_same<T>(
    s1: Seq<T>,
    s2: Seq<T>,
    p1: spec_fn(T) -> bool,
    p2: spec_fn(T) -> bool,
)
    requires
        s1.len() == s2.len(),
        forall|j: int| 0 <= j < s1.len() ==> p1(s1[j]) == p2(s2[j]),
    ensures
        first_match_idx(s1, p1) == first_match_idx(s2, p2),
    decreases s1.len(),
{
    if s1.len() == 0 {
    } else {
        assert(p1(s1[0]) == p2(s2[0]));
        assert forall|j: int| 0 <= j < s1.drop_first().len() implies p1(s1.drop_first()[j]) == p2(
            s2.drop_first()[j],
        ) by {
            assert(s1.drop_first()[j] == s1[j + 1]);
            assert(s2.drop_first()[j] == s2[j + 1]);
        }
        lemma_first_match_same(s1.drop_first(), s2.drop_first(), p1, p2);
    }
}

/// The filter a community row must satisfy to match natural key `sid`.
pub open spec fn guild_key_is(sid: u64) -> spec_fn(GuildRecord) -> bool {
    |g: GuildRecord| g.server_id == sid
}

/// The filter a community row must satisfy to match row id `id`.
pub open spec fn guild_id_is(id: u64) -> spec_fn(GuildRecord) -> bool {
    |g: GuildRecord| g.default.id == id
}

/// The filter a member row must satisfy to match natural key `uid`.
pub open spec fn player_key_is(uid: u64) -> spec_fn(PlayerRecord) -> bool {
    |p: PlayerRecord| p.user_id == uid
}

/// The filter a score row must satisfy to belong to the community row `g`
/// and the member row `p`.
pub open spec fn score_key_is(g: u64, p: u64) -> spec_fn(ScoreRecord) -> bool {
    |s: ScoreRecord| s.guild == g && s.player == p
}

/// The filter a score row must satisfy to match row id `id`.
pub open spec fn score_id_is(id: u64) -> spec_fn(ScoreRecord) -> bool {
    |s: ScoreRecord| s.default.id == id
}

/// The in-memory model of the remote record store: the three collections
/// plus the id counter from which fresh row ids are assigned.
pub struct StoreModel {
    pub guilds: Vec<GuildRecord>,
    pub players: Vec<PlayerRecord>,
    pub scores: Vec<ScoreRecord>,
    pub next_id: u64,
}

impl StoreModel {
    /// Index of the community row with natural key `sid`, if any.
    pub open spec fn guild_idx(&self, sid: u64) -> Option<int> {
        first_match_idx(self.guilds@, guild_key_is(sid))
    }

    /// Index of the community row with row id `id`, if any.
    pub open spec fn guild_idx_by_id(&self, id: u64) -> Option<int> {
        first_match_idx(self.guilds@, guild_id_is(id))
    }

    /// Index of the member row with natural key `uid`, if any.
    pub open spec fn player_idx(&self, uid: u64) -> Option<int> {
        first_match_idx(self.players@, player_key_is(uid))
    }

    /// Index of the score row belonging to community row `g` and member row
    /// `p`, if any.
    pub open spec fn score_idx(&self, g: u64, p: u64) -> Option<int> {
        first_match_idx(self.scores@, score_key_is(g, p))
    }

    /// Index of the score row with row id `id`, if any.
    pub open spec fn score_idx_by_id(&self, id: u64) -> Option<int> {
        first_match_idx(self.scores@, score_id_is(id))
    }

    /// The community row with natural key `sid`, if any.
    pub open spec fn spec_guild_record(&self, sid: u64) -> Option<GuildRecord> {
        match self.guild_idx(sid) {
            Some(i) => Some(self.guilds@[i]),
            None => None,
        }
    }

    /// The member row with natural key `uid`, if any.
    pub open spec fn spec_player_record(&self, uid: u64) -> Option<PlayerRecord> {
        match self.player_idx(uid) {
            Some(i) => Some(self.players@[i]),
            None => None,
        }
    }

    /// The score row of the member with natural keys (`sid`, `uid`), found
    /// exactly as the remote filter finds it: resolve the community and
    /// member rows, then look the score row up by their row ids.
    pub open spec fn spec_member_score(&self, sid: u64, uid: u64) -> Option<ScoreRecord> {
        match self.guild_idx(sid) {
            None => None,
            Some(gi) => match self.player_idx(uid) {
                None => None,
                Some(pi) => match self.score_idx(
                    self.guilds@[gi].default.id,
                    self.players@[pi].default.id,
                ) {
                    None => None,
                    Some(si) => Some(self.scores@[si]),
                },
            },
        }
    }

    /// Well-formedness: every natural key resolves to at most one row, row
    /// ids are unique and below the id counter, and score rows only ever
    /// reference row ids the store has assigned.
    pub open spec fn wf(&self) -> bool {
        &&& (forall|i: int, j: int|
            0 <= i < self.guilds@.len() && 0 <= j < self.guilds@.len() && i != j
                ==> self.guilds@[i].server_id != self.guilds@[j].server_id)
        &&& (forall|i: int, j: int|
            0 <= i < self.guilds@.len() && 0 <= j < self.guilds@.len() && i != j
                ==> self.guilds@[i].default.id != self.guilds@[j].default.id)
        &&& (forall|i: int| 0 <= i < self.guilds@.len() ==> self.guilds@[i].default.id < self.next_id)
        &&& (forall|i: int, j: int|
            0 <= i < self.players@.len() && 0 <= j < self.players@.len() && i != j
                ==> self.players@[i].user_id != self.players@[j].user_id)
        &&& (forall|i: int, j: int|
            0 <= i < self.players@.len() && 0 <= j < self.players@.len() && i != j
                ==> self.players@[i].default.id != self.players@[j].default.id)
        &&& (forall|i: int|
            0 <= i < self.players@.len() ==> self.players@[i].default.id < self.next_id)
        &&& (forall|i: int, j: int|
            0 <= i < self.scores@.len() && 0 <= j < self.scores@.len() && i != j ==> !(
            self.scores@[i].guild == self.scores@[j].guild && self.scores@[i].player
                == self.scores@[j].player))
        &&& (forall|i: int, j: int|
            0 <= i < self.scores@.len() && 0 <= j < self.scores@.len() && i != j
                ==> self.scores@[i].default.id != self.scores@[j].default.id)
        &&& (forall|i: int| 0 <= i < self.scores@.len() ==> self.scores@[i].default.id < self.next_id)
        &&& (forall|i: int| 0 <= i < self.scores@.len() ==> self.scores@[i].guild < self.next_id)
        &&& (forall|i: int| 0 <= i < self.scores@.len() ==> self.scores@[i].player < self.next_id)
    }

    /// An empty store: no rows in any collection, ids assigned from 1.
    pub fn new() -> (r: StoreModel)
        ensures
            r.wf(),
            r.guilds@.len() == 0,
            r.players@.len() == 0,
            r.scores@.len() == 0,
            r.next_id == 1,
    {
        StoreModel { guilds: Vec::new(), players: Vec::new(), scores: Vec::new(), next_id: 1 }
    }

    /// The community row with natural key `sid`, as the remote list filter
    /// returns it.
    pub fn find_guild(&self, sid: u64) -> (r: Option<GuildRecord>)
        ensures
            r == (match self.guild_idx(sid) {
                Some(i) => Some(self.guilds@[i]),
                None => None::<GuildRecord>,
            }),
    {
        proof {
            lemma_first_match_props(self.guilds@, guild_key_is(sid));
        }
        let mut i: usize = 0;
        while i < self.guilds.len()
            invariant
                i <= self.guilds@.len(),
                forall|j: int| 0 <= j < i ==> !(guild_key_is(sid)(self.guilds@[j])),
            decreases self.guilds@.len() - i,
        {
            if self.guilds[i].server_id == sid {
                proof {
                    lemma_first_match_props(self.guilds@, guild_key_is(sid));
                }
                return Some(self.guilds[i]);
            }
            i = i + 1;
        }
        None
    }

    /// The member row with natural key `uid`, as the remote list filter
    /// returns it.
    pub fn find_player(&self, uid: u64) -> (r: Option<PlayerRecord>)
        ensures
            r == (match self.player_idx(uid) {
                Some(i) => Some(self.players@[i]),
                None => None::<PlayerRecord>,
            }),
    {
        proof {
            lemma_first_match_props(self.players@, player_key_is(uid));
        }
        let mut i: usize = 0;
        while i < self.players.len()
            invariant
                i <= self.players@.len(),
                forall|j: int| 0 <= j < i ==> !(player_key_is(uid)(self.players@[j])),
            decreases self.players@.len() - i,
        {
            if self.players[i].user_id == uid {
                proof {
                    lemma_first_match_props(self.players@, player_key_is(uid));
                }
                return Some(self.players[i]);
            }
            i = i + 1;
        }
        None
    }

    /// The score row belonging to community row `g` and member row `p`, as
    /// the remote list filter returns it.
    pub fn find_score(&self, g: u64, p: u64) -> (r: Option<ScoreRecord>)
        ensures
            r == (match self.score_idx(g, p) {
                Some(i) => Some(self.scores@[i]),
                None => None::<ScoreRecord>,
            }),
    {
        proof {
            lemma_first_match_props(self.scores@, score_key_is(g, p));
        }
        let mut i: usize = 0;
        while i < self.scores.len()
            invariant
                i <= self.scores@.len(),
                forall|j: int| 0 <= j < i ==> !(score_key_is(g, p)(self.scores@[j])),
            decreases self.scores@.len() - i,
        {
            if self.scores[i].guild == g && self.scores[i].player == p {
                proof {
                    lemma_first_match_props(self.scores@, score_key_is(g, p));
                }
                return Some(self.scores[i]);
            }
            i = i + 1;
        }
        None
    }

    /// The score row of the member with natural keys (`sid`, `uid`): the
    /// remote filter's join, resolved step by step.
    pub fn find_member_score(&self, sid: u64, uid: u64) -> (r: Option<ScoreRecord>)
        ensures
            r == self.spec_member_score(sid, uid),
    {
        match self.find_guild(sid) {
            None => None,
            Some(g) => match self.find_player(uid) {
                None => None,
                Some(p) => self.find_score(g.default.id, p.default.id),
            },
        }
    }

    /// Stores a new community row. The store assigns the next fresh row id;
    /// everything else is taken from `record` as submitted.
    pub fn create_guild(&mut self, record: GuildRecord) -> (r: GuildRecord)
        requires
            old(self).wf(),
            old(self).next_id < u64::MAX,
            old(self).guild_idx(record.server_id) is None,
        ensures
            final(self).wf(),
            r == (GuildRecord {
                default: DefaultFields { id: old(self).next_id, created: 0, updated: 0 },
                ..record
            }),
            final(self).guilds@ == old(self).guilds@.push(r),
            final(self).players@ == old(self).players@,
            final(self).scores@ == old(self).scores@,
            final(self).next_id == old(self).next_id + 1,
    {
        let stored = GuildRecord {
            default: DefaultFields { id: self.next_id, created: 0, updated: 0 },
            server_id: record.server_id,
            afk_channel: record.afk_channel,
            graveyard: record.graveyard,
        };
        proof {
            lemma_first_match_props(self.guilds@, guild_key_is(record.server_id));
        }
        self.guilds.push(stored);
        self.next_id = self.next_id + 1;
        stored
    }

    /// Stores a new member row, assigning the next fresh row id.
    pub fn create_player(&mut self, record: PlayerRecord) -> (r: PlayerRecord)
        requires
            old(self).wf(),
            old(self).next_id < u64::MAX,
            old(self).player_idx(record.user_id) is None,
        ensures
            final(self).wf(),
            r == (PlayerRecord {
                default: DefaultFields { id: old(self).next_id, created: 0, updated: 0 },
                ..record
            }),
            final(self).players@ == old(self).players@.push(r),
            final(self).guilds@ == old(self).guilds@,
            final(self).scores@ == old(self).scores@,
            final(self).next_id == old(self).next_id + 1,
    {
        let stored = PlayerRecord {
            default: DefaultFields { id: self.next_id, created: 0, updated: 0 },
            user_id: record.user_id,
        };
        proof {
            lemma_first_match_props(self.players@, player_key_is(record.user_id));
        }
        self.players.push(stored);
        self.next_id = self.next_id + 1;
        stored
    }

    /// Stores a new score row, assigning the next fresh row id. The row must
    /// reference rows the store has assigned, and no score row for the same
    /// (community row, member row) pair may exist yet — the serialized
    /// pipeline's find-before-create establishes exactly that.
    pub fn create_score(&mut self, record: ScoreRecord) -> (r: ScoreRecord)
        requires
            old(self).wf(),
            old(self).next_id < u64::MAX,
            old(self).score_idx(record.guild, record.player) is None,
            record.guild < old(self).next_id,
            record.player < old(self).next_id,
        ensures
            final(self).wf(),
            r == (ScoreRecord {
                default: DefaultFields { id: old(self).next_id, created: 0, updated: 0 },
                ..record
            }),
            final(self).scores@ == old(self).scores@.push(r),
            final(self).guilds@ == old(self).guilds@,
            final(self).players@ == old(self).players@,
            final(self).next_id == old(self).next_id + 1,
    {
        let stored = ScoreRecord {
            default: DefaultFields { id: self.next_id, created: 0, updated: 0 },
            guild: record.guild,
            player: record.player,
            voice_time: record.voice_time,
            afk_time: record.afk_time,
        };
        proof {
            lemma_first_match_props(self.scores@, score_key_is(record.guild, record.player));
        }
        self.scores.push(stored);
        self.next_id = self.next_id + 1;
        stored
    }

    /// Replaces the score row whose row id matches `record`'s. The update
    /// must keep the row's community and member references — exactly what
    /// bumping an accumulator does.
    pub fn update_score(&mut self, record: ScoreRecord) -> (r: ScoreRecord)
        requires
            old(self).wf(),
            match old(self).score_idx_by_id(record.default.id) {
                Some(i) => old(self).scores@[i].guild == record.guild && old(self).scores@[i].player
                    == record.player,
                None => false,
            },
        ensures
            final(self).wf(),
            r == record,
            final(self).scores@ == old(self).scores@.update(
                old(self).score_idx_by_id(record.default.id)->Some_0,
                record,
            ),
            final(self).guilds@ == old(self).guilds@,
            final(self).players@ == old(self).players@,
            final(self).next_id == old(self).next_id,
    {
        proof {
            lemma_first_match_props(self.scores@, score_id_is(record.default.id));
        }
        let mut i: usize = 0;
        while i < self.scores.len()
            invariant
                i <= self.scores@.len(),
                forall|j: int| 0 <= j < i ==> !(score_id_is(record.default.id)(self.scores@[j])),
                self == old(self),
                old(self).wf(),
                match old(self).score_idx_by_id(record.default.id) {
                    Some(k) => old(self).scores@[k].guild == record.guild
                        && old(self).scores@[k].player == record.player,
                    None => false,
                },
            decreases self.scores@.len() - i,
        {
            if self.scores[i].default.id == record.default.id {
                proof {
                    lemma_first_match_props(self.scores@, score_id_is(record.default.id));
                    assert(self.score_idx_by_id(record.default.id) == Some(i as int));
                }
                self.scores.set(i, record);
                proof {
                    assert forall|a: int, b: int|
                        0 <= a < self.scores@.len() && 0 <= b < self.scores@.len() && a
                            != b implies !(self.scores@[a].guild == self.scores@[b].guild
                        && self.scores@[a].player == self.scores@[b].player) by {
                        assert(old(self).scores@[a].guild != old(self).scores@[b].guild || old(
                            self,
                        ).scores@[a].player != old(self).scores@[b].player);
                    }
                }
                return record;
            }
            i = i + 1;
        }
        proof {
            assert(false);
        }
        record
    }

    /// Replaces the community row whose row id matches `record`'s. The
    /// update must keep the row's natural key — patching the configured
    /// channels does.
    pub fn update_guild(&mut self, record: GuildRecord) -> (r: GuildRecord)
        requires
            old(self).wf(),
            match old(self).guild_idx_by_id(record.default.id) {
                Some(i) => old(self).guilds@[i].server_id == record.server_id,
                None => false,
            },
        ensures
            final(self).wf(),
            r == record,
            final(self).guilds@ == old(self).guilds@.update(
                old(self).guild_idx_by_id(record.default.id)->Some_0,
                record,
            ),
            final(self).players@ == old(self).players@,
            final(self).scores@ == old(self).scores@,
            final(self).next_id == old(self).next_id,
    {
        proof {
            lemma_first_match_props(self.guilds@, guild_id_is(record.default.id));
        }
        let mut i: usize = 0;
        while i < self.guilds.len()
            invariant
                i <= self.guilds@.len(),
                forall|j: int| 0 <= j < i ==> !(guild_id_is(record.default.id)(self.guilds@[j])),
                self == old(self),
                old(self).wf(),
                match old(self).guild_idx_by_id(record.default.id) {
                    Some(k) => old(self).guilds@[k].server_id == record.server_id,
                    None => false,
                },
            decreases self.guilds@.len() - i,
        {
            if self.guilds[i].default.id == record.default.id {
                proof {
                    lemma_first_match_props(self.guilds@, guild_id_is(record.default.id));
                    assert(self.guild_idx_by_id(record.default.id) == Some(i as int));
                }
                self.guilds.set(i, record);
                proof {
                    assert forall|a: int, b: int|
                        0 <= a < self.guilds@.len() && 0 <= b < self.guilds@.len() && a
                            != b implies self.guilds@[a].server_id != self.guilds@[b].server_id by {
                        assert(old(self).guilds@[a].server_id != old(self).guilds@[b].server_id);
                    }
                }
                return record;
            }
            i = i + 1;
        }
        proof {
            assert(false);
        }
        record
    }
}

} // verus!
