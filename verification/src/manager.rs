//! The write pipeline's single consumer, run against the store model.
//!
//! The consumer takes commands off the queue strictly one at a time and
//! performs each command's whole find-or-create conversation before touching
//! the next. [`Manager`] gives that processing its exact semantics over
//! [`StoreModel`]: what each command does to the store, and what the caller
//! gets back. Because commands never interleave, a second delta for the same
//! member always sees the row the first one made — which is what keeps every
//! member at one score row, however many deltas race on the queue side.

use vstd::prelude::*;

use crate::pipeline::sat_add;
use crate::pipeline::spec_config_guild;
use crate::pipeline::spec_patch_guild;
use crate::pipeline::bump_score;
use crate::pipeline::new_score_record;
use crate::pipeline::patch_guild;
use crate::pipeline::CommandError;
use crate::pipeline::GetConfigParams;
use crate::pipeline::IncrScoreParams;
use crate::pipeline::SetConfigParams;
use crate::records::DefaultFields;
use crate::records::GuildRecord;
use crate::records::PlayerRecord;
use crate::records::ScoreRecord;
use crate::score::ScoreType;

use crate::store::guild_id_is;
use crate::store::guild_key_is;
use crate::store::lemma_first_match_props;
use crate::store::lemma_first_match_push;
use crate::store::lemma_first_match_same;
use crate::store::player_key_is;
use crate::store::score_id_is;
use crate::store::score_key_is;
use crate::store::StoreModel;

verus! {

/// One delta landing on a pair of accumulators (voice, away): `delta` is
/// added — saturating — to the accumulator of `score_type`; the other is
/// untouched.
pub open spec fn apply_delta(totals: (u64, u64), delta: u64, score_type: ScoreType) -> (u64, u64) {
    match score_type {
        ScoreType::Voice => (sat_add(totals.0, delta), totals.1),
        ScoreType::Afk => (totals.0, sat_add(totals.1, delta)),
    }
}

/// The accumulators of a member's score row: (0, 0) for a never-seen member.
pub open spec fn prev_totals(prev: Option<ScoreRecord>) -> (u64, u64) {
    match prev {
        Some(s) => (s.voice_time, s.afk_time),
        None => (0u64, 0u64),
    }
}

/// The two accumulators of a member's score row after a delta lands on it.
pub open spec fn spec_applied_score(
    prev: Option<ScoreRecord>,
    delta: u64,
    score_type: ScoreType,
) -> (u64, u64) {
    apply_delta(prev_totals(prev), delta, score_type)
}

/// A whole sequence of deltas landing one at a time, in order.
pub open spec fn apply_deltas(totals: (u64, u64), deltas: Seq<(u64, ScoreType)>) -> (u64, u64)
    decreases deltas.len(),
{
    if deltas.len() == 0 {
        totals
    } else {
        apply_deltas(apply_delta(totals, deltas[0].0, deltas[0].1), deltas.drop_first())
    }
}

/// The seconds the deltas of a sequence contribute to the voice accumulator.
pub open spec fn voice_sum(deltas: Seq<(u64, ScoreType)>) -> nat
    decreases deltas.len(),
{
    if deltas.len() == 0 {
        0
    } else {
        (if deltas[0].1 is Voice {
            deltas[0].0 as nat
        } else {
            0
        }) + voice_sum(deltas.drop_first())
    }
}

/// The seconds the deltas of a sequence contribute to the away accumulator.
pub open spec fn afk_sum(deltas: Seq<(u64, ScoreType)>) -> nat
    decreases deltas.len(),
{
    if deltas.len() == 0 {
        0
    } else {
        (if deltas[0].1 is Afk {
            deltas[0].0 as nat
        } else {
            0
        }) + afk_sum(deltas.drop_first())
    }
}

/// Two deltas commute: whichever of the two arrives first, the accumulators
/// end up the same — so the arrival order of racing submissions never
/// changes a member's final score.
pub proof fn lemma_deltas_commute(
    totals: (u64, u64),
    d1: u64,
    t1: ScoreType,
    d2: u64,
    t2: ScoreType,
)
    ensures
        apply_delta(apply_delta(totals, d1, t1), d2, t2) == apply_delta(
            apply_delta(totals, d2, t2),
            d1,
            t1,
        ),
{
}

/// Applying a sequence of deltas, each through one serialized command, adds
/// up exactly: as long as neither accumulator overflows, the final voice and
/// away accumulators equal the initial ones plus the per-category sums of
/// every submitted delta.
pub proof fn lemma_deltas_total(totals: (u64, u64), deltas: Seq<(u64, ScoreType)>)
    requires
        totals.0 + voice_sum(deltas) <= u64::MAX,
        totals.1 + afk_sum(deltas) <= u64::MAX,
    ensures
        apply_deltas(totals, deltas) == (
            (totals.0 + voice_sum(deltas)) as u64,
            (totals.1 + afk_sum(deltas)) as u64,
        ),
    decreases deltas.len(),
{
    if deltas.len() > 0 {
        let stepped = apply_delta(totals, deltas[0].0, deltas[0].1);
        lemma_deltas_total(stepped, deltas.drop_first());
    }
}

/// The single consumer of the write pipeline, owning its view of the record
/// store.
pub struct Manager {
    pub store: StoreModel,
}

impl Manager {
    /// A consumer over the given store.
    pub fn new(store: StoreModel) -> (r: Manager)
        ensures
            r.store == store,
    {
        Manager { store }
    }

    /// Reads a community's stored configuration row. A community with no row
    /// gets a fresh default row back — "configuration not found" means "use
    /// defaults", never an error — and nothing is created or changed.
    pub fn run_get_config(&self, params: &GetConfigParams) -> (r: Result<
        GuildRecord,
        CommandError,
    >)
        ensures
            r == Ok::<GuildRecord, CommandError>(
                match self.store.spec_guild_record(params.guild_id.0) {
                    Some(g) => g,
                    None => (GuildRecord {
                        default: DefaultFields { id: 0, created: 0, updated: 0 },
                        server_id: params.guild_id.0,
                        afk_channel: None,
                        graveyard: None,
                    }),
                },
            ),
    {
        match self.store.find_guild(params.guild_id.0) {
            Some(g) => Ok(g),
            None => Ok(GuildRecord::new(params.guild_id.0, None, None)),
        }
    }

    /// Writes a community's configuration: an existing row is patched — each
    /// channel the command gives overwrites the stored one, each channel it
    /// leaves out keeps its stored value — and a community with no row gets
    /// one created, holding exactly the given channels. Score and member
    /// rows, and every other community's row, stay untouched.
    pub fn run_set_config(&mut self, params: &SetConfigParams) -> (r: Result<
        GuildRecord,
        CommandError,
    >)
        requires
            old(self).store.wf(),
            old(self).store.next_id < u64::MAX,
        ensures
            final(self).store.wf(),
            match r {
                Ok(rec) => {
                    &&& final(self).store.spec_guild_record(params.guild_id.0) == Some(rec)
                    &&& rec == (match old(self).store.spec_guild_record(params.guild_id.0) {
                        Some(g) => spec_patch_guild(g, *params),
                        None => (GuildRecord {
                            default: DefaultFields {
                                id: old(self).store.next_id,
                                created: 0,
                                updated: 0,
                            },
                            ..spec_config_guild(*params)
                        }),
                    })
                },
                Err(_) => false,
            },
            forall|sid2: u64|
                sid2 != params.guild_id.0 ==> final(self).store.spec_guild_record(sid2) == old(
                    self,
                ).store.spec_guild_record(sid2),
            final(self).store.players@ == old(self).store.players@,
            final(self).store.scores@ == old(self).store.scores@,
            final(self).store.next_id <= old(self).store.next_id + 1,
    {
        let sid = params.guild_id.0;
        match self.store.find_guild(sid) {
            Some(found) => {
                let patched = patch_guild(found, params);
                proof {
                    let gi = self.store.guild_idx(sid)->Some_0;
                    lemma_first_match_props(self.store.guilds@, guild_key_is(sid));
                    lemma_first_match_props(self.store.guilds@, guild_id_is(patched.default.id));
                    match self.store.guild_idx_by_id(patched.default.id) {
                        Some(k) => {
                            assert(self.store.guilds@[k].default.id == self.store.guilds@[gi].default.id);
                            assert(k == gi);
                        },
                        None => {
                            assert(!(guild_id_is(patched.default.id)(self.store.guilds@[gi])));
                            assert(false);
                        },
                    }
                }
                let saved = self.store.update_guild(patched);
                proof {
                    let gi = old(self).store.guild_idx(sid)->Some_0;
                    lemma_first_match_props(old(self).store.guilds@, guild_key_is(sid));
                    assert forall|sid2: u64| sid2 != sid implies final(self).store.spec_guild_record(
                        sid2,
                    ) == old(self).store.spec_guild_record(sid2) by {
                        lemma_first_match_same(
                            old(self).store.guilds@,
                            self.store.guilds@,
                            guild_key_is(sid2),
                            guild_key_is(sid2),
                        );
                        lemma_first_match_props(old(self).store.guilds@, guild_key_is(sid2));
                        match old(self).store.guild_idx(sid2) {
                            Some(k) => {
                                assert(old(self).store.guilds@[k].server_id == sid2);
                                assert(k != gi);
                            },
                            None => {},
                        }
                    }
                    lemma_first_match_same(
                        old(self).store.guilds@,
                        self.store.guilds@,
                        guild_key_is(sid),
                        guild_key_is(sid),
                    );
                }
                Ok(saved)
            },
            None => {
                let afk: Option<u64> = match params.afk_channel {
                    Some(c) => Some(c.0),
                    None => None,
                };
                let graveyard: Option<u64> = match params.graveyard {
                    Some(c) => Some(c.0),
                    None => None,
                };
                let fresh = GuildRecord::new(sid, afk, graveyard);
                let saved = self.store.create_guild(fresh);
                proof {
                    lemma_first_match_push(old(self).store.guilds@, guild_key_is(sid), saved);
                    lemma_first_match_props(old(self).store.guilds@, guild_key_is(sid));
                    assert forall|sid2: u64| sid2 != sid implies final(self).store.spec_guild_record(
                        sid2,
                    ) == old(self).store.spec_guild_record(sid2) by {
                        lemma_first_match_push(old(self).store.guilds@, guild_key_is(sid2), saved);
                        lemma_first_match_props(old(self).store.guilds@, guild_key_is(sid2));
                        assert(!(guild_key_is(sid2)(saved)));
                    }
                }
                Ok(saved)
            },
        }
    }
    /// Applies one duration delta to a member's score: the member's score
    /// row gets `delta` added to the accumulator of the delta's category;
    /// a never-seen member first has the community and member rows resolved
    /// — each found before created — and then gets a score row created with
    /// the delta pre-set. Exactly one score row for the member exists
    /// afterwards, and no other member's score changes: with the consumer
    /// processing commands one at a time, any number of submitted deltas for
    /// one member land on one row, in any arrival order.
    #[verifier::rlimit(60)]
    pub fn run_incr_score(&mut self, params: &IncrScoreParams) -> (r: Result<
        ScoreRecord,
        CommandError,
    >)
        requires
            old(self).store.wf(),
            old(self).store.next_id + 3 <= u64::MAX,
        ensures
            final(self).store.wf(),
            match r {
                Ok(rec) => {
                    &&& final(self).store.spec_member_score(params.member.0.0, params.member.1.0)
                        == Some(rec)
                    &&& (rec.voice_time, rec.afk_time) == spec_applied_score(
                        old(self).store.spec_member_score(params.member.0.0, params.member.1.0),
                        params.delta,
                        params.score_type,
                    )
                },
                Err(_) => false,
            },
            final(self).store.scores@.len() == old(self).store.scores@.len() + (match old(
                self,
            ).store.spec_member_score(params.member.0.0, params.member.1.0) {
                Some(_) => 0int,
                None => 1int,
            }),
            forall|sid2: u64, uid2: u64|
                !(sid2 == params.member.0.0 && uid2 == params.member.1.0)
                    ==> final(self).store.spec_member_score(sid2, uid2) == old(
                    self,
                ).store.spec_member_score(sid2, uid2),
            final(self).store.next_id <= old(self).store.next_id + 3,
    {
        let sid = params.member.0.0;
        let uid = params.member.1.0;
        match self.store.find_member_score(sid, uid) {
            Some(existing) => {
                let bumped = bump_score(existing, params.delta, params.score_type);
                proof {
                    let gi = self.store.guild_idx(sid)->Some_0;
                    let pi = self.store.player_idx(uid)->Some_0;
                    let g = self.store.guilds@[gi].default.id;
                    let p = self.store.players@[pi].default.id;
                    let si = self.store.score_idx(g, p)->Some_0;
                    lemma_first_match_props(self.store.scores@, score_key_is(g, p));
                    lemma_first_match_props(self.store.scores@, score_id_is(bumped.default.id));
                    match self.store.score_idx_by_id(bumped.default.id) {
                        Some(k) => {
                            assert(self.store.scores@[k].default.id
                                == self.store.scores@[si].default.id);
                            assert(k == si);
                        },
                        None => {
                            assert(!(score_id_is(bumped.default.id)(self.store.scores@[si])));
                            assert(false);
                        },
                    }
                }
                let saved = self.store.update_score(bumped);
                proof {
                    let gi = old(self).store.guild_idx(sid)->Some_0;
                    let pi = old(self).store.player_idx(uid)->Some_0;
                    let g = old(self).store.guilds@[gi].default.id;
                    let p = old(self).store.players@[pi].default.id;
                    let si = old(self).store.score_idx(g, p)->Some_0;
                    lemma_first_match_props(old(self).store.scores@, score_key_is(g, p));
                    lemma_first_match_props(old(self).store.guilds@, guild_key_is(sid));
                    lemma_first_match_props(old(self).store.players@, player_key_is(uid));
                    assert(self.store.scores@ == old(self).store.scores@.update(si, bumped));
                    assert forall|g2: u64, p2: u64| self.store.score_idx(g2, p2) == old(
                        self,
                    ).store.score_idx(g2, p2) by {
                        lemma_first_match_same(
                            old(self).store.scores@,
                            self.store.scores@,
                            score_key_is(g2, p2),
                            score_key_is(g2, p2),
                        );
                    }
                    assert(self.store.score_idx(g, p) == Some(si));
                    assert(self.store.spec_member_score(sid, uid) == Some(bumped));
                    assert forall|sid2: u64, uid2: u64| !(sid2 == sid && uid2 == uid) implies
                        self.store.spec_member_score(sid2, uid2) == old(
                        self,
                    ).store.spec_member_score(sid2, uid2) by {
                        lemma_first_match_props(old(self).store.guilds@, guild_key_is(sid2));
                        lemma_first_match_props(old(self).store.players@, player_key_is(uid2));
                        match (old(self).store.guild_idx(sid2), old(self).store.player_idx(uid2)) {
                            (Some(gi2), Some(pi2)) => {
                                let g2 = old(self).store.guilds@[gi2].default.id;
                                let p2 = old(self).store.players@[pi2].default.id;
                                lemma_first_match_props(
                                    old(self).store.scores@,
                                    score_key_is(g2, p2),
                                );
                                match old(self).store.score_idx(g2, p2) {
                                    Some(k) => {
                                        if k == si {
                                            assert(g2 == g && p2 == p);
                                            assert(gi2 == gi && pi2 == pi);
                                            assert(sid2 == sid && uid2 == uid);
                                            assert(false);
                                        }
                                    },
                                    None => {},
                                }
                            },
                            _ => {},
                        }
                    }
                }
                Ok(saved)
            },
            None => {
                let ghost store0 = self.store;
                let ghost guild_was_found = self.store.guild_idx(sid) is Some;
                let guild_row = match self.store.find_guild(sid) {
                    Some(g) => g,
                    None => self.store.create_guild(GuildRecord::new(sid, None, None)),
                };
                proof {
                    lemma_first_match_props(store0.guilds@, guild_key_is(sid));
                    if !guild_was_found {
                        lemma_first_match_push(store0.guilds@, guild_key_is(sid), guild_row);
                    }
                    assert(self.store.guild_idx(sid) is Some);
                    assert(self.store.guilds@[self.store.guild_idx(sid)->Some_0] == guild_row);
                    assert(guild_row.server_id == sid);
                    assert(guild_row.default.id < self.store.next_id);
                    assert(guild_was_found ==> self.store == store0);
                    assert(!guild_was_found ==> guild_row.default.id == store0.next_id);
                }
                let ghost store1 = self.store;
                let ghost player_was_found = self.store.player_idx(uid) is Some;
                let player_row = match self.store.find_player(uid) {
                    Some(p) => p,
                    None => self.store.create_player(PlayerRecord::new(uid)),
                };
                proof {
                    lemma_first_match_props(store1.players@, player_key_is(uid));
                    if !player_was_found {
                        lemma_first_match_push(store1.players@, player_key_is(uid), player_row);
                    }
                    assert(self.store.player_idx(uid) is Some);
                    assert(self.store.players@[self.store.player_idx(uid)->Some_0] == player_row);
                    assert(player_row.user_id == uid);
                    assert(player_row.default.id < self.store.next_id);
                    assert(self.store.guilds@ == store1.guilds@);
                    assert(self.store.scores@ == store0.scores@);
                    assert(player_was_found ==> self.store == store1);
                    assert(!player_was_found ==> player_row.default.id == store1.next_id);
                }
                let fresh = new_score_record(
                    guild_row.default.id,
                    player_row.default.id,
                    params.delta,
                    params.score_type,
                );
                proof {
                    let g = guild_row.default.id;
                    let p = player_row.default.id;
                    lemma_first_match_props(self.store.scores@, score_key_is(g, p));
                    match self.store.score_idx(g, p) {
                        Some(k) => {
                            assert(store0.scores@[k].guild == g && store0.scores@[k].player == p);
                            if !guild_was_found {
                                assert(store0.scores@[k].guild < store0.next_id);
                                assert(false);
                            } else if !player_was_found {
                                assert(store0.scores@[k].player < store1.next_id);
                                assert(false);
                            } else {
                                assert(store0.score_idx(g, p) is None);
                                assert(false);
                            }
                        },
                        None => {},
                    }
                }
                let saved = self.store.create_score(fresh);
                proof {
                    let ghost store2 = store1;
                    let g = guild_row.default.id;
                    let p = player_row.default.id;
                    lemma_first_match_push(old(self).store.scores@, score_key_is(g, p), saved);
                    assert(self.store.score_idx(g, p) == Some(old(self).store.scores@.len() as int));
                    assert(self.store.spec_member_score(sid, uid) == Some(saved));
                    assert(sat_add(0, params.delta) == params.delta);
                    assert forall|sid2: u64, uid2: u64| !(sid2 == sid && uid2 == uid) implies
                        self.store.spec_member_score(sid2, uid2) == store0.spec_member_score(
                        sid2,
                        uid2,
                    ) by {
                        lemma_first_match_props(store0.guilds@, guild_key_is(sid2));
                        lemma_first_match_props(self.store.guilds@, guild_key_is(sid2));
                        lemma_first_match_props(store0.players@, player_key_is(uid2));
                        lemma_first_match_props(self.store.players@, player_key_is(uid2));
                        if !guild_was_found {
                            lemma_first_match_push(store0.guilds@, guild_key_is(sid2), guild_row);
                        }
                        if !player_was_found {
                            lemma_first_match_push(
                                store1.players@,
                                player_key_is(uid2),
                                player_row,
                            );
                        }
                        match self.store.guild_idx(sid2) {
                            None => {
                                assert(store0.guild_idx(sid2) is None);
                            },
                            Some(gi2) => {
                                let g2 = self.store.guilds@[gi2].default.id;
                                match self.store.player_idx(uid2) {
                                    None => {
                                        assert(store0.player_idx(uid2) is None);
                                    },
                                    Some(pi2) => {
                                        let p2 = self.store.players@[pi2].default.id;
                                        // the resolved pair of a different member is never
                                        // the pair of the row just created: row ids are unique,
                                        // so sharing the pair would mean sharing both natural
                                        // keys
                                        assert(!(g2 == g && p2 == p)) by {
                                            if g2 == g && p2 == p {
                                                let gi1 = self.store.guild_idx(sid)->Some_0;
                                                let pi1 = self.store.player_idx(uid)->Some_0;
                                                lemma_first_match_props(
                                                    self.store.guilds@,
                                                    guild_key_is(sid),
                                                );
                                                lemma_first_match_props(
                                                    self.store.players@,
                                                    player_key_is(uid),
                                                );
                                                assert(self.store.guilds@[gi1].default.id == g);
                                                assert(self.store.players@[pi1].default.id == p);
                                                assert(gi2 == gi1 && pi2 == pi1);
                                                assert(sid2 == sid && uid2 == uid);
                                                assert(false);
                                            }
                                        }
                                        // the push changes nothing the pair (g2, p2) matches
                                        lemma_first_match_push(
                                            store0.scores@,
                                            score_key_is(g2, p2),
                                            saved,
                                        );
                                        lemma_first_match_props(
                                            store0.scores@,
                                            score_key_is(g2, p2),
                                        );
                                        assert(!(score_key_is(g2, p2)(saved)));
                                        assert(self.store.score_idx(g2, p2) == store0.score_idx(
                                            g2,
                                            p2,
                                        ));
                                        if store0.guild_idx(sid2) is None {
                                            // only a member of the community whose row was just
                                            // created: its pair references the fresh row id, which
                                            // no stored score row does
                                            assert(sid2 == sid && !guild_was_found);
                                            assert(g2 == g && g == store0.next_id);
                                            assert(store0.score_idx(g2, p2) is None);
                                        } else if store0.player_idx(uid2) is None {
                                            // only the member whose row was just created, seen
                                            // from another community: same argument on the member
                                            // side
                                            assert(uid2 == uid && !player_was_found);
                                            assert(p2 == p && p == store1.next_id);
                                            assert(store0.score_idx(g2, p2) is None);
                                        } else {
                                            assert(store0.guild_idx(sid2) == Some(gi2)
                                                && store0.guilds@[gi2] == self.store.guilds@[gi2]);
                                            assert(store0.player_idx(uid2) == Some(pi2)
                                                && store0.players@[pi2]
                                                == self.store.players@[pi2]);
                                        }
                                    },
                                }
                            },
                        }
                    }
                }
                Ok(saved)
            },
        }
    }
}

} // verus!
