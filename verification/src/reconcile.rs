//! The reconciliation sweep: periodic resynchronization of the presence
//! store against the platform's live channel occupancy.
//!
//! The sweep walks every member currently present in a tracked channel and
//! opens a session "as of now" for each one that has none — a member whose
//! join event was missed starts being tracked from the sweep onward, and the
//! time before it is deliberately lost rather than guessed. Members already
//! tracked are left exactly as they are, which makes the sweep idempotent
//! and side-effect-free for them.

use vstd::prelude::*;

use crate::ids::GuildUser;
use crate::presence::VoiceStates;

verus! {

/// A member's session after a sweep at `now`: an open session is kept as it
/// is; a present member with none gets one opened at `now`; an absent member
/// stays absent.
pub open spec fn spec_reconciled(prev: Option<u64>, present: bool, now: u64) -> Option<u64> {
    match prev {
        Some(start) => Some(start),
        None => if present {
            Some(now)
        } else {
            None
        },
    }
}

/// How many sessions a sweep over `present` opens, given the set `open0` of
/// members already open: each distinct member with no session counts once,
/// however often it is listed.
pub open spec fn spec_opens(present: Seq<GuildUser>, open0: Set<GuildUser>) -> nat
    decreases present.len(),
{
    if present.len() == 0 {
        0
    } else {
        let m = present[0];
        if open0.contains(m) {
            spec_opens(present.drop_first(), open0)
        } else {
            1 + spec_opens(present.drop_first(), open0.insert(m))
        }
    }
}

/// Reconciles one present member: opens a session at `now` if none is open,
/// and otherwise changes nothing at all. Returns whether a session was
/// opened.
pub fn reconcile_member(states: &mut VoiceStates, member: GuildUser, now: u64) -> (r: bool)
    ensures
        r == (old(states).spec_session(member) is None),
        final(states).spec_session(member) == spec_reconciled(
            old(states).spec_session(member),
            true,
            now,
        ),
        forall|m2: GuildUser|
            m2 != member ==> final(states).spec_session(m2) == old(states).spec_session(m2),
{
    if states.is_open(member) {
        false
    } else {
        states.open(member, now);
        true
    }
}

/// Runs one reconciliation sweep at `now` over the members observed present
/// in tracked channels: every present member ends up with an open session —
/// a kept one, or a fresh one at `now` — every other member is untouched,
/// and the count of sessions opened is returned. A member already tracked
/// from a live event is not re-baselined: time it already accrued stays on
/// its running clock.
pub fn reconcile(states: &mut VoiceStates, present: &Vec<GuildUser>, now: u64) -> (r: usize)
    ensures
        forall|m: GuildUser|
            final(states).spec_session(m) == spec_reconciled(
                old(states).spec_session(m),
                present@.contains(m),
                now,
            ),
        r == spec_opens(
            present@,
            Set::new(|m: GuildUser| old(states).spec_session(m) is Some),
        ),
{
    let ghost open0 = Set::new(|m: GuildUser| old(states).spec_session(m) is Some);
    proof {
        assert(present@.skip(0) =~= present@);
        assert(Set::new(|m: GuildUser| states.spec_session(m) is Some) =~= open0);
    }
    let mut count: usize = 0;
    let mut i: usize = 0;
    while i < present.len()
        invariant
            i <= present@.len(),
            count <= i,
            forall|m: GuildUser|
                states.spec_session(m) == spec_reconciled(
                    old(states).spec_session(m),
                    present@.take(i as int).contains(m),
                    now,
                ),
            count + spec_opens(
                present@.skip(i as int),
                Set::new(|m: GuildUser| states.spec_session(m) is Some),
            ) == spec_opens(present@, open0),
        decreases present@.len() - i,
    {
        let ghost set_before = Set::new(|m: GuildUser| states.spec_session(m) is Some);
        let member = present[i];
        let opened = reconcile_member(states, member, now);
        if opened {
            count = count + 1;
        }
        proof {
            let set_after = Set::new(|m: GuildUser| states.spec_session(m) is Some);
            assert(present@.skip(i as int)[0] == member);
            assert(present@.skip(i as int).drop_first() =~= present@.skip(i + 1));
            if opened {
                assert(set_after =~= set_before.insert(member));
            } else {
                assert(set_after =~= set_before);
            }
            assert forall|m: GuildUser|
                states.spec_session(m) == spec_reconciled(
                    old(states).spec_session(m),
                    present@.take(i + 1).contains(m),
                    now,
                ) by {
                assert(present@.take(i + 1) =~= present@.take(i as int).push(member));
                if m != member {
                    assert(present@.take(i as int).push(member).contains(m) == present@.take(
                        i as int,
                    ).contains(m));
                } else {
                    assert(present@.take(i + 1)[i as int] == member);
                    assert(present@.take(i + 1).contains(member));
                }
            }
        }
        i = i + 1;
    }
    proof {
        assert(present@.skip(present@.len() as int) =~= Seq::<GuildUser>::empty());
        assert(present@.take(present@.len() as int) =~= present@);
    }
    count
}

/// A sweep over members that all already have open sessions opens none.
pub proof fn lemma_opens_zero(present: Seq<GuildUser>, open0: Set<GuildUser>)
    requires
        forall|m: GuildUser| present.contains(m) ==> open0.contains(m),
    ensures
        spec_opens(present, open0) == 0,
    decreases present.len(),
{
    if present.len() > 0 {
        assert(present.contains(present[0]));
        assert forall|m: GuildUser| present.drop_first().contains(m) implies open0.contains(
            m,
        ) by {
            let k = choose|k: int| 0 <= k < present.drop_first().len() && present.drop_first()[k]
                == m;
            assert(present[k + 1] == m);
            assert(present.contains(m));
        }
        lemma_opens_zero(present.drop_first(), open0);
    }
}

/// Reconciliation is idempotent: after a sweep at `now1` over `present`,
/// an immediately repeated sweep at `now2` — with no intervening events —
/// opens zero sessions and leaves every member's session exactly as the
/// first sweep left it.
pub proof fn lemma_reconcile_idempotent(
    prev: spec_fn(GuildUser) -> Option<u64>,
    present: Seq<GuildUser>,
    now1: u64,
    now2: u64,
)
    ensures
        forall|m: GuildUser| #[trigger]
            spec_reconciled(
                spec_reconciled(prev(m), present.contains(m), now1),
                present.contains(m),
                now2,
            ) == spec_reconciled(prev(m), present.contains(m), now1),
        spec_opens(
            present,
            Set::new(
                |m: GuildUser| spec_reconciled(prev(m), present.contains(m), now1) is Some,
            ),
        ) == 0,
{
    let open1 = Set::new(
        |m: GuildUser| spec_reconciled(prev(m), present.contains(m), now1) is Some,
    );
    assert forall|m: GuildUser| present.contains(m) implies open1.contains(m) by {
        assert(spec_reconciled(prev(m), true, now1) is Some);
    }
    lemma_opens_zero(present, open1);
}

} // verus!
