//! The presence store: an in-memory mapping from member-in-community keys to
//! the optional start instant of an open session.
//!
//! A session is open while the member occupies a tracked channel. Opening is
//! idempotent (a duplicate "enter" observation must not reset the clock), and
//! closing atomically takes the open session, if any, and converts it into a
//! duration.

use vstd::prelude::*;

use crate::ids::GuildUser;

verus! {

broadcast use vstd::std_specs::hash::group_hash_axioms;

/// The key under which a member's session is stored: both halves of the
/// composite identity packed into one integer.
pub closed spec fn member_key(member: GuildUser) -> u128 {
    ((member.0.0 as u128) << 64) | (member.1.0 as u128)
}

proof fn lemma_member_key_injective(m1: GuildUser, m2: GuildUser)
    ensures
        member_key(m1) == member_key(m2) ==> m1 == m2,
{
    let g1 = m1.0.0;
    let u1 = m1.1.0;
    let g2 = m2.0.0;
    let u2 = m2.1.0;
    assert((((g1 as u128) << 64) | (u1 as u128)) == (((g2 as u128) << 64) | (u2 as u128))
        ==> g1 == g2 && u1 == u2) by (bit_vector);
}

/// The length of a session that opened at `start` and closes at `now`.
/// Instants come from a monotonic clock, so the saturating branch is only a
/// guard; it keeps every reported duration non-negative.
pub open spec fn session_duration(start: u64, now: u64) -> u64 {
    if now >= start {
        (now - start) as u64
    } else {
        0
    }
}

/// The presence store. Maps each member-in-community key to the instant at
/// which its currently open session started; a key with no entry has no open
/// session.
pub struct VoiceStates {
    timestamps: vstd::hash_map::HashMapWithView<u128, u64>,
}

impl VoiceStates {
    /// The open session of `member`: `Some(start)` while a session that
    /// opened at `start` is open, `None` otherwise.
    pub closed spec fn spec_session(&self, member: GuildUser) -> Option<u64> {
        if self.timestamps@.contains_key(member_key(member)) {
            Some(self.timestamps@[member_key(member)])
        } else {
            None
        }
    }

    /// An empty store: no member has an open session.
    pub fn new() -> (r: VoiceStates)
        ensures
            forall|m: GuildUser| r.spec_session(m) is None,
    {
        VoiceStates { timestamps: vstd::hash_map::HashMapWithView::new() }
    }

    fn key(member: GuildUser) -> (r: u128)
        ensures
            r == member_key(member),
    {
        ((member.0.0 as u128) << 64u128) | (member.1.0 as u128)
    }

    /// Whether `member` has an open session.
    pub fn is_open(&self, member: GuildUser) -> (r: bool)
        ensures
            r == (self.spec_session(member) is Some),
    {
        let k = Self::key(member);
        self.timestamps.contains_key(&k)
    }

    /// The start instant of `member`'s open session, if any.
    pub fn session_start(&self, member: GuildUser) -> (r: Option<u64>)
        ensures
            r == self.spec_session(member),
    {
        let k = Self::key(member);
        match self.timestamps.get(&k) {
            Some(start) => Some(*start),
            None => None,
        }
    }

    /// Opens a session for `member` starting at `now`, unless one is already
    /// open: a session that is already open keeps its start instant, so a
    /// duplicate "enter" observation never resets the clock.
    pub fn open(&mut self, member: GuildUser, now: u64)
        ensures
            final(self).spec_session(member) == match old(self).spec_session(member) {
                Some(start) => Some(start),
                None => Some(now),
            },
            forall|m2: GuildUser|
                m2 != member ==> final(self).spec_session(m2) == old(self).spec_session(m2),
    {
        let k = Self::key(member);
        if !self.timestamps.contains_key(&k) {
            self.timestamps.insert(k, now);
        }
        proof {
            assert forall|m2: GuildUser| m2 != member implies final(self).spec_session(m2)
                == old(self).spec_session(m2) by {
                lemma_member_key_injective(m2, member);
            }
        }
    }

    /// Atomically reads the open session of `member`, clears it, and returns
    /// its duration as of `now`. Returns `None`, and changes nothing, if no
    /// session was open: a spurious "leave" with no matching "enter" reports
    /// no duration at all.
    pub fn close_and_take(&mut self, member: GuildUser, now: u64) -> (r: Option<u64>)
        ensures
            final(self).spec_session(member) is None,
            r == match old(self).spec_session(member) {
                Some(start) => Some(session_duration(start, now)),
                None => None::<u64>,
            },
            forall|m2: GuildUser|
                m2 != member ==> final(self).spec_session(m2) == old(self).spec_session(m2),
    {
        let k = Self::key(member);
        let taken = self.timestamps.remove(&k);
        proof {
            assert forall|m2: GuildUser| m2 != member implies final(self).spec_session(m2)
                == old(self).spec_session(m2) by {
                lemma_member_key_injective(m2, member);
            }
        }
        match taken {
            Some(start) => {
                if now >= start {
                    Some(now - start)
                } else {
                    Some(0)
                }
            },
            None => None,
        }
    }

    /// Drops every open session.
    pub fn clear(&mut self)
        ensures
            forall|m: GuildUser| final(self).spec_session(m) is None,
    {
        self.timestamps.clear();
    }
}

} // verus!
