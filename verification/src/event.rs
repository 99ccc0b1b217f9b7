//! The presence state machine: turns observed channel transitions into
//! session opens, closes, and duration deltas.
//!
//! A transition is classified from the (previous channel, next channel) pair
//! together with the community's configured away channel. Entering a tracked
//! channel opens a session; leaving closes it and emits a delta to the
//! accumulator of the category being left; moving between the away channel
//! and a regular channel closes and reopens against the same instant, so no
//! time is double-counted or lost at the boundary. A lateral move between
//! two regular channels is a no-op: the session keeps running.
//!
//! Whenever a close emits a delta, the community's cached leaderboard is
//! invalidated before the delta is applied, so a concurrent read never
//! observes a pre-delta snapshot after the event has been accepted.

use vstd::prelude::*;

use crate::cache::DataCache;
use crate::config::Config;
use crate::ids::ChannelId;
use crate::ids::GuildId;
use crate::ids::GuildUser;
use crate::ids::UserId;
use crate::presence::session_duration;
use crate::presence::VoiceStates;
use crate::score::ScoreType;

verus! {

/// A duration to add to one accumulator of one member's score record,
/// derived from closing a session.
#[derive(Clone, Copy, Debug, PartialEq, Eq, Structural)]
pub struct Delta {
    pub member: GuildUser,
    pub amount: u64,
    pub score_type: ScoreType,
}

/// The classification of an observed channel transition.
#[derive(Clone, Copy, Debug, PartialEq, Eq, Structural)]
pub enum Transition {
    /// From untracked into a regular tracked channel.
    EnterVoice,
    /// From untracked into the away channel.
    EnterAfk,
    /// From a regular tracked channel to untracked.
    LeaveVoice,
    /// From the away channel to untracked.
    LeaveAfk,
    /// From a regular tracked channel into the away channel.
    MoveToAfk,
    /// From the away channel into a regular tracked channel.
    MoveFromAfk,
    /// Between channels of the same category: no session boundary.
    Lateral,
    /// No channel on either side: nothing to observe.
    Ignored,
}

/// Classifies a transition from the previous and next channel and the
/// community's away channel. With no away channel configured, every tracked
/// channel counts as a regular voice channel.
pub open spec fn spec_classify(
    old_channel: Option<ChannelId>,
    new_channel: Option<ChannelId>,
    afk_channel: Option<ChannelId>,
) -> Transition {
    match (old_channel, new_channel) {
        (None, None) => Transition::Ignored,
        (None, Some(next)) => if afk_channel == Some(next) {
            Transition::EnterAfk
        } else {
            Transition::EnterVoice
        },
        (Some(prev), None) => if afk_channel == Some(prev) {
            Transition::LeaveAfk
        } else {
            Transition::LeaveVoice
        },
        (Some(prev), Some(next)) => if afk_channel == Some(prev) && afk_channel != Some(next) {
            Transition::MoveFromAfk
        } else if afk_channel == Some(next) && afk_channel != Some(prev) {
            Transition::MoveToAfk
        } else {
            Transition::Lateral
        },
    }
}

fn is_afk(channel: ChannelId, afk_channel: Option<ChannelId>) -> (r: bool)
    ensures
        r == (afk_channel == Some(channel)),
{
    match afk_channel {
        Some(afk) => afk == channel,
        None => false,
    }
}

/// Classifies a transition; agrees with [`spec_classify`] exactly.
pub fn classify(
    old_channel: Option<ChannelId>,
    new_channel: Option<ChannelId>,
    afk_channel: Option<ChannelId>,
) -> (r: Transition)
    ensures
        r == spec_classify(old_channel, new_channel, afk_channel),
{
    match (old_channel, new_channel) {
        (None, None) => Transition::Ignored,
        (None, Some(next)) => if is_afk(next, afk_channel) {
            Transition::EnterAfk
        } else {
            Transition::EnterVoice
        },
        (Some(prev), None) => if is_afk(prev, afk_channel) {
            Transition::LeaveAfk
        } else {
            Transition::LeaveVoice
        },
        (Some(prev), Some(next)) => {
            let prev_afk = is_afk(prev, afk_channel);
            let next_afk = is_afk(next, afk_channel);
            if prev_afk && !next_afk {
                Transition::MoveFromAfk
            } else if next_afk && !prev_afk {
                Transition::MoveToAfk
            } else {
                Transition::Lateral
            }
        },
    }
}

/// The delta produced by closing the session `prev` of `member` at `now`
/// toward the `score_type` accumulator: a close with no open session yields
/// no delta at all, never a spurious zero-length one.
pub open spec fn close_delta(
    prev: Option<u64>,
    member: GuildUser,
    score_type: ScoreType,
    now: u64,
) -> Option<Delta> {
    match prev {
        Some(start) => Some(
            Delta { member, amount: session_duration(start, now), score_type },
        ),
        None => None,
    }
}

/// Opens a session for the member: idempotent while a session is open.
pub fn go_in_voice(states: &mut VoiceStates, guild_id: GuildId, user_id: UserId, now: u64)
    ensures
        final(states).spec_session(GuildUser(guild_id, user_id)) == match old(states).spec_session(
            GuildUser(guild_id, user_id),
        ) {
            Some(start) => Some(start),
            None => Some(now),
        },
        forall|m2: GuildUser|
            m2 != GuildUser(guild_id, user_id) ==> final(states).spec_session(m2) == old(
                states,
            ).spec_session(m2),
{
    states.open(GuildUser::new(guild_id, user_id), now);
}

/// Opens a session for the member entering the away channel. The store does
/// not record the category: the category of the eventual delta is decided by
/// the channel being left when the session closes.
pub fn go_in_afk(states: &mut VoiceStates, guild_id: GuildId, user_id: UserId, now: u64)
    ensures
        final(states).spec_session(GuildUser(guild_id, user_id)) == match old(states).spec_session(
            GuildUser(guild_id, user_id),
        ) {
            Some(start) => Some(start),
            None => Some(now),
        },
        forall|m2: GuildUser|
            m2 != GuildUser(guild_id, user_id) ==> final(states).spec_session(m2) == old(
                states,
            ).spec_session(m2),
{
    states.open(GuildUser::new(guild_id, user_id), now);
}

/// Closes the member's session at `now` and emits a delta to the voice
/// accumulator; invalidates the community's cached leaderboard whenever a
/// delta is emitted. With no open session, nothing changes and no delta is
/// emitted.
pub fn go_out_voice(
    states: &mut VoiceStates,
    cache: &mut DataCache,
    guild_id: GuildId,
    user_id: UserId,
    now: u64,
) -> (r: Option<Delta>)
    ensures
        final(states).spec_session(GuildUser(guild_id, user_id)) is None,
        r == close_delta(
            old(states).spec_session(GuildUser(guild_id, user_id)),
            GuildUser(guild_id, user_id),
            ScoreType::Voice,
            now,
        ),
        forall|m2: GuildUser|
            m2 != GuildUser(guild_id, user_id) ==> final(states).spec_session(m2) == old(
                states,
            ).spec_session(m2),
        r is Some ==> final(cache).spec_scores(guild_id) is None,
        r is None ==> final(cache).spec_scores(guild_id) == old(cache).spec_scores(guild_id),
        forall|g2: GuildId|
            g2 != guild_id ==> final(cache).spec_scores(g2) == old(cache).spec_scores(g2),
        forall|g2: GuildId| final(cache).spec_config(g2) == old(cache).spec_config(g2),
{
    let member = GuildUser::new(guild_id, user_id);
    match states.close_and_take(member, now) {
        Some(duration) => {
            cache.rem_scores(guild_id);
            Some(Delta { member, amount: duration, score_type: ScoreType::Voice })
        },
        None => None,
    }
}

/// Closes the member's session at `now` and emits a delta to the away
/// accumulator; otherwise exactly as [`go_out_voice`].
pub fn go_out_afk(
    states: &mut VoiceStates,
    cache: &mut DataCache,
    guild_id: GuildId,
    user_id: UserId,
    now: u64,
) -> (r: Option<Delta>)
    ensures
        final(states).spec_session(GuildUser(guild_id, user_id)) is None,
        r == close_delta(
            old(states).spec_session(GuildUser(guild_id, user_id)),
            GuildUser(guild_id, user_id),
            ScoreType::Afk,
            now,
        ),
        forall|m2: GuildUser|
            m2 != GuildUser(guild_id, user_id) ==> final(states).spec_session(m2) == old(
                states,
            ).spec_session(m2),
        r is Some ==> final(cache).spec_scores(guild_id) is None,
        r is None ==> final(cache).spec_scores(guild_id) == old(cache).spec_scores(guild_id),
        forall|g2: GuildId|
            g2 != guild_id ==> final(cache).spec_scores(g2) == old(cache).spec_scores(g2),
        forall|g2: GuildId| final(cache).spec_config(g2) == old(cache).spec_config(g2),
{
    let member = GuildUser::new(guild_id, user_id);
    match states.close_and_take(member, now) {
        Some(duration) => {
            cache.rem_scores(guild_id);
            Some(Delta { member, amount: duration, score_type: ScoreType::Afk })
        },
        None => None,
    }
}

/// Closes the member's voice session at `now`, crediting the time so far,
/// and immediately reopens it at the same instant: the clock is re-baselined
/// and no time is double-counted or lost.
pub fn go_out_and_in_voice(
    states: &mut VoiceStates,
    cache: &mut DataCache,
    guild_id: GuildId,
    user_id: UserId,
    now: u64,
) -> (r: Option<Delta>)
    ensures
        final(states).spec_session(GuildUser(guild_id, user_id)) == Some(now),
        r == close_delta(
            old(states).spec_session(GuildUser(guild_id, user_id)),
            GuildUser(guild_id, user_id),
            ScoreType::Voice,
            now,
        ),
        forall|m2: GuildUser|
            m2 != GuildUser(guild_id, user_id) ==> final(states).spec_session(m2) == old(
                states,
            ).spec_session(m2),
        r is Some ==> final(cache).spec_scores(guild_id) is None,
        r is None ==> final(cache).spec_scores(guild_id) == old(cache).spec_scores(guild_id),
        forall|g2: GuildId|
            g2 != guild_id ==> final(cache).spec_scores(g2) == old(cache).spec_scores(g2),
        forall|g2: GuildId| final(cache).spec_config(g2) == old(cache).spec_config(g2),
{
    let delta = go_out_voice(states, cache, guild_id, user_id, now);
    go_in_voice(states, guild_id, user_id, now);
    delta
}

/// Closes the member's away session at `now`, crediting the time so far,
/// and immediately reopens it at the same instant.
pub fn go_out_and_in_afk(
    states: &mut VoiceStates,
    cache: &mut DataCache,
    guild_id: GuildId,
    user_id: UserId,
    now: u64,
) -> (r: Option<Delta>)
    ensures
        final(states).spec_session(GuildUser(guild_id, user_id)) == Some(now),
        r == close_delta(
            old(states).spec_session(GuildUser(guild_id, user_id)),
            GuildUser(guild_id, user_id),
            ScoreType::Afk,
            now,
        ),
        forall|m2: GuildUser|
            m2 != GuildUser(guild_id, user_id) ==> final(states).spec_session(m2) == old(
                states,
            ).spec_session(m2),
        r is Some ==> final(cache).spec_scores(guild_id) is None,
        r is None ==> final(cache).spec_scores(guild_id) == old(cache).spec_scores(guild_id),
        forall|g2: GuildId|
            g2 != guild_id ==> final(cache).spec_scores(g2) == old(cache).spec_scores(g2),
        forall|g2: GuildId| final(cache).spec_config(g2) == old(cache).spec_config(g2),
{
    let delta = go_out_afk(states, cache, guild_id, user_id, now);
    go_in_afk(states, guild_id, user_id, now);
    delta
}

/// The delta an observed event emits: leaving a category — by disconnecting
/// or by moving to the other category — closes the session toward that
/// category's accumulator; nothing else emits one.
pub open spec fn spec_event_delta(
    prev: Option<u64>,
    member: GuildUser,
    transition: Transition,
    now: u64,
) -> Option<Delta> {
    match transition {
        Transition::LeaveVoice | Transition::MoveToAfk => close_delta(
            prev,
            member,
            ScoreType::Voice,
            now,
        ),
        Transition::LeaveAfk | Transition::MoveFromAfk => close_delta(
            prev,
            member,
            ScoreType::Afk,
            now,
        ),
        _ => None,
    }
}

/// The member's session after an observed event: entering opens one if none
/// is open (never resetting an open one), leaving closes it, a move between
/// categories re-baselines it to the observed instant, and everything else
/// leaves it alone.
pub open spec fn spec_event_session(
    prev: Option<u64>,
    transition: Transition,
    now: u64,
) -> Option<u64> {
    match transition {
        Transition::Ignored | Transition::Lateral => prev,
        Transition::EnterVoice | Transition::EnterAfk => match prev {
            Some(start) => Some(start),
            None => Some(now),
        },
        Transition::LeaveVoice | Transition::LeaveAfk => None,
        Transition::MoveToAfk | Transition::MoveFromAfk => Some(now),
    }
}

/// Processes one observed presence event for a member of `guild_id`, as
/// classified against the community's configuration: updates the presence
/// store, invalidates the cached leaderboard whenever a delta is emitted,
/// and returns the delta to submit to the write pipeline, if any.
pub fn process_voice_event(
    states: &mut VoiceStates,
    cache: &mut DataCache,
    guild_id: GuildId,
    user_id: UserId,
    old_channel: Option<ChannelId>,
    new_channel: Option<ChannelId>,
    config: Config,
    now: u64,
) -> (r: Option<Delta>)
    ensures
        r == spec_event_delta(
            old(states).spec_session(GuildUser(guild_id, user_id)),
            GuildUser(guild_id, user_id),
            spec_classify(old_channel, new_channel, config.afk_channel),
            now,
        ),
        final(states).spec_session(GuildUser(guild_id, user_id)) == spec_event_session(
            old(states).spec_session(GuildUser(guild_id, user_id)),
            spec_classify(old_channel, new_channel, config.afk_channel),
            now,
        ),
        forall|m2: GuildUser|
            m2 != GuildUser(guild_id, user_id) ==> final(states).spec_session(m2) == old(
                states,
            ).spec_session(m2),
        r is Some ==> final(cache).spec_scores(guild_id) is None,
        r is None ==> final(cache).spec_scores(guild_id) == old(cache).spec_scores(guild_id),
        forall|g2: GuildId|
            g2 != guild_id ==> final(cache).spec_scores(g2) == old(cache).spec_scores(g2),
        forall|g2: GuildId| final(cache).spec_config(g2) == old(cache).spec_config(g2),
{
    match classify(old_channel, new_channel, config.afk_channel) {
        Transition::Ignored | Transition::Lateral => None,
        Transition::EnterVoice => {
            go_in_voice(states, guild_id, user_id, now);
            None
        },
        Transition::EnterAfk => {
            go_in_afk(states, guild_id, user_id, now);
            None
        },
        Transition::LeaveVoice => go_out_voice(states, cache, guild_id, user_id, now),
        Transition::LeaveAfk => go_out_afk(states, cache, guild_id, user_id, now),
        Transition::MoveToAfk => go_out_and_in_afk_boundary_to_afk(
            states,
            cache,
            guild_id,
            user_id,
            now,
        ),
        Transition::MoveFromAfk => go_out_and_in_afk_boundary_from_afk(
            states,
            cache,
            guild_id,
            user_id,
            now,
        ),
    }
}

/// Crosses the boundary into the away channel: closes the voice session,
/// emitting its delta, and opens an away session at the same instant.
fn go_out_and_in_afk_boundary_to_afk(
    states: &mut VoiceStates,
    cache: &mut DataCache,
    guild_id: GuildId,
    user_id: UserId,
    now: u64,
) -> (r: Option<Delta>)
    ensures
        final(states).spec_session(GuildUser(guild_id, user_id)) == Some(now),
        r == close_delta(
            old(states).spec_session(GuildUser(guild_id, user_id)),
            GuildUser(guild_id, user_id),
            ScoreType::Voice,
            now,
        ),
        forall|m2: GuildUser|
            m2 != GuildUser(guild_id, user_id) ==> final(states).spec_session(m2) == old(
                states,
            ).spec_session(m2),
        r is Some ==> final(cache).spec_scores(guild_id) is None,
        r is None ==> final(cache).spec_scores(guild_id) == old(cache).spec_scores(guild_id),
        forall|g2: GuildId|
            g2 != guild_id ==> final(cache).spec_scores(g2) == old(cache).spec_scores(g2),
        forall|g2: GuildId| final(cache).spec_config(g2) == old(cache).spec_config(g2),
{
    let delta = go_out_voice(states, cache, guild_id, user_id, now);
    go_in_afk(states, guild_id, user_id, now);
    delta
}

/// Crosses the boundary out of the away channel: closes the away session,
/// emitting its delta, and opens a voice session at the same instant.
fn go_out_and_in_afk_boundary_from_afk(
    states: &mut VoiceStates,
    cache: &mut DataCache,
    guild_id: GuildId,
    user_id: UserId,
    now: u64,
) -> (r: Option<Delta>)
    ensures
        final(states).spec_session(GuildUser(guild_id, user_id)) == Some(now),
        r == close_delta(
            old(states).spec_session(GuildUser(guild_id, user_id)),
            GuildUser(guild_id, user_id),
            ScoreType::Afk,
            now,
        ),
        forall|m2: GuildUser|
            m2 != GuildUser(guild_id, user_id) ==> final(states).spec_session(m2) == old(
                states,
            ).spec_session(m2),
        r is Some ==> final(cache).spec_scores(guild_id) is None,
        r is None ==> final(cache).spec_scores(guild_id) == old(cache).spec_scores(guild_id),
        forall|g2: GuildId|
            g2 != guild_id ==> final(cache).spec_scores(g2) == old(cache).spec_scores(g2),
        forall|g2: GuildId| final(cache).spec_config(g2) == old(cache).spec_config(g2),
{
    let delta = go_out_afk(states, cache, guild_id, user_id, now);
    go_in_voice(states, guild_id, user_id, now);
    delta
}

} // verus!
