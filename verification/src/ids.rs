//! Identifier types: the natural keys that correlate presence, scores and
//! cache entries across the system.

use vstd::prelude::*;

verus! {

/// Identifier of a community (a guild).
#[derive(Clone, Copy, Debug, PartialEq, Eq, Structural)]
pub struct GuildId(pub u64);

/// Identifier of a member (a user).
#[derive(Clone, Copy, Debug, PartialEq, Eq, Structural)]
pub struct UserId(pub u64);

/// Identifier of a channel.
#[derive(Clone, Copy, Debug, PartialEq, Eq, Structural)]
pub struct ChannelId(pub u64);

/// The composite member-in-community key. Immutable, and used everywhere as
/// the correlation key between presence, scores, and cache entries.
#[derive(Clone, Copy, Debug, PartialEq, Eq, Structural)]
pub struct GuildUser(pub GuildId, pub UserId);

impl GuildUser {
    /// Builds the composite key from its two parts.
    pub fn new(guild_id: GuildId, user_id: UserId) -> (r: GuildUser)
        ensures
            r == GuildUser(guild_id, user_id),
    {
        GuildUser(guild_id, user_id)
    }
}

/// A member's display name, as resolved by the platform layer.
pub struct Username {
    username: String,
}

impl View for Username {
    type V = Seq<char>;

    closed spec fn view(&self) -> Seq<char> {
        self.username@
    }
}

impl Username {
    /// Wraps a resolved display name.
    pub fn new(username: String) -> (r: Username)
        ensures
            r@ == username@,
    {
        Username { username }
    }

    /// The display name as text.
    pub fn text(&self) -> (r: &String)
        ensures
            r@ == self@,
    {
        &self.username
    }
}

} // verus!
