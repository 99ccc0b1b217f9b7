//! The record kinds of the external record store.
//!
//! The store owns three collections — community records, member records and
//! score records — each row carrying a store-assigned id plus the natural
//! key used for filtering. Fields the logic never reads (string-typed server
//! metadata) are modelled as plain integers; the store remains the authority
//! for their real representation.

use vstd::prelude::*;

verus! {

/// The store-assigned fields every row carries: the row id and the creation
/// and last-update stamps. A row that has not been stored yet carries id 0;
/// the store assigns real ids starting from 1.
#[derive(Clone, Copy, Debug, PartialEq, Eq, Structural)]
pub struct DefaultFields {
    pub id: u64,
    pub created: u64,
    pub updated: u64,
}

impl Default for DefaultFields {
    /// The fields of a row that has not been stored yet.
    fn default() -> (r: DefaultFields)
        ensures
            r.id == 0,
            r.created == 0,
            r.updated == 0,
    {
        DefaultFields { id: 0, created: 0, updated: 0 }
    }
}

/// An administrator account row, as returned by the store's authentication
/// endpoint. Carried through only; the logic never reads it.
#[derive(Clone, Debug)]
pub struct AdminRecord {
    pub default: DefaultFields,
    pub email: String,
}

/// A score row: the two monotonically non-decreasing accumulators of one
/// member in one community, in seconds. `guild` and `player` hold the row
/// ids of the community and member rows this score belongs to.
#[derive(Clone, Copy, Debug, PartialEq, Eq, Structural)]
pub struct ScoreRecord {
    pub default: DefaultFields,
    pub guild: u64,
    pub player: u64,
    pub voice_time: u64,
    pub afk_time: u64,
}

/// A member row: the member's platform identifier as natural key.
#[derive(Clone, Copy, Debug, PartialEq, Eq, Structural)]
pub struct PlayerRecord {
    pub default: DefaultFields,
    pub user_id: u64,
}

impl PlayerRecord {
    /// A member row for `user_id`, not yet stored.
    pub fn new(user_id: u64) -> (r: PlayerRecord)
        ensures
            r == (PlayerRecord {
                default: DefaultFields { id: 0, created: 0, updated: 0 },
                user_id,
            }),
    {
        PlayerRecord { default: Default::default(), user_id }
    }
}

/// A community row: the community's platform identifier as natural key,
/// plus its configured away channel and graveyard category, either of which
/// may be unset.
#[derive(Clone, Copy, Debug, PartialEq, Eq, Structural)]
pub struct GuildRecord {
    pub default: DefaultFields,
    pub server_id: u64,
    pub afk_channel: Option<u64>,
    pub graveyard: Option<u64>,
}

impl GuildRecord {
    /// A community row for `server_id` with the given channels, not yet
    /// stored.
    pub fn new(server_id: u64, afk_channel: Option<u64>, graveyard: Option<u64>) -> (r:
        GuildRecord)
        ensures
            r == (GuildRecord {
                default: DefaultFields { id: 0, created: 0, updated: 0 },
                server_id,
                afk_channel,
                graveyard,
            }),
    {
        GuildRecord { default: Default::default(), server_id, afk_channel, graveyard }
    }
}

/// What every stored row kind offers: the collection it lives in and its
/// store-assigned row id.
pub trait Record {
    /// The row id this kind exposes.
    spec fn spec_id(&self) -> u64;

    /// The name of the store collection holding rows of this kind.
    fn collection_name() -> &'static str;

    /// The store-assigned row id.
    fn id(&self) -> (r: u64)
        ensures
            r == self.spec_id(),
    ;
}

impl Record for GuildRecord {
    open spec fn spec_id(&self) -> u64 {
        self.default.id
    }

    fn collection_name() -> &'static str {
        "guilds"
    }

    fn id(&self) -> (r: u64)
        ensures
            r == self.spec_id(),
    {
        self.default.id
    }
}

impl Record for PlayerRecord {
    open spec fn spec_id(&self) -> u64 {
        self.default.id
    }

    fn collection_name() -> &'static str {
        "players"
    }

    fn id(&self) -> (r: u64)
        ensures
            r == self.spec_id(),
    {
        self.default.id
    }
}

impl Record for ScoreRecord {
    open spec fn spec_id(&self) -> u64 {
        self.default.id
    }

    fn collection_name() -> &'static str {
        "scores"
    }

    fn id(&self) -> (r: u64)
        ensures
            r == self.spec_id(),
    {
        self.default.id
    }
}

} // verus!
