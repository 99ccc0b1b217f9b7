//! Community configuration: the away channel and the graveyard category.
//!
//! Configuration is read far more often than written. It is cached without a
//! TTL and kept in sync explicitly: the single mutation path updates the
//! cache together with the remote write, so the cache is only ever stale if
//! the remote store was changed behind the system's back — and the remote
//! store stays authoritative either way.

use vstd::prelude::*;

use crate::cache::DataCache;
use crate::ids::ChannelId;
use crate::ids::GuildId;

verus! {

/// A community's configuration: the graveyard category and the away channel,
/// either of which may be unset.
#[derive(Clone, Copy, Debug, PartialEq, Eq)]
pub struct Config {
    pub graveyard: Option<ChannelId>,
    pub afk_channel: Option<ChannelId>,
}

impl Default for Config {
    /// A configuration with neither channel set.
    fn default() -> (r: Config)
        ensures
            r.graveyard is None,
            r.afk_channel is None,
    {
        Config { graveyard: None, afk_channel: None }
    }
}

impl Config {
    /// Builds a configuration from raw channel identifiers, as read back
    /// from a record of the external store.
    pub fn new(graveyard: Option<u64>, afk_channel: Option<u64>) -> (r: Config)
        ensures
            r.graveyard == match graveyard {
                Some(id) => Some(ChannelId(id)),
                None => None::<ChannelId>,
            },
            r.afk_channel == match afk_channel {
                Some(id) => Some(ChannelId(id)),
                None => None::<ChannelId>,
            },
    {
        Config {
            graveyard: match graveyard {
                Some(id) => Some(ChannelId(id)),
                None => None,
            },
            afk_channel: match afk_channel {
                Some(id) => Some(ChannelId(id)),
                None => None,
            },
        }
    }
}

/// Operations that keep the cached community configuration in sync with the
/// remote store. The remote reads and writes themselves happen at the I/O
/// boundary; these functions are the cache half of each path.
pub struct Configs {}

impl Configs {
    /// Records `config`, freshly fetched from the remote store, in the cache.
    /// Returns the configuration so the caller can classify with it.
    pub fn remember_fetched(cache: &mut DataCache, guild_id: GuildId, config: Config) -> (r:
        Config)
        ensures
            r == config,
            final(cache).spec_config(guild_id) == Some(config),
            forall|g2: GuildId|
                g2 != guild_id ==> final(cache).spec_config(g2) == old(cache).spec_config(g2),
            forall|g2: GuildId| final(cache).spec_scores(g2) == old(cache).spec_scores(g2),
    {
        cache.insert_config(guild_id, config);
        config
    }

    /// Updates the cached away channel of `guild_id` after the remote write
    /// has succeeded: an already-cached configuration keeps its graveyard and
    /// gets the new away channel; a community with no cached configuration
    /// gets a fresh one with only the away channel set.
    pub fn set_afk_channel(cache: &mut DataCache, guild_id: GuildId, afk_channel_id: ChannelId)
        ensures
            final(cache).spec_config(guild_id) == Some(
                Config {
                    graveyard: match old(cache).spec_config(guild_id) {
                        Some(c) => c.graveyard,
                        None => None::<ChannelId>,
                    },
                    afk_channel: Some(afk_channel_id),
                },
            ),
            forall|g2: GuildId|
                g2 != guild_id ==> final(cache).spec_config(g2) == old(cache).spec_config(g2),
            forall|g2: GuildId| final(cache).spec_scores(g2) == old(cache).spec_scores(g2),
    {
        let updated = match cache.get_config(guild_id) {
            Some(existing) => Config { graveyard: existing.graveyard, afk_channel: Some(
                afk_channel_id,
            ) },
            None => Config { graveyard: None, afk_channel: Some(afk_channel_id) },
        };
        cache.insert_config(guild_id, updated);
    }
}

} // verus!
