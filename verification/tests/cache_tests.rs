use voice_score::cache::{Cache, DataCache, SCORE_CACHE_TTL_SECS};
use voice_score::config::{Config, Configs};
use voice_score::ids::{ChannelId, GuildId, UserId};
use voice_score::score::{cached_leaderboard, Score};

const GUILD: GuildId = GuildId(42);

#[test]
fn cache_serves_until_ttl_elapses() {
    let entry: Cache<u64> = Cache::new(7, 60, 1000);
    assert_eq!(entry.get(1000), Some(&7));
    assert_eq!(entry.get(1060), Some(&7)); // exactly at the limit: still fresh
    assert_eq!(entry.get(1061), None); // one second past the TTL: a miss
    assert!(!entry.is_expired(1059));
    assert!(entry.is_expired(2000));
}

#[test]
fn cache_before_creation_instant_is_fresh() {
    let entry: Cache<u64> = Cache::new(7, 60, 1000);
    assert_eq!(entry.get(999), Some(&7));
}

#[test]
fn get_cloned_copies_the_snapshot() {
    let rows = vec![Score { guild_id: GUILD, user_id: UserId(1), score: 30 }];
    let entry: Cache<Vec<Score>> = Cache::new(rows, 60, 500);
    let copy = entry.get_cloned(510).unwrap();
    assert_eq!(copy.len(), 1);
    assert_eq!(copy[0].score, 30);
    assert_eq!(entry.get_cloned(561), None);
}

// An already-returned snapshot is a copy: later invalidation or replacement
// never alters it.
#[test]
fn returned_snapshot_is_never_mutated() {
    let mut cache = DataCache::new();
    let rows = vec![Score { guild_id: GUILD, user_id: UserId(1), score: 30 }];
    cache.set_scores(GUILD, rows, 100);
    let snapshot = cached_leaderboard(&cache, GUILD, 120).unwrap();
    cache.rem_scores(GUILD);
    cache.set_scores(GUILD, Vec::new(), 130);
    assert_eq!(snapshot.len(), 1);
    assert_eq!(snapshot[0].score, 30);
}

#[test]
fn get_after_invalidate_is_a_miss() {
    let mut cache = DataCache::new();
    cache.set_scores(GUILD, Vec::new(), 100);
    assert!(cached_leaderboard(&cache, GUILD, 110).is_some());
    cache.rem_scores(GUILD);
    assert_eq!(cached_leaderboard(&cache, GUILD, 110), None);
}

#[test]
fn get_after_ttl_is_a_miss_without_invalidation() {
    let mut cache = DataCache::new();
    cache.set_scores(GUILD, Vec::new(), 100);
    let still_fresh = 100 + SCORE_CACHE_TTL_SECS;
    assert!(cached_leaderboard(&cache, GUILD, still_fresh).is_some());
    assert_eq!(cached_leaderboard(&cache, GUILD, still_fresh + 1), None);
}

#[test]
fn config_cache_roundtrip() {
    let mut cache = DataCache::new();
    assert!(cache.get_config(GUILD).is_none());
    let config = Config { graveyard: Some(ChannelId(9)), afk_channel: None };
    assert_eq!(cache.insert_config(GUILD, config), None);
    assert_eq!(cache.get_config(GUILD), Some(&config));
    let replaced = cache.insert_config(
        GUILD,
        Config { graveyard: None, afk_channel: Some(ChannelId(8)) },
    );
    assert_eq!(replaced, Some(config));
}

#[test]
fn config_new_maps_raw_ids() {
    let config = Config::new(Some(1), None);
    assert_eq!(config.graveyard, Some(ChannelId(1)));
    assert_eq!(config.afk_channel, None);
    let config = Config::default();
    assert_eq!(config.graveyard, None);
    assert_eq!(config.afk_channel, None);
}

#[test]
fn set_afk_channel_keeps_the_graveyard() {
    let mut cache = DataCache::new();
    cache.insert_config(GUILD, Config { graveyard: Some(ChannelId(3)), afk_channel: None });
    Configs::set_afk_channel(&mut cache, GUILD, ChannelId(900));
    let config = cache.get_config(GUILD).unwrap();
    assert_eq!(config.graveyard, Some(ChannelId(3)));
    assert_eq!(config.afk_channel, Some(ChannelId(900)));
}

#[test]
fn set_afk_channel_on_unknown_community() {
    let mut cache = DataCache::new();
    Configs::set_afk_channel(&mut cache, GUILD, ChannelId(900));
    let config = cache.get_config(GUILD).unwrap();
    assert_eq!(config.graveyard, None);
    assert_eq!(config.afk_channel, Some(ChannelId(900)));
}

#[test]
fn remember_fetched_populates_the_cache() {
    let mut cache = DataCache::new();
    let fetched = Config { graveyard: None, afk_channel: Some(ChannelId(7)) };
    let returned = Configs::remember_fetched(&mut cache, GUILD, fetched);
    assert_eq!(returned, fetched);
    assert_eq!(cache.get_config(GUILD), Some(&fetched));
}
