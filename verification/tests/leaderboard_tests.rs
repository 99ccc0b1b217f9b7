use voice_score::cache::DataCache;
use voice_score::ids::{GuildId, UserId, Username};
use voice_score::records::Record;
use voice_score::records::{GuildRecord, PlayerRecord, ScoreRecord};
use voice_score::score::{cached_leaderboard, Score, Scores};

const GUILD: GuildId = GuildId(77);

#[test]
fn leaderboard_sorts_descending() {
    let mut cache = DataCache::new();
    let entries = vec![(1u64, 40u64), (2, 90), (3, 10), (4, 60)];
    let rows = Scores::get_all_score(&mut cache, GUILD, entries, 1000);
    let scores: Vec<u64> = rows.iter().map(|r| r.score).collect();
    assert_eq!(scores, vec![90, 60, 40, 10]);
    let users: Vec<u64> = rows.iter().map(|r| r.user_id.0).collect();
    assert_eq!(users, vec![2, 4, 1, 3]);
    assert!(rows.iter().all(|r| r.guild_id == GUILD));
}

#[test]
fn leaderboard_keeps_ties() {
    let mut cache = DataCache::new();
    let entries = vec![(1u64, 50u64), (2, 50), (3, 50)];
    let rows = Scores::get_all_score(&mut cache, GUILD, entries, 1000);
    assert_eq!(rows.len(), 3);
    assert!(rows.iter().all(|r| r.score == 50));
    let mut users: Vec<u64> = rows.iter().map(|r| r.user_id.0).collect();
    users.sort();
    assert_eq!(users, vec![1, 2, 3]);
}

#[test]
fn empty_leaderboard() {
    let mut cache = DataCache::new();
    let rows = Scores::get_all_score(&mut cache, GUILD, Vec::new(), 1000);
    assert!(rows.is_empty());
}

#[test]
fn building_populates_the_cache() {
    let mut cache = DataCache::new();
    let rows = Scores::get_all_score(&mut cache, GUILD, vec![(1, 5), (2, 9)], 1000);
    let cached = cached_leaderboard(&cache, GUILD, 1500).unwrap();
    assert_eq!(cached, rows);
    // and the snapshot expires with the standard TTL
    assert_eq!(cached_leaderboard(&cache, GUILD, 1000 + 3600 + 1), None);
}

#[test]
fn cached_miss_on_unknown_community() {
    let cache = DataCache::new();
    assert_eq!(cached_leaderboard(&cache, GuildId(1), 0), None);
}

#[test]
fn score_rows_expose_their_ids() {
    let guild = GuildRecord::new(8, Some(900), None);
    assert_eq!(guild.id(), 0);
    assert_eq!(GuildRecord::collection_name(), "guilds");
    assert_eq!(PlayerRecord::collection_name(), "players");
    assert_eq!(ScoreRecord::collection_name(), "scores");
    let player = PlayerRecord::new(3);
    assert_eq!(player.user_id, 3);
    assert_eq!(player.id(), 0);
}

#[test]
fn username_wraps_text() {
    let name = Username::new(String::from("hufuhufu"));
    assert_eq!(name.text().as_str(), "hufuhufu");
}

#[test]
fn score_rows_compare_by_fields() {
    let a = Score { guild_id: GUILD, user_id: UserId(1), score: 10 };
    let b = Score { guild_id: GUILD, user_id: UserId(1), score: 10 };
    assert_eq!(a, b);
}
