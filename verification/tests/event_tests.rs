use voice_score::cache::DataCache;
use voice_score::config::Config;
use voice_score::event::{classify, process_voice_event, Delta, Transition};
use voice_score::ids::{ChannelId, GuildId, GuildUser, UserId};
use voice_score::presence::VoiceStates;
use voice_score::score::ScoreType;

const GUILD: GuildId = GuildId(5);
const USER: UserId = UserId(77);
const AFK: ChannelId = ChannelId(900);
const VOICE_A: ChannelId = ChannelId(901);
const VOICE_B: ChannelId = ChannelId(902);

fn config_with_afk() -> Config {
    Config { graveyard: None, afk_channel: Some(AFK) }
}

fn member() -> GuildUser {
    GuildUser(GUILD, USER)
}

#[test]
fn classification_table() {
    let afk = Some(AFK);
    assert_eq!(classify(None, Some(VOICE_A), afk), Transition::EnterVoice);
    assert_eq!(classify(None, Some(AFK), afk), Transition::EnterAfk);
    assert_eq!(classify(Some(VOICE_A), None, afk), Transition::LeaveVoice);
    assert_eq!(classify(Some(AFK), None, afk), Transition::LeaveAfk);
    assert_eq!(classify(Some(VOICE_A), Some(AFK), afk), Transition::MoveToAfk);
    assert_eq!(classify(Some(AFK), Some(VOICE_A), afk), Transition::MoveFromAfk);
    assert_eq!(classify(Some(VOICE_A), Some(VOICE_B), afk), Transition::Lateral);
    assert_eq!(classify(None, None, afk), Transition::Ignored);
    // with no away channel configured, every channel counts as voice
    assert_eq!(classify(None, Some(AFK), None), Transition::EnterVoice);
    assert_eq!(classify(Some(AFK), None, None), Transition::LeaveVoice);
}

#[test]
fn enter_then_leave_emits_one_voice_delta() {
    let mut states = VoiceStates::new();
    let mut cache = DataCache::new();
    let config = config_with_afk();
    let d1 = process_voice_event(
        &mut states, &mut cache, GUILD, USER, None, Some(VOICE_A), config, 1000,
    );
    assert_eq!(d1, None);
    assert!(states.is_open(member()));
    let d2 = process_voice_event(
        &mut states, &mut cache, GUILD, USER, Some(VOICE_A), None, config, 1600,
    );
    assert_eq!(
        d2,
        Some(Delta { member: member(), amount: 600, score_type: ScoreType::Voice })
    );
    assert!(!states.is_open(member()));
}

// A move between two regular tracked channels yields no delta and leaves the
// running session untouched: total accumulated time is unaffected.
#[test]
fn lateral_move_is_a_no_op() {
    let mut states = VoiceStates::new();
    let mut cache = DataCache::new();
    let config = config_with_afk();
    process_voice_event(&mut states, &mut cache, GUILD, USER, None, Some(VOICE_A), config, 1000);
    let d = process_voice_event(
        &mut states, &mut cache, GUILD, USER, Some(VOICE_A), Some(VOICE_B), config, 1400,
    );
    assert_eq!(d, None);
    assert_eq!(states.session_start(member()), Some(1000));
    let d2 = process_voice_event(
        &mut states, &mut cache, GUILD, USER, Some(VOICE_B), None, config, 2000,
    );
    assert_eq!(
        d2,
        Some(Delta { member: member(), amount: 1000, score_type: ScoreType::Voice })
    );
}

// A move across the away boundary emits exactly one delta, to the source
// category, and opens exactly one new session at the observed instant.
#[test]
fn move_to_afk_credits_voice_and_reopens() {
    let mut states = VoiceStates::new();
    let mut cache = DataCache::new();
    let config = config_with_afk();
    process_voice_event(&mut states, &mut cache, GUILD, USER, None, Some(VOICE_A), config, 1000);
    let d = process_voice_event(
        &mut states, &mut cache, GUILD, USER, Some(VOICE_A), Some(AFK), config, 1250,
    );
    assert_eq!(
        d,
        Some(Delta { member: member(), amount: 250, score_type: ScoreType::Voice })
    );
    assert_eq!(states.session_start(member()), Some(1250));
}

#[test]
fn move_from_afk_credits_afk_and_reopens() {
    let mut states = VoiceStates::new();
    let mut cache = DataCache::new();
    let config = config_with_afk();
    process_voice_event(&mut states, &mut cache, GUILD, USER, None, Some(AFK), config, 500);
    let d = process_voice_event(
        &mut states, &mut cache, GUILD, USER, Some(AFK), Some(VOICE_A), config, 800,
    );
    assert_eq!(
        d,
        Some(Delta { member: member(), amount: 300, score_type: ScoreType::Afk })
    );
    assert_eq!(states.session_start(member()), Some(800));
}

#[test]
fn leave_without_session_emits_nothing() {
    let mut states = VoiceStates::new();
    let mut cache = DataCache::new();
    let config = config_with_afk();
    let d = process_voice_event(
        &mut states, &mut cache, GUILD, USER, Some(VOICE_A), None, config, 3000,
    );
    assert_eq!(d, None);
}

// End to end: enter voice at T0, move to the away channel at T0+600, leave
// at T0+900. Exactly two deltas: 600 s of voice and 300 s of away time.
#[test]
fn voice_then_afk_then_leave() {
    let mut states = VoiceStates::new();
    let mut cache = DataCache::new();
    let config = config_with_afk();
    let t0: u64 = 50_000;
    let mut deltas: Vec<Delta> = Vec::new();

    let d = process_voice_event(&mut states, &mut cache, GUILD, USER, None, Some(VOICE_A), config, t0);
    deltas.extend(d);
    let d = process_voice_event(
        &mut states, &mut cache, GUILD, USER, Some(VOICE_A), Some(AFK), config, t0 + 600,
    );
    deltas.extend(d);
    let d = process_voice_event(
        &mut states, &mut cache, GUILD, USER, Some(AFK), None, config, t0 + 900,
    );
    deltas.extend(d);

    assert_eq!(deltas.len(), 2);
    assert_eq!(
        deltas[0],
        Delta { member: member(), amount: 600, score_type: ScoreType::Voice }
    );
    assert_eq!(
        deltas[1],
        Delta { member: member(), amount: 300, score_type: ScoreType::Afk }
    );
}

// A close invalidates the community's cached leaderboard before the delta is
// applied; an event that emits no delta leaves the cache alone.
#[test]
fn close_invalidates_score_cache() {
    let mut states = VoiceStates::new();
    let mut cache = DataCache::new();
    let config = config_with_afk();
    cache.set_scores(GUILD, Vec::new(), 100);
    process_voice_event(&mut states, &mut cache, GUILD, USER, None, Some(VOICE_A), config, 1000);
    assert!(cache.get_scores(GUILD).is_some());
    process_voice_event(&mut states, &mut cache, GUILD, USER, Some(VOICE_A), None, config, 1500);
    assert!(cache.get_scores(GUILD).is_none());
}
