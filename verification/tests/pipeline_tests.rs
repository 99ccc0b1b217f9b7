use voice_score::ids::{ChannelId, GuildId, GuildUser, UserId};
use voice_score::manager::Manager;
use voice_score::pipeline::{
    bump_score, get_config_decide, get_config_start, incr_score_start, incr_score_step,
    set_config_start, set_config_step, CVUResponse, Command, CommandError, ErrorResponse,
    GetConfigParams, IncrPhase, IncrScoreParams, ListResponse, SetConfigParams, SetConfigPhase,
    StoreReply, StoreRequest,
};
use voice_score::records::{DefaultFields, GuildRecord, PlayerRecord, ScoreRecord};
use voice_score::score::ScoreType;
use voice_score::store::StoreModel;

const GUILD: GuildId = GuildId(11);
const USER: UserId = UserId(21);

fn member() -> GuildUser {
    GuildUser(GUILD, USER)
}

fn incr_params(delta: u64, score_type: ScoreType) -> IncrScoreParams {
    IncrScoreParams { member: member(), delta, score_type }
}

fn page<R>(items: Vec<R>) -> ListResponse<R> {
    ListResponse::Success { page: 1, per_page: 30, total_items: 0, total_pages: 1, items }
}

fn store_error() -> ErrorResponse {
    ErrorResponse { code: 400, message: String::from("bad request") }
}

#[test]
fn incr_flow_updates_an_existing_row() {
    let params = incr_params(60, ScoreType::Voice);
    let (phase, request) = incr_score_start(&params);
    assert_eq!(phase, IncrPhase::FindScore);
    assert_eq!(request, StoreRequest::ListScores { guild_id: GUILD, user_id: USER });

    let existing = ScoreRecord {
        default: DefaultFields { id: 5, created: 0, updated: 0 },
        guild: 1,
        player: 2,
        voice_time: 100,
        afk_time: 40,
    };
    let (phase, request) =
        incr_score_step(&params, phase, StoreReply::ScoreList(page(vec![existing])));
    assert_eq!(phase, IncrPhase::SaveBump);
    let expected = ScoreRecord { voice_time: 160, ..existing };
    assert_eq!(request, Some(StoreRequest::UpdateScore { record: expected }));

    let (phase, request) = incr_score_step(
        &params,
        phase,
        StoreReply::ScoreSaved(CVUResponse::Success { record: expected }),
    );
    assert_eq!(phase, IncrPhase::Done { record: expected });
    assert_eq!(request, None);
}

#[test]
fn incr_flow_finds_before_creating_every_row() {
    let params = incr_params(30, ScoreType::Afk);
    let (phase, _) = incr_score_start(&params);

    // no score row yet: the flow asks for the community row next
    let (phase, request) = incr_score_step(&params, phase, StoreReply::ScoreList(page(vec![])));
    assert_eq!(phase, IncrPhase::FindGuild);
    assert_eq!(request, Some(StoreRequest::ListGuilds { guild_id: GUILD }));

    // no community row either: create one, with the natural key only
    let (phase, request) = incr_score_step(&params, phase, StoreReply::GuildList(page(vec![])));
    assert_eq!(phase, IncrPhase::MakeGuild);
    assert_eq!(
        request,
        Some(StoreRequest::CreateGuild { record: GuildRecord::new(GUILD.0, None, None) })
    );

    let stored_guild = GuildRecord {
        default: DefaultFields { id: 7, created: 0, updated: 0 },
        server_id: GUILD.0,
        afk_channel: None,
        graveyard: None,
    };
    let (phase, request) = incr_score_step(
        &params,
        phase,
        StoreReply::GuildSaved(CVUResponse::Success { record: stored_guild }),
    );
    assert_eq!(phase, IncrPhase::FindPlayer { guild_row: 7 });
    assert_eq!(request, Some(StoreRequest::ListPlayers { user_id: USER }));

    // a member row exists: reference it and create the score row pre-set
    let stored_player =
        PlayerRecord { default: DefaultFields { id: 9, created: 0, updated: 0 }, user_id: USER.0 };
    let (phase, request) =
        incr_score_step(&params, phase, StoreReply::PlayerList(page(vec![stored_player])));
    assert_eq!(phase, IncrPhase::SaveNew);
    match request {
        Some(StoreRequest::CreateScore { record }) => {
            assert_eq!(record.guild, 7);
            assert_eq!(record.player, 9);
            assert_eq!(record.voice_time, 0);
            assert_eq!(record.afk_time, 30);
        }
        other => panic!("expected a score create, got {:?}", other),
    }
}

#[test]
fn incr_flow_fails_on_error_reply_and_on_transport() {
    let params = incr_params(10, ScoreType::Voice);
    let (phase, _) = incr_score_start(&params);
    let (failed, request) = incr_score_step(
        &params,
        phase,
        StoreReply::ScoreList(ListResponse::Failure { error: store_error() }),
    );
    assert_eq!(failed, IncrPhase::Failed { error: CommandError::Store { code: 400 } });
    assert_eq!(request, None);

    let (phase, _) = incr_score_start(&params);
    let (failed, _) = incr_score_step(&params, phase, StoreReply::Failed);
    assert_eq!(failed, IncrPhase::Failed { error: CommandError::Transport });

    let (phase, _) = incr_score_start(&params);
    let (failed, _) = incr_score_step(
        &params,
        phase,
        StoreReply::GuildSaved(CVUResponse::Success { record: GuildRecord::new(1, None, None) }),
    );
    assert_eq!(failed, IncrPhase::Failed { error: CommandError::Protocol });
}

#[test]
fn bump_score_saturates() {
    let row = ScoreRecord {
        default: DefaultFields { id: 1, created: 0, updated: 0 },
        guild: 1,
        player: 1,
        voice_time: u64::MAX - 5,
        afk_time: 3,
    };
    let bumped = bump_score(row, 10, ScoreType::Voice);
    assert_eq!(bumped.voice_time, u64::MAX);
    assert_eq!(bumped.afk_time, 3);
}

#[test]
fn set_config_flow_patches_or_creates() {
    let params = SetConfigParams {
        guild_id: GUILD,
        afk_channel: Some(ChannelId(900)),
        graveyard: None,
    };
    let (phase, request) = set_config_start(&params);
    assert_eq!(request, StoreRequest::ListGuilds { guild_id: GUILD });

    let stored = GuildRecord {
        default: DefaultFields { id: 4, created: 0, updated: 0 },
        server_id: GUILD.0,
        afk_channel: None,
        graveyard: Some(33),
    };
    let (phase2, request) =
        set_config_step(&params, phase, StoreReply::GuildList(page(vec![stored])));
    assert_eq!(phase2, SetConfigPhase::Saving);
    let patched = GuildRecord { afk_channel: Some(900), ..stored };
    assert_eq!(request, Some(StoreRequest::UpdateGuild { record: patched }));

    let (phase3, _) = set_config_step(
        &params,
        phase2,
        StoreReply::GuildSaved(CVUResponse::Success { record: patched }),
    );
    assert_eq!(phase3, SetConfigPhase::Done { record: patched });

    let (phase, _) = set_config_start(&params);
    let (_, request) = set_config_step(&params, phase, StoreReply::GuildList(page(vec![])));
    assert_eq!(
        request,
        Some(StoreRequest::CreateGuild { record: GuildRecord::new(GUILD.0, Some(900), None) })
    );
}

#[test]
fn get_config_decides_stored_or_default() {
    let params = GetConfigParams { guild_id: GUILD };
    assert_eq!(get_config_start(&params), StoreRequest::ListGuilds { guild_id: GUILD });

    let stored = GuildRecord {
        default: DefaultFields { id: 4, created: 0, updated: 0 },
        server_id: GUILD.0,
        afk_channel: Some(900),
        graveyard: None,
    };
    assert_eq!(
        get_config_decide(&params, StoreReply::GuildList(page(vec![stored]))),
        Ok(stored)
    );
    // a community with no row gets defaults, and nothing is created
    assert_eq!(
        get_config_decide(&params, StoreReply::GuildList(page(vec![]))),
        Ok(GuildRecord::new(GUILD.0, None, None))
    );
    assert_eq!(
        get_config_decide(&params, StoreReply::Failed),
        Err(CommandError::Transport)
    );
    assert_eq!(
        get_config_decide(
            &params,
            StoreReply::GuildList(ListResponse::Failure { error: store_error() })
        ),
        Err(CommandError::Store { code: 400 })
    );
}

#[test]
fn command_constructors_carry_their_parameters() {
    let cmd = Command::new_incr_score(member(), 45, ScoreType::Voice);
    assert_eq!(
        cmd,
        Command::IncrScore(IncrScoreParams { member: member(), delta: 45, score_type: ScoreType::Voice })
    );
    let cmd = Command::new_set_config(GUILD, Some(ChannelId(1)), None);
    assert_eq!(
        cmd,
        Command::SetConfig(SetConfigParams {
            guild_id: GUILD,
            afk_channel: Some(ChannelId(1)),
            graveyard: None,
        })
    );
    let cmd = Command::new_get_config(GUILD);
    assert_eq!(cmd, Command::GetConfig(GetConfigParams { guild_id: GUILD }));
}

// However many deltas are submitted for one member, and in whatever order,
// the serialized consumer leaves exactly one score row, holding their sum.
#[test]
fn serialized_deltas_never_duplicate_a_row() {
    let mut manager = Manager::new(StoreModel::new());
    let first = manager
        .run_incr_score(&incr_params(600, ScoreType::Voice))
        .unwrap();
    assert_eq!(first.voice_time, 600);
    assert_eq!(first.afk_time, 0);

    let second = manager
        .run_incr_score(&incr_params(300, ScoreType::Afk))
        .unwrap();
    let third = manager
        .run_incr_score(&incr_params(100, ScoreType::Voice))
        .unwrap();
    assert_eq!(third.voice_time, 700);
    assert_eq!(third.afk_time, 300);
    assert_eq!(second.guild, third.guild);
    assert_eq!(second.player, third.player);
    assert_eq!(manager.store.scores.len(), 1);
    assert_eq!(manager.store.guilds.len(), 1);
    assert_eq!(manager.store.players.len(), 1);
}

#[test]
fn deltas_for_different_members_keep_separate_rows() {
    let mut manager = Manager::new(StoreModel::new());
    let other = GuildUser(GUILD, UserId(22));
    manager
        .run_incr_score(&IncrScoreParams { member: member(), delta: 10, score_type: ScoreType::Voice })
        .unwrap();
    manager
        .run_incr_score(&IncrScoreParams { member: other, delta: 20, score_type: ScoreType::Voice })
        .unwrap();
    let again = manager
        .run_incr_score(&IncrScoreParams { member: member(), delta: 5, score_type: ScoreType::Voice })
        .unwrap();
    assert_eq!(again.voice_time, 15);
    assert_eq!(manager.store.scores.len(), 2);
    assert_eq!(manager.store.guilds.len(), 1);
    assert_eq!(manager.store.players.len(), 2);
}

#[test]
fn config_commands_against_the_store() {
    let mut manager = Manager::new(StoreModel::new());
    // reading a missing configuration yields defaults and creates nothing
    let rec = manager
        .run_get_config(&GetConfigParams { guild_id: GUILD })
        .unwrap();
    assert_eq!(rec.afk_channel, None);
    assert_eq!(manager.store.guilds.len(), 0);

    let written = manager
        .run_set_config(&SetConfigParams {
            guild_id: GUILD,
            afk_channel: Some(ChannelId(900)),
            graveyard: None,
        })
        .unwrap();
    assert_eq!(written.afk_channel, Some(900));
    assert_eq!(written.graveyard, None);

    // a second write patches: the unset field keeps its stored value
    let written = manager
        .run_set_config(&SetConfigParams {
            guild_id: GUILD,
            afk_channel: None,
            graveyard: Some(ChannelId(33)),
        })
        .unwrap();
    assert_eq!(written.afk_channel, Some(900));
    assert_eq!(written.graveyard, Some(33));
    assert_eq!(manager.store.guilds.len(), 1);

    let rec = manager
        .run_get_config(&GetConfigParams { guild_id: GUILD })
        .unwrap();
    assert_eq!(rec, written);
}

#[test]
fn unwrap_returns_the_page_items() {
    let reply: ListResponse<PlayerRecord> = page(vec![PlayerRecord::new(3)]);
    let items = reply.unwrap();
    assert_eq!(items.len(), 1);
    assert_eq!(items[0].user_id, 3);
}
