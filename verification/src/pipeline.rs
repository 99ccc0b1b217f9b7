//! The write pipeline's commands and decision logic.
//!
//! Commands travel through a bounded, single-consumer queue; the consumer
//! processes them strictly one at a time, which is the mechanism that keeps
//! find-or-create free of duplicate rows. Each command's processing is a
//! short conversation with the remote store: issue a request, read the
//! reply, decide the next request. The decision logic is encoded here as
//! step functions from (phase, reply) to (next phase, next request); the
//! I/O driver performs each request and hands the reply back. A failed or
//! malformed reply fails the command — never the consumer, which goes on to
//! the next command unconditionally.

use vstd::prelude::*;

use crate::ids::ChannelId;
use crate::ids::GuildId;
use crate::ids::GuildUser;
use crate::ids::UserId;
use crate::records::DefaultFields;
use crate::records::GuildRecord;
use crate::records::PlayerRecord;
use crate::records::ScoreRecord;
use crate::score::ScoreType;

verus! {

/// An error document returned by the store's API.
#[derive(Debug)]
pub struct ErrorResponse {
    pub code: u16,
    pub message: String,
}

/// The envelope of a list call: a result page, or an error document.
#[derive(Debug)]
pub enum ListResponse<R> {
    Success { page: u32, per_page: u32, total_items: u32, total_pages: u32, items: Vec<R> },
    Failure { error: ErrorResponse },
}

impl<R> ListResponse<R> {
    /// The listed items of a reply known to be a result page.
    pub fn unwrap(self) -> (r: Vec<R>)
        requires
            self is Success,
        ensures
            match self {
                ListResponse::Success { items, .. } => r == items,
                ListResponse::Failure { .. } => false,
            },
    {
        match self {
            ListResponse::Success { items, .. } => items,
            ListResponse::Failure { .. } => {
                proof {
                    assert(false);
                }
                Vec::new()
            },
        }
    }
}

/// The envelope of a create, view or update call: the affected record, or an
/// error document.
#[derive(Debug)]
pub enum CVUResponse<R> {
    Success { record: R },
    Failure { error: ErrorResponse },
}

/// Why a command failed. Failures are delivered to the command's caller
/// only; the consumer loop is never stopped by one.
#[derive(Clone, Copy, Debug, PartialEq, Eq, Structural)]
pub enum CommandError {
    /// The store's API answered with an error document.
    Store { code: u16 },
    /// The call produced no usable reply: transport failure or timeout.
    Transport,
    /// The reply did not have the shape this step of the flow expects.
    Protocol,
}

/// Parameters of a delta application: add `delta` seconds to one of the
/// member's two accumulators.
#[derive(Clone, Copy, Debug, PartialEq, Eq, Structural)]
pub struct IncrScoreParams {
    pub member: GuildUser,
    pub delta: u64,
    pub score_type: ScoreType,
}

/// Parameters of a configuration write: each channel given here overwrites
/// the stored one; a channel left `None` keeps its stored value.
#[derive(Clone, Copy, Debug, PartialEq, Eq, Structural)]
pub struct SetConfigParams {
    pub guild_id: GuildId,
    pub afk_channel: Option<ChannelId>,
    pub graveyard: Option<ChannelId>,
}

/// Parameters of a configuration read.
#[derive(Clone, Copy, Debug, PartialEq, Eq, Structural)]
pub struct GetConfigParams {
    pub guild_id: GuildId,
}

/// A command accepted by the write pipeline. The caller awaits the outcome
/// through whatever response channel the I/O layer pairs with the command.
#[derive(Clone, Copy, Debug, PartialEq, Eq, Structural)]
pub enum Command {
    IncrScore(IncrScoreParams),
    SetConfig(SetConfigParams),
    GetConfig(GetConfigParams),
}

impl Command {
    /// A command that adds `delta` seconds to `member`'s accumulator of
    /// `score_type`.
    pub fn new_incr_score(member: GuildUser, delta: u64, score_type: ScoreType) -> (r: Command)
        ensures
            r == Command::IncrScore(IncrScoreParams { member, delta, score_type }),
    {
        Command::IncrScore(IncrScoreParams { member, delta, score_type })
    }

    /// A command that overwrites the given channels of `guild_id`'s stored
    /// configuration.
    pub fn new_set_config(
        guild_id: GuildId,
        afk_channel: Option<ChannelId>,
        graveyard: Option<ChannelId>,
    ) -> (r: Command)
        ensures
            r == Command::SetConfig(SetConfigParams { guild_id, afk_channel, graveyard }),
    {
        Command::SetConfig(SetConfigParams { guild_id, afk_channel, graveyard })
    }

    /// A command that reads `guild_id`'s stored configuration.
    pub fn new_get_config(guild_id: GuildId) -> (r: Command)
        ensures
            r == Command::GetConfig(GetConfigParams { guild_id }),
    {
        Command::GetConfig(GetConfigParams { guild_id })
    }
}

/// A request the pipeline asks the I/O driver to perform against the store.
#[derive(Clone, Copy, Debug, PartialEq, Eq, Structural)]
pub enum StoreRequest {
    /// List score rows of the member, filtered by both natural keys.
    ListScores { guild_id: GuildId, user_id: UserId },
    /// List community rows filtered by the community's natural key.
    ListGuilds { guild_id: GuildId },
    /// List member rows filtered by the member's natural key.
    ListPlayers { user_id: UserId },
    CreateGuild { record: GuildRecord },
    CreatePlayer { record: PlayerRecord },
    CreateScore { record: ScoreRecord },
    UpdateScore { record: ScoreRecord },
    UpdateGuild { record: GuildRecord },
}

/// What the I/O driver hands back for one performed request.
#[derive(Debug)]
pub enum StoreReply {
    ScoreList(ListResponse<ScoreRecord>),
    GuildList(ListResponse<GuildRecord>),
    PlayerList(ListResponse<PlayerRecord>),
    ScoreSaved(CVUResponse<ScoreRecord>),
    GuildSaved(CVUResponse<GuildRecord>),
    PlayerSaved(CVUResponse<PlayerRecord>),
    /// The call itself failed: transport error or timeout.
    Failed,
}

/// `a + b`, saturating at the accumulator's maximum.
pub open spec fn sat_add(a: u64, b: u64) -> u64 {
    if a + b > u64::MAX {
        u64::MAX
    } else {
        (a + b) as u64
    }
}

/// `record` with `delta` added to the accumulator of `score_type`; the
/// other accumulator and every other field stay as they are.
pub open spec fn spec_bump_score(record: ScoreRecord, delta: u64, score_type: ScoreType) -> ScoreRecord {
    match score_type {
        ScoreType::Voice => ScoreRecord {
            voice_time: sat_add(record.voice_time, delta),
            ..record
        },
        ScoreType::Afk => ScoreRecord { afk_time: sat_add(record.afk_time, delta), ..record },
    }
}

/// Adds `delta` to the accumulator of `score_type`, saturating.
pub fn bump_score(record: ScoreRecord, delta: u64, score_type: ScoreType) -> (r: ScoreRecord)
    ensures
        r == spec_bump_score(record, delta, score_type),
{
    match score_type {
        ScoreType::Voice => {
            let bumped: u64 = if record.voice_time > u64::MAX - delta {
                u64::MAX
            } else {
                record.voice_time + delta
            };
            ScoreRecord { voice_time: bumped, ..record }
        },
        ScoreType::Afk => {
            let bumped: u64 = if record.afk_time > u64::MAX - delta {
                u64::MAX
            } else {
                record.afk_time + delta
            };
            ScoreRecord { afk_time: bumped, ..record }
        },
    }
}

/// A score row for a never-seen member: references the resolved community
/// and member rows, with the whole delta pre-set on the right accumulator.
pub open spec fn spec_new_score(
    guild_row: u64,
    player_row: u64,
    delta: u64,
    score_type: ScoreType,
) -> ScoreRecord {
    ScoreRecord {
        default: DefaultFields { id: 0, created: 0, updated: 0 },
        guild: guild_row,
        player: player_row,
        voice_time: if score_type is Voice {
            delta
        } else {
            0
        },
        afk_time: if score_type is Afk {
            delta
        } else {
            0
        },
    }
}

/// Builds the score row for a never-seen member.
pub fn new_score_record(guild_row: u64, player_row: u64, delta: u64, score_type: ScoreType) -> (r:
    ScoreRecord)
    ensures
        r == spec_new_score(guild_row, player_row, delta, score_type),
{
    match score_type {
        ScoreType::Voice => ScoreRecord {
            default: DefaultFields { id: 0, created: 0, updated: 0 },
            guild: guild_row,
            player: player_row,
            voice_time: delta,
            afk_time: 0,
        },
        ScoreType::Afk => ScoreRecord {
            default: DefaultFields { id: 0, created: 0, updated: 0 },
            guild: guild_row,
            player: player_row,
            voice_time: 0,
            afk_time: delta,
        },
    }
}

/// `record` with the channels of `params` written over it: a channel the
/// command does not give keeps its stored value.
pub open spec fn spec_patch_guild(record: GuildRecord, params: SetConfigParams) -> GuildRecord {
    GuildRecord {
        afk_channel: match params.afk_channel {
            Some(c) => Some(c.0),
            None => record.afk_channel,
        },
        graveyard: match params.graveyard {
            Some(c) => Some(c.0),
            None => record.graveyard,
        },
        ..record
    }
}

/// Applies a configuration write to an existing community row.
pub fn patch_guild(record: GuildRecord, params: &SetConfigParams) -> (r: GuildRecord)
    ensures
        r == spec_patch_guild(record, *params),
{
    GuildRecord {
        afk_channel: match params.afk_channel {
            Some(c) => Some(c.0),
            None => record.afk_channel,
        },
        graveyard: match params.graveyard {
            Some(c) => Some(c.0),
            None => record.graveyard,
        },
        ..record
    }
}

/// The community row a configuration write creates when the community has
/// none yet.
pub open spec fn spec_config_guild(params: SetConfigParams) -> GuildRecord {
    GuildRecord {
        default: DefaultFields { id: 0, created: 0, updated: 0 },
        server_id: params.guild_id.0,
        afk_channel: match params.afk_channel {
            Some(c) => Some(c.0),
            None => None,
        },
        graveyard: match params.graveyard {
            Some(c) => Some(c.0),
            None => None,
        },
    }
}

/// The phase an in-flight delta application is in: what the flow is waiting
/// to hear back about.
#[derive(Clone, Copy, Debug, PartialEq, Eq, Structural)]
pub enum IncrPhase {
    /// Waiting for the member's existing score rows.
    FindScore,
    /// Waiting for the bumped row to be saved.
    SaveBump,
    /// No score row yet: waiting for the community rows.
    FindGuild,
    /// Waiting for a fresh community row to be saved.
    MakeGuild,
    /// Community row resolved: waiting for the member rows.
    FindPlayer { guild_row: u64 },
    /// Waiting for a fresh member row to be saved.
    MakePlayer { guild_row: u64 },
    /// Waiting for the fresh score row to be saved.
    SaveNew,
    /// The command succeeded with this record.
    Done { record: ScoreRecord },
    /// The command failed; the consumer moves on regardless.
    Failed { error: CommandError },
}

/// Whether the flow has finished, successfully or not.
pub open spec fn incr_terminal(phase: IncrPhase) -> bool {
    phase is Done || phase is Failed
}

/// The transition table of the delta-application flow: from the phase and
/// the reply just received to the next phase and the next request, if any.
/// Find always precedes create — a row is created only after a list for its
/// key came back empty — and any error reply fails the command on the spot.
pub open spec fn spec_incr_step(params: IncrScoreParams, phase: IncrPhase, reply: StoreReply) -> (
    IncrPhase,
    Option<StoreRequest>,
) {
    match (phase, reply) {
        (IncrPhase::FindScore, StoreReply::ScoreList(ListResponse::Success { items, .. })) => if items@.len() > 0 {
            (
                IncrPhase::SaveBump,
                Some(
                    StoreRequest::UpdateScore {
                        record: spec_bump_score(items@.last(), params.delta, params.score_type),
                    },
                ),
            )
        } else {
            (
                IncrPhase::FindGuild,
                Some(StoreRequest::ListGuilds { guild_id: params.member.0 }),
            )
        },
        (IncrPhase::FindScore, StoreReply::ScoreList(ListResponse::Failure { error })) => (
            IncrPhase::Failed { error: CommandError::Store { code: error.code } },
            None,
        ),
        (IncrPhase::SaveBump, StoreReply::ScoreSaved(CVUResponse::Success { record })) => (
            IncrPhase::Done { record },
            None,
        ),
        (IncrPhase::SaveBump, StoreReply::ScoreSaved(CVUResponse::Failure { error })) => (
            IncrPhase::Failed { error: CommandError::Store { code: error.code } },
            None,
        ),
        (IncrPhase::FindGuild, StoreReply::GuildList(ListResponse::Success { items, .. })) => if items@.len() > 0 {
            (
                IncrPhase::FindPlayer { guild_row: items@.last().default.id },
                Some(StoreRequest::ListPlayers { user_id: params.member.1 }),
            )
        } else {
            (
                IncrPhase::MakeGuild,
                Some(
                    StoreRequest::CreateGuild {
                        record: GuildRecord {
                            default: DefaultFields { id: 0, created: 0, updated: 0 },
                            server_id: params.member.0.0,
                            afk_channel: None,
                            graveyard: None,
                        },
                    },
                ),
            )
        },
        (IncrPhase::FindGuild, StoreReply::GuildList(ListResponse::Failure { error })) => (
            IncrPhase::Failed { error: CommandError::Store { code: error.code } },
            None,
        ),
        (IncrPhase::MakeGuild, StoreReply::GuildSaved(CVUResponse::Success { record })) => (
            IncrPhase::FindPlayer { guild_row: record.default.id },
            Some(StoreRequest::ListPlayers { user_id: params.member.1 }),
        ),
        (IncrPhase::MakeGuild, StoreReply::GuildSaved(CVUResponse::Failure { error })) => (
            IncrPhase::Failed { error: CommandError::Store { code: error.code } },
            None,
        ),
        (
            IncrPhase::FindPlayer { guild_row },
            StoreReply::PlayerList(ListResponse::Success { items, .. }),
        ) => if items@.len() > 0 {
            (
                IncrPhase::SaveNew,
                Some(
                    StoreRequest::CreateScore {
                        record: spec_new_score(
                            guild_row,
                            items@.last().default.id,
                            params.delta,
                            params.score_type,
                        ),
                    },
                ),
            )
        } else {
            (
                IncrPhase::MakePlayer { guild_row },
                Some(
                    StoreRequest::CreatePlayer {
                        record: PlayerRecord {
                            default: DefaultFields { id: 0, created: 0, updated: 0 },
                            user_id: params.member.1.0,
                        },
                    },
                ),
            )
        },
        (IncrPhase::FindPlayer { .. }, StoreReply::PlayerList(ListResponse::Failure { error })) => (
            IncrPhase::Failed { error: CommandError::Store { code: error.code } },
            None,
        ),
        (
            IncrPhase::MakePlayer { guild_row },
            StoreReply::PlayerSaved(CVUResponse::Success { record }),
        ) => (
            IncrPhase::SaveNew,
            Some(
                StoreRequest::CreateScore {
                    record: spec_new_score(
                        guild_row,
                        record.default.id,
                        params.delta,
                        params.score_type,
                    ),
                },
            ),
        ),
        (IncrPhase::MakePlayer { .. }, StoreReply::PlayerSaved(CVUResponse::Failure { error })) => (
            IncrPhase::Failed { error: CommandError::Store { code: error.code } },
            None,
        ),
        (IncrPhase::SaveNew, StoreReply::ScoreSaved(CVUResponse::Success { record })) => (
            IncrPhase::Done { record },
            None,
        ),
        (IncrPhase::SaveNew, StoreReply::ScoreSaved(CVUResponse::Failure { error })) => (
            IncrPhase::Failed { error: CommandError::Store { code: error.code } },
            None,
        ),
        (_, StoreReply::Failed) => (IncrPhase::Failed { error: CommandError::Transport }, None),
        _ => (IncrPhase::Failed { error: CommandError::Protocol }, None),
    }
}

/// Starts a delta application: the flow first asks for the member's
/// existing score rows.
pub fn incr_score_start(params: &IncrScoreParams) -> (r: (IncrPhase, StoreRequest))
    ensures
        r == (
            IncrPhase::FindScore,
            StoreRequest::ListScores { guild_id: params.member.0, user_id: params.member.1 },
        ),
{
    (
        IncrPhase::FindScore,
        StoreRequest::ListScores { guild_id: params.member.0, user_id: params.member.1 },
    )
}

/// Advances a delta application by one reply; agrees with
/// [`spec_incr_step`] exactly.
pub fn incr_score_step(params: &IncrScoreParams, phase: IncrPhase, reply: StoreReply) -> (r: (
    IncrPhase,
    Option<StoreRequest>,
))
    requires
        !incr_terminal(phase),
    ensures
        r == spec_incr_step(*params, phase, reply),
{
    match (phase, reply) {
        (IncrPhase::FindScore, StoreReply::ScoreList(ListResponse::Success { items, .. })) => {
            if items.len() > 0 {
                let found = items[items.len() - 1];
                (
                    IncrPhase::SaveBump,
                    Some(
                        StoreRequest::UpdateScore {
                            record: bump_score(found, params.delta, params.score_type),
                        },
                    ),
                )
            } else {
                (IncrPhase::FindGuild, Some(StoreRequest::ListGuilds { guild_id: params.member.0 }))
            }
        },
        (IncrPhase::FindScore, StoreReply::ScoreList(ListResponse::Failure { error })) => (
            IncrPhase::Failed { error: CommandError::Store { code: error.code } },
            None,
        ),
        (IncrPhase::SaveBump, StoreReply::ScoreSaved(CVUResponse::Success { record })) => (
            IncrPhase::Done { record },
            None,
        ),
        (IncrPhase::SaveBump, StoreReply::ScoreSaved(CVUResponse::Failure { error })) => (
            IncrPhase::Failed { error: CommandError::Store { code: error.code } },
            None,
        ),
        (IncrPhase::FindGuild, StoreReply::GuildList(ListResponse::Success { items, .. })) => {
            if items.len() > 0 {
                let found = items[items.len() - 1];
                (
                    IncrPhase::FindPlayer { guild_row: found.default.id },
                    Some(StoreRequest::ListPlayers { user_id: params.member.1 }),
                )
            } else {
                (
                    IncrPhase::MakeGuild,
                    Some(
                        StoreRequest::CreateGuild {
                            record: GuildRecord::new(params.member.0.0, None, None),
                        },
                    ),
                )
            }
        },
        (IncrPhase::FindGuild, StoreReply::GuildList(ListResponse::Failure { error })) => (
            IncrPhase::Failed { error: CommandError::Store { code: error.code } },
            None,
        ),
        (IncrPhase::MakeGuild, StoreReply::GuildSaved(CVUResponse::Success { record })) => (
            IncrPhase::FindPlayer { guild_row: record.default.id },
            Some(StoreRequest::ListPlayers { user_id: params.member.1 }),
        ),
        (IncrPhase::MakeGuild, StoreReply::GuildSaved(CVUResponse::Failure { error })) => (
            IncrPhase::Failed { error: CommandError::Store { code: error.code } },
            None,
        ),
        (
            IncrPhase::FindPlayer { guild_row },
            StoreReply::PlayerList(ListResponse::Success { items, .. }),
        ) => {
            if items.len() > 0 {
                let found = items[items.len() - 1];
                (
                    IncrPhase::SaveNew,
                    Some(
                        StoreRequest::CreateScore {
                            record: new_score_record(
                                guild_row,
                                found.default.id,
                                params.delta,
                                params.score_type,
                            ),
                        },
                    ),
                )
            } else {
                (
                    IncrPhase::MakePlayer { guild_row },
                    Some(StoreRequest::CreatePlayer { record: PlayerRecord::new(params.member.1.0) }),
                )
            }
        },
        (IncrPhase::FindPlayer { .. }, StoreReply::PlayerList(ListResponse::Failure { error })) => (
            IncrPhase::Failed { error: CommandError::Store { code: error.code } },
            None,
        ),
        (IncrPhase::MakePlayer { guild_row }, StoreReply::PlayerSaved(CVUResponse::Success { record })) => (
            IncrPhase::SaveNew,
            Some(
                StoreRequest::CreateScore {
                    record: new_score_record(
                        guild_row,
                        record.default.id,
                        params.delta,
                        params.score_type,
                    ),
                },
            ),
        ),
        (IncrPhase::MakePlayer { .. }, StoreReply::PlayerSaved(CVUResponse::Failure { error })) => (
            IncrPhase::Failed { error: CommandError::Store { code: error.code } },
            None,
        ),
        (IncrPhase::SaveNew, StoreReply::ScoreSaved(CVUResponse::Success { record })) => (
            IncrPhase::Done { record },
            None,
        ),
        (IncrPhase::SaveNew, StoreReply::ScoreSaved(CVUResponse::Failure { error })) => (
            IncrPhase::Failed { error: CommandError::Store { code: error.code } },
            None,
        ),
        (_, StoreReply::Failed) => (IncrPhase::Failed { error: CommandError::Transport }, None),
        _ => (IncrPhase::Failed { error: CommandError::Protocol }, None),
    }
}

/// The phase an in-flight configuration write is in.
#[derive(Clone, Copy, Debug, PartialEq, Eq, Structural)]
pub enum SetConfigPhase {
    /// Waiting for the community rows.
    FindGuild,
    /// Waiting for the patched or fresh row to be saved.
    Saving,
    /// The command succeeded with this record.
    Done { record: GuildRecord },
    /// The command failed.
    Failed { error: CommandError },
}

/// Whether the configuration-write flow has finished.
pub open spec fn set_config_terminal(phase: SetConfigPhase) -> bool {
    phase is Done || phase is Failed
}

/// The transition table of the configuration-write flow: an existing row is
/// patched and updated, a missing one is created with the given channels.
pub open spec fn spec_set_config_step(
    params: SetConfigParams,
    phase: SetConfigPhase,
    reply: StoreReply,
) -> (SetConfigPhase, Option<StoreRequest>) {
    match (phase, reply) {
        (SetConfigPhase::FindGuild, StoreReply::GuildList(ListResponse::Success { items, .. })) => if items@.len() > 0 {
            (
                SetConfigPhase::Saving,
                Some(StoreRequest::UpdateGuild { record: spec_patch_guild(items@.last(), params) }),
            )
        } else {
            (
                SetConfigPhase::Saving,
                Some(StoreRequest::CreateGuild { record: spec_config_guild(params) }),
            )
        },
        (SetConfigPhase::FindGuild, StoreReply::GuildList(ListResponse::Failure { error })) => (
            SetConfigPhase::Failed { error: CommandError::Store { code: error.code } },
            None,
        ),
        (SetConfigPhase::Saving, StoreReply::GuildSaved(CVUResponse::Success { record })) => (
            SetConfigPhase::Done { record },
            None,
        ),
        (SetConfigPhase::Saving, StoreReply::GuildSaved(CVUResponse::Failure { error })) => (
            SetConfigPhase::Failed { error: CommandError::Store { code: error.code } },
            None,
        ),
        (_, StoreReply::Failed) => (
            SetConfigPhase::Failed { error: CommandError::Transport },
            None,
        ),
        _ => (SetConfigPhase::Failed { error: CommandError::Protocol }, None),
    }
}

/// Starts a configuration write: the flow first asks for the community row.
pub fn set_config_start(params: &SetConfigParams) -> (r: (SetConfigPhase, StoreRequest))
    ensures
        r == (SetConfigPhase::FindGuild, StoreRequest::ListGuilds { guild_id: params.guild_id }),
{
    (SetConfigPhase::FindGuild, StoreRequest::ListGuilds { guild_id: params.guild_id })
}

/// Advances a configuration write by one reply; agrees with
/// [`spec_set_config_step`] exactly.
pub fn set_config_step(params: &SetConfigParams, phase: SetConfigPhase, reply: StoreReply) -> (r: (
    SetConfigPhase,
    Option<StoreRequest>,
))
    requires
        !set_config_terminal(phase),
    ensures
        r == spec_set_config_step(*params, phase, reply),
{
    match (phase, reply) {
        (SetConfigPhase::FindGuild, StoreReply::GuildList(ListResponse::Success { items, .. })) => {
            if items.len() > 0 {
                let found = items[items.len() - 1];
                (
                    SetConfigPhase::Saving,
                    Some(StoreRequest::UpdateGuild { record: patch_guild(found, params) }),
                )
            } else {
                let afk: Option<u64> = match params.afk_channel {
                    Some(c) => Some(c.0),
                    None => None,
                };
                let graveyard: Option<u64> = match params.graveyard {
                    Some(c) => Some(c.0),
                    None => None,
                };
                (
                    SetConfigPhase::Saving,
                    Some(
                        StoreRequest::CreateGuild {
                            record: GuildRecord::new(params.guild_id.0, afk, graveyard),
                        },
                    ),
                )
            }
        },
        (SetConfigPhase::FindGuild, StoreReply::GuildList(ListResponse::Failure { error })) => (
            SetConfigPhase::Failed { error: CommandError::Store { code: error.code } },
            None,
        ),
        (SetConfigPhase::Saving, StoreReply::GuildSaved(CVUResponse::Success { record })) => (
            SetConfigPhase::Done { record },
            None,
        ),
        (SetConfigPhase::Saving, StoreReply::GuildSaved(CVUResponse::Failure { error })) => (
            SetConfigPhase::Failed { error: CommandError::Store { code: error.code } },
            None,
        ),
        (_, StoreReply::Failed) => (
            SetConfigPhase::Failed { error: CommandError::Transport },
            None,
        ),
        _ => (SetConfigPhase::Failed { error: CommandError::Protocol }, None),
    }
}

/// What a configuration read answers given the listed community rows: the
/// stored row, or — for a community with none — a fresh default row that is
/// not created in the store ("configuration not found" means "use
/// defaults", not an error).
pub open spec fn spec_get_config_decide(params: GetConfigParams, reply: StoreReply) -> Result<
    GuildRecord,
    CommandError,
> {
    match reply {
        StoreReply::GuildList(ListResponse::Success { items, .. }) => if items@.len() > 0 {
            Ok(items@.last())
        } else {
            Ok(
                GuildRecord {
                    default: DefaultFields { id: 0, created: 0, updated: 0 },
                    server_id: params.guild_id.0,
                    afk_channel: None,
                    graveyard: None,
                },
            )
        },
        StoreReply::GuildList(ListResponse::Failure { error }) => Err(
            CommandError::Store { code: error.code },
        ),
        StoreReply::Failed => Err(CommandError::Transport),
        _ => Err(CommandError::Protocol),
    }
}

/// Starts a configuration read: one list request for the community row.
pub fn get_config_start(params: &GetConfigParams) -> (r: StoreRequest)
    ensures
        r == (StoreRequest::ListGuilds { guild_id: params.guild_id }),
{
    StoreRequest::ListGuilds { guild_id: params.guild_id }
}

/// Decides a configuration read from the reply; agrees with
/// [`spec_get_config_decide`] exactly.
pub fn get_config_decide(params: &GetConfigParams, reply: StoreReply) -> (r: Result<
    GuildRecord,
    CommandError,
>)
    ensures
        r == spec_get_config_decide(*params, reply),
{
    match reply {
        StoreReply::GuildList(ListResponse::Success { items, .. }) => {
            if items.len() > 0 {
                Ok(items[items.len() - 1])
            } else {
                Ok(GuildRecord::new(params.guild_id.0, None, None))
            }
        },
        StoreReply::GuildList(ListResponse::Failure { error }) => Err(
            CommandError::Store { code: error.code },
        ),
        StoreReply::Failed => Err(CommandError::Transport),
        _ => Err(CommandError::Protocol),
    }
}

} // verus!
