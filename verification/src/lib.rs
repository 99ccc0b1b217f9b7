//! Voice-presence scoring library.
//!
//! Tracks how long members of a community spend in tracked voice channels
//! versus a configured "away" channel, accumulates that time into per-member
//! score records, and serves a cached, ranked leaderboard.
//!
//! The crate is organised around the components of the system:
//! - [`presence`]: the in-memory presence store of open sessions;
//! - [`cache`]: the config cache and the TTL-bounded score cache;
//! - [`event`]: the presence state machine that turns channel transitions
//!   into session opens, closes and duration deltas;
//! - [`records`] and [`store`]: the record kinds of the external record
//!   store and an exact in-memory model of its list/create/update API;
//! - [`pipeline`]: the write pipeline's commands and stepwise decision
//!   logic, driven by an I/O layer one store reply at a time;
//! - [`manager`]: the pipeline's single consumer, whose find-or-create
//!   processing never duplicates a record;
//! - [`score`]: leaderboard assembly and sorting;
//! - [`reconcile`]: the periodic resynchronization sweep;
//! - [`laws`]: proofs of the global accounting properties.

pub mod cache;
pub mod config;
pub mod event;
pub mod ids;
pub mod laws;
pub mod manager;
pub mod pipeline;
pub mod presence;
pub mod reconcile;
pub mod records;
pub mod score;
pub mod store;

pub use ids::ChannelId;
pub use ids::GuildId;
pub use ids::GuildUser;
pub use ids::UserId;
pub use ids::Username;
