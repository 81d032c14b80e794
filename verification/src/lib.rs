//! Pull-history tracking for a gacha game: merging freshly fetched pulls into
//! the stored history of a player and deriving pity statistics from it.
pub mod error;
pub mod trusted;
pub mod record;
pub mod merge;
pub mod statistics;
pub mod descriptor;
pub mod logs;
pub mod resolver;
pub mod sync;
pub mod persistence;
pub mod update;
pub mod message;
pub mod notice;
pub mod worker;
pub mod display;
