//! The public vocabulary: what callers say and what they get back.

use vstd::prelude::*;

verus! {

/// The order in which a leaderboard ranks its scores.
#[derive(Clone, Copy, Debug, PartialEq, Eq, Hash, Structural)]
pub enum SortMethod {
    Ascending,
    Descending,
}

/// How a leaderboard's scores are meant to be shown.
#[derive(Clone, Copy, Debug, PartialEq, Eq, Hash, Structural)]
pub enum DisplayType {
    Numeric,
    TimeSeconds,
    TimeMilliSeconds,
}

/// Which slice of a leaderboard a download asks for.
#[derive(Clone, Copy, Debug, PartialEq, Eq, Hash, Structural)]
pub enum DataRequest {
    Global,
    GlobalAroundUser,
    Friends,
}

/// Whether an upload replaces the stored score only when it is better, or always.
#[derive(Clone, Copy, Debug, PartialEq, Eq, Hash, Structural)]
pub enum UploadScoreMethod {
    KeepBest,
    ForceUpdate,
}

/// One ranked record of a leaderboard.
#[derive(Clone, Debug, PartialEq, Eq)]
pub struct LeaderboardEntry {
    pub global_rank: i32,
    pub score: i32,
    pub steam_id: u64,
    pub details: Vec<i32>,
}

} // verus!
