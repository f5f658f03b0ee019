//! Backend class names of the classic edition.
use vstd::prelude::*;

verus! {

/// Class name of the normal leaderboard
pub const LEADERBOARD: &'static str = "SPLeaderboard";

/// Class name of the weekly leaderboards
pub const WEEKLY: &'static str = "ChallengeLB";

/// Class name of the weekly metadata
pub const WEEKLY_STATS: &'static str = "ChallengeStats";

} // verus!
