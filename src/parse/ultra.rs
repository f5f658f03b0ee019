//! Backend class names of the ultra edition.
use vstd::prelude::*;

verus! {

/// Class name of the normal leaderboard
pub const LEADERBOARD: &'static str = "SPLeaderboard_Ultra";

/// Class name of the weekly leaderboards
pub const WEEKLY: &'static str = "ChallengeLB_Mayhem";

/// Class name of the weekly metadata
pub const WEEKLY_STATS: &'static str = "ChallengeStats_Mayhem";

} // verus!
