use vstd::prelude::*;

use crate::weekly::challenge::Challenge;

verus! {

/// The current and the previous challenge, with the backend's bookkeeping ids.
#[derive(Debug, Clone)]
pub struct ScoreBucket {
    /// The current challenge
    pub current: Challenge,
    /// The previous challenge
    pub previous: Challenge,
    /// The sheet id of the challenge
    pub sheet_id: i32,
    /// An id that the backend keeps beside the sheet id, passed through as is
    pub cur_id: i32,
    /// A level field that the backend keeps, passed through as is
    pub level: String,
}

} // verus!
