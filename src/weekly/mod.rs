pub mod challenge;
pub mod name_lang;
pub mod physics_mod;
pub mod scorebucket;

use vstd::prelude::*;

use crate::error::MIUError;
use crate::parse::Results;
use crate::time::UtcTime;
use crate::weekly::scorebucket::ScoreBucket;

verus! {

/// A whole weekly challenge record.
///
/// Built only by decoding: the backend sends the score bucket as a JSON
/// document nested, as a string, in the record, so decoding takes two steps
/// ([`Weekly::select_result`], then [`Weekly::assemble`]).
#[derive(Debug, Clone)]
pub struct Weekly {
    /// The backend's object id
    pub object_id: String,
    /// The level id; for the current week usually `CHALLENGE_DATA`
    pub level_id: String,
    /// When the record was created
    pub created_at: UtcTime,
    /// When the record was last updated
    pub updated_at: UtcTime,
    /// The score bucket: the current and previous challenges
    pub score_buckets: ScoreBucket,
}

/// Which weekly challenge is meant.
#[derive(Debug, Clone, Copy, PartialEq, Eq, Structural, Hash)]
pub enum WeekState {
    /// The current weekly challenge
    Current,
    /// The previous weekly challenge
    Previous,
}

/// A weekly record as the response envelope holds it, before its nested score
/// bucket document is decoded.
#[derive(Debug, Clone)]
pub struct MidWeekly {
    /// The backend's object id
    pub object_id: String,
    /// The level id
    pub level_id: String,
    /// When the record was created
    pub created_at: UtcTime,
    /// When the record was last updated
    pub updated_at: UtcTime,
    /// The score bucket, as the text of a JSON document
    pub score_buckets: String,
}

/// The record that the first decoding step yields: the outer decode error, an
/// empty envelope, or the first result (any others are ignored).
pub open spec fn selected_result(
    outer: Result<Results<MidWeekly>, serde_json::Error>,
) -> Result<MidWeekly, MIUError> {
    match outer {
        Err(e) => Err(MIUError::FailedToParseWeekly(e)),
        Ok(envelope) => match envelope.results {
            None => Err(MIUError::EmptyResults),
            Some(v) => if v@.len() == 0 {
                Err(MIUError::EmptyResults)
            } else {
                Ok(v@[0])
            },
        },
    }
}

/// The weekly record that the second decoding step yields from the selected
/// record and the outcome of decoding its score bucket.
pub open spec fn assembled(
    mid: MidWeekly,
    bucket: Result<ScoreBucket, serde_json::Error>,
) -> Result<Weekly, MIUError> {
    match bucket {
        Err(e) => Err(MIUError::FailedToParseScorebucket(e)),
        Ok(b) => Ok(
            Weekly {
                object_id: mid.object_id,
                level_id: mid.level_id,
                created_at: mid.created_at,
                updated_at: mid.updated_at,
                score_buckets: b,
            },
        ),
    }
}

/// The outcome of both decoding steps: the first step's failure, or the
/// second step applied to the record it selected.
pub open spec fn decoded(
    outer: Result<Results<MidWeekly>, serde_json::Error>,
    bucket: Result<ScoreBucket, serde_json::Error>,
) -> Result<Weekly, MIUError> {
    match selected_result(outer) {
        Err(e) => Err(e),
        Ok(mid) => assembled(mid, bucket),
    }
}

/// The two failures stay apart: once the envelope yields a record, a nested
/// document that fails to decode gives `FailedToParseScorebucket` with that
/// error, never `FailedToParseWeekly`; and an envelope that yields no record
/// gives its own failure whatever the nested document would have decoded to.
pub proof fn lemma_stage_failures_distinct(
    outer: Result<Results<MidWeekly>, serde_json::Error>,
    bucket: Result<ScoreBucket, serde_json::Error>,
)
    ensures
        selected_result(outer) is Ok && bucket is Err ==> decoded(outer, bucket) == Err::<Weekly, MIUError>(
            MIUError::FailedToParseScorebucket(bucket->Err_0),
        ),
        selected_result(outer) is Err ==> decoded(outer, bucket) == Err::<Weekly, MIUError>(
            selected_result(outer)->Err_0,
        ),
        selected_result(outer) is Ok ==> !(decoded(outer, bucket) matches Err(
            MIUError::FailedToParseWeekly(_),
        )),
{
}

impl Weekly {
    /// The first decoding step: from the decoded response envelope, picks the
    /// first result record.
    ///
    /// A malformed envelope gives `FailedToParseWeekly`; an envelope without
    /// results, or with an empty list, gives `EmptyResults`. Results after the
    /// first are dropped.
    pub fn select_result(outer: Result<Results<MidWeekly>, serde_json::Error>) -> (r: Result<
        MidWeekly,
        MIUError,
    >)
        ensures
            r == selected_result(outer),
    {
        match outer {
            Err(e) => Err(MIUError::FailedToParseWeekly(e)),
            Ok(envelope) => match envelope.results {
                None => Err(MIUError::EmptyResults),
                Some(mut v) => {
                    if v.len() == 0 {
                        Err(MIUError::EmptyResults)
                    } else {
                        Ok(v.swap_remove(0))
                    }
                },
            },
        }
    }

    /// The second decoding step: joins the selected record with its decoded
    /// score bucket, or reports that the nested document failed to decode
    /// (`FailedToParseScorebucket`).
    pub fn assemble(mid: MidWeekly, bucket: Result<ScoreBucket, serde_json::Error>) -> (r: Result<
        Weekly,
        MIUError,
    >)
        ensures
            r == assembled(mid, bucket),
    {
        match bucket {
            Err(e) => Err(MIUError::FailedToParseScorebucket(e)),
            Ok(b) => Ok(
                Weekly {
                    object_id: mid.object_id,
                    level_id: mid.level_id,
                    created_at: mid.created_at,
                    updated_at: mid.updated_at,
                    score_buckets: b,
                },
            ),
        }
    }
}

} // verus!
