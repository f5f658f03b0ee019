use vstd::prelude::*;

verus! {

/// Why decoding a weekly challenge failed.
#[derive(Debug)]
pub enum MIUError {
    /// The response envelope decoded but held no result record.
    EmptyResults,
    /// The response envelope itself was malformed.
    FailedToParseWeekly(serde_json::Error),
    /// The envelope decoded, but the score-bucket document nested in its record
    /// did not.
    FailedToParseScorebucket(serde_json::Error),
}

} // verus!
