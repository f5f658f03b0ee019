use vstd::prelude::*;

verus! {

/// Nanoseconds in one second.
pub const NANOS_PER_SEC: u32 = 1_000_000_000;

/// A point in time in UTC: whole seconds since the Unix epoch, and the
/// nanoseconds past that second.
#[derive(Debug, Clone, Copy, PartialEq, Eq, Structural)]
pub struct UtcTime {
    /// Whole seconds since 1970-01-01T00:00:00Z (negative before it)
    pub seconds: i64,
    /// Nanoseconds past `seconds`, below one second
    pub nanos: u32,
}

impl UtcTime {
    /// The nanoseconds stay below one second.
    pub open spec fn wf(self) -> bool {
        self.nanos < NANOS_PER_SEC
    }

    /// The instant `seconds` and `nanos` past the epoch; `None` when `nanos`
    /// is a second or more.
    pub fn new(seconds: i64, nanos: u32) -> (r: Option<UtcTime>)
        ensures
            nanos < NANOS_PER_SEC ==> (r == Some(UtcTime { seconds, nanos })),
            nanos >= NANOS_PER_SEC ==> r is None,
            r matches Some(t) ==> t.wf(),
    {
        if nanos < NANOS_PER_SEC {
            Some(UtcTime { seconds, nanos })
        } else {
            None
        }
    }
}

} // verus!
