use vstd::prelude::*;

use crate::time::UtcTime;

verus! {

/// One leaderboard entry, shared by the normal and the weekly leaderboards.
///
/// The time is held as the bit pattern of its `f32` (`f32::to_bits`).
#[derive(Debug, Clone, PartialEq, Eq)]
pub struct Score {
    /// The time of the run in seconds, as the bits of an `f32`
    pub time: u32,
    /// The user id; its format depends on the platform
    pub user_id: String,
    /// The name of the player
    pub username: String,
    /// The raw map id, with its `SP_` prefix
    pub map_id: String,
    /// The id of the skin used
    pub skin_used: String,
    /// The replay format version
    pub replay_version: u32,
    /// The platform the run was made on
    pub platform: String,
    /// Where the replay is stored, if anywhere
    pub replay: Option<Replay>,
    /// When the entry was created
    pub created_at: UtcTime,
    /// When the entry was last updated
    pub updated_at: UtcTime,
    /// The backend's object id; absent until the backend has stored the entry
    pub object_id: Option<String>,
}

/// Where the replay of a score is stored.
#[derive(Debug, Clone, PartialEq, Eq)]
pub struct Replay {
    /// The replay type (`__type` on the wire), often a file
    pub kind: String,
    /// The name of the replay
    pub name: String,
    /// The url of the replay.
    ///
    /// It often points at a local host: prefer a path derived from `name`.
    pub url: String,
}

/// The decimal digit `d` (below ten) as text.
pub open spec fn digit_text(d: int) -> Seq<char> {
    if d == 0 { "0"@ } else if d == 1 { "1"@ } else if d == 2 { "2"@ } else if d == 3 { "3"@ }
    else if d == 4 { "4"@ } else if d == 5 { "5"@ } else if d == 6 { "6"@ } else if d == 7 { "7"@ }
    else if d == 8 { "8"@ } else { "9"@ }
}

/// `n` (below one hundred) in two digits, with a leading zero.
pub open spec fn two_digits(n: int) -> Seq<char> {
    digit_text(n / 10) + digit_text(n % 10)
}

/// A time of `total_secs` whole seconds and the fraction digits `fraction`, as
/// `MM:SS.<fraction>`. Minutes are counted modulo 60: whole hours are dropped.
pub open spec fn clock_text(total_secs: nat, fraction: Seq<char>) -> Seq<char> {
    two_digits(((total_secs / 60) % 60) as int) + ":"@ + two_digits((total_secs % 60) as int) + "."@
        + fraction
}

fn digit_str(d: u64) -> (r: &'static str)
    requires
        d < 10,
    ensures
        r@ == digit_text(d as int),
{
    match d {
        0 => "0",
        1 => "1",
        2 => "2",
        3 => "3",
        4 => "4",
        5 => "5",
        6 => "6",
        7 => "7",
        8 => "8",
        _ => "9",
    }
}

fn push_two_digits(s: &mut String, n: u64)
    requires
        n < 100,
    ensures
        final(s)@ == old(s)@ + two_digits(n as int),
{
    s.append(digit_str(n / 10));
    s.append(digit_str(n % 10));
    assert(final(s)@ =~= old(s)@ + two_digits(n as int));
}

impl Score {
    /// The clock form of a time of at least a minute: `MM:SS.<fraction>`, from
    /// its whole seconds and the digits of its fraction of a second. Minutes
    /// are counted modulo 60, so whole hours are dropped.
    pub fn format_clock(total_secs: u64, fraction: &str) -> (r: String)
        ensures
            r@ == clock_text(total_secs as nat, fraction@),
    {
        let mut r = String::new();
        push_two_digits(&mut r, (total_secs / 60) % 60);
        r.append(":");
        push_two_digits(&mut r, total_secs % 60);
        r.append(".");
        r.append(fraction);
        assert(r@ =~= clock_text(total_secs as nat, fraction@));
        r
    }
}

} // verus!
