use miu::parse::{classic, format_url, ultra};
use miu::{Score, UtcTime};

#[test]
fn test_format_time() {
    assert_eq!(Score::format_clock(125, "242966"), "02:05.242966");
    assert_eq!(Score::format_clock(2421, "592041"), "40:21.592041");
}

#[test]
fn clock_drops_whole_hours() {
    assert_eq!(Score::format_clock(3600 + 61, "000000"), "01:01.000000");
    assert_eq!(Score::format_clock(60, "5"), "01:00.5");
}

#[test]
fn utc_time_rejects_overflowing_nanos() {
    assert!(UtcTime::new(5, 999_999_999).is_some());
    assert!(UtcTime::new(5, 1_000_000_000).is_none());
}

#[test]
fn class_urls() {
    assert_eq!(
        format_url(classic::LEADERBOARD),
        "https://www.miubackend.net/parse/classes/SPLeaderboard"
    );
    assert_eq!(
        format_url(ultra::WEEKLY_STATS),
        "https://www.miubackend.net/parse/classes/ChallengeStats_Mayhem"
    );
}
