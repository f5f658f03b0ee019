//! Models and decoding logic for leaderboard and weekly challenge records of a
//! physics-platformer's backend, for its two editions ("classic" and "ultra").
pub mod data;
pub mod error;
pub mod foreign;
pub mod parse;
pub mod score;
pub mod text;
pub mod time;
pub mod weekly;

pub use error::MIUError;
pub use score::{Replay, Score};
pub use time::UtcTime;
pub use weekly::challenge::{Challenge, ChallengeLevel};
pub use weekly::name_lang::NameLang;
pub use weekly::physics_mod::{ModValue, PhysicsMod};
pub use weekly::scorebucket::ScoreBucket;
pub use weekly::{MidWeekly, WeekState, Weekly};
