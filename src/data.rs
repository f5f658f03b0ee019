//! Reference data bundled with each edition of the game.
pub mod classic;
pub mod tables;
pub mod ultra;
