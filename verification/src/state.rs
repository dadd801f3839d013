//! The two kinds of record that the program keeps on the ledger.

pub mod config;
pub mod player_progress;

pub use config::Config;
pub use player_progress::PlayerProgress;
pub use player_progress::REWARD_THRESHOLD;
