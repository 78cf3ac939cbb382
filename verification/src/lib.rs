//! A goal-conditioned, time-locked savings vault.
//!
//! One saver is entitled to the vault's holdings of one asset. Anyone may pay
//! in. The saver may take everything out, but only once the unlock time has
//! passed and the holdings have reached the goal.
//!
//! The vault decides; it never touches a clock, a signature or a balance
//! itself. Each deposit or withdrawal is a [`Call`] that tells its host which
//! [`Action`] to perform next and is advanced with the [`Event`] that reports
//! what came of it. The host may be a ledger contract, a service or a test.

pub mod error;
pub mod laws;
pub mod protocol;
pub mod record;
pub mod vault;

pub use error::Error;
pub use protocol::{Action, Call, Event, Holder, Outcome, Stage};
pub use record::{DataKey, Vault};
pub use vault::AchievementVault;
