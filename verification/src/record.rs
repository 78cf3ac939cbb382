use soroban_sdk::Address;
use vstd::prelude::*;

verus! {

/// `soroban_sdk::Address`: an account or a contract on the ledger. The vault
/// never looks inside one; it stores addresses and hands them back to its host.
#[verifier::external_type_specification]
#[verifier::external_body]
pub struct ExAddress(soroban_sdk::Address);

/// The keys under which a vault keeps its persistent state. There is one.
#[derive(Copy, Clone, Debug, PartialEq, Eq, Structural)]
pub enum DataKey {
    /// The vault's configuration record.
    Vault,
}

/// The configuration of a vault: written once, never changed afterwards.
///
/// The holdings are not part of it. They are whatever the asset's ledger says
/// the vault holds at the moment of asking.
#[derive(Debug, PartialEq, Eq)]
pub struct Vault {
    /// Who may withdraw.
    pub saver: Address,
    /// The asset that the vault accepts and holds.
    pub token: Address,
    /// The holdings below which nothing is paid out.
    pub goal_amount: i128,
    /// The time before which nothing is paid out.
    pub unlock_time: u64,
}

impl Vault {
    /// The time lock is open at `now`.
    pub open spec fn unlocked_at(&self, now: u64) -> bool {
        now >= self.unlock_time
    }

    /// Holdings of `balance` meet the goal.
    pub open spec fn goal_met_by(&self, balance: i128) -> bool {
        balance >= self.goal_amount
    }

    /// Both gates are open: the vault pays out at `now` with holdings of `balance`.
    pub open spec fn releases(&self, now: u64, balance: i128) -> bool {
        self.unlocked_at(now) && self.goal_met_by(balance)
    }
}

} // verus!
