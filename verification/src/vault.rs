//! The vault itself: the one record it keeps and the three operations on it.

use crate::error::Error;
use crate::protocol::{deposit_start, withdrawal_start, Call};
use crate::record::{DataKey, Vault};
use soroban_sdk::Address;
use vstd::prelude::*;

verus! {

/// The record a vault holds after an attempt to initialize it with `vault`:
/// the first attempt writes, every later one leaves what is there.
pub open spec fn record_after_initialize(before: Option<Vault>, vault: Vault) -> Option<Vault> {
    match before {
        Some(_) => before,
        None => Some(vault),
    }
}

/// What an attempt to initialize a vault returns.
pub open spec fn initialize_result(before: Option<Vault>) -> Result<(), Error> {
    match before {
        Some(_) => Err(Error::AlreadyInitialized),
        None => Ok(()),
    }
}

/// A vault: uninitialized while it holds no record, active once it holds one.
///
/// Its view is that record. Only [`AchievementVault::initialize`] writes it,
/// and only once; deposits and withdrawals borrow the vault and cannot change
/// it.
#[derive(Debug, PartialEq, Eq)]
pub struct AchievementVault {
    record: Option<Vault>,
}

impl View for AchievementVault {
    type V = Option<Vault>;

    closed spec fn view(&self) -> Option<Vault> {
        self.record
    }
}

impl AchievementVault {
    /// A vault that has not been initialized.
    pub fn new() -> (vault: AchievementVault)
        ensures
            vault@ is None,
    {
        AchievementVault { record: None }
    }

    /// The vault as it was persisted: with the record that was stored, or
    /// with none.
    pub fn restore(record: Option<Vault>) -> (vault: AchievementVault)
        ensures
            vault@ == record,
    {
        AchievementVault { record }
    }

    /// Whether anything is kept under `key`: whether the vault is active.
    pub fn has(&self, key: DataKey) -> (present: bool)
        ensures
            present == self@ is Some,
    {
        match key {
            DataKey::Vault => self.record.is_some(),
        }
    }

    /// What is kept under `key`.
    pub fn get(&self, key: DataKey) -> (record: Option<&Vault>)
        ensures
            match self@ {
                Some(vault) => record == Some(&vault),
                None => record is None,
            },
    {
        match key {
            DataKey::Vault => self.record.as_ref(),
        }
    }

    /// Gives up the vault for what is to be persisted of it.
    pub fn into_record(self) -> (record: Option<Vault>)
        ensures
            record == self@,
    {
        self.record
    }

    /// Makes the vault active, with `saver` entitled to withdraw holdings of
    /// `token` once `unlock_time` has passed and the holdings have reached
    /// `goal_amount`.
    ///
    /// Whoever calls first sets the terms: no authorisation is asked for, and
    /// the goal is taken as given, positive or not. On an active vault the
    /// call fails with [`Error::AlreadyInitialized`] and changes nothing.
    pub fn initialize(
        &mut self,
        saver: Address,
        token: Address,
        goal_amount: i128,
        unlock_time: u64,
    ) -> (result: Result<(), Error>)
        ensures
            result == initialize_result(old(self)@),
            final(self)@ == record_after_initialize(
                old(self)@,
                Vault { saver, token, goal_amount, unlock_time },
            ),
    {
        if self.record.is_some() {
            return Err(Error::AlreadyInitialized);
        }
        self.record = Some(Vault { saver, token, goal_amount, unlock_time });
        Ok(())
    }

    /// Begins a deposit of `amount` by `from`, who need not be the saver.
    ///
    /// Fails with [`Error::InvalidAmount`] when `amount` is zero or less, and
    /// otherwise with [`Error::NotInitialized`] when the vault is not active.
    /// Nothing has been asked of the host then, and nothing will be. Otherwise
    /// the call asks for `from`'s authorisation and then for the transfer of
    /// `amount` of the vault's asset from `from` to the vault.
    pub fn deposit<'a>(&'a self, from: &'a Address, amount: i128) -> (result: Result<Call<'a>, Error>)
        ensures
            amount <= 0 ==> (result matches Err(error) && error == Error::InvalidAmount),
            amount > 0 && self@ is None ==> (result matches Err(error) && error
                == Error::NotInitialized),
            amount > 0 && self@ is Some ==> (result matches Ok(call) && call@ == deposit_start(
                &self@->0,
                from,
                amount,
            )),
    {
        if amount <= 0 {
            return Err(Error::InvalidAmount);
        }
        match &self.record {
            None => Err(Error::NotInitialized),
            Some(vault) => Ok(Call::begin_deposit(vault, from, amount)),
        }
    }

    /// Begins a withdrawal of everything the vault holds, to the saver.
    ///
    /// Fails with [`Error::NotInitialized`] when the vault is not active.
    /// Otherwise the call asks, in this order, for the saver's authorisation,
    /// for the time and for the holdings, and ends with
    /// [`Error::TooEarly`] or [`Error::GoalNotReached`] at the first gate
    /// that is shut; with both open it asks for the transfer.
    pub fn withdraw(&self) -> (result: Result<Call<'_>, Error>)
        ensures
            self@ is None ==> (result matches Err(error) && error == Error::NotInitialized),
            self@ is Some ==> (result matches Ok(call) && call@ == withdrawal_start(&self@->0)),
    {
        match &self.record {
            None => Err(Error::NotInitialized),
            Some(vault) => Ok(Call::begin_withdrawal(vault)),
        }
    }
}

} // verus!
