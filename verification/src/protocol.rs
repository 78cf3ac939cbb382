//! The conversation between a vault and its host.
//!
//! A deposit or a withdrawal needs things that only the host can do: check a
//! signature, read the clock, read a balance, move the asset. A [`Call`] is
//! one such operation in progress. It names the [`Action`] it waits for, and
//! [`Call::step`] takes the [`Event`] that answers it. What the call does with
//! each answer is [`advance`]; every law of the vault is stated over it.

use crate::error::Error;
use crate::record::Vault;
use soroban_sdk::Address;
use vstd::prelude::*;

verus! {

/// One side of a transfer.
#[derive(Copy, Clone, Debug, PartialEq, Eq)]
pub enum Holder<'a> {
    /// The vault's own holding account.
    Vault,
    /// Somebody else.
    Account(&'a Address),
}

/// What a call asks its host to do.
#[derive(Copy, Clone, Debug, PartialEq, Eq)]
pub enum Action<'a> {
    /// Have `who` prove that it authorises this operation. Answered by
    /// [`Event::Authorized`].
    Authorize { who: &'a Address },
    /// Read the current time. Answered by [`Event::Time`].
    ReadClock,
    /// Read how much of `token` the vault holds. Answered by
    /// [`Event::Balance`].
    ReadBalance { token: &'a Address },
    /// Move `amount` of `token` from `from` to `to`, wholly or not at all.
    /// Answered by [`Event::Transferred`].
    Transfer { token: &'a Address, from: Holder<'a>, to: Holder<'a>, amount: i128 },
}

/// What the host reports back.
#[derive(Copy, Clone, Debug, PartialEq, Eq)]
pub enum Event {
    /// The identity asked for has authorised the operation.
    Authorized,
    /// The current time.
    Time(u64),
    /// The vault's holdings.
    Balance(i128),
    /// The transfer asked for has been made.
    Transferred,
    /// The host could not do what was asked: the identity did not authorise,
    /// or the transfer was refused. Nothing was moved.
    Failed,
}

/// How a call ended.
#[derive(Copy, Clone, Debug, PartialEq, Eq)]
pub enum Outcome {
    /// Everything asked for was done.
    Completed,
    /// The vault refused.
    Rejected(Error),
    /// The host failed a request or answered out of turn.
    Aborted,
}

/// Where a call stands. The first six stages wait for the host; the last
/// three are final.
#[derive(Copy, Clone, Debug, PartialEq, Eq)]
pub enum Stage<'a> {
    /// A deposit waits for the depositor's authorisation.
    AuthorizingDeposit { token: &'a Address, from: &'a Address, amount: i128 },
    /// A deposit waits for the asset to arrive.
    CollectingDeposit { token: &'a Address, from: &'a Address, amount: i128 },
    /// A withdrawal waits for the saver's authorisation.
    AuthorizingWithdrawal { vault: &'a Vault },
    /// A withdrawal waits for the time.
    ReadingClock { vault: &'a Vault },
    /// A withdrawal waits for the vault's holdings.
    ReadingBalance { vault: &'a Vault },
    /// A withdrawal waits for `balance` to reach the saver.
    PayingOut { vault: &'a Vault, balance: i128 },
    /// Final: done.
    Completed,
    /// Final: refused by the vault.
    Rejected(Error),
    /// Final: given up.
    Aborted,
}

/// The stage at which a deposit of `amount` by `from` begins.
pub open spec fn deposit_start<'a>(vault: &'a Vault, from: &'a Address, amount: i128) -> Stage<'a> {
    Stage::AuthorizingDeposit { token: &vault.token, from, amount }
}

/// The stage at which a withdrawal begins.
pub open spec fn withdrawal_start<'a>(vault: &'a Vault) -> Stage<'a> {
    Stage::AuthorizingWithdrawal { vault }
}

/// The action that a stage waits for; none once the call has ended.
pub open spec fn pending<'a>(stage: Stage<'a>) -> Option<Action<'a>> {
    match stage {
        Stage::AuthorizingDeposit { from, .. } => Some(Action::Authorize { who: from }),
        Stage::CollectingDeposit { token, from, amount } => Some(
            Action::Transfer { token, from: Holder::Account(from), to: Holder::Vault, amount },
        ),
        Stage::AuthorizingWithdrawal { vault } => Some(Action::Authorize { who: &vault.saver }),
        Stage::ReadingClock { .. } => Some(Action::ReadClock),
        Stage::ReadingBalance { vault } => Some(Action::ReadBalance { token: &vault.token }),
        Stage::PayingOut { vault, balance } => Some(
            Action::Transfer {
                token: &vault.token,
                from: Holder::Vault,
                to: Holder::Account(&vault.saver),
                amount: balance,
            },
        ),
        Stage::Completed | Stage::Rejected(_) | Stage::Aborted => None,
    }
}

/// How a stage ended; none while the call still waits.
pub open spec fn outcome(stage: Stage) -> Option<Outcome> {
    match stage {
        Stage::Completed => Some(Outcome::Completed),
        Stage::Rejected(error) => Some(Outcome::Rejected(error)),
        Stage::Aborted => Some(Outcome::Aborted),
        _ => None,
    }
}

/// The stage that follows `stage` when the host reports `event`.
///
/// A withdrawal passes the gates in a fixed order: the saver's authorisation,
/// then the time lock, then the goal, and only then the transfer of everything
/// the vault holds. A final stage stays as it is. Any answer but the one a
/// waiting stage asked for ends the call as aborted.
pub open spec fn advance<'a>(stage: Stage<'a>, event: Event) -> Stage<'a> {
    match (stage, event) {
        (Stage::AuthorizingDeposit { token, from, amount }, Event::Authorized) => {
            Stage::CollectingDeposit { token, from, amount }
        },
        (Stage::CollectingDeposit { .. }, Event::Transferred) => Stage::Completed,
        (Stage::AuthorizingWithdrawal { vault }, Event::Authorized) => Stage::ReadingClock { vault },
        (Stage::ReadingClock { vault }, Event::Time(now)) => {
            if vault.unlocked_at(now) {
                Stage::ReadingBalance { vault }
            } else {
                Stage::Rejected(Error::TooEarly)
            }
        },
        (Stage::ReadingBalance { vault }, Event::Balance(balance)) => {
            if vault.goal_met_by(balance) {
                Stage::PayingOut { vault, balance }
            } else {
                Stage::Rejected(Error::GoalNotReached)
            }
        },
        (Stage::PayingOut { .. }, Event::Transferred) => Stage::Completed,
        (Stage::Completed, _) => Stage::Completed,
        (Stage::Rejected(error), _) => Stage::Rejected(error),
        _ => Stage::Aborted,
    }
}

/// The stage reached from `stage` once the host has reported `events`, first
/// to last.
pub open spec fn run<'a>(stage: Stage<'a>, events: Seq<Event>) -> Stage<'a>
    decreases events.len(),
{
    if events.len() == 0 {
        stage
    } else {
        run(advance(stage, events.first()), events.drop_first())
    }
}

/// What holds of every stage that a call can be in: a deposit is of more than
/// nothing, and a payout is of holdings that meet the goal.
pub open spec fn sound(stage: Stage) -> bool {
    match stage {
        Stage::AuthorizingDeposit { amount, .. } => amount > 0,
        Stage::CollectingDeposit { amount, .. } => amount > 0,
        Stage::PayingOut { vault, balance } => vault.goal_met_by(balance),
        _ => true,
    }
}

/// A deposit or a withdrawal in progress.
///
/// Only a vault can begin one, and only [`Call::step`] moves it on, so every
/// call is at a [`sound`] stage.
#[derive(Debug, PartialEq, Eq)]
pub struct Call<'a> {
    stage: Stage<'a>,
}

impl<'a> View for Call<'a> {
    type V = Stage<'a>;

    closed spec fn view(&self) -> Stage<'a> {
        self.stage
    }
}

impl<'a> Call<'a> {
    #[verifier::type_invariant]
    spec fn well_formed(self) -> bool {
        sound(self.stage)
    }

    /// Begins a deposit of `amount` by `from` into `vault`.
    pub(crate) fn begin_deposit(vault: &'a Vault, from: &'a Address, amount: i128) -> (call: Call<'a>)
        requires
            amount > 0,
        ensures
            call@ == deposit_start(vault, from, amount),
    {
        Call { stage: Stage::AuthorizingDeposit { token: &vault.token, from, amount } }
    }

    /// Begins a withdrawal from `vault`.
    pub(crate) fn begin_withdrawal(vault: &'a Vault) -> (call: Call<'a>)
        ensures
            call@ == withdrawal_start(vault),
    {
        Call { stage: Stage::AuthorizingWithdrawal { vault } }
    }

    /// The stage the call is at.
    pub fn stage(&self) -> (stage: Stage<'a>)
        ensures
            stage == self@,
            sound(stage),
    {
        proof {
            use_type_invariant(self);
        }
        self.stage
    }

    /// What the host is to do next, or `None` when the call has ended.
    pub fn action(&self) -> (action: Option<Action<'a>>)
        ensures
            action == pending(self@),
            action is None <==> outcome(self@) is Some,
    {
        match self.stage {
            Stage::AuthorizingDeposit { from, .. } => Some(Action::Authorize { who: from }),
            Stage::CollectingDeposit { token, from, amount } => Some(
                Action::Transfer { token, from: Holder::Account(from), to: Holder::Vault, amount },
            ),
            Stage::AuthorizingWithdrawal { vault } => Some(Action::Authorize { who: &vault.saver }),
            Stage::ReadingClock { .. } => Some(Action::ReadClock),
            Stage::ReadingBalance { vault } => Some(Action::ReadBalance { token: &vault.token }),
            Stage::PayingOut { vault, balance } => Some(
                Action::Transfer {
                    token: &vault.token,
                    from: Holder::Vault,
                    to: Holder::Account(&vault.saver),
                    amount: balance,
                },
            ),
            Stage::Completed => None,
            Stage::Rejected(_) => None,
            Stage::Aborted => None,
        }
    }

    /// How the call ended, or `None` while it waits for its host.
    pub fn outcome(&self) -> (result: Option<Outcome>)
        ensures
            result == outcome(self@),
    {
        match self.stage {
            Stage::Completed => Some(Outcome::Completed),
            Stage::Rejected(error) => Some(Outcome::Rejected(error)),
            Stage::Aborted => Some(Outcome::Aborted),
            _ => None,
        }
    }

    /// Takes the host's answer to [`Call::action`] and moves on.
    pub fn step(self, event: Event) -> (next: Call<'a>)
        ensures
            next@ == advance(self@, event),
    {
        proof {
            use_type_invariant(&self);
        }
        let stage = match self.stage {
            Stage::AuthorizingDeposit { token, from, amount } => match event {
                Event::Authorized => Stage::CollectingDeposit { token, from, amount },
                _ => Stage::Aborted,
            },
            Stage::CollectingDeposit { .. } => match event {
                Event::Transferred => Stage::Completed,
                _ => Stage::Aborted,
            },
            Stage::AuthorizingWithdrawal { vault } => match event {
                Event::Authorized => Stage::ReadingClock { vault },
                _ => Stage::Aborted,
            },
            Stage::ReadingClock { vault } => match event {
                Event::Time(now) => if now < vault.unlock_time {
                    Stage::Rejected(Error::TooEarly)
                } else {
                    Stage::ReadingBalance { vault }
                },
                _ => Stage::Aborted,
            },
            Stage::ReadingBalance { vault } => match event {
                Event::Balance(balance) => if balance < vault.goal_amount {
                    Stage::Rejected(Error::GoalNotReached)
                } else {
                    Stage::PayingOut { vault, balance }
                },
                _ => Stage::Aborted,
            },
            Stage::PayingOut { .. } => match event {
                Event::Transferred => Stage::Completed,
                _ => Stage::Aborted,
            },
            Stage::Completed => Stage::Completed,
            Stage::Rejected(error) => Stage::Rejected(error),
            Stage::Aborted => Stage::Aborted,
        };
        Call { stage }
    }
}

} // verus!
