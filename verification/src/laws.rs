//! What holds of every vault and every call, whatever the host reports.

use crate::error::Error;
use crate::protocol::{
    advance, deposit_start, outcome, pending, run, sound, withdrawal_start, Action, Event, Holder,
    Outcome, Stage,
};
use crate::record::Vault;
use crate::vault::{initialize_result, record_after_initialize};
use soroban_sdk::Address;
use vstd::prelude::*;

verus! {

/// The record a vault holds after attempts to initialize it with each of
/// `attempts` in turn.
pub open spec fn record_after_attempts(before: Option<Vault>, attempts: Seq<Vault>) -> Option<Vault>
    decreases attempts.len(),
{
    if attempts.len() == 0 {
        before
    } else {
        record_after_initialize(
            record_after_attempts(before, attempts.drop_last()),
            attempts.last(),
        )
    }
}

/// After any attempts to initialize an active vault, its record is the one
/// it had.
proof fn lemma_record_kept(record: Vault, attempts: Seq<Vault>)
    ensures
        record_after_attempts(Some(record), attempts) == Some(record),
    decreases attempts.len(),
{
    if attempts.len() > 0 {
        lemma_record_kept(record, attempts.drop_last());
    }
}

/// A vault is initialized once. On an active vault every further attempt,
/// whatever its arguments and however many came before it, fails with
/// `AlreadyInitialized`, and the record stays the one that was there.
pub proof fn lemma_initialize_once(record: Vault, attempts: Seq<Vault>)
    ensures
        record_after_attempts(Some(record), attempts) == Some(record),
        forall|n: int|
            0 <= n <= attempts.len() ==> initialize_result(
                #[trigger] record_after_attempts(Some(record), attempts.take(n)),
            ) == Err::<(), Error>(Error::AlreadyInitialized),
{
    lemma_record_kept(record, attempts);
    assert forall|n: int| 0 <= n <= attempts.len() implies initialize_result(
        #[trigger] record_after_attempts(Some(record), attempts.take(n)),
    ) == Err::<(), Error>(Error::AlreadyInitialized) by {
        lemma_record_kept(record, attempts.take(n));
    }
}

/// On a vault that is not active yet, the first attempt decides: whatever is
/// attempted after it, the record is the one the first attempt wrote.
pub proof fn lemma_first_initialize_wins(attempts: Seq<Vault>)
    requires
        attempts.len() > 0,
    ensures
        record_after_attempts(None, attempts) == Some(attempts.first()),
    decreases attempts.len(),
{
    if attempts.len() == 1 {
        assert(attempts.drop_last().len() == 0);
    } else {
        lemma_first_initialize_wins(attempts.drop_last());
    }
}

/// A call that has ended stays as it ended, whatever is reported to it.
pub proof fn lemma_ended_call_stays(stage: Stage, events: Seq<Event>)
    requires
        outcome(stage) is Some,
    ensures
        run(stage, events) == stage,
    decreases events.len(),
{
    if events.len() > 0 {
        lemma_ended_call_stays(stage, events.drop_first());
    }
}

/// Reporting `earlier` and then `later` is reporting the two on end.
pub proof fn lemma_run_in_two(stage: Stage, earlier: Seq<Event>, later: Seq<Event>)
    ensures
        run(stage, earlier + later) == run(run(stage, earlier), later),
    decreases earlier.len(),
{
    if earlier.len() == 0 {
        assert(earlier + later == later);
    } else {
        assert((earlier + later).drop_first() == earlier.drop_first() + later);
        lemma_run_in_two(advance(stage, earlier.first()), earlier.drop_first(), later);
    }
}

/// The stage after one more report is the stage before it, advanced by that
/// report.
pub proof fn lemma_run_one_more(stage: Stage, events: Seq<Event>, k: int)
    requires
        0 <= k < events.len(),
    ensures
        run(stage, events.take(k + 1)) == advance(run(stage, events.take(k)), events[k]),
{
    let one = seq![events[k]];
    assert(events.take(k + 1) == events.take(k) + one);
    lemma_run_in_two(stage, events.take(k), one);
    assert(run(run(stage, events.take(k)), one) == advance(
        run(stage, events.take(k)),
        one.first(),
    )) by {
        reveal_with_fuel(run, 2);
    }
}

/// Once the first `n` reports have ended a call, every longer run of reports
/// finds it as it ended.
pub proof fn lemma_ended_after(stage: Stage, events: Seq<Event>, n: int, k: int)
    requires
        0 <= n <= k <= events.len(),
        outcome(run(stage, events.take(n))) is Some,
    ensures
        run(stage, events.take(k)) == run(stage, events.take(n)),
{
    let longer = events.take(k);
    assert(longer == longer.take(n) + longer.skip(n));
    assert(longer.take(n) == events.take(n));
    lemma_run_in_two(stage, events.take(n), longer.skip(n));
    lemma_ended_call_stays(run(stage, events.take(n)), longer.skip(n));
}

/// How many reports a stage can still take before the call has ended.
pub open spec fn reports_left(stage: Stage) -> nat {
    match stage {
        Stage::AuthorizingWithdrawal { .. } => 4,
        Stage::ReadingClock { .. } => 3,
        Stage::AuthorizingDeposit { .. } | Stage::ReadingBalance { .. } => 2,
        Stage::CollectingDeposit { .. } | Stage::PayingOut { .. } => 1,
        Stage::Completed | Stage::Rejected(_) | Stage::Aborted => 0,
    }
}

/// No call waits for ever. Each report brings a waiting call nearer its end:
/// a deposit has ended after two reports at most, a withdrawal after four.
pub proof fn lemma_call_ends(stage: Stage, events: Seq<Event>)
    ensures
        outcome(stage) is Some <==> reports_left(stage) == 0,
        reports_left(run(stage, events)) <= reports_left(stage),
        reports_left(run(stage, events)) + events.len() <= reports_left(stage) || outcome(
            run(stage, events),
        ) is Some,
    decreases events.len(),
{
    if events.len() > 0 {
        lemma_call_ends(advance(stage, events.first()), events.drop_first());
    }
}

/// Every stage that a sound stage can come to is sound. A deposit and a
/// withdrawal begin at a sound stage, so no call ever asks for a deposit of
/// nothing or for a payout of holdings below the goal.
pub proof fn lemma_sound_throughout(stage: Stage, events: Seq<Event>)
    requires
        sound(stage),
    ensures
        sound(run(stage, events)),
    decreases events.len(),
{
    if events.len() > 0 {
        lemma_sound_throughout(advance(stage, events.first()), events.drop_first());
    }
}

/// The `k`-th report of a run is of a transfer that was asked for and made:
/// at that step, and at no other, holdings change.
pub open spec fn transfer_made_at(start: Stage, events: Seq<Event>, k: int) -> bool {
    &&& 0 <= k < events.len()
    &&& pending(run(start, events.take(k))) matches Some(Action::Transfer { .. })
    &&& events[k] == Event::Transferred
}

/// A call that has not completed has moved nothing. In particular a
/// withdrawal that was rejected or aborted leaves the holdings as they were.
pub proof fn lemma_nothing_moved_unless_completed(start: Stage, events: Seq<Event>)
    requires
        run(start, events) != Stage::Completed,
    ensures
        forall|k: int| !transfer_made_at(start, events, k),
{
    assert forall|k: int| !transfer_made_at(start, events, k) by {
        if transfer_made_at(start, events, k) {
            lemma_run_one_more(start, events, k);
            assert(run(start, events.take(k + 1)) == Stage::Completed);
            lemma_ended_after(start, events, k + 1, events.len() as int);
            assert(events.take(events.len() as int) == events);
        }
    }
}

/// A withdrawal asks for the saver's authorisation before anything else. If
/// the first report is not that authorisation, the call is aborted there and
/// then: it never asks for the time, the holdings or a transfer, even where
/// the time lock and the goal would both have let it pass.
pub proof fn lemma_withdrawal_needs_authorization_first(vault: Vault, events: Seq<Event>)
    requires
        events.len() > 0,
        events.first() != Event::Authorized,
    ensures
        pending(withdrawal_start(&vault)) == Some(Action::Authorize { who: &vault.saver }),
        forall|n: int|
            1 <= n <= events.len() ==> #[trigger] run(withdrawal_start(&vault), events.take(n))
                == Stage::Aborted,
        forall|n: int|
            1 <= n <= events.len() ==> pending(
                #[trigger] run(withdrawal_start(&vault), events.take(n)),
            ) is None,
{
    let start = withdrawal_start(&vault);
    assert forall|n: int| 1 <= n <= events.len() implies #[trigger] run(start, events.take(n))
        == Stage::Aborted by {
        let reported = events.take(n);
        assert(reported.first() == events.first());
        assert(advance(start, reported.first()) == Stage::Aborted);
        lemma_ended_call_stays(Stage::Aborted, reported.drop_first());
    }
}

/// How a withdrawal ends on a host that authorises, reads and transfers as
/// asked, at time `now` and with holdings of `balance`.
pub open spec fn withdrawal_verdict(vault: Vault, now: u64, balance: i128) -> Outcome {
    if !vault.unlocked_at(now) {
        Outcome::Rejected(Error::TooEarly)
    } else if !vault.goal_met_by(balance) {
        Outcome::Rejected(Error::GoalNotReached)
    } else {
        Outcome::Completed
    }
}

/// Both gates are enforced, the time lock first. Before the unlock time an
/// authorised withdrawal ends with `TooEarly` as soon as the time is known,
/// whatever the vault holds. From the unlock time on it ends with
/// `GoalNotReached` while the holdings are below the goal. With both gates
/// open it asks for the transfer of all the holdings to the saver, and
/// completes when that is made.
pub proof fn lemma_withdrawal_gates(vault: Vault, now: u64, balance: i128)
    ensures
        !vault.unlocked_at(now) ==> run(
            withdrawal_start(&vault),
            seq![Event::Authorized, Event::Time(now)],
        ) == Stage::Rejected(Error::TooEarly),
        vault.unlocked_at(now) && !vault.goal_met_by(balance) ==> run(
            withdrawal_start(&vault),
            seq![Event::Authorized, Event::Time(now), Event::Balance(balance)],
        ) == Stage::Rejected(Error::GoalNotReached),
        vault.releases(now, balance) ==> pending(
            run(
                withdrawal_start(&vault),
                seq![Event::Authorized, Event::Time(now), Event::Balance(balance)],
            ),
        ) == Some(
            Action::Transfer {
                token: &vault.token,
                from: Holder::Vault,
                to: Holder::Account(&vault.saver),
                amount: balance,
            },
        ),
        outcome(
            run(
                withdrawal_start(&vault),
                seq![
                    Event::Authorized,
                    Event::Time(now),
                    Event::Balance(balance),
                    Event::Transferred,
                ],
            ),
        ) == Some(withdrawal_verdict(vault, now, balance)),
{
    let start = withdrawal_start(&vault);
    let all = seq![Event::Authorized, Event::Time(now), Event::Balance(balance), Event::Transferred];
    assert(all.take(0).len() == 0);
    lemma_run_one_more(start, all, 0);
    lemma_run_one_more(start, all, 1);
    lemma_run_one_more(start, all, 2);
    lemma_run_one_more(start, all, 3);
    assert(all.take(2) == seq![Event::Authorized, Event::Time(now)]);
    assert(all.take(3) == seq![Event::Authorized, Event::Time(now), Event::Balance(balance)]);
    assert(all.take(4) == all);
}

/// A withdrawal completes only through both gates: the host reported the
/// saver's authorisation, then a time at or after the unlock time, then
/// holdings that meet the goal, and then that the transfer of exactly those
/// holdings to the saver was made. That transfer is the only one: a
/// withdrawal pays out everything at once or nothing.
pub proof fn lemma_completed_withdrawal_passed_both_gates(vault: Vault, events: Seq<Event>)
    requires
        run(withdrawal_start(&vault), events) == Stage::Completed,
    ensures
        events.len() >= 4,
        events[0] == Event::Authorized,
        events[1] matches Event::Time(now) && vault.unlocked_at(now),
        events[2] matches Event::Balance(balance) && vault.goal_met_by(balance) && pending(
            run(withdrawal_start(&vault), events.take(3)),
        ) == Some(
            Action::Transfer {
                token: &vault.token,
                from: Holder::Vault,
                to: Holder::Account(&vault.saver),
                amount: balance,
            },
        ),
        events[3] == Event::Transferred,
        forall|k: int| transfer_made_at(withdrawal_start(&vault), events, k) <==> k == 3,
{
    let start = withdrawal_start(&vault);
    let all = events.len() as int;
    assert(events.take(0).len() == 0);
    assert(events.take(all) == events);
    assert forall|n: int| 0 <= n <= all && outcome(run(start, events.take(n))) is Some implies run(
        start,
        events.take(n),
    ) == Stage::Completed by {
        lemma_ended_after(start, events, n, all);
    }
    if all >= 1 {
        lemma_run_one_more(start, events, 0);
    }
    if all >= 2 {
        lemma_run_one_more(start, events, 1);
    }
    if all >= 3 {
        lemma_run_one_more(start, events, 2);
    }
    if all >= 4 {
        lemma_run_one_more(start, events, 3);
    }
    assert forall|k: int| transfer_made_at(start, events, k) implies k == 3 by {
        if k > 3 {
            lemma_ended_after(start, events, 4, k);
        }
    }
}

/// A deposit asks for the depositor's authorisation and then for the
/// transfer of exactly the amount deposited from the depositor to the vault;
/// it completes when that is made, and only so. That transfer is the only
/// one.
pub proof fn lemma_deposit_course(vault: Vault, from: Address, amount: i128, events: Seq<Event>)
    ensures
        pending(deposit_start(&vault, &from, amount)) == Some(Action::Authorize { who: &from }),
        pending(advance(deposit_start(&vault, &from, amount), Event::Authorized)) == Some(
            Action::Transfer {
                token: &vault.token,
                from: Holder::Account(&from),
                to: Holder::Vault,
                amount,
            },
        ),
        run(deposit_start(&vault, &from, amount), seq![Event::Authorized, Event::Transferred])
            == Stage::Completed,
        run(deposit_start(&vault, &from, amount), events) == Stage::Completed ==> {
            &&& events.len() >= 2
            &&& events[0] == Event::Authorized
            &&& events[1] == Event::Transferred
            &&& forall|k: int|
                transfer_made_at(deposit_start(&vault, &from, amount), events, k) <==> k == 1
        },
{
    let start = deposit_start(&vault, &from, amount);
    let both = seq![Event::Authorized, Event::Transferred];
    assert(both.take(0).len() == 0);
    lemma_run_one_more(start, both, 0);
    lemma_run_one_more(start, both, 1);
    assert(both.take(2) == both);
    if run(start, events) == Stage::Completed {
        let all = events.len() as int;
        assert(events.take(0).len() == 0);
        assert(events.take(all) == events);
        assert forall|n: int| 0 <= n <= all && outcome(run(start, events.take(n))) is Some implies run(
            start,
            events.take(n),
        ) == Stage::Completed by {
            lemma_ended_after(start, events, n, all);
        }
        if all >= 1 {
            lemma_run_one_more(start, events, 0);
        }
        if all >= 2 {
            lemma_run_one_more(start, events, 1);
        }
        assert forall|k: int| transfer_made_at(start, events, k) implies k == 1 by {
            if k > 1 {
                lemma_ended_after(start, events, 2, k);
            }
        }
    }
}

} // verus!
