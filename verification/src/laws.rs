//! The laws the ledger obeys, stated over the transition model of
//! [`crate::ledger`] and proved once and for all.

use vstd::prelude::*;

use crate::ledger::{
    ledger_state, spec_stake, spec_unstake, total_staked, ErrorCode, Identity, LedgerState,
    StakeAccount,
};

verus! {

/// Replacing one record of a collection moves the total staked by exactly
/// the difference between the new and the old recorded balance.
proof fn lemma_total_staked_update(records: Seq<StakeAccount>, i: int, r: StakeAccount)
    requires
        0 <= i < records.len(),
    ensures
        total_staked(records.update(i, r)) == total_staked(records) - records[i].amount + r.amount,
    decreases records.len(),
{
    if i == 0 {
        assert(records.update(0, r).skip(1) =~= records.skip(1));
    } else {
        assert(records.update(i, r).skip(1) =~= records.skip(1).update(i - 1, r));
        lemma_total_staked_update(records.skip(1), i - 1, r);
    }
}

/// Conservation: a stake that completes raises the recorded balance, debits
/// the external holding and credits the custody pool all by exactly the
/// staked amount, keeps the owner, and leaves the record funded.
pub proof fn lemma_stake_conservation(s: LedgerState, caller: Identity, amount: u64)
    requires
        amount > 0,
        spec_stake(s, caller, amount) is Ok,
    ensures
        spec_stake(s, caller, amount) matches Ok(next) && {
            &&& next.record.owner == s.record.owner
            &&& next.record.amount == s.record.amount + amount
            &&& s.external_holding - next.external_holding == amount
            &&& next.custody_pool - s.custody_pool == amount
            &&& next.record.amount > 0
        },
{
}

/// Authorization: a caller other than the record's owner is always refused
/// with `Unauthorized`, whatever amount it asks to stake.
pub proof fn lemma_stake_unauthorized(s: LedgerState, caller: Identity, amount: u64)
    requires
        caller != s.record.owner,
    ensures
        spec_stake(s, caller, amount) == Err::<LedgerState, ErrorCode>(ErrorCode::Unauthorized),
{
}

/// Authorization: a caller other than the record's owner can withdraw
/// nothing, and is always refused with `Unauthorized`.
pub proof fn lemma_unstake_unauthorized(s: LedgerState, caller: Identity)
    requires
        caller != s.record.owner,
    ensures
        spec_unstake(s, caller) == Err::<(LedgerState, u64), ErrorCode>(ErrorCode::Unauthorized),
{
}

/// An empty record has nothing to withdraw: the owner's unstake against a
/// zero balance is always refused with `NoStakedAmount`.
pub proof fn lemma_unstake_empty(s: LedgerState, caller: Identity)
    requires
        caller == s.record.owner,
        s.record.amount == 0,
    ensures
        spec_unstake(s, caller) == Err::<(LedgerState, u64), ErrorCode>(ErrorCode::NoStakedAmount),
{
}

/// A funded record is withdrawn in full: when the pool can cover the
/// recorded balance and the holding can receive it, the owner's unstake
/// empties the record, credits the holding and debits the pool by exactly
/// that balance, and returns it.
pub proof fn lemma_unstake_funded(s: LedgerState, caller: Identity)
    requires
        caller == s.record.owner,
        s.record.amount > 0,
        s.record.amount <= s.custody_pool,
        s.external_holding + s.record.amount <= u64::MAX,
    ensures
        spec_unstake(s, caller) matches Ok((next, withdrawn)) && {
            &&& withdrawn == s.record.amount
            &&& next.record.owner == s.record.owner
            &&& next.record.amount == 0
            &&& next.external_holding - s.external_holding == withdrawn
            &&& s.custody_pool - next.custody_pool == withdrawn
        },
{
}

/// Custody invariant, stake: a completed stake on any one record of a
/// collection raises the custody pool and the total staked by the same
/// amount, so the pool's surplus over the total — funds unrelated to
/// staking — is untouched.
pub proof fn lemma_stake_keeps_custody_surplus(
    records: Seq<StakeAccount>,
    i: int,
    external_holding: u64,
    custody_pool: u64,
    caller: Identity,
    amount: u64,
)
    requires
        0 <= i < records.len(),
        spec_stake(ledger_state(records[i], external_holding, custody_pool), caller, amount) is Ok,
    ensures
        ({
            let next = spec_stake(
                ledger_state(records[i], external_holding, custody_pool),
                caller,
                amount,
            )->Ok_0;
            next.custody_pool - total_staked(records.update(i, next.record)) == custody_pool
                - total_staked(records)
        }),
{
    let next = spec_stake(ledger_state(records[i], external_holding, custody_pool), caller, amount)->Ok_0;
    lemma_total_staked_update(records, i, next.record);
}

/// Custody invariant, unstake: a completed unstake on any one record of a
/// collection lowers the custody pool and the total staked by the same
/// amount, so the pool's surplus over the total is untouched.
pub proof fn lemma_unstake_keeps_custody_surplus(
    records: Seq<StakeAccount>,
    i: int,
    external_holding: u64,
    custody_pool: u64,
    caller: Identity,
)
    requires
        0 <= i < records.len(),
        spec_unstake(ledger_state(records[i], external_holding, custody_pool), caller) is Ok,
    ensures
        ({
            let (next, _) = spec_unstake(
                ledger_state(records[i], external_holding, custody_pool),
                caller,
            )->Ok_0;
            next.custody_pool - total_staked(records.update(i, next.record)) == custody_pool
                - total_staked(records)
        }),
{
    let (next, _) = spec_unstake(
        ledger_state(records[i], external_holding, custody_pool),
        caller,
    )->Ok_0;
    lemma_total_staked_update(records, i, next.record);
}

/// Net-zero cycle: staking into an empty record and then unstaking hands
/// back exactly the staked amount and returns the record, the external
/// holding and the custody pool to their values before the stake.
pub proof fn lemma_stake_unstake_round_trip(s: LedgerState, caller: Identity, amount: u64)
    requires
        caller == s.record.owner,
        s.record.amount == 0,
        amount > 0,
        spec_stake(s, caller, amount) is Ok,
    ensures
        spec_stake(s, caller, amount) matches Ok(mid) && spec_unstake(mid, caller) == Ok::<
            (LedgerState, u64),
            ErrorCode,
        >((s, amount)),
{
}

} // verus!
