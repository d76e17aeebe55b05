//! The balance-accounting state machine.
//!
//! A [`StakeAccount`] records how much one owner currently holds in custody.
//! The operations [`initialize`], [`stake`] and [`unstake`] move value
//! between the owner's external holding and the shared custody pool, and
//! every transition is all-or-nothing: it either applies in full or fails
//! with an [`ErrorCode`] and changes nothing.

use vstd::prelude::*;

verus! {

/// The identity of an account, as four 64-bit words (256 bits in all).
/// The ledger never inspects an identity beyond comparing it for equality.
#[derive(Clone, Copy, PartialEq, Eq, Structural, Debug, Hash)]
pub struct Identity {
    pub w0: u64,
    pub w1: u64,
    pub w2: u64,
    pub w3: u64,
}

/// Why an operation was refused. Every error is raised before any state
/// mutation, so a failed operation leaves the ledger exactly as it was.
#[derive(Clone, Copy, PartialEq, Eq, Structural, Debug)]
pub enum ErrorCode {
    /// The caller is not the owner of the record.
    Unauthorized,
    /// A withdrawal was attempted against a record with a zero balance.
    NoStakedAmount,
    /// The balance counter to be debited holds less than the amount to move.
    InsufficientFunds,
    /// Crediting a counter would exceed the largest representable balance.
    Overflow,
}

/// One owner's persistent stake record: the identity that may stake and
/// unstake (bound once, at creation), and the balance currently held in
/// custody on that owner's behalf.
#[derive(Clone, Copy, PartialEq, Eq, Structural, Debug)]
pub struct StakeAccount {
    pub owner: Identity,
    pub amount: u64,
}

/// Everything one transition touches: a record together with the owner's
/// external holding and the shared custody pool. The operations take the
/// three parts as separate arguments; this bundle lets the contracts and
/// the laws speak of a whole transition at once.
#[derive(Clone, Copy, PartialEq, Eq, Structural, Debug)]
pub struct LedgerState {
    pub record: StakeAccount,
    pub external_holding: u64,
    pub custody_pool: u64,
}

/// The state bundle built from a record and the two balance counters.
pub open spec fn ledger_state(
    record: StakeAccount,
    external_holding: u64,
    custody_pool: u64,
) -> LedgerState {
    LedgerState { record, external_holding, custody_pool }
}

/// The sum of the recorded balances of a collection of stake records. The
/// custody pool always covers this total: staking and unstaking move the
/// pool and the total by the same amount (see [`crate::laws`]), so the
/// pool's surplus over it — funds unrelated to staking — never changes.
pub open spec fn total_staked(records: Seq<StakeAccount>) -> int
    decreases records.len(),
{
    if records.len() == 0 {
        0
    } else {
        records[0].amount + total_staked(records.skip(1))
    }
}

/// The record that `initialize` creates for `owner`: bound to `owner`,
/// with nothing in custody yet.
pub open spec fn spec_initialize(owner: Identity) -> StakeAccount {
    StakeAccount { owner, amount: 0 }
}

/// What staking `amount` does to state `s` when `caller` asks for it:
/// either the next state, or the error that refuses the transition.
pub open spec fn spec_stake(s: LedgerState, caller: Identity, amount: u64) -> Result<
    LedgerState,
    ErrorCode,
> {
    if caller != s.record.owner {
        Err(ErrorCode::Unauthorized)
    } else if amount > s.external_holding {
        Err(ErrorCode::InsufficientFunds)
    } else if s.record.amount + amount > u64::MAX || s.custody_pool + amount > u64::MAX {
        Err(ErrorCode::Overflow)
    } else {
        Ok(
            ledger_state(
                StakeAccount { owner: s.record.owner, amount: (s.record.amount + amount) as u64 },
                (s.external_holding - amount) as u64,
                (s.custody_pool + amount) as u64,
            ),
        )
    }
}

/// What unstaking does to state `s` when `caller` asks for it: either the
/// next state together with the amount withdrawn, or the refusing error.
/// A withdrawal is always of the entire recorded balance.
pub open spec fn spec_unstake(s: LedgerState, caller: Identity) -> Result<
    (LedgerState, u64),
    ErrorCode,
> {
    if caller != s.record.owner {
        Err(ErrorCode::Unauthorized)
    } else if s.record.amount == 0 {
        Err(ErrorCode::NoStakedAmount)
    } else if s.record.amount > s.custody_pool {
        Err(ErrorCode::InsufficientFunds)
    } else if s.external_holding + s.record.amount > u64::MAX {
        Err(ErrorCode::Overflow)
    } else {
        Ok(
            (
                ledger_state(
                    StakeAccount { owner: s.record.owner, amount: 0 },
                    (s.external_holding + s.record.amount) as u64,
                    (s.custody_pool - s.record.amount) as u64,
                ),
                s.record.amount,
            ),
        )
    }
}

/// Create the stake record for `owner`. The owner is bound once and for
/// all, and the recorded balance starts at zero; no balance counter moves.
pub fn initialize(owner: Identity) -> (record: StakeAccount)
    ensures
        record == spec_initialize(owner),
{
    StakeAccount { owner, amount: 0 }
}

/// Move `amount` from the owner's external holding into the custody pool
/// and raise the recorded balance by the same amount, as one unit.
///
/// Only the record's owner may stake. The transfer fails with
/// `InsufficientFunds` when the external holding is short of `amount`, and
/// with `Overflow` when crediting the pool or the record would wrap; on any
/// error nothing changes.
pub fn stake(
    record: &mut StakeAccount,
    caller: Identity,
    external_holding: &mut u64,
    custody_pool: &mut u64,
    amount: u64,
) -> (result: Result<(), ErrorCode>)
    requires
        amount > 0,
    ensures
        ({
            let pre = ledger_state(*old(record), *old(external_holding), *old(custody_pool));
            let post = ledger_state(*final(record), *final(external_holding), *final(custody_pool));
            match spec_stake(pre, caller, amount) {
                Ok(next) => result == Ok::<(), ErrorCode>(()) && post == next,
                Err(e) => result == Err::<(), ErrorCode>(e) && post == pre,
            }
        }),
{
    if caller != record.owner {
        return Err(ErrorCode::Unauthorized);
    }
    if amount > *external_holding {
        return Err(ErrorCode::InsufficientFunds);
    }
    if record.amount > u64::MAX - amount || *custody_pool > u64::MAX - amount {
        return Err(ErrorCode::Overflow);
    }
    *external_holding = *external_holding - amount;
    *custody_pool = *custody_pool + amount;
    record.amount = record.amount + amount;
    Ok(())
}

/// Withdraw the entire recorded balance: move it from the custody pool back
/// to the owner's external holding, reset the record to zero, and return
/// the amount withdrawn, as one unit.
///
/// Only the record's owner may unstake, and only from a record holding a
/// positive balance (`NoStakedAmount` otherwise). The transfer fails with
/// `InsufficientFunds` when the pool is short of the recorded balance, and
/// with `Overflow` when crediting the holding would wrap; on any error
/// nothing changes.
pub fn unstake(
    record: &mut StakeAccount,
    caller: Identity,
    external_holding: &mut u64,
    custody_pool: &mut u64,
) -> (result: Result<u64, ErrorCode>)
    ensures
        ({
            let pre = ledger_state(*old(record), *old(external_holding), *old(custody_pool));
            let post = ledger_state(*final(record), *final(external_holding), *final(custody_pool));
            match spec_unstake(pre, caller) {
                Ok((next, withdrawn)) => result == Ok::<u64, ErrorCode>(withdrawn) && post == next,
                Err(e) => result == Err::<u64, ErrorCode>(e) && post == pre,
            }
        }),
{
    if caller != record.owner {
        return Err(ErrorCode::Unauthorized);
    }
    let amount = record.amount;
    if amount == 0 {
        return Err(ErrorCode::NoStakedAmount);
    }
    if amount > *custody_pool {
        return Err(ErrorCode::InsufficientFunds);
    }
    if *external_holding > u64::MAX - amount {
        return Err(ErrorCode::Overflow);
    }
    *custody_pool = *custody_pool - amount;
    *external_holding = *external_holding + amount;
    record.amount = 0;
    Ok(amount)
}

} // verus!
