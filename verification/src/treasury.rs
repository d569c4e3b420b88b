//! Treasury: per-token balances, funds locked for payments and their release.
use vstd::prelude::*;

use crate::errors::Refusal;
use crate::types::Account;

verus! {

/// The highest fee the treasury accepts, in basis points.
pub const MAX_FEE_BPS: u32 = 1000;

/// The treasury contract's instance state.
#[derive(Clone, Copy, Debug, PartialEq, Eq)]
pub struct TreasuryConfig {
    pub admin: Account,
    pub payments: Account,
    pub disputes: Account,
    pub fee_bps: u32,
}

/// Funds set aside for one payment.
#[derive(Clone, Copy, Debug, PartialEq, Eq)]
pub struct LockedFunds {
    pub token: Account,
    pub amount: i128,
}

/// A token's treasury balance: an absent balance is zero.
pub open spec fn balance_of(stored: Option<i128>) -> int {
    match stored {
        Some(b) => b as int,
        None => 0,
    }
}

pub open spec fn in_i128(x: int) -> bool {
    i128::MIN <= x <= i128::MAX
}

pub open spec fn lock_outcome(
    config: TreasuryConfig,
    caller: Account,
    token: Account,
    balance: Option<i128>,
    amount: i128,
) -> Result<(i128, LockedFunds), Refusal> {
    if caller != config.payments {
        Err(Refusal::NotPayments)
    } else if balance_of(balance) < amount {
        Err(Refusal::InsufficientBalance)
    } else if !in_i128(balance_of(balance) - amount) {
        Err(Refusal::ArithmeticOverflow)
    } else {
        Ok(((balance_of(balance) - amount) as i128, LockedFunds { token, amount }))
    }
}

/// The treasury contract.
pub struct TreasuryContract;

impl TreasuryContract {
    /// The initial state; refused when an admin is already stored, or when the
    /// fee is above the maximum.
    pub fn init(
        has_admin: bool,
        admin: Account,
        payments: Account,
        disputes: Account,
        fee_bps: u32,
    ) -> (r: Result<TreasuryConfig, Refusal>)
        ensures
            r == (if has_admin {
                Err(Refusal::AlreadyInitialized)
            } else if fee_bps > MAX_FEE_BPS {
                Err(Refusal::FeeTooHigh)
            } else {
                Ok(TreasuryConfig { admin, payments, disputes, fee_bps })
            }),
    {
        if has_admin {
            return Err(Refusal::AlreadyInitialized);
        }
        if fee_bps > MAX_FEE_BPS {
            return Err(Refusal::FeeTooHigh);
        }
        Ok(TreasuryConfig { admin, payments, disputes, fee_bps })
    }

    /// The token balance after a deposit; refused when it leaves the range.
    pub fn deposit(balance: Option<i128>, amount: i128) -> (r: Result<i128, Refusal>)
        ensures
            r == (if in_i128(balance_of(balance) + amount) {
                Ok((balance_of(balance) + amount) as i128)
            } else {
                Err(Refusal::ArithmeticOverflow)
            }),
    {
        let current = match balance {
            Some(b) => b,
            None => 0,
        };
        match current.checked_add(amount) {
            Some(b) => Ok(b),
            None => Err(Refusal::ArithmeticOverflow),
        }
    }

    /// Whether `caller` is the payments contract.
    pub fn require_payments(config: &TreasuryConfig, caller: &Account) -> (r: bool)
        ensures
            r == (*caller == config.payments),
    {
        caller.same_as(&config.payments)
    }

    /// Whether `caller` is the payments or the disputes contract.
    pub fn require_payments_or_disputes(config: &TreasuryConfig, caller: &Account) -> (r: bool)
        ensures
            r == (*caller == config.payments || *caller == config.disputes),
    {
        caller.same_as(&config.payments) || caller.same_as(&config.disputes)
    }

    /// Moves `amount` of `token` from its balance into a lock for one payment;
    /// returns the remaining balance and the lock. Refused for any caller but
    /// the payments contract and for an amount the balance does not cover.
    pub fn lock_for_payment(
        config: &TreasuryConfig,
        caller: Account,
        token: Account,
        balance: Option<i128>,
        amount: i128,
    ) -> (r: Result<(i128, LockedFunds), Refusal>)
        ensures
            r == lock_outcome(*config, caller, token, balance, amount),
    {
        if !Self::require_payments(config, &caller) {
            return Err(Refusal::NotPayments);
        }
        let current = match balance {
            Some(b) => b,
            None => 0,
        };
        if current < amount {
            return Err(Refusal::InsufficientBalance);
        }
        match current.checked_sub(amount) {
            Some(rest) => Ok((rest, LockedFunds { token, amount })),
            None => Err(Refusal::ArithmeticOverflow),
        }
    }

    /// Releases the funds locked for a payment: hands back the lock to pay out
    /// and leaves the payment with no lock. Refused for any caller but the
    /// payments and disputes contracts, and when nothing is locked.
    pub fn release(config: &TreasuryConfig, caller: Account, locked: &mut Option<LockedFunds>) -> (r:
        Result<LockedFunds, Refusal>)
        ensures
            !(caller == config.payments || caller == config.disputes) ==> r == Err::<
                LockedFunds,
                Refusal,
            >(Refusal::NotAuthorized) && *final(locked) == *old(locked),
            (caller == config.payments || caller == config.disputes) && (*old(locked)) is None ==> r
                == Err::<LockedFunds, Refusal>(Refusal::NothingLocked) && *final(locked) == *old(
                locked,
            ),
            (caller == config.payments || caller == config.disputes) && (*old(locked)) is Some ==> r
                == Ok::<LockedFunds, Refusal>((*old(locked))->Some_0) && (*final(locked)) is None,
    {
        if !Self::require_payments_or_disputes(config, &caller) {
            return Err(Refusal::NotAuthorized);
        }
        match locked.take() {
            Some(funds) => Ok(funds),
            None => Err(Refusal::NothingLocked),
        }
    }
}

} // verus!
