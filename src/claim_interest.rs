//! The decision half of a claim: how much interest is owed and how it is funded.
use vstd::prelude::*;

verus! {

/// Why a claim could not be settled.
#[derive(Clone, Copy, Debug, PartialEq, Eq, Structural)]
pub enum ClaimInterestError {
    /// The effective balance came out below the raw balance.
    InvalidInterestCalculation,
    /// The reported interest-inclusive amount could not be read as a balance.
    BalanceCalculationFailed,
    /// The interest extension could not compute an interest-inclusive amount.
    InterestCalculationFailed,
    /// The signer proof does not derive the authority that controls the pool and the mint.
    UnauthorizedAuthority,
    /// The fee pool holds less than the transfer asks for.
    InsufficientPoolBalance,
    /// Minting the shortfall would push the mint supply past `u64::MAX`.
    SupplyOverflow,
}

/// How one claim is funded: `from_pool` moves out of the fee pool, `to_mint` is new supply.
#[derive(Clone, Copy, Debug, PartialEq, Eq, Structural)]
pub struct Settlement {
    pub from_pool: u64,
    pub to_mint: u64,
}

impl Settlement {
    pub open spec fn total(self) -> int {
        self.from_pool + self.to_mint
    }

    pub open spec fn is_noop(self) -> bool {
        self.from_pool == 0 && self.to_mint == 0
    }

    /// The claim that this settlement funds.
    pub fn amount(&self) -> (r: u64)
        requires
            self.total() <= u64::MAX,
        ensures
            r == self.total(),
    {
        self.from_pool + self.to_mint
    }

    /// True when no executor has anything to do.
    pub fn is_empty(&self) -> (r: bool)
        ensures
            r == self.is_noop(),
    {
        self.from_pool == 0 && self.to_mint == 0
    }
}

/// Pool first, and mint only what the pool cannot cover.
pub open spec fn split_of(claim: u64, pool_balance: u64) -> Settlement {
    if claim <= pool_balance {
        Settlement { from_pool: claim, to_mint: 0 }
    } else {
        Settlement { from_pool: pool_balance, to_mint: (claim - pool_balance) as u64 }
    }
}

/// Interest owed to a holder, or the error for a malformed effective balance.
pub open spec fn claim_of(effective_balance: u64, raw_balance: u64) -> Result<u64, ClaimInterestError> {
    if effective_balance < raw_balance {
        Err(ClaimInterestError::InvalidInterestCalculation)
    } else {
        Ok((effective_balance - raw_balance) as u64)
    }
}

/// The settlement a claim asks for, before any executor is involved.
pub open spec fn plan_of(
    effective_balance: u64,
    raw_balance: u64,
    pool_balance: u64,
) -> Result<Settlement, ClaimInterestError> {
    match claim_of(effective_balance, raw_balance) {
        Ok(claim) => Ok(split_of(claim, pool_balance)),
        Err(e) => Err(e),
    }
}

/// Interest accrued on top of the raw balance: `effective_balance - raw_balance`.
/// An effective balance below the raw one is an invariant violation and is reported,
/// never clamped to zero.
pub fn claimable_interest(effective_balance: u64, raw_balance: u64) -> (r: Result<
    u64,
    ClaimInterestError,
>)
    ensures
        r == claim_of(effective_balance, raw_balance),
        r is Ok <==> raw_balance <= effective_balance,
        r matches Ok(claim) ==> claim + raw_balance == effective_balance,
{
    match effective_balance.checked_sub(raw_balance) {
        Some(claim) => Ok(claim),
        None => Err(ClaimInterestError::InvalidInterestCalculation),
    }
}

/// Splits a claim between the fee pool and new supply: the pool pays as much as it
/// holds, up to the claim, and the rest is minted.
pub fn split_claim(claim: u64, pool_balance: u64) -> (r: Settlement)
    ensures
        r == split_of(claim, pool_balance),
        r.total() == claim,
        r.from_pool <= pool_balance,
        r.from_pool == if claim <= pool_balance { claim } else { pool_balance },
        r.to_mint > 0 ==> r.from_pool == pool_balance,
{
    if claim <= pool_balance {
        Settlement { from_pool: claim, to_mint: 0 }
    } else {
        Settlement { from_pool: pool_balance, to_mint: claim - pool_balance }
    }
}

/// Decides how a claim is funded from the effective balance, the raw balance and the
/// fee pool's balance. A zero claim gives the empty settlement.
pub fn plan_settlement(effective_balance: u64, raw_balance: u64, pool_balance: u64) -> (r: Result<
    Settlement,
    ClaimInterestError,
>)
    ensures
        r == plan_of(effective_balance, raw_balance, pool_balance),
        r is Err <==> effective_balance < raw_balance,
        r matches Ok(s) ==> s.total() == effective_balance - raw_balance,
        r matches Ok(s) ==> (s.is_noop() <==> effective_balance == raw_balance),
{
    let claim = claimable_interest(effective_balance, raw_balance)?;
    Ok(split_claim(claim, pool_balance))
}

/// The variant that trusts a caller-supplied interest amount instead of asking the
/// interest extension: the same pool-first split.
pub fn plan_settlement_for_amount(interest_amount: u64, pool_balance: u64) -> (r: Settlement)
    ensures
        r == split_of(interest_amount, pool_balance),
        r.total() == interest_amount,
{
    split_claim(interest_amount, pool_balance)
}

/// Pool first: a claim above the pool's balance takes the whole pool and mints the rest;
/// a claim within it is paid from the pool alone.
pub proof fn lemma_split_pool_first(claim: u64, pool_balance: u64)
    ensures
        claim > pool_balance ==> split_of(claim, pool_balance).from_pool == pool_balance
            && split_of(claim, pool_balance).to_mint == claim - pool_balance,
        claim <= pool_balance ==> split_of(claim, pool_balance).from_pool == claim
            && split_of(claim, pool_balance).to_mint == 0,
{
}

} // verus!
