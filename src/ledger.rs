//! The three balances a claim touches, the two settlement executors that move them,
//! and the claim itself as one all-or-nothing step over them.
use vstd::prelude::*;
use crate::authority::{proves, AuthorityProof};
use crate::claim_interest::{
    claim_of, plan_of, plan_settlement, ClaimInterestError, Settlement,
};

verus! {

/// One mint with its fee pool and one holder account.
#[derive(Clone, Copy, Debug)]
pub struct TokenLedger {
    /// Identity of the mint.
    pub mint: [u8; 32],
    /// The program whose derived authority controls the pool and the mint.
    pub program_id: [u8; 32],
    /// The derived authority's address.
    pub authority: [u8; 32],
    /// Decimal precision declared by the mint.
    pub decimals: u8,
    /// Raw stored balance of the holder.
    pub holder_balance: u64,
    /// Balance of the fee pool.
    pub fee_pool_balance: u64,
    /// Supply of the mint.
    pub supply: u64,
}

impl TokenLedger {
    /// The holder and the pool are both part of the supply.
    pub open spec fn wf(self) -> bool {
        self.holder_balance + self.fee_pool_balance <= self.supply
    }

    /// The proof rebuilds this ledger's authority.
    pub open spec fn signed_by(self, proof: AuthorityProof) -> bool {
        proves(proof, self.program_id@, self.authority@)
    }

    /// Supply held by neither the holder nor the pool.
    pub open spec fn held_elsewhere(self) -> int {
        self.supply - self.holder_balance - self.fee_pool_balance
    }

    /// The ledger after both steps of a settlement.
    pub open spec fn settled(self, s: Settlement) -> TokenLedger {
        TokenLedger {
            holder_balance: (self.holder_balance + s.from_pool + s.to_mint) as u64,
            fee_pool_balance: (self.fee_pool_balance - s.from_pool) as u64,
            supply: (self.supply + s.to_mint) as u64,
            ..self
        }
    }

    /// What a claim against an effective balance comes to: the settlement, or the error
    /// that stops it.
    pub open spec fn claim_result(self, effective_balance: u64, proof: AuthorityProof) -> Result<
        Settlement,
        ClaimInterestError,
    > {
        match plan_of(effective_balance, self.holder_balance, self.fee_pool_balance) {
            Err(e) => Err(e),
            Ok(s) => if s.is_noop() {
                Ok(s)
            } else if !self.signed_by(proof) {
                Err(ClaimInterestError::UnauthorizedAuthority)
            } else if self.supply + s.to_mint > u64::MAX {
                Err(ClaimInterestError::SupplyOverflow)
            } else {
                Ok(s)
            },
        }
    }

    /// A ledger whose holder and pool are both part of the supply.
    pub fn new(
        mint: [u8; 32],
        program_id: [u8; 32],
        authority: [u8; 32],
        decimals: u8,
        holder_balance: u64,
        fee_pool_balance: u64,
        supply: u64,
    ) -> (r: Option<TokenLedger>)
        ensures
            r is Some <==> holder_balance + fee_pool_balance <= supply,
            r matches Some(l) ==> l.wf() && l.mint == mint && l.program_id == program_id
                && l.authority == authority && l.decimals == decimals && l.holder_balance
                == holder_balance && l.fee_pool_balance == fee_pool_balance && l.supply == supply,
    {
        if fee_pool_balance <= supply && holder_balance <= supply - fee_pool_balance {
            Some(
                TokenLedger {
                    mint,
                    program_id,
                    authority,
                    decimals,
                    holder_balance,
                    fee_pool_balance,
                    supply,
                },
            )
        } else {
            None
        }
    }

    /// Moves `amount` from the fee pool to the holder, signed by the derived authority.
    pub fn transfer_from_pool(&mut self, amount: u64, proof: &AuthorityProof) -> (r: Result<
        (),
        ClaimInterestError,
    >)
        requires
            old(self).wf(),
            amount > 0,
        ensures
            final(self).wf(),
            !old(self).signed_by(*proof) ==> r == Err::<(), _>(
                ClaimInterestError::UnauthorizedAuthority,
            ),
            old(self).signed_by(*proof) && amount > old(self).fee_pool_balance ==> r == Err::<
                (),
                _,
            >(ClaimInterestError::InsufficientPoolBalance),
            r is Ok <==> old(self).signed_by(*proof) && amount <= old(self).fee_pool_balance,
            r is Ok ==> *final(self) == old(self).settled(Settlement { from_pool: amount, to_mint: 0 }),
            r is Err ==> *final(self) == *old(self),
    {
        if !proof.authorizes(&self.program_id, &self.authority) {
            return Err(ClaimInterestError::UnauthorizedAuthority);
        }
        if amount > self.fee_pool_balance {
            return Err(ClaimInterestError::InsufficientPoolBalance);
        }
        self.fee_pool_balance = self.fee_pool_balance - amount;
        self.holder_balance = self.holder_balance + amount;
        Ok(())
    }

    /// Mints `amount` of new supply to the holder, signed by the derived authority.
    pub fn mint_to_holder(&mut self, amount: u64, proof: &AuthorityProof) -> (r: Result<
        (),
        ClaimInterestError,
    >)
        requires
            old(self).wf(),
            amount > 0,
        ensures
            final(self).wf(),
            !old(self).signed_by(*proof) ==> r == Err::<(), _>(
                ClaimInterestError::UnauthorizedAuthority,
            ),
            old(self).signed_by(*proof) && old(self).supply + amount > u64::MAX ==> r == Err::<
                (),
                _,
            >(ClaimInterestError::SupplyOverflow),
            r is Ok <==> old(self).signed_by(*proof) && old(self).supply + amount <= u64::MAX,
            r is Ok ==> *final(self) == old(self).settled(Settlement { from_pool: 0, to_mint: amount }),
            r is Err ==> *final(self) == *old(self),
    {
        if !proof.authorizes(&self.program_id, &self.authority) {
            return Err(ClaimInterestError::UnauthorizedAuthority);
        }
        if amount > u64::MAX - self.supply {
            return Err(ClaimInterestError::SupplyOverflow);
        }
        self.supply = self.supply + amount;
        self.holder_balance = self.holder_balance + amount;
        Ok(())
    }

    /// Settles the interest accrued on the holder's balance, given the effective
    /// (interest-inclusive) balance: the pool pays first, new supply covers the rest,
    /// and neither executor is called for a zero amount. On any error nothing changes.
    pub fn claim_interest(&mut self, effective_balance: u64, proof: &AuthorityProof) -> (r: Result<
        Settlement,
        ClaimInterestError,
    >)
        requires
            old(self).wf(),
        ensures
            r == old(self).claim_result(effective_balance, *proof),
            r matches Ok(s) ==> *final(self) == old(self).settled(s),
            r is Err ==> *final(self) == *old(self),
            final(self).wf(),
    {
        let s = plan_settlement(effective_balance, self.holder_balance, self.fee_pool_balance)?;
        if s.is_empty() {
            return Ok(s);
        }
        if !proof.authorizes(&self.program_id, &self.authority) {
            return Err(ClaimInterestError::UnauthorizedAuthority);
        }
        if s.to_mint > u64::MAX - self.supply {
            return Err(ClaimInterestError::SupplyOverflow);
        }
        let ghost start = *self;
        if s.from_pool > 0 {
            let moved = self.transfer_from_pool(s.from_pool, proof);
            assert(moved is Ok);
        }
        if s.to_mint > 0 {
            let minted = self.mint_to_holder(s.to_mint, proof);
            assert(minted is Ok);
        }
        assert(*self == start.settled(s));
        Ok(s)
    }
}

/// A settled claim credits the holder with exactly the claim,
/// `effective_balance - raw_balance`: afterwards the raw balance is the effective one.
pub proof fn lemma_claim_credits_holder(l: TokenLedger, effective_balance: u64, proof: AuthorityProof)
    requires
        l.wf(),
        l.holder_balance <= effective_balance,
    ensures
        claim_of(effective_balance, l.holder_balance) == Ok::<u64, ClaimInterestError>(
            (effective_balance - l.holder_balance) as u64,
        ),
        l.claim_result(effective_balance, proof) matches Ok(s) ==> s.total() == effective_balance
            - l.holder_balance && l.settled(s).holder_balance == l.holder_balance + s.total()
            && l.settled(s).holder_balance == effective_balance,
{
}

/// Conservation: the pool loses exactly `from_pool`, the supply grows by exactly
/// `to_mint`, the holder gains their sum, and no balance outside the holder and the
/// pool moves.
pub proof fn lemma_claim_conserves(l: TokenLedger, effective_balance: u64, proof: AuthorityProof)
    requires
        l.wf(),
    ensures
        l.claim_result(effective_balance, proof) matches Ok(s) ==> {
            let after = l.settled(s);
            &&& after.wf()
            &&& after.fee_pool_balance == l.fee_pool_balance - s.from_pool
            &&& after.supply == l.supply + s.to_mint
            &&& after.holder_balance - l.holder_balance == s.from_pool + s.to_mint
            &&& after.held_elsewhere() == l.held_elsewhere()
        },
{
}

/// Idempotence: once a claim is settled, a second claim against the same effective
/// balance owes nothing, calls no executor and leaves the ledger as it is.
pub proof fn lemma_second_claim_is_noop(
    l: TokenLedger,
    effective_balance: u64,
    proof: AuthorityProof,
    second_proof: AuthorityProof,
)
    requires
        l.wf(),
        l.claim_result(effective_balance, proof) is Ok,
    ensures
        ({
            let after = l.settled(l.claim_result(effective_balance, proof)->Ok_0);
            &&& after.claim_result(effective_balance, second_proof) == Ok::<
                Settlement,
                ClaimInterestError,
            >(Settlement { from_pool: 0, to_mint: 0 })
            &&& after.settled(Settlement { from_pool: 0, to_mint: 0 }) == after
        }),
{
}

/// An effective balance below the raw balance is rejected with
/// `InvalidInterestCalculation`, whatever the pool and the proof; the claim then changes
/// nothing (see `claim_interest`).
pub proof fn lemma_malformed_effective_rejected(
    l: TokenLedger,
    effective_balance: u64,
    proof: AuthorityProof,
)
    requires
        effective_balance < l.holder_balance,
    ensures
        l.claim_result(effective_balance, proof) == Err::<Settlement, ClaimInterestError>(
            ClaimInterestError::InvalidInterestCalculation,
        ),
{
}

} // verus!
