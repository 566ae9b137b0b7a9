use vstd::prelude::*;

verus! {

/// Transfer fee withheld on every transfer, in basis points (25%).
pub const TRANSFER_FEE_BASIS_POINTS: u16 = 2500;

/// Upper bound on the fee of one transfer: none.
pub const MAXIMUM_FEE: u64 = 0xffff_ffff_ffff_ffff;

/// Annual interest rate of the mint, in basis points (7%).
pub const INTEREST_RATE_BASIS_POINTS: u16 = 700;

/// Number of decimals the mint is created with.
pub const MINT_DECIMALS: u8 = 9;

} // verus!
