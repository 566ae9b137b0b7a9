//! The effective (interest-inclusive) balance, as the interest-bearing mint extension
//! reports it, read back into the mint's smallest unit.
use vstd::prelude::*;
use anchor_spl::token_2022::spl_token_2022::extension::interest_bearing_mint::{
    BasisPoints, InterestBearingConfig, UnixTimestamp,
};
use vstd::string::StringSliceAdditionalSpecFns;
use crate::authority::AuthorityProof;
use crate::claim_interest::{ClaimInterestError, Settlement};
use crate::ledger::TokenLedger;
use crate::ui_amount::{raw_from_ui, ui_amount_to_raw};

verus! {

/// The interest configuration of a mint: the rates, in basis points per year, and the
/// timestamps they run from.
#[derive(Clone, Copy, Debug, PartialEq, Eq, Structural)]
pub struct InterestConfig {
    /// Start of interest accrual.
    pub initialization_timestamp: i64,
    /// Average rate from initialization until the last rate change.
    pub pre_update_average_rate: i16,
    /// Time of the last rate change.
    pub last_update_timestamp: i64,
    /// Rate since the last change.
    pub current_rate: i16,
}

impl InterestConfig {
    /// A configuration that has accrued at `rate` since `initialization_timestamp`,
    /// with no rate change since.
    pub fn new(initialization_timestamp: i64, rate: i16) -> (r: InterestConfig)
        ensures
            r.initialization_timestamp == initialization_timestamp,
            r.last_update_timestamp == initialization_timestamp,
            r.pre_update_average_rate == rate,
            r.current_rate == rate,
    {
        InterestConfig {
            initialization_timestamp,
            pre_update_average_rate: rate,
            last_update_timestamp: initialization_timestamp,
            current_rate: rate,
        }
    }
}

/// Relies on `InterestBearingConfig::amount_to_ui_amount` (spl-token-2022): the amount
/// with continuously compounded interest up to `unix_timestamp`, divided by
/// `10^decimals` and printed as an `f64`; `None` when a timespan overflows. It computes
/// through `f64::exp`, whose last digits may differ between platforms, so nothing is
/// claimed of the text.
#[verifier::external_body]
fn amount_to_ui_amount(config: &InterestConfig, amount: u64, decimals: u8, unix_timestamp: i64) -> (r: Option<String>)
{
    let extension = InterestBearingConfig {
        rate_authority: Default::default(),
        initialization_timestamp: UnixTimestamp::from(config.initialization_timestamp),
        pre_update_average_rate: BasisPoints::from(config.pre_update_average_rate),
        last_update_timestamp: UnixTimestamp::from(config.last_update_timestamp),
        current_rate: BasisPoints::from(config.current_rate),
    };
    extension.amount_to_ui_amount(amount, decimals, unix_timestamp)
}

/// The effective balance for a UI amount reported by the token program: its raw
/// amount, or `BalanceCalculationFailed` when the text does not read as one.
pub fn effective_balance_from_ui(ui_amount: &str, decimals: u8) -> (r: Result<u64, ClaimInterestError>)
    ensures
        r == match raw_from_ui(ui_amount.spec_bytes(), decimals) {
            Some(v) => Ok(v),
            None => Err(ClaimInterestError::BalanceCalculationFailed),
        },
{
    match ui_amount_to_raw(ui_amount, decimals) {
        Some(v) => Ok(v),
        None => Err(ClaimInterestError::BalanceCalculationFailed),
    }
}

/// The effective balance of `raw_balance` at `now` under `config`. Fails with
/// `InterestCalculationFailed` when the extension computes nothing or its text does not
/// read back as a `u64` amount.
pub fn compute_effective_balance(config: &InterestConfig, raw_balance: u64, decimals: u8, now: i64) -> (r: Result<
    u64,
    ClaimInterestError,
>)
    ensures
        r is Err ==> r == Err::<u64, _>(ClaimInterestError::InterestCalculationFailed),
        r matches Ok(v) ==> exists|text: Seq<u8>| raw_from_ui(text, decimals) == Some(v),
{
    match amount_to_ui_amount(config, raw_balance, decimals, now) {
        Some(ui) => match ui_amount_to_raw(ui.as_str(), decimals) {
            Some(v) => Ok(v),
            None => Err(ClaimInterestError::InterestCalculationFailed),
        },
        None => Err(ClaimInterestError::InterestCalculationFailed),
    }
}

/// Settles the interest the holder has accrued by `now`: asks the interest extension
/// for the effective balance first, then claims against it. Whatever the extension
/// reports, the outcome is the claim against some effective balance or
/// `InterestCalculationFailed`, and a failure changes nothing.
pub fn claim_accrued_interest(
    ledger: &mut TokenLedger,
    config: &InterestConfig,
    now: i64,
    proof: &AuthorityProof,
) -> (r: Result<Settlement, ClaimInterestError>)
    requires
        old(ledger).wf(),
    ensures
        final(ledger).wf(),
        r == Err::<Settlement, _>(ClaimInterestError::InterestCalculationFailed) || exists|
            effective_balance: u64,
        | r == old(ledger).claim_result(effective_balance, *proof),
        r matches Ok(s) ==> *final(ledger) == old(ledger).settled(s),
        r is Err ==> *final(ledger) == *old(ledger),
{
    let effective_balance = compute_effective_balance(
        config,
        ledger.holder_balance,
        ledger.decimals,
        now,
    )?;
    ledger.claim_interest(effective_balance, proof)
}

} // verus!
