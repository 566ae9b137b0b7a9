use bullrider::claim_interest::ClaimInterestError;
use bullrider::interest::{
    claim_accrued_interest, compute_effective_balance, effective_balance_from_ui, InterestConfig,
};
use bullrider::authority::{derive_withdraw_authority, AuthorityProof};
use bullrider::claim_interest::Settlement;
use bullrider::ledger::TokenLedger;
use bullrider::ui_amount::{raw_amount_from_ui_bytes, ui_amount_to_raw};

#[test]
fn whole_amounts_scale_by_decimals() {
    assert_eq!(ui_amount_to_raw("110", 0), Some(110));
    assert_eq!(ui_amount_to_raw("110", 6), Some(110_000_000));
    assert_eq!(ui_amount_to_raw("0", 9), Some(0));
}

#[test]
fn fractions_round_half_up() {
    assert_eq!(ui_amount_to_raw("1.5", 0), Some(2));
    assert_eq!(ui_amount_to_raw("1.4999", 0), Some(1));
    assert_eq!(ui_amount_to_raw("1.234", 2), Some(123));
    assert_eq!(ui_amount_to_raw("1.235", 2), Some(124));
    assert_eq!(ui_amount_to_raw("0.0000999999999", 6), Some(100));
    assert_eq!(ui_amount_to_raw("0.0001", 6), Some(100));
    assert_eq!(ui_amount_to_raw("0.1", 3), Some(100));
}

#[test]
fn malformed_text_is_rejected() {
    for text in ["", "NaN", "inf", "-1", "1e5", "1.", ".5", "1.2.3", "1,5", " 1", "+1"] {
        assert_eq!(ui_amount_to_raw(text, 6), None, "{}", text);
    }
}

#[test]
fn amounts_past_u64_are_rejected() {
    assert_eq!(ui_amount_to_raw("18446744073709551615", 0), Some(u64::MAX));
    assert_eq!(ui_amount_to_raw("18446744073709551616", 0), None);
    assert_eq!(ui_amount_to_raw("18446744073709551615.5", 0), None);
    assert_eq!(ui_amount_to_raw("18446744073709551615.4", 0), Some(u64::MAX));
    assert_eq!(ui_amount_to_raw("1", 20), None);
    assert_eq!(raw_amount_from_ui_bytes(b"0.5", 0), Some(1));
}

#[test]
fn reported_text_maps_to_balance_error() {
    assert_eq!(effective_balance_from_ui("110.000001", 6), Ok(110_000_001));
    assert_eq!(
        effective_balance_from_ui("abc", 6),
        Err(ClaimInterestError::BalanceCalculationFailed)
    );
}

#[test]
fn zero_rate_gives_raw_balance() {
    let config = InterestConfig::new(0, 0);
    assert_eq!(compute_effective_balance(&config, 100, 6, 1_000_000), Ok(100));
    assert_eq!(compute_effective_balance(&config, 123_456_789, 9, 50), Ok(123_456_789));
}

#[test]
fn positive_rate_accrues_over_a_year() {
    let config = InterestConfig::new(0, 700);
    let year: i64 = 31_556_736;
    let raw: u64 = 1_000_000_000;
    let effective = compute_effective_balance(&config, raw, 9, year).unwrap();
    // exp(0.07) = 1.0725081812542165
    assert!(effective > 1_072_508_170 && effective < 1_072_508_190, "{}", effective);
}

#[test]
fn overflowing_timespan_fails() {
    let config = InterestConfig {
        initialization_timestamp: i64::MIN,
        pre_update_average_rate: 700,
        last_update_timestamp: i64::MAX,
        current_rate: 700,
    };
    assert_eq!(
        compute_effective_balance(&config, 100, 6, 0),
        Err(ClaimInterestError::InterestCalculationFailed)
    );
}

#[test]
fn accrued_claim_settles_from_pool() {
    let mint = [21u8; 32];
    let program = [22u8; 32];
    let (address, bump) = derive_withdraw_authority(&mint, &program).unwrap();
    let proof = AuthorityProof { mint, bump };
    let mut l = TokenLedger::new(mint, program, address, 9, 1_000_000_000, 500_000_000, 2_000_000_000).unwrap();
    let config = InterestConfig::new(0, 700);
    let s = claim_accrued_interest(&mut l, &config, 31_556_736, &proof).unwrap();
    assert!(s.from_pool > 72_000_000 && s.to_mint == 0);
    assert_eq!(l.holder_balance, 1_000_000_000 + s.from_pool);
    assert_eq!(l.fee_pool_balance, 500_000_000 - s.from_pool);

    let mut idle = TokenLedger::new(mint, program, address, 9, 100, 50, 1000).unwrap();
    let none = claim_accrued_interest(&mut idle, &InterestConfig::new(0, 0), 99, &proof);
    assert_eq!(none, Ok(Settlement { from_pool: 0, to_mint: 0 }));
}
