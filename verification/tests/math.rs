use cbmm::errors::CbmmError;
use cbmm::helpers::math::{
    calculate_burn_amount, calculate_buy_output_amount, calculate_fees,
    calculate_new_virtual_reserve_after_burn, calculate_new_virtual_reserve_after_topup,
    calculate_optimal_real_quote_reserve, calculate_optimal_virtual_quote_reserve,
    calculate_sell_output_amount, Fees, SCALING_FACTOR,
};

#[test]
fn math_test_calculate_fees() {
    let fees = calculate_fees(1_000_000_000, 1000, 2000, 3000).unwrap();
    println!("fees: {:?}", fees);
    assert_eq!(
        fees.creator_fees_amount, 100_000_000,
        "creator fees amount is not correct"
    );
    assert_eq!(
        fees.buyback_fees_amount, 200_000_000,
        "buyback fees amount is not correct"
    );
    assert_eq!(
        fees.platform_fees_amount, 300_000_000,
        "platform fees amount is not correct"
    );
}

#[test]
fn math_test_calculate_amount_too_big() {
    let result = calculate_fees(u64::MAX, 10000, 10000, 10000);
    assert!(result.is_err());
    assert_eq!(result.unwrap_err(), CbmmError::AmountTooBig);
}

#[test]
fn math_test_calculate_fees_creator_fee_basis_points_overflow() {
    let result = calculate_fees(1_000_000_000, 10000, 10001, 10000);
    assert!(result.is_err());
    assert_eq!(result.unwrap_err(), CbmmError::InvalidFeeBasisPoints);
}

#[test]
fn math_test_calculate_fees_buyback_fee_basis_points_overflow() {
    let result = calculate_fees(1_000_000_000, 10001, 10000, 10000);
    assert!(result.is_err());
    assert_eq!(result.unwrap_err(), CbmmError::InvalidFeeBasisPoints);
}

#[test]
fn test_calculate_fees_platform_fee_basis_points_overflow() {
    let result = calculate_fees(1_000_000_000, 10000, 10000, 10001);
    assert!(result.is_err());
    assert_eq!(result.unwrap_err(), CbmmError::InvalidFeeBasisPoints);
}

#[test]
fn fees_are_rounded_up() {
    // 1 token at 1 bp is a hundredth of a token: the fee is a whole token.
    let fees = calculate_fees(1, 1, 1, 1).unwrap();
    assert_eq!(fees.creator_fees_amount, 1);
    assert_eq!(fees.buyback_fees_amount, 1);
    assert_eq!(fees.platform_fees_amount, 1);
    // 10_001 at 1% is 100.01: rounded up to 101.
    let fees = calculate_fees(10_001, 100, 200, 300).unwrap();
    assert_eq!(fees.creator_fees_amount, 101);
    assert_eq!(fees.buyback_fees_amount, 201);
    assert_eq!(fees.platform_fees_amount, 301);
    assert_eq!(fees.total_fees_amount(), 603);
}

#[test]
fn fees_at_full_rate_take_the_whole_amount() {
    let fees = calculate_fees(12_345, 10000, 10000, 10000).unwrap();
    assert_eq!(fees.creator_fees_amount, 12_345);
    assert_eq!(fees.buyback_fees_amount, 12_345);
    assert_eq!(fees.platform_fees_amount, 12_345);
}

#[test]
fn fees_total_adds_the_three_fees() {
    let fees = Fees {
        creator_fees_amount: 7,
        buyback_fees_amount: 11,
        platform_fees_amount: 13,
    };
    assert_eq!(fees.total_fees_amount(), 31);
}

#[test]
fn buy_output_follows_the_curve() {
    // b = B * a / (A + V + a) = 2_000_000 * 4_500 / 1_004_500, rounded down.
    assert_eq!(calculate_buy_output_amount(4_500, 0, 2_000_000, 1_000_000), 8_959);
    // With a real reserve: 1_000_000 * 100_000 / (50_000 + 50_000 + 100_000).
    assert_eq!(
        calculate_buy_output_amount(100_000, 50_000, 1_000_000, 50_000),
        500_000
    );
    assert_eq!(calculate_buy_output_amount(0, 10, 1_000, 10), 0);
}

#[test]
fn sell_output_follows_the_curve() {
    // q = s * (A + V) / (B + s) = 500 * 4_000 / 1_000.
    assert_eq!(calculate_sell_output_amount(500, 500, 2_000, 2_000), 2_000);
    // 500 * 1_005_000 / 2_000_500 = 251.18..., rounded down.
    assert_eq!(
        calculate_sell_output_amount(500, 2_000_000, 5_000, 1_000_000),
        251
    );
}

#[test]
fn burn_amount_is_parts_per_million_of_the_reserve() {
    assert_eq!(calculate_burn_amount(20_000, 1_000_000), 20_000);
    assert_eq!(calculate_burn_amount(1_000, 1_000_000), 1_000);
    assert_eq!(calculate_burn_amount(1_000_000, 777), 777);
    // 3 ppm of 1_000 is 0.003: nothing is burned.
    assert_eq!(calculate_burn_amount(3, 1_000), 0);
}

#[test]
fn virtual_reserve_shrinks_with_the_burned_share() {
    assert_eq!(
        calculate_new_virtual_reserve_after_burn(500_000, 1_000_000, 20_000),
        490_000
    );
    // 1_000 * 2 / 3 = 666.66..., rounded down.
    assert_eq!(calculate_new_virtual_reserve_after_burn(1_000, 3, 1), 666);
    assert_eq!(calculate_new_virtual_reserve_after_burn(1_000, 3, 0), 1_000);
}

#[test]
fn optimal_virtual_reserve_scales_with_supply() {
    assert_eq!(
        calculate_optimal_virtual_quote_reserve(500_000, 1_000_000, 980_000),
        490_000
    );
    // 2_000 * 1_000 / 3 = 666_666.66..., rounded up.
    assert_eq!(calculate_optimal_virtual_quote_reserve(2_000, 3, 1_000), 666_667);
}

#[test]
fn optimal_real_reserve_backs_the_sold_supply() {
    // V * (S - B) / B, rounded up.
    assert_eq!(calculate_optimal_real_quote_reserve(1_000, 4_000, 500), 4_000);
    assert_eq!(calculate_optimal_real_quote_reserve(1_000, 4_000, 1_000), 0);
    assert_eq!(calculate_optimal_real_quote_reserve(10, 1, 3), 3);
}

#[test]
fn virtual_reserve_after_topup_keeps_the_exit_price() {
    // A * B / (S - B).
    assert_eq!(calculate_new_virtual_reserve_after_topup(300, 500, 1_000), 300);
    assert_eq!(calculate_new_virtual_reserve_after_topup(10, 2, 5), 6);
}

#[test]
fn scaling_factor_relates_the_two_scales() {
    assert_eq!(SCALING_FACTOR, 100);
}

