use icpi_backend::amount::Amount;
use icpi_backend::errors::{BurnError, CalculationError, IcpiError, MintError, ValidationError};
use icpi_backend::math::{
    calculate_mint_amount, calculate_redemptions, calculate_trade_size, convert_decimals,
    multiply_and_divide,
};

fn amt(v: u64) -> Amount {
    Amount::from_u64(v)
}

#[test]
fn test_multiply_and_divide() {
    let a = amt(100);
    let b = amt(200);
    let c = amt(50);

    let result = multiply_and_divide(&a, &b, &c).unwrap();
    assert_eq!(result, amt(400));
}

#[test]
fn test_convert_decimals_up() {
    let amount = amt(1_000_000);
    let result = convert_decimals(&amount, 6, 8).unwrap();
    assert_eq!(result, amt(100_000_000));
}

#[test]
fn test_calculate_mint_initial() {
    let deposit = amt(1_000_000);
    let supply = amt(0);
    let tvl = amt(0);

    let result = calculate_mint_amount(&deposit, &supply, &tvl).unwrap();
    assert_eq!(result, amt(100_000_000));
}

#[test]
fn test_calculate_redemptions() {
    let burn_amount = amt(50_000_000);
    let total_supply = amt(100_000_000);
    let balances = vec![("ALEX".to_string(), amt(1000)), ("KONG".to_string(), amt(2000))];

    let result = calculate_redemptions(&burn_amount, &total_supply, &balances).unwrap();
    assert_eq!(result.len(), 2);
    assert_eq!(result[0].1, amt(500));
    assert_eq!(result[1].1, amt(1000));
}

#[test]
fn test_division_by_zero() {
    let a = amt(100);
    let b = amt(200);
    let c = amt(0);

    let result = multiply_and_divide(&a, &b, &c);
    assert!(result.is_err());
    assert!(matches!(
        result,
        Err(IcpiError::Calculation(CalculationError::DivisionByZero { .. }))
    ));
}

#[test]
fn test_large_value_multiplication() {
    let a = amt(u64::MAX);
    let b = amt(2);
    let c = amt(1);

    let result = multiply_and_divide(&a, &b, &c).unwrap();
    assert!(amt(u64::MAX).lt(&result));
    assert_eq!(result.to_u128(), Some(2 * (u64::MAX as u128)));
}

#[test]
fn test_decimal_conversion_same_decimals() {
    let amount = amt(1_000_000);
    let result = convert_decimals(&amount, 6, 6).unwrap();
    assert_eq!(result, amount);
}

#[test]
fn test_decimal_conversion_precision_loss() {
    let original = amt(1_000_000);
    let to_e8 = convert_decimals(&original, 6, 8).unwrap();
    let back_to_e6 = convert_decimals(&to_e8, 8, 6).unwrap();
    assert_eq!(back_to_e6, original);
}

#[test]
fn test_decimal_conversion_down_below_minimum() {
    let tiny_amount = amt(1);
    let result = convert_decimals(&tiny_amount, 8, 6);

    assert!(result.is_err());
    assert!(matches!(
        result,
        Err(IcpiError::Calculation(CalculationError::PrecisionLoss { .. }))
    ));
}

#[test]
fn test_mint_amount_zero_deposit() {
    let result = calculate_mint_amount(&amt(0), &amt(1_000_000), &amt(1_000_000));

    assert!(result.is_err());
    assert!(matches!(
        result,
        Err(IcpiError::Validation(ValidationError::InvalidAmount { .. }))
    ));
}

#[test]
fn test_mint_amount_proportional_ownership() {
    let deposit = amt(10_000_000);
    let supply = amt(10_000_000_000);
    let tvl = amt(100_000_000);

    let result = calculate_mint_amount(&deposit, &supply, &tvl).unwrap();
    assert_eq!(result, amt(1_000_000_000));
}

#[test]
fn smallest_deposit_at_a_hundred_index_atoms_per_stable_atom() {
    // 100 index atoms stand behind each stable atom, so one stable atom buys
    // (1 * 100 * 10^14) / (10^12 * 100) = 100 index atoms.
    let deposit = amt(1);
    let supply = amt(100_000_000_000_000);
    let tvl = amt(1_000_000_000_000);

    let result = calculate_mint_amount(&deposit, &supply, &tvl).unwrap();
    assert_eq!(result, amt(100));
}

#[test]
fn dust_deposit_is_rejected() {
    // One index atom backed by a million stable units: a deposit of one stable
    // atom buys (1 * 100 * 1) / (10^12 * 100) = 0 index atoms.
    let result = calculate_mint_amount(&amt(1), &amt(1), &amt(1_000_000_000_000));
    assert!(matches!(
        result,
        Err(IcpiError::Mint(MintError::ProportionalCalculationError { .. }))
    ));
}

#[test]
fn test_redemptions_burn_entire_supply() {
    let burn_amount = amt(100_000_000);
    let total_supply = amt(100_000_000);
    let balances = vec![("ALEX".to_string(), amt(1000)), ("KONG".to_string(), amt(2000))];

    let result = calculate_redemptions(&burn_amount, &total_supply, &balances).unwrap();
    assert_eq!(result.len(), 2);
    assert_eq!(result[0].1, amt(1000));
    assert_eq!(result[1].1, amt(2000));
}

#[test]
fn test_redemptions_burn_more_than_supply() {
    let burn_amount = amt(101_000_000);
    let total_supply = amt(100_000_000);
    let balances = vec![("ALEX".to_string(), amt(1000))];

    let result = calculate_redemptions(&burn_amount, &total_supply, &balances);
    assert!(result.is_err());
    assert!(matches!(
        result,
        Err(IcpiError::Validation(ValidationError::InvalidAmount { .. }))
    ));
}

#[test]
fn test_redemptions_zero_burn() {
    let burn_amount = amt(0);
    let total_supply = amt(100_000_000);
    let balances = vec![("ALEX".to_string(), amt(1000))];

    let result = calculate_redemptions(&burn_amount, &total_supply, &balances);
    assert!(result.is_err());
    assert!(matches!(
        result,
        Err(IcpiError::Validation(ValidationError::InvalidAmount { .. }))
    ));
}

#[test]
fn test_redemptions_zero_supply() {
    let burn_amount = amt(1_000_000);
    let total_supply = amt(0);
    let balances = vec![("ALEX".to_string(), amt(1000))];

    let result = calculate_redemptions(&burn_amount, &total_supply, &balances);
    assert!(result.is_err());
    assert!(matches!(
        result,
        Err(IcpiError::Burn(BurnError::NoRedemptionsPossible { .. }))
    ));
}

#[test]
fn test_redemptions_no_balances() {
    let burn_amount = amt(1_000_000);
    let total_supply = amt(100_000_000);
    let balances: Vec<(String, Amount)> = vec![];

    let result = calculate_redemptions(&burn_amount, &total_supply, &balances);
    assert!(result.is_err());
    assert!(matches!(
        result,
        Err(IcpiError::Burn(BurnError::NoRedemptionsPossible { .. }))
    ));
}

#[test]
fn test_redemptions_skip_zero_balances() {
    let burn_amount = amt(50_000_000);
    let total_supply = amt(100_000_000);
    let balances = vec![
        ("ALEX".to_string(), amt(1000)),
        ("KONG".to_string(), amt(0)),
        ("ZERO".to_string(), amt(2000)),
    ];

    let result = calculate_redemptions(&burn_amount, &total_supply, &balances).unwrap();
    assert_eq!(result.len(), 2);
    assert_eq!(result[0].0, "ALEX");
    assert_eq!(result[1].0, "ZERO");
}

// Dollar figures are in millionths of a dollar, the intensity in basis points.

#[test]
fn test_trade_size_zero_deviation() {
    let result = calculate_trade_size(0, 1_000, 1_000_000).unwrap();
    assert_eq!(result, amt(0));
}

#[test]
fn test_trade_size_below_minimum() {
    // Deviation $5, intensity 10%, minimum $1: the trade of $0.50 is dropped.
    let result = calculate_trade_size(5_000_000, 1_000, 1_000_000).unwrap();
    assert_eq!(result, amt(0));
}

#[test]
fn test_trade_size_above_minimum() {
    // Deviation $100, intensity 10%, minimum $1: a trade of $10.
    let result = calculate_trade_size(100_000_000, 1_000, 1_000_000).unwrap();
    assert_eq!(result, amt(10_000_000));
}

#[test]
fn test_multiply_and_divide_maintains_precision() {
    let result = multiply_and_divide(&amt(3), &amt(7), &amt(2)).unwrap();
    assert_eq!(result, amt(10));
}

#[test]
fn test_nat_biguint_roundtrip() {
    let original = amt(123456789);
    let bytes = original.to_be_bytes();
    let back = Amount::from_be_bytes(bytes);
    assert_eq!(back, original);
    assert_eq!(back.to_u64(), Some(123456789));
}

#[test]
fn bootstrap_mint_is_one_to_one() {
    let result = calculate_mint_amount(&amt(1_000_000), &amt(0), &amt(0)).unwrap();
    assert_eq!(result, amt(100_000_000));
    // with supply but no value, and with value but no supply, the same holds
    assert_eq!(calculate_mint_amount(&amt(5), &amt(9), &amt(0)).unwrap(), amt(500));
    assert_eq!(calculate_mint_amount(&amt(5), &amt(0), &amt(9)).unwrap(), amt(500));
}

#[test]
fn burn_distribution_omits_empty_balances() {
    let balances = vec![
        ("A".to_string(), amt(1000)),
        ("B".to_string(), amt(0)),
        ("C".to_string(), amt(2000)),
    ];
    let result = calculate_redemptions(&amt(50_000_000), &amt(100_000_000), &balances).unwrap();
    assert_eq!(result.len(), 2);
    assert_eq!(result[0], ("A".to_string(), amt(500)));
    assert_eq!(result[1], ("C".to_string(), amt(1000)));
}

#[test]
fn redemptions_round_down_and_drop_zero_shares() {
    // a third of 10 is 3; a third of 2 is 0 and is left out
    let balances = vec![("A".to_string(), amt(10)), ("B".to_string(), amt(2))];
    let result = calculate_redemptions(&amt(1), &amt(3), &balances).unwrap();
    assert_eq!(result.len(), 1);
    assert_eq!(result[0], ("A".to_string(), amt(3)));
    // where every share rounds to zero nothing can be redeemed
    let dust = vec![("A".to_string(), amt(2))];
    assert!(matches!(
        calculate_redemptions(&amt(1), &amt(3), &dust),
        Err(IcpiError::Burn(BurnError::NoRedemptionsPossible { .. }))
    ));
}

#[test]
fn redemption_never_exceeds_the_balance() {
    let balances = vec![("A".to_string(), amt(7)), ("B".to_string(), amt(1_000_003))];
    for burn in [1u64, 2, 500, 999, 1000] {
        let result = calculate_redemptions(&amt(burn), &amt(1000), &balances).unwrap();
        for (symbol, amount) in result.iter() {
            let balance = &balances.iter().find(|(s, _)| s == symbol).unwrap().1;
            assert!(amount.le(balance));
        }
    }
}

#[test]
fn scaling_balances_scales_redemptions_when_division_is_exact() {
    // 250 out of 1000 of a balance of 400 is exactly 100; at three times the
    // balance it is exactly 300
    let once = calculate_redemptions(&amt(250), &amt(1000), &[("A".to_string(), amt(400))]).unwrap();
    let thrice = calculate_redemptions(&amt(250), &amt(1000), &[("A".to_string(), amt(1200))]).unwrap();
    assert_eq!(thrice[0].1, once[0].1.times(&amt(3)));
    // with a remainder the scaled redemption may be larger: 1 out of 2 of a
    // balance of 1 is 0, of a balance of 2 it is 1
    assert!(calculate_redemptions(&amt(1), &amt(2), &[("A".to_string(), amt(1))]).is_err());
    let doubled = calculate_redemptions(&amt(1), &amt(2), &[("A".to_string(), amt(2))]).unwrap();
    assert_eq!(doubled[0].1, amt(1));
}

#[test]
fn mint_amount_is_monotone() {
    let base = calculate_mint_amount(&amt(1_000), &amt(5_000), &amt(7_000)).unwrap();
    let more_deposit = calculate_mint_amount(&amt(1_001), &amt(5_000), &amt(7_000)).unwrap();
    let more_supply = calculate_mint_amount(&amt(1_000), &amt(5_001), &amt(7_000)).unwrap();
    let more_value = calculate_mint_amount(&amt(1_000), &amt(5_000), &amt(7_001)).unwrap();
    assert_eq!(base, amt(714));
    assert!(base.le(&more_deposit));
    assert!(base.le(&more_supply));
    assert!(more_value.le(&base));
}

#[test]
fn multiply_and_divide_is_floor_division() {
    let (a, b, c) = (amt(123_456_789), amt(987_654_321), amt(1_000_003));
    let q = multiply_and_divide(&a, &b, &c).unwrap();
    let product = a.times(&b);
    let remainder = product.checked_minus(&q.times(&c)).unwrap();
    assert!(remainder.lt(&c));
    assert_eq!(q.times(&c).plus(&remainder), product);
    assert_eq!(q, amt(121932265315));
}

#[test]
fn rebase_round_trip() {
    for x in [1u64, 9, 10, 999_999, u64::MAX] {
        let up = convert_decimals(&amt(x), 6, 8).unwrap();
        let back = convert_decimals(&up, 8, 6).unwrap();
        assert_eq!(back, amt(x));
    }
}

#[test]
fn scaling_down_zero_is_zero() {
    assert_eq!(convert_decimals(&amt(0), 8, 6).unwrap(), amt(0));
    assert_eq!(convert_decimals(&amt(199), 8, 6).unwrap(), amt(1));
    assert_eq!(convert_decimals(&amt(7), 0, 30).unwrap().to_u128(), Some(7 * 10u128.pow(30)));
}

#[test]
fn amount_arithmetic() {
    assert_eq!(amt(5).checked_minus(&amt(7)), None);
    assert_eq!(amt(7).checked_minus(&amt(5)), Some(amt(2)));
    assert_eq!(amt(7).checked_div(&amt(0)), None);
    assert_eq!(amt(7).checked_div(&amt(2)), Some(amt(3)));
    assert_eq!(amt(7).plus(&amt(5)), amt(12));
    assert!(amt(0).is_zero());
    assert!(!amt(1).is_zero());
    assert!(amt(3).lt(&amt(4)) && !amt(4).lt(&amt(4)) && amt(4).le(&amt(4)));
    assert_eq!(Amount::from_u128(u128::MAX).to_u64(), None);
    assert_eq!(Amount::from_u64(u64::MAX).to_u64(), Some(u64::MAX));
    assert_eq!(Amount::from_be_bytes(vec![1, 0]), amt(256));
    assert_eq!(Amount::from_be_bytes(vec![0, 0, 1, 0]), amt(256));
    assert_eq!(amt(256).to_be_bytes(), vec![1, 0]);
    assert_eq!(amt(256).clone(), amt(256));
}

#[test]
fn trade_size_rounds_down() {
    // $12.345678 at 10% is $1.234567
    let result = calculate_trade_size(12_345_678, 1_000, 1_000_000).unwrap();
    assert_eq!(result, amt(1_234_567));
    assert_eq!(calculate_trade_size(-5, 1_000, 0).unwrap(), amt(0));
    // exactly the minimum is traded
    assert_eq!(calculate_trade_size(10_000_000, 1_000, 1_000_000).unwrap(), amt(1_000_000));
}

#[test]
fn amounts_in_decimal() {
    assert_eq!(amt(0).to_decimal(), "0");
    assert_eq!(amt(1_000_000).to_decimal(), "1000000");
    assert_eq!(
        Amount::from_u128(u128::MAX).times(&amt(10)).to_decimal(),
        "3402823669209384634633746074317682114550"
    );
}
