use curve_amm::bonding_curve::BondingCurve;
use curve_amm::errors::AmmError;
use curve_amm::helpers::{bps_mul, bps_mul_raw, pubkey_eq, require};
use curve_amm::global_config::{GlobalConfig, GlobalSettingsInput};
use curve_amm::instructions::AmmInstructions;
use curve_amm::swap::{process_swap, SwapParams};

fn seed_curve() -> BondingCurve {
    let params = GlobalSettingsInput {
        mint_decimals: 6,
        fee_receiver: [0x1; 32],
        admin: [0x2; 32],
        initial_virtual_token_reserves: 1_073_000_000_000_000,
        initial_virtual_sol_reserves: 30_000_000_000,
        initial_real_token_reserves: 793_100_000_000_000,
        token_total_supply: 1_000_000_000_000_000,
    };
    assert_eq!(GlobalConfig::validate_settings(&params), Ok(()));
    let config = GlobalConfig::update_global(&params);
    BondingCurve::init(254, &config, &[0x3; 32], &[0x4; 32], 1000)
}

fn assert_unchanged(curve: &BondingCurve, reference: &BondingCurve) {
    assert_eq!(curve.complete, reference.complete);
    assert_eq!(curve.virtual_sol_reserves, reference.virtual_sol_reserves);
    assert_eq!(
        curve.virtual_token_reserves,
        reference.virtual_token_reserves
    );
    assert_eq!(curve.real_sol_reserves, reference.real_sol_reserves);
    assert_eq!(curve.real_token_reserves, reference.real_token_reserves);
}

#[test]
fn buy_swap_charges_fee_then_quotes() {
    let mut curve = seed_curve();
    // Slot 1300 is 300 past activation: the 1% phase.
    let params = SwapParams {
        base_in: 0,
        exact_in_amount: 1_000_000_000,
        min_out_amount: 0,
    };
    let outcome = process_swap(&mut curve, &params, 6, 1300).expect("swap applies");
    assert_eq!(outcome.fee_lamports, 10_000_000);
    // The quote is taken on the payment net of fee.
    let expected_tokens = seed_curve()
        .get_tokens_for_buy_sol(990_000_000, 6)
        .unwrap();
    assert_eq!(outcome.token_amount, expected_tokens);
    assert_eq!(outcome.sol_amount, 990_000_000);
    assert_eq!(curve.real_sol_reserves, 990_000_000);
}

#[test]
fn sell_swap_quotes_then_charges_fee_on_payout() {
    let mut curve = seed_curve();
    let buy = SwapParams {
        base_in: 0,
        exact_in_amount: 1_000_000_000,
        min_out_amount: 0,
    };
    process_swap(&mut curve, &buy, 6, 1300).expect("buy applies");

    let before = curve;
    let sell = SwapParams {
        base_in: 1,
        exact_in_amount: 1_000_000_000,
        min_out_amount: 0,
    };
    let expected_sol = curve.get_sol_for_sell_tokens(1_000_000_000, 6).unwrap();
    let outcome = process_swap(&mut curve, &sell, 6, 1300).expect("sell applies");
    assert_eq!(outcome.token_amount, 1_000_000_000);
    assert_eq!(outcome.sol_amount, expected_sol);
    // The fee is 1% of the payout, rounded down.
    assert_eq!(outcome.fee_lamports, expected_sol / 100);
    assert_eq!(
        curve.real_sol_reserves,
        before.real_sol_reserves - expected_sol
    );
    assert_eq!(
        curve.real_token_reserves,
        before.real_token_reserves + 1_000_000_000
    );
}

#[test]
fn slippage_failure_leaves_record_untouched() {
    let mut curve = seed_curve();
    let buy = SwapParams {
        base_in: 0,
        exact_in_amount: 1_000_000_000,
        min_out_amount: 0,
    };
    process_swap(&mut curve, &buy, 6, 1300).expect("buy applies");

    let before = curve;
    let sell = SwapParams {
        base_in: 1,
        exact_in_amount: 1_000_000,
        min_out_amount: u64::MAX,
    };
    assert_eq!(
        process_swap(&mut curve, &sell, 6, 1300),
        Err(AmmError::SlippageExceeded)
    );
    assert_unchanged(&curve, &before);

    let greedy_buy = SwapParams {
        base_in: 0,
        exact_in_amount: 1_000_000,
        min_out_amount: u64::MAX,
    };
    assert_eq!(
        process_swap(&mut curve, &greedy_buy, 6, 1300),
        Err(AmmError::SlippageExceeded)
    );
    assert_unchanged(&curve, &before);
}

#[test]
fn swap_rejects_unstarted_curve() {
    let mut curve = seed_curve();
    let before = curve;
    let params = SwapParams {
        base_in: 0,
        exact_in_amount: 1_000_000,
        min_out_amount: 0,
    };
    assert_eq!(
        process_swap(&mut curve, &params, 6, 999),
        Err(AmmError::CurveNotStarted)
    );
    assert_unchanged(&curve, &before);
}

#[test]
fn swap_is_allowed_from_the_starting_slot_onward() {
    // At exactly the starting slot the curve is active and phase 1 fees
    // (99%) apply.
    let mut curve = seed_curve();
    let params = SwapParams {
        base_in: 0,
        exact_in_amount: 1_000_000_000,
        min_out_amount: 0,
    };
    let outcome = process_swap(&mut curve, &params, 6, 1000).expect("swap applies");
    assert_eq!(outcome.fee_lamports, 990_000_000);
    assert_eq!(outcome.sol_amount, 10_000_000);
}

#[test]
fn swap_fee_follows_the_ramp_phase() {
    // 200 slots past activation the ramp rate is 5026 basis points.
    let mut curve = seed_curve();
    let params = SwapParams {
        base_in: 0,
        exact_in_amount: 1_000_000_000,
        min_out_amount: 0,
    };
    let outcome = process_swap(&mut curve, &params, 6, 1200).expect("swap applies");
    assert_eq!(outcome.fee_lamports, 502_600_000);
    assert_eq!(outcome.sol_amount, 497_400_000);
}

#[test]
fn swap_rejects_completed_curve() {
    let mut curve = seed_curve();
    curve.complete = 1;
    let before = curve;
    let params = SwapParams {
        base_in: 1,
        exact_in_amount: 1_000_000,
        min_out_amount: 0,
    };
    assert_eq!(
        process_swap(&mut curve, &params, 6, 1300),
        Err(AmmError::CurveComplete)
    );
    assert_unchanged(&curve, &before);
}

#[test]
fn unfundable_sell_reports_could_not_sell() {
    // A fresh curve holds no real base currency: a sell quoting a positive
    // payout cannot be funded.
    let mut curve = seed_curve();
    let before = curve;
    let params = SwapParams {
        base_in: 1,
        exact_in_amount: 1_000_000_000_000,
        min_out_amount: 0,
    };
    assert_eq!(
        process_swap(&mut curve, &params, 6, 1300),
        Err(AmmError::CouldNotSell)
    );
    assert_unchanged(&curve, &before);
}

#[test]
fn overflowing_buy_reports_could_not_buy() {
    let mut curve = seed_curve();
    // Reserves at the top of the range overflow the 128-bit product.
    curve.virtual_sol_reserves = u64::MAX;
    curve.virtual_token_reserves = u64::MAX;
    let before = curve;
    let params = SwapParams {
        base_in: 0,
        exact_in_amount: 1_000_000,
        min_out_amount: 0,
    };
    assert_eq!(
        process_swap(&mut curve, &params, 6, 1300),
        Err(AmmError::CouldNotBuy)
    );
    assert_unchanged(&curve, &before);
}

#[test]
fn swap_params_wire_layout_round_trips() {
    let params = SwapParams {
        base_in: 1,
        exact_in_amount: 123_456_789,
        min_out_amount: 42,
    };
    let bytes = params.to_bytes();
    assert_eq!(bytes.len(), 24);
    assert_eq!(bytes[0], 1);
    assert_eq!(&bytes[1..8], &[0u8; 7]);
    assert_eq!(SwapParams::from_bytes(&bytes), Some(params));
}

#[test]
fn swap_params_rejects_bad_shape() {
    let params = SwapParams {
        base_in: 0,
        exact_in_amount: 5,
        min_out_amount: 6,
    };
    let mut bytes = params.to_bytes();
    assert!(SwapParams::from_bytes(&bytes[..23]).is_none());
    // Any direction byte other than 0 or 1 is rejected outright.
    bytes[0] = 2;
    assert!(SwapParams::from_bytes(&bytes).is_none());
}

#[test]
fn instruction_discriminators_route_correctly() {
    assert_eq!(
        AmmInstructions::try_from(&0),
        Some(AmmInstructions::CreateGlobal)
    );
    assert_eq!(
        AmmInstructions::try_from(&1),
        Some(AmmInstructions::UpdateGlobal)
    );
    assert_eq!(
        AmmInstructions::try_from(&2),
        Some(AmmInstructions::CreateBondingCurve)
    );
    assert_eq!(AmmInstructions::try_from(&3), Some(AmmInstructions::Swap));
    assert_eq!(AmmInstructions::try_from(&4), None);
    assert_eq!(AmmInstructions::try_from(&255), None);
}

#[test]
fn helpers_behave_as_stated() {
    assert_eq!(bps_mul(9900, 1_000_000, 10_000), Some(990_000));
    assert_eq!(bps_mul(10_000, u64::MAX, 10_000), Some(u64::MAX));
    assert_eq!(bps_mul_raw(100, 200, 0), None);
    assert_eq!(bps_mul_raw(100, 200, 7), Some(2857));
    assert!(pubkey_eq(&[7; 32], &[7; 32]));
    let mut other = [7u8; 32];
    other[31] = 8;
    assert!(!pubkey_eq(&[7; 32], &other));
    assert_eq!(require(true, AmmError::InvalidMint), Ok(()));
    assert_eq!(
        require(false, AmmError::InvalidMint),
        Err(AmmError::InvalidMint)
    );
}
