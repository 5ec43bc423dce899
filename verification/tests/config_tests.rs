use curve_amm::errors::ValidationError;
use curve_amm::global_config::{GlobalConfig, GlobalSettingsInput};

fn seed_settings() -> GlobalSettingsInput {
    GlobalSettingsInput {
        mint_decimals: 6,
        fee_receiver: [0x1; 32],
        admin: [0x2; 32],
        initial_virtual_token_reserves: 1_073_000_000_000_000,
        initial_virtual_sol_reserves: 30_000_000_000,
        initial_real_token_reserves: 793_100_000_000_000,
        token_total_supply: 1_000_000_000_000_000,
    }
}

#[test]
fn test_init_global_works() {
    let params = seed_settings();
    assert_eq!(GlobalConfig::validate_settings(&params), Ok(()));

    let global = GlobalConfig::update_global(&params);
    assert_eq!(global.initialized, 1);
    assert_eq!(global.mint_decimals, 6);
    assert_eq!(global.admin, [0x2; 32]);
    assert_eq!(global.fee_receiver, [0x1; 32]);
    assert_eq!(global.initial_virtual_token_reserves, 1_073_000_000_000_000);
    assert_eq!(global.initial_virtual_sol_reserves, 30_000_000_000);
    assert_eq!(global.initial_real_token_reserves, 793_100_000_000_000);
    assert_eq!(global.token_total_supply, 1_000_000_000_000_000);
}

#[test]
fn test_fails_wrong_account_len() {
    let params = seed_settings();
    let bytes = params.to_bytes();
    assert_eq!(bytes.len(), 104);
    assert!(GlobalSettingsInput::from_bytes(&bytes[..103]).is_none());
    assert!(GlobalSettingsInput::from_bytes(&[]).is_none());
    let mut longer = bytes.clone();
    longer.push(0);
    assert!(GlobalSettingsInput::from_bytes(&longer).is_none());
    assert!(GlobalConfig::from_bytes(&longer).is_none());
    assert!(GlobalConfig::from_bytes(&bytes[..103]).is_none());
}

#[test]
fn validate_rejects_ten_decimals_accepts_nine() {
    let mut params = seed_settings();
    params.mint_decimals = 9;
    assert_eq!(GlobalConfig::validate_settings(&params), Ok(()));
    params.mint_decimals = 10;
    assert_eq!(
        GlobalConfig::validate_settings(&params),
        Err(ValidationError::DecimalsTooLarge)
    );
}

#[test]
fn validate_supply_boundary_at_half_range() {
    let mut params = seed_settings();
    params.token_total_supply = u64::MAX / 2;
    assert_eq!(GlobalConfig::validate_settings(&params), Ok(()));
    params.token_total_supply = u64::MAX / 2 + 1;
    assert_eq!(
        GlobalConfig::validate_settings(&params),
        Err(ValidationError::SupplyTooLarge)
    );
}

#[test]
fn validate_rejects_zero_reserves() {
    let mut params = seed_settings();
    params.initial_virtual_token_reserves = 0;
    assert_eq!(
        GlobalConfig::validate_settings(&params),
        Err(ValidationError::ZeroVirtualTokenReserves)
    );

    let mut params = seed_settings();
    params.initial_virtual_sol_reserves = 0;
    assert_eq!(
        GlobalConfig::validate_settings(&params),
        Err(ValidationError::ZeroVirtualBaseReserves)
    );

    let mut params = seed_settings();
    params.initial_real_token_reserves = 0;
    assert_eq!(
        GlobalConfig::validate_settings(&params),
        Err(ValidationError::ZeroRealTokenReserves)
    );
}

#[test]
fn validate_rejects_supply_not_above_real_reserves() {
    let mut params = seed_settings();
    params.token_total_supply = params.initial_real_token_reserves;
    assert_eq!(
        GlobalConfig::validate_settings(&params),
        Err(ValidationError::SupplyNotAboveRealReserves)
    );
    params.token_total_supply = params.initial_real_token_reserves + 1;
    assert_eq!(GlobalConfig::validate_settings(&params), Ok(()));
}

#[test]
fn settings_wire_layout_round_trips() {
    let params = seed_settings();
    let bytes = params.to_bytes();
    assert_eq!(bytes[0], 6);
    assert_eq!(&bytes[1..8], &[0u8; 7]);
    assert_eq!(&bytes[8..40], &[0x1; 32]);
    assert_eq!(&bytes[40..72], &[0x2; 32]);
    let back = GlobalSettingsInput::from_bytes(&bytes).unwrap();
    assert_eq!(back.mint_decimals, params.mint_decimals);
    assert_eq!(back.fee_receiver, params.fee_receiver);
    assert_eq!(back.admin, params.admin);
    assert_eq!(
        back.initial_virtual_token_reserves,
        params.initial_virtual_token_reserves
    );
    assert_eq!(
        back.initial_virtual_sol_reserves,
        params.initial_virtual_sol_reserves
    );
    assert_eq!(
        back.initial_real_token_reserves,
        params.initial_real_token_reserves
    );
    assert_eq!(back.token_total_supply, params.token_total_supply);
}

#[test]
fn config_stored_layout_round_trips() {
    let global = GlobalConfig::update_global(&seed_settings());
    let bytes = global.to_bytes();
    assert_eq!(bytes.len(), 104);
    assert_eq!(bytes[0], 1);
    assert_eq!(bytes[1], 6);
    let back = GlobalConfig::from_bytes(&bytes).unwrap();
    assert_eq!(back.initialized, global.initialized);
    assert_eq!(back.mint_decimals, global.mint_decimals);
    assert_eq!(back.admin, global.admin);
    assert_eq!(back.fee_receiver, global.fee_receiver);
    assert_eq!(
        back.initial_virtual_token_reserves,
        global.initial_virtual_token_reserves
    );
    assert_eq!(
        back.initial_virtual_sol_reserves,
        global.initial_virtual_sol_reserves
    );
    assert_eq!(
        back.initial_real_token_reserves,
        global.initial_real_token_reserves
    );
    assert_eq!(back.token_total_supply, global.token_total_supply);
}
