use curve_amm::escrow::{
    validate_close, validate_withdraw, CreateEscrow, EscrowErrors, EscrowInstructions, EscrowPda,
};

fn sample_escrow() -> EscrowPda {
    EscrowPda {
        creator: [0x9; 32],
        amount: 500,
        mint_a: [0xA; 32],
        mint_b: [0xB; 32],
        receive: 700,
    }
}

#[test]
fn escrow_record_init_sets_terms() {
    let mut escrow = sample_escrow();
    escrow.init(&[0x1; 32], &[0x2; 32], &[0x3; 32], 11, 22);
    assert_eq!(escrow.creator, [0x1; 32]);
    assert_eq!(escrow.mint_a, [0x2; 32]);
    assert_eq!(escrow.mint_b, [0x3; 32]);
    assert_eq!(escrow.amount, 11);
    assert_eq!(escrow.receive, 22);
}

#[test]
fn escrow_record_layout_round_trips() {
    let escrow = sample_escrow();
    let bytes = escrow.to_bytes();
    assert_eq!(bytes.len(), 112);
    assert_eq!(&bytes[0..32], &[0x9; 32]);
    assert_eq!(&bytes[40..72], &[0xA; 32]);
    assert_eq!(&bytes[72..104], &[0xB; 32]);
    let back = EscrowPda::from_bytes(&bytes).unwrap();
    assert_eq!(back.creator, escrow.creator);
    assert_eq!(back.amount, escrow.amount);
    assert_eq!(back.mint_a, escrow.mint_a);
    assert_eq!(back.mint_b, escrow.mint_b);
    assert_eq!(back.receive, escrow.receive);
    assert!(EscrowPda::from_bytes(&bytes[..111]).is_none());
}

#[test]
fn escrow_instructions_parse_by_tag() {
    let mut create_bytes = vec![0u8];
    create_bytes.extend_from_slice(&777u64.to_le_bytes());
    create_bytes.extend_from_slice(&888u64.to_le_bytes());
    assert_eq!(
        EscrowInstructions::from_bytes(&create_bytes),
        Some(EscrowInstructions::CreateEscrow(CreateEscrow {
            recv_amount: 777,
            send_amount: 888,
        }))
    );
    assert_eq!(
        EscrowInstructions::from_bytes(&[1]),
        Some(EscrowInstructions::Withdraw)
    );
    assert_eq!(
        EscrowInstructions::from_bytes(&[2]),
        Some(EscrowInstructions::Close)
    );
    assert_eq!(EscrowInstructions::from_bytes(&[3]), None);
    assert_eq!(EscrowInstructions::from_bytes(&[]), None);
    // Trailing bytes are rejected.
    assert_eq!(EscrowInstructions::from_bytes(&[1, 0]), None);
    assert_eq!(EscrowInstructions::from_bytes(&create_bytes[..16]), None);
}

#[test]
fn withdraw_rules_accept_matching_terms() {
    let escrow = sample_escrow();
    assert_eq!(
        validate_withdraw(&escrow, &[0xA; 32], &[0xB; 32], &[0xA; 32], &[0xB; 32], 700),
        Ok(())
    );
}

#[test]
fn withdraw_rules_reject_wrong_mint() {
    let escrow = sample_escrow();
    assert_eq!(
        validate_withdraw(&escrow, &[0xC; 32], &[0xB; 32], &[0xA; 32], &[0xB; 32], 700),
        Err(EscrowErrors::InvalidMint)
    );
    assert_eq!(
        validate_withdraw(&escrow, &[0xA; 32], &[0xA; 32], &[0xA; 32], &[0xB; 32], 700),
        Err(EscrowErrors::InvalidMint)
    );
}

#[test]
fn withdraw_rules_reject_short_balance() {
    let escrow = sample_escrow();
    assert_eq!(
        validate_withdraw(&escrow, &[0xA; 32], &[0xB; 32], &[0xA; 32], &[0xB; 32], 699),
        Err(EscrowErrors::InvalidBalance)
    );
}

#[test]
fn close_rules_check_both_token_accounts() {
    let escrow = sample_escrow();
    assert_eq!(validate_close(&escrow, &[0xA; 32], &[0xA; 32]), Ok(()));
    assert_eq!(
        validate_close(&escrow, &[0xB; 32], &[0xA; 32]),
        Err(EscrowErrors::InvalidMint)
    );
    assert_eq!(
        validate_close(&escrow, &[0xA; 32], &[0xB; 32]),
        Err(EscrowErrors::InvalidMint)
    );
}

#[test]
fn escrow_error_descriptions_are_stable() {
    assert_eq!(
        EscrowErrors::InvalidEscrow.to_str(),
        "Validation Error: Invalid escrow provided"
    );
    assert_eq!(
        EscrowErrors::InvalidBalance.to_str(),
        "Validation Error: Invalid Token amount"
    );
}
