//! The authority deriver against the hosting ledger's own derivation.

use anchor_escrow::authority::derive_controller;
use anchor_escrow::escrow::EscrowApp;
use anchor_lang::solana_program::pubkey::Pubkey;

#[test]
fn derive_controller_matches_ledger_derivation() {
    let program_id = [9u8; 32];
    let (controller, bump) = derive_controller(&program_id).expect("derivation");
    let (expected, expected_bump) =
        Pubkey::find_program_address(&[b"escrow"], &Pubkey::new_from_array(program_id));
    assert_eq!(controller, expected.to_bytes());
    assert_eq!(bump, expected_bump);
}

#[test]
fn derive_controller_is_deterministic_and_seed_sensitive() {
    let a = derive_controller(&[9u8; 32]).expect("derivation");
    let b = derive_controller(&[9u8; 32]).expect("derivation");
    assert_eq!(a, b);
    let c = derive_controller(&[8u8; 32]).expect("derivation");
    assert_ne!(a.0, c.0);
    // the derived controller is not any party's identity
    assert_ne!(a.0, [9u8; 32]);
}

#[test]
fn app_controller_comes_from_the_deriver() {
    let program_id = [9u8; 32];
    let app = EscrowApp::new(program_id).expect("controller derivation");
    let (controller, bump) = derive_controller(&program_id).expect("derivation");
    assert_eq!(app.controller_key(), controller);
    assert_eq!(app.bump_seed(), bump);
    assert_eq!(app.program_key(), program_id);
}
