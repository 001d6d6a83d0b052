//! Scenario and error-path tests for the escrow protocol, run against an
//! in-memory ledger.

use anchor_escrow::errors::EscrowError;
use anchor_escrow::escrow::{
    cancel_escrow, exchange, initialize_escrow, Cancel, EscrowApp, Exchange, Initialize,
};

fn key(b: u8) -> [u8; 32] {
    [b; 32]
}

const INITIALIZER: u8 = 1;
const TAKER: u8 = 2;
const STRANGER: u8 = 3;
const MINT_A: u8 = 5;
const MINT_B: u8 = 6;
const PROGRAM_ID: u8 = 9;
const DEPOSIT: u8 = 10;
const VAULT: u8 = 11;
const RECEIVE: u8 = 12;
const TAKER_DEPOSIT: u8 = 13;
const TAKER_RECEIVE: u8 = 14;

/// An app whose ledger holds the initializer's accounts and a fresh vault.
fn setup() -> EscrowApp {
    let mut app = EscrowApp::new(key(PROGRAM_ID)).expect("controller derivation");
    app.open_account(&key(DEPOSIT), &key(MINT_A), &key(INITIALIZER), 150)
        .unwrap();
    app.open_account(&key(VAULT), &key(MINT_A), &key(INITIALIZER), 0)
        .unwrap();
    app.open_account(&key(RECEIVE), &key(MINT_B), &key(INITIALIZER), 0)
        .unwrap();
    app
}

fn init_ctx() -> Initialize {
    Initialize {
        initializer: key(INITIALIZER),
        mint: key(MINT_A),
        vault_account: key(VAULT),
        initializer_deposit_token_account: key(DEPOSIT),
        initializer_receive_token_account: key(RECEIVE),
    }
}

fn cancel_ctx() -> Cancel {
    Cancel {
        initializer: key(INITIALIZER),
        vault_account: key(VAULT),
        initializer_deposit_token_account: key(DEPOSIT),
    }
}

fn exchange_ctx() -> Exchange {
    Exchange {
        taker: key(TAKER),
        taker_deposit_token_account: key(TAKER_DEPOSIT),
        taker_receive_token_account: key(TAKER_RECEIVE),
        initializer_deposit_token_account: key(DEPOSIT),
        initializer_receive_token_account: key(RECEIVE),
        initializer: key(INITIALIZER),
        vault_account: key(VAULT),
    }
}

/// Adds the taker's accounts: `balance_b` of asset B and an empty asset A
/// destination.
fn add_taker(app: &mut EscrowApp, balance_b: u64) {
    app.open_account(&key(TAKER_DEPOSIT), &key(MINT_B), &key(TAKER), balance_b)
        .unwrap();
    app.open_account(&key(TAKER_RECEIVE), &key(MINT_A), &key(TAKER), 0)
        .unwrap();
}

#[test]
fn initialize_funds_vault_and_records_trade() {
    let mut app = setup();
    assert_eq!(initialize_escrow(&mut app, init_ctx(), 100, 50), Ok(()));
    assert_eq!(app.balance_of(&key(VAULT)), Some(100));
    assert_eq!(app.balance_of(&key(DEPOSIT)), Some(50));
    assert_eq!(app.authority_of(&key(VAULT)), Some(app.controller_key()));
    let record = app.record().expect("record is active");
    assert_eq!(record.initializer_key, key(INITIALIZER));
    assert_eq!(record.initializer_deposit_token_account, key(DEPOSIT));
    assert_eq!(record.initializer_receive_token_account, key(RECEIVE));
    assert_eq!(record.initializer_amount, 100);
    assert_eq!(record.taker_amount, 50);
    assert_eq!(app.vault_key(), Some(key(VAULT)));
}

#[test]
fn cancel_refunds_and_destroys_record() {
    let mut app = setup();
    initialize_escrow(&mut app, init_ctx(), 100, 50).unwrap();
    assert_eq!(cancel_escrow(&mut app, cancel_ctx()), Ok(()));
    assert_eq!(app.balance_of(&key(DEPOSIT)), Some(150));
    assert_eq!(app.balance_of(&key(VAULT)), Some(0));
    assert!(!app.has_active_record());
    // a subsequent exchange attempt finds no active record
    add_taker(&mut app, 50);
    assert_eq!(
        exchange(&mut app, exchange_ctx()),
        Err(EscrowError::NoActiveRecord)
    );
}

#[test]
fn second_cancel_finds_no_record() {
    let mut app = setup();
    initialize_escrow(&mut app, init_ctx(), 100, 50).unwrap();
    assert_eq!(cancel_escrow(&mut app, cancel_ctx()), Ok(()));
    assert_eq!(
        cancel_escrow(&mut app, cancel_ctx()),
        Err(EscrowError::NoActiveRecord)
    );
    assert_eq!(app.balance_of(&key(DEPOSIT)), Some(150));
}

#[test]
fn exchange_rejects_insufficient_taker_balance() {
    let mut app = setup();
    initialize_escrow(&mut app, init_ctx(), 100, 50).unwrap();
    add_taker(&mut app, 30);
    assert_eq!(
        exchange(&mut app, exchange_ctx()),
        Err(EscrowError::InsufficientBalance)
    );
    // no transfers occurred
    assert_eq!(app.balance_of(&key(VAULT)), Some(100));
    assert_eq!(app.balance_of(&key(TAKER_DEPOSIT)), Some(30));
    assert_eq!(app.balance_of(&key(RECEIVE)), Some(0));
    assert!(app.has_active_record());
}

#[test]
fn exchange_swaps_and_closes_vault() {
    let mut app = setup();
    initialize_escrow(&mut app, init_ctx(), 100, 50).unwrap();
    add_taker(&mut app, 70);
    assert_eq!(exchange(&mut app, exchange_ctx()), Ok(()));
    assert_eq!(app.balance_of(&key(RECEIVE)), Some(50));
    assert_eq!(app.balance_of(&key(TAKER_DEPOSIT)), Some(20));
    assert_eq!(app.balance_of(&key(TAKER_RECEIVE)), Some(100));
    assert!(!app.has_account(&key(VAULT)));
    assert!(!app.has_active_record());
}

#[test]
fn exchange_conserves_both_assets() {
    let mut app = setup();
    initialize_escrow(&mut app, init_ctx(), 100, 50).unwrap();
    add_taker(&mut app, 70);
    let a_before = app.balance_of(&key(VAULT)).unwrap_or(0)
        + app.balance_of(&key(TAKER_RECEIVE)).unwrap_or(0);
    let b_before = app.balance_of(&key(TAKER_DEPOSIT)).unwrap_or(0)
        + app.balance_of(&key(RECEIVE)).unwrap_or(0);
    exchange(&mut app, exchange_ctx()).unwrap();
    let a_after = app.balance_of(&key(VAULT)).unwrap_or(0)
        + app.balance_of(&key(TAKER_RECEIVE)).unwrap_or(0);
    let b_after = app.balance_of(&key(TAKER_DEPOSIT)).unwrap_or(0)
        + app.balance_of(&key(RECEIVE)).unwrap_or(0);
    assert_eq!(a_before, a_after);
    assert_eq!(b_before, b_after);
}

#[test]
fn cancel_rejects_unrelated_caller() {
    let mut app = setup();
    initialize_escrow(&mut app, init_ctx(), 100, 50).unwrap();
    let ctx = Cancel {
        initializer: key(STRANGER),
        ..cancel_ctx()
    };
    assert_eq!(cancel_escrow(&mut app, ctx), Err(EscrowError::IdentityMismatch));
    assert!(app.has_active_record());
    assert_eq!(app.balance_of(&key(VAULT)), Some(100));
}

#[test]
fn cancel_rejects_wrong_source_account() {
    let mut app = setup();
    initialize_escrow(&mut app, init_ctx(), 100, 50).unwrap();
    let ctx = Cancel {
        initializer_deposit_token_account: key(RECEIVE),
        ..cancel_ctx()
    };
    assert_eq!(cancel_escrow(&mut app, ctx), Err(EscrowError::AccountMismatch));
    assert!(app.has_active_record());
}

#[test]
fn cancel_rejects_wrong_vault() {
    let mut app = setup();
    initialize_escrow(&mut app, init_ctx(), 100, 50).unwrap();
    let ctx = Cancel {
        vault_account: key(DEPOSIT),
        ..cancel_ctx()
    };
    assert_eq!(cancel_escrow(&mut app, ctx), Err(EscrowError::AccountMismatch));
}

#[test]
fn cancel_without_record_is_rejected() {
    let mut app = setup();
    assert_eq!(
        cancel_escrow(&mut app, cancel_ctx()),
        Err(EscrowError::NoActiveRecord)
    );
}

#[test]
fn initialize_rejects_second_trade() {
    let mut app = setup();
    initialize_escrow(&mut app, init_ctx(), 100, 50).unwrap();
    assert_eq!(
        initialize_escrow(&mut app, init_ctx(), 1, 1),
        Err(EscrowError::EscrowInUse)
    );
}

#[test]
fn initialize_rejects_missing_vault() {
    let mut app = EscrowApp::new(key(PROGRAM_ID)).expect("controller derivation");
    app.open_account(&key(DEPOSIT), &key(MINT_A), &key(INITIALIZER), 150)
        .unwrap();
    assert_eq!(
        initialize_escrow(&mut app, init_ctx(), 100, 50),
        Err(EscrowError::UnknownAccount)
    );
}

#[test]
fn initialize_rejects_funded_vault() {
    let mut app = EscrowApp::new(key(PROGRAM_ID)).expect("controller derivation");
    app.open_account(&key(DEPOSIT), &key(MINT_A), &key(INITIALIZER), 150)
        .unwrap();
    app.open_account(&key(VAULT), &key(MINT_A), &key(INITIALIZER), 7)
        .unwrap();
    assert_eq!(
        initialize_escrow(&mut app, init_ctx(), 100, 50),
        Err(EscrowError::VaultNotFresh)
    );
}

#[test]
fn initialize_rejects_wrong_vault_mint() {
    let mut app = EscrowApp::new(key(PROGRAM_ID)).expect("controller derivation");
    app.open_account(&key(DEPOSIT), &key(MINT_A), &key(INITIALIZER), 150)
        .unwrap();
    app.open_account(&key(VAULT), &key(MINT_B), &key(INITIALIZER), 0)
        .unwrap();
    assert_eq!(
        initialize_escrow(&mut app, init_ctx(), 100, 50),
        Err(EscrowError::AssetMismatch)
    );
}

#[test]
fn initialize_rejects_foreign_vault() {
    let mut app = EscrowApp::new(key(PROGRAM_ID)).expect("controller derivation");
    app.open_account(&key(DEPOSIT), &key(MINT_A), &key(INITIALIZER), 150)
        .unwrap();
    app.open_account(&key(VAULT), &key(MINT_A), &key(STRANGER), 0)
        .unwrap();
    assert_eq!(
        initialize_escrow(&mut app, init_ctx(), 100, 50),
        Err(EscrowError::AuthorityMismatch)
    );
}

#[test]
fn failed_initialize_leaves_everything_untouched() {
    let mut app = setup();
    // the balance check fails after the staged authority handoff, which must
    // therefore not persist
    assert_eq!(
        initialize_escrow(&mut app, init_ctx(), 200, 50),
        Err(EscrowError::InsufficientBalance)
    );
    assert_eq!(app.authority_of(&key(VAULT)), Some(key(INITIALIZER)));
    assert_eq!(app.balance_of(&key(DEPOSIT)), Some(150));
    assert_eq!(app.balance_of(&key(VAULT)), Some(0));
    assert!(!app.has_active_record());
}

#[test]
fn exchange_rejects_wrong_recorded_accounts() {
    let mut app = setup();
    initialize_escrow(&mut app, init_ctx(), 100, 50).unwrap();
    add_taker(&mut app, 70);
    let wrong_initializer = Exchange {
        initializer: key(STRANGER),
        ..exchange_ctx()
    };
    assert_eq!(
        exchange(&mut app, wrong_initializer),
        Err(EscrowError::IdentityMismatch)
    );
    let wrong_receive = Exchange {
        initializer_receive_token_account: key(DEPOSIT),
        ..exchange_ctx()
    };
    assert_eq!(
        exchange(&mut app, wrong_receive),
        Err(EscrowError::AccountMismatch)
    );
    let wrong_vault = Exchange {
        vault_account: key(DEPOSIT),
        ..exchange_ctx()
    };
    assert_eq!(exchange(&mut app, wrong_vault), Err(EscrowError::AccountMismatch));
    assert!(app.has_active_record());
    assert_eq!(app.balance_of(&key(VAULT)), Some(100));
}

#[test]
fn exchange_rejects_overflowing_destination() {
    let mut app = EscrowApp::new(key(PROGRAM_ID)).expect("controller derivation");
    app.open_account(&key(DEPOSIT), &key(MINT_A), &key(INITIALIZER), 150)
        .unwrap();
    app.open_account(&key(VAULT), &key(MINT_A), &key(INITIALIZER), 0)
        .unwrap();
    app.open_account(&key(RECEIVE), &key(MINT_B), &key(INITIALIZER), u64::MAX)
        .unwrap();
    initialize_escrow(&mut app, init_ctx(), 100, 50).unwrap();
    add_taker(&mut app, 70);
    assert_eq!(
        exchange(&mut app, exchange_ctx()),
        Err(EscrowError::BalanceOverflow)
    );
    assert_eq!(app.balance_of(&key(TAKER_DEPOSIT)), Some(70));
    assert_eq!(app.balance_of(&key(VAULT)), Some(100));
    assert!(app.has_active_record());
}

#[test]
fn donated_vault_blocks_exchange_but_not_cancel() {
    let mut app = setup();
    initialize_escrow(&mut app, init_ctx(), 100, 50).unwrap();
    add_taker(&mut app, 70);
    // a donor tops up the vault; the vault can then no longer be closed, so
    // the swap is refused in full
    app.open_account(&key(20), &key(MINT_A), &key(STRANGER), 5).unwrap();
    app.client_transfer(&key(20), &key(VAULT), 5, &key(STRANGER))
        .unwrap();
    assert_eq!(exchange(&mut app, exchange_ctx()), Err(EscrowError::NotEmpty));
    assert_eq!(app.balance_of(&key(VAULT)), Some(105));
    assert_eq!(app.balance_of(&key(TAKER_DEPOSIT)), Some(70));
    // the refund still moves exactly the recorded deposit
    assert_eq!(cancel_escrow(&mut app, cancel_ctx()), Ok(()));
    assert_eq!(app.balance_of(&key(DEPOSIT)), Some(150));
    assert_eq!(app.balance_of(&key(VAULT)), Some(5));
}

#[test]
fn vault_cannot_be_drained_by_clients() {
    let mut app = setup();
    initialize_escrow(&mut app, init_ctx(), 100, 50).unwrap();
    // signing as the derived controller is impossible for an external party
    let controller = app.controller_key();
    assert_eq!(
        app.client_transfer(&key(VAULT), &key(DEPOSIT), 100, &controller),
        Err(EscrowError::ControllerImpersonation)
    );
    // the initializer's own signature no longer controls the vault
    assert_eq!(
        app.client_transfer(&key(VAULT), &key(DEPOSIT), 100, &key(INITIALIZER)),
        Err(EscrowError::AuthorityMismatch)
    );
    assert_eq!(
        app.client_close(&key(VAULT), &key(INITIALIZER)),
        Err(EscrowError::AuthorityMismatch)
    );
    assert_eq!(app.balance_of(&key(VAULT)), Some(100));
}

#[test]
fn open_account_rejects_existing_key() {
    let mut app = setup();
    assert_eq!(
        app.open_account(&key(DEPOSIT), &key(MINT_A), &key(INITIALIZER), 1),
        Err(EscrowError::AccountExists)
    );
}

#[test]
fn client_transfer_moves_own_funds() {
    let mut app = setup();
    app.open_account(&key(21), &key(MINT_A), &key(STRANGER), 40).unwrap();
    assert_eq!(
        app.client_transfer(&key(21), &key(DEPOSIT), 15, &key(STRANGER)),
        Ok(())
    );
    assert_eq!(app.balance_of(&key(21)), Some(25));
    assert_eq!(app.balance_of(&key(DEPOSIT)), Some(165));
    // mismatched assets are refused
    assert_eq!(
        app.client_transfer(&key(21), &key(RECEIVE), 1, &key(STRANGER)),
        Err(EscrowError::AssetMismatch)
    );
}

#[test]
fn key_eq_compares_all_bytes() {
    let a = [1u8; 32];
    let mut b = [1u8; 32];
    assert!(anchor_escrow::keys::key_eq(&a, &b));
    b[31] = 2;
    assert!(!anchor_escrow::keys::key_eq(&a, &b));
}

#[test]
fn zero_amount_trade_is_accepted() {
    let mut app = setup();
    assert_eq!(initialize_escrow(&mut app, init_ctx(), 0, 0), Ok(()));
    assert_eq!(app.balance_of(&key(VAULT)), Some(0));
    assert_eq!(cancel_escrow(&mut app, cancel_ctx()), Ok(()));
    assert_eq!(app.balance_of(&key(DEPOSIT)), Some(150));
}
