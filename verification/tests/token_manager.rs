use token_escrow::errors::{LedgerError, TokenManagerError};
use token_escrow::ledger::Ledger;
use token_escrow::token_manager::{
    transfer_to_phantom_wallet, transfer_tokens, TokenManager, SWEEP_AMOUNT,
};

const AUTHORITY: u64 = 7;
const OUTSIDER: u64 = 8;
const RECIPIENT: u64 = 42;

#[test]
fn initialize_sets_fields() {
    let m = TokenManager::initialize(AUTHORITY);
    assert_eq!(m.mint_authority, AUTHORITY);
    assert_eq!(m.total_minted, 0);
    assert!(m.is_active);
}

#[test]
fn mint_by_authority_accumulates() {
    let mut ledger = Ledger::new();
    let mut m = TokenManager::initialize(AUTHORITY);
    assert_eq!(m.mint_tokens(&mut ledger, AUTHORITY, RECIPIENT, 100), Ok(()));
    assert_eq!(m.total_minted, 100);
    assert_eq!(ledger.balance(RECIPIENT), 100);
    assert_eq!(m.mint_tokens(&mut ledger, AUTHORITY, RECIPIENT, 50), Ok(()));
    assert_eq!(m.total_minted, 150);
    assert_eq!(ledger.balance(RECIPIENT), 150);
}

#[test]
fn mint_scenario_authorized_then_unauthorized() {
    let mut ledger = Ledger::new();
    let mut m = TokenManager::initialize(AUTHORITY);
    assert_eq!(m.mint_tokens(&mut ledger, AUTHORITY, RECIPIENT, 100), Ok(()));
    assert_eq!(m.total_minted, 100);
    assert_eq!(
        m.mint_tokens(&mut ledger, OUTSIDER, RECIPIENT, 1),
        Err(TokenManagerError::UnauthorizedMintAuthority)
    );
    assert_eq!(m.total_minted, 100);
    assert_eq!(ledger.balance(RECIPIENT), 100);
}

#[test]
fn mint_after_deactivate_is_inactive() {
    let mut ledger = Ledger::new();
    let mut m = TokenManager::initialize(AUTHORITY);
    assert_eq!(m.deactivate(AUTHORITY), Ok(()));
    assert!(!m.is_active);
    assert_eq!(
        m.mint_tokens(&mut ledger, AUTHORITY, RECIPIENT, 1),
        Err(TokenManagerError::TokenManagerInactive)
    );
    assert_eq!(m.total_minted, 0);
    assert_eq!(ledger.balance(RECIPIENT), 0);
}

#[test]
fn deactivate_is_idempotent() {
    let mut m = TokenManager::initialize(AUTHORITY);
    assert_eq!(m.deactivate(AUTHORITY), Ok(()));
    assert!(!m.is_active);
    assert_eq!(m.deactivate(AUTHORITY), Ok(()));
    assert!(!m.is_active);
}

#[test]
fn deactivate_by_outsider_unauthorized() {
    let mut m = TokenManager::initialize(AUTHORITY);
    assert_eq!(
        m.deactivate(OUTSIDER),
        Err(TokenManagerError::UnauthorizedMintAuthority)
    );
    assert!(m.is_active);
}

#[test]
fn mint_counter_overflow_checked_before_ledger_effect() {
    let mut ledger = Ledger::new();
    let mut m = TokenManager::initialize(AUTHORITY);
    assert_eq!(
        m.mint_tokens(&mut ledger, AUTHORITY, RECIPIENT, u64::MAX),
        Ok(())
    );
    assert_eq!(m.total_minted, u64::MAX);
    // The counter would wrap: the mint fails before the ledger is touched.
    assert_eq!(
        m.mint_tokens(&mut ledger, AUTHORITY, OUTSIDER, 1),
        Err(TokenManagerError::MathOverflow)
    );
    assert_eq!(m.total_minted, u64::MAX);
    assert_eq!(ledger.balance(OUTSIDER), 0);
}

#[test]
fn mint_recipient_balance_overflow_detected() {
    let mut ledger = Ledger::new();
    let mut first = TokenManager::initialize(AUTHORITY);
    assert_eq!(
        first.mint_tokens(&mut ledger, AUTHORITY, RECIPIENT, u64::MAX),
        Ok(())
    );
    // A fresh manager over the same ledger: its counter fits, but the
    // recipient's balance would wrap, so nothing changes anywhere.
    let mut second = TokenManager::initialize(AUTHORITY);
    assert_eq!(
        second.mint_tokens(&mut ledger, AUTHORITY, RECIPIENT, 1),
        Err(TokenManagerError::MathOverflow)
    );
    assert_eq!(second.total_minted, 0);
    assert_eq!(ledger.balance(RECIPIENT), u64::MAX);
}

#[test]
fn transfer_tokens_moves_funds() {
    let mut ledger = Ledger::new();
    let mut m = TokenManager::initialize(AUTHORITY);
    assert_eq!(m.mint_tokens(&mut ledger, AUTHORITY, RECIPIENT, 100), Ok(()));
    assert_eq!(
        transfer_tokens(&mut ledger, RECIPIENT, RECIPIENT, OUTSIDER, 40),
        Ok(())
    );
    assert_eq!(ledger.balance(RECIPIENT), 60);
    assert_eq!(ledger.balance(OUTSIDER), 40);
}

#[test]
fn transfer_tokens_unauthorized() {
    let mut ledger = Ledger::new();
    let mut m = TokenManager::initialize(AUTHORITY);
    assert_eq!(m.mint_tokens(&mut ledger, AUTHORITY, RECIPIENT, 100), Ok(()));
    assert_eq!(
        transfer_tokens(&mut ledger, OUTSIDER, RECIPIENT, OUTSIDER, 40),
        Err(LedgerError::Unauthorized)
    );
    assert_eq!(ledger.balance(RECIPIENT), 100);
    assert_eq!(ledger.balance(OUTSIDER), 0);
}

#[test]
fn transfer_tokens_insufficient_funds() {
    let mut ledger = Ledger::new();
    assert_eq!(
        transfer_tokens(&mut ledger, RECIPIENT, RECIPIENT, OUTSIDER, 1),
        Err(LedgerError::InsufficientFunds)
    );
    assert_eq!(ledger.balance(OUTSIDER), 0);
}

#[test]
fn transfer_tokens_destination_overflow() {
    let mut ledger = Ledger::new();
    let mut first = TokenManager::initialize(AUTHORITY);
    assert_eq!(
        first.mint_tokens(&mut ledger, AUTHORITY, RECIPIENT, u64::MAX),
        Ok(())
    );
    let mut second = TokenManager::initialize(AUTHORITY);
    assert_eq!(second.mint_tokens(&mut ledger, AUTHORITY, OUTSIDER, 5), Ok(()));
    assert_eq!(
        transfer_tokens(&mut ledger, OUTSIDER, OUTSIDER, RECIPIENT, 1),
        Err(LedgerError::MathOverflow)
    );
    assert_eq!(ledger.balance(OUTSIDER), 5);
    assert_eq!(ledger.balance(RECIPIENT), u64::MAX);
}

#[test]
fn sweep_moves_the_fixed_amount() {
    let mut ledger = Ledger::new();
    let mut m = TokenManager::initialize(AUTHORITY);
    assert_eq!(
        m.mint_tokens(&mut ledger, AUTHORITY, RECIPIENT, SWEEP_AMOUNT + 5),
        Ok(())
    );
    assert_eq!(
        transfer_to_phantom_wallet(&mut ledger, RECIPIENT, RECIPIENT, OUTSIDER),
        Ok(())
    );
    assert_eq!(ledger.balance(OUTSIDER), 500_000_000_000);
    assert_eq!(ledger.balance(RECIPIENT), 5);
}

#[test]
fn sweep_insufficient_funds() {
    let mut ledger = Ledger::new();
    let mut m = TokenManager::initialize(AUTHORITY);
    assert_eq!(
        m.mint_tokens(&mut ledger, AUTHORITY, RECIPIENT, SWEEP_AMOUNT - 1),
        Ok(())
    );
    assert_eq!(
        transfer_to_phantom_wallet(&mut ledger, RECIPIENT, RECIPIENT, OUTSIDER),
        Err(LedgerError::InsufficientFunds)
    );
    assert_eq!(ledger.balance(RECIPIENT), SWEEP_AMOUNT - 1);
    assert_eq!(ledger.balance(OUTSIDER), 0);
}
