//! Tests of the balances and system pallets taken on their own.

use minichain::balances;
use minichain::system;

#[test]
fn init_balances() {
    let mut balances = balances::Pallet::new();
    assert_eq!(balances.balance(&"alice".to_string()), 0);
    balances.set_balance(&"alice".to_string(), 100);
    assert_eq!(balances.balance(&"alice".to_string()), 100);
    assert_eq!(balances.balance(&"bob".to_string()), 0);
}

#[test]
fn transfer_balance() {
    let mut balances = balances::Pallet::new();
    balances.set_balance(&"Alice".to_string(), 100);
    balances.set_balance(&"Bob".to_string(), 50);

    let result = balances.transfer("Alice".to_string(), "Bob".to_string(), 150);
    assert!(result.is_err());
    assert_eq!(result.unwrap_err(), "Not enough funds");
    assert_eq!(balances.balance(&"Alice".to_string()), 100);
    assert_eq!(balances.balance(&"Bob".to_string()), 50);

    let result = balances.transfer("Alice".to_string(), "Bob".to_string(), 30);
    assert!(result.is_ok());
    assert_eq!(balances.balance(&"Alice".to_string()), 70);
    assert_eq!(balances.balance(&"Bob".to_string()), 80);
}

#[test]
fn init_system() {
    let mut system = system::Pallet::new();
    system.inc_block_number();
    system.inc_nonce(&"Alice".to_string());
    assert_eq!(system.block_number(), 1);
    assert_eq!(system.nonce(&"Alice".to_string()), 1);
    assert_eq!(system.nonce(&"Bob".to_string()), 0);
}

#[test]
fn untouched_accounts_hold_zero() {
    let balances = balances::Pallet::new();
    assert_eq!(balances.balance(&"anyone".to_string()), 0);
    assert_eq!(balances.balance(&"".to_string()), 0);
    let system = system::Pallet::new();
    assert_eq!(system.block_number(), 0);
    assert_eq!(system.nonce(&"anyone".to_string()), 0);
}

#[test]
fn insufficient_funds_from_empty_account() {
    let mut balances = balances::Pallet::new();
    balances.set_balance(&"Bob".to_string(), 50);
    let result = balances.transfer("Alice".to_string(), "Bob".to_string(), 1);
    assert_eq!(result.unwrap_err(), "Not enough funds");
    assert_eq!(balances.balance(&"Alice".to_string()), 0);
    assert_eq!(balances.balance(&"Bob".to_string()), 50);
}

#[test]
fn transfer_overflow_leaves_balances_unchanged() {
    let mut balances = balances::Pallet::new();
    balances.set_balance(&"Alice".to_string(), 5);
    balances.set_balance(&"Bob".to_string(), u128::MAX);
    let result = balances.transfer("Alice".to_string(), "Bob".to_string(), 1);
    assert_eq!(result.unwrap_err(), "Integer Overflow");
    assert_eq!(balances.balance(&"Alice".to_string()), 5);
    assert_eq!(balances.balance(&"Bob".to_string()), u128::MAX);
}

#[test]
fn transfer_to_exact_capacity_succeeds() {
    let mut balances = balances::Pallet::new();
    balances.set_balance(&"Alice".to_string(), 5);
    balances.set_balance(&"Bob".to_string(), u128::MAX - 5);
    let result = balances.transfer("Alice".to_string(), "Bob".to_string(), 5);
    assert!(result.is_ok());
    assert_eq!(balances.balance(&"Alice".to_string()), 0);
    assert_eq!(balances.balance(&"Bob".to_string()), u128::MAX);
}

#[test]
fn self_transfer_keeps_balance() {
    let mut balances = balances::Pallet::new();
    balances.set_balance(&"Alice".to_string(), 100);
    let result = balances.transfer("Alice".to_string(), "Alice".to_string(), 60);
    assert!(result.is_ok());
    assert_eq!(balances.balance(&"Alice".to_string()), 100);
}

#[test]
fn self_transfer_needs_funds_and_capacity() {
    let mut balances = balances::Pallet::new();
    balances.set_balance(&"Alice".to_string(), 100);
    let result = balances.transfer("Alice".to_string(), "Alice".to_string(), 101);
    assert_eq!(result.unwrap_err(), "Not enough funds");
    assert_eq!(balances.balance(&"Alice".to_string()), 100);

    balances.set_balance(&"Bob".to_string(), u128::MAX);
    let result = balances.transfer("Bob".to_string(), "Bob".to_string(), 1);
    assert_eq!(result.unwrap_err(), "Integer Overflow");
    assert_eq!(balances.balance(&"Bob".to_string()), u128::MAX);
}

#[test]
fn successful_transfer_conserves_the_sum() {
    let mut balances = balances::Pallet::new();
    balances.set_balance(&"Alice".to_string(), 100);
    balances.set_balance(&"Bob".to_string(), 50);
    let before = balances.balance(&"Alice".to_string()) + balances.balance(&"Bob".to_string());
    let result = balances.transfer("Alice".to_string(), "Bob".to_string(), 30);
    assert!(result.is_ok());
    let after = balances.balance(&"Alice".to_string()) + balances.balance(&"Bob".to_string());
    assert_eq!(before, after);
    assert_eq!(balances.balance(&"Charlie".to_string()), 0);
}

#[test]
fn nonce_counts_each_increment() {
    let mut system = system::Pallet::new();
    system.inc_nonce(&"Alice".to_string());
    system.inc_nonce(&"Alice".to_string());
    system.inc_nonce(&"Alice".to_string());
    assert_eq!(system.nonce(&"Alice".to_string()), 3);
    assert_eq!(system.nonce(&"Bob".to_string()), 0);
}
