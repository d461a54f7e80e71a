//! Tests of the verified in-memory oracle itself.

use commission_ledger::kv::kv_get;
use commission_ledger::kv::kv_set;
use commission_ledger::oracle::MemoryOracle;
use commission_ledger::oracle::Oracle;

#[test]
fn balances_default_to_zero() {
    let oracle = MemoryOracle::new(500);
    assert_eq!(oracle.total_supply(), 500);
    assert_eq!(oracle.balance_of(1), 0);
    assert_eq!(oracle.balance_of(2), 0);
}

#[test]
fn set_balance_overwrites() {
    let mut oracle = MemoryOracle::new(500);
    oracle.set_balance(1, 10);
    oracle.set_balance(1, 3);
    oracle.set_balance(2, 7);
    assert_eq!(oracle.balance_of(1), 3);
    assert_eq!(oracle.balance_of(2), 7);
}

#[test]
fn transfer_moves_funds_and_keeps_supply() {
    let mut oracle = MemoryOracle::new(500);
    oracle.set_balance(1, 10);
    assert!(oracle.transfer_from(1, 2, 4));
    assert_eq!(oracle.balance_of(1), 6);
    assert_eq!(oracle.balance_of(2), 4);
    assert_eq!(oracle.total_supply(), 500);
}

#[test]
fn transfer_refused_on_insufficient_balance() {
    let mut oracle = MemoryOracle::new(500);
    oracle.set_balance(1, 10);
    assert!(!oracle.transfer_from(1, 2, 11));
    assert_eq!(oracle.balance_of(1), 10);
    assert_eq!(oracle.balance_of(2), 0);
}

#[test]
fn transfer_to_self_changes_nothing() {
    let mut oracle = MemoryOracle::new(500);
    oracle.set_balance(1, 10);
    assert!(oracle.transfer_from(1, 1, 10));
    assert_eq!(oracle.balance_of(1), 10);
    assert!(!oracle.transfer_from(1, 1, 11));
}

#[test]
fn transfer_refused_on_receiver_overflow() {
    let mut oracle = MemoryOracle::new(500);
    oracle.set_balance(1, 10);
    oracle.set_balance(2, u128::MAX - 3);
    assert!(!oracle.transfer_from(1, 2, 4));
    assert_eq!(oracle.balance_of(1), 10);
    assert_eq!(oracle.balance_of(2), u128::MAX - 3);
}

#[test]
fn kv_store_reads_latest_write() {
    let mut entries: Vec<(u128, u128)> = Vec::new();
    assert_eq!(kv_get(&entries, 9), 0);
    kv_set(&mut entries, 9, 1);
    kv_set(&mut entries, 8, 2);
    kv_set(&mut entries, 9, 5);
    assert_eq!(kv_get(&entries, 9), 5);
    assert_eq!(kv_get(&entries, 8), 2);
    assert_eq!(kv_get(&entries, 7), 0);
}
