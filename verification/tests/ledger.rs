//! Behavioral tests for the commission ledger, run against the verified
//! in-memory oracle.

use commission_ledger::oracle::MemoryOracle;
use commission_ledger::oracle::Oracle;
use commission_ledger::vault::Vault;
use commission_ledger::vault::VaultError;
use commission_ledger::vault::PCT_DENOM;
use commission_ledger::vault::SCALE;

const ATON: u128 = 0x7e32;
const VAULT: u128 = 0x9a01;
const DEPOSITOR: u128 = 0x11;
const PLAYER_X: u128 = 0x40;

fn initialized_vault() -> Vault {
    let mut vault = Vault::new();
    assert!(vault.initialize(ATON));
    vault
}

#[test]
fn initialize() {
    let mut contract = Vault::new();
    assert!(contract.aton_address() == 0);
    assert!(contract.initialize(ATON));
    assert!(contract.aton_address() == ATON);
}

#[test]
fn initialize_is_one_time() {
    let mut vault = Vault::new();
    assert!(vault.initialize(ATON));
    // A second binding fails silently and changes nothing.
    assert!(!vault.initialize(0x99));
    assert_eq!(vault.aton_address(), ATON);
}

#[test]
fn summary() {
    let mut vault = initialized_vault();
    let mut oracle = MemoryOracle::new(100);
    oracle.set_balance(PLAYER_X, 40);
    oracle.set_balance(DEPOSITOR, 1000);
    assert_eq!(
        vault.accumulate_aton(&mut oracle, DEPOSITOR, VAULT, 1000),
        Ok(true)
    );
    let report = vault.summary(&oracle, PLAYER_X, 77).unwrap();
    assert_eq!(report, (77, 40, 400, 0, 1000));
}

// Scenario: supply 100, account X holds 40, one deposit of 1000.  The
// accumulator grows by (1000 * 10^18) / 100 and X's pending commission is
// 40/100 of the deposit.
#[test]
fn accumulate_distributes_pro_rata() {
    let mut vault = initialized_vault();
    let mut oracle = MemoryOracle::new(100);
    oracle.set_balance(PLAYER_X, 40);
    oracle.set_balance(DEPOSITOR, 1000);

    let result = vault.accumulate_aton(&mut oracle, DEPOSITOR, VAULT, 1000);
    assert_eq!(result, Ok(true));
    assert_eq!(
        vault.accumulated_commission_per_token(),
        10_000_000_000_000_000_000
    );
    assert_eq!(vault.total_commission_in_aton(), 1000);
    assert_eq!(vault.player_commission(&oracle, PLAYER_X), 400);
}

// Scenario: a zero-amount deposit is rejected as InvalidAmount and mutates
// no field.
#[test]
fn accumulate_zero_amount_rejected() {
    let mut vault = initialized_vault();
    let mut oracle = MemoryOracle::new(100);
    oracle.set_balance(DEPOSITOR, 1000);

    let result = vault.accumulate_aton(&mut oracle, DEPOSITOR, VAULT, 0);
    assert_eq!(
        result,
        Err(VaultError::InvalidAmount { account: DEPOSITOR })
    );
    assert_eq!(vault.accumulated_commission_per_token(), 0);
    assert_eq!(vault.total_commission_in_aton(), 0);
    assert_eq!(oracle.balance_of(DEPOSITOR), 1000);
    assert_eq!(oracle.balance_of(VAULT), 0);
}

#[test]
fn accumulate_failed_transfer_rejected() {
    let mut vault = initialized_vault();
    let mut oracle = MemoryOracle::new(100);
    oracle.set_balance(DEPOSITOR, 5);

    // The depositor cannot cover the amount, so the oracle refuses custody.
    let result = vault.accumulate_aton(&mut oracle, DEPOSITOR, VAULT, 1000);
    assert_eq!(
        result,
        Err(VaultError::DependencyFailure { account: DEPOSITOR })
    );
    assert_eq!(vault.accumulated_commission_per_token(), 0);
    assert_eq!(vault.total_commission_in_aton(), 0);
    assert_eq!(oracle.balance_of(DEPOSITOR), 5);
}

// Scenario: with total supply 0 the deposit succeeds and custody moves, but
// nothing is distributed.
#[test]
fn accumulate_with_zero_supply_absorbs_deposit() {
    let mut vault = initialized_vault();
    let mut oracle = MemoryOracle::new(0);
    oracle.set_balance(DEPOSITOR, 50);

    let result = vault.accumulate_aton(&mut oracle, DEPOSITOR, VAULT, 50);
    assert_eq!(result, Ok(true));
    assert_eq!(vault.accumulated_commission_per_token(), 0);
    assert_eq!(vault.total_commission_in_aton(), 0);
    assert_eq!(oracle.balance_of(VAULT), 50);
    assert_eq!(oracle.balance_of(DEPOSITOR), 0);
}

// Scenario: two deposits of 1000 and 500 at constant supply 100.  The total
// ends at 1500 and the accumulator at the sum of the two independently
// computed per-call deltas.
#[test]
fn accumulate_deltas_are_additive() {
    let mut vault = initialized_vault();
    let mut oracle = MemoryOracle::new(100);
    oracle.set_balance(DEPOSITOR, 1500);

    assert_eq!(
        vault.accumulate_aton(&mut oracle, DEPOSITOR, VAULT, 1000),
        Ok(true)
    );
    assert_eq!(
        vault.accumulate_aton(&mut oracle, DEPOSITOR, VAULT, 500),
        Ok(true)
    );
    assert_eq!(vault.total_commission_in_aton(), 1500);
    let delta_first = 1000 * SCALE / 100;
    let delta_second = 500 * SCALE / 100;
    assert_eq!(
        vault.accumulated_commission_per_token(),
        delta_first + delta_second
    );
}

// Scenario: a caller other than the bound oracle cannot reset a checkpoint.
#[test]
fn clear_commission_requires_oracle_caller() {
    let mut vault = initialized_vault();
    let mut oracle = MemoryOracle::new(100);
    oracle.set_balance(DEPOSITOR, 1000);
    vault
        .accumulate_aton(&mut oracle, DEPOSITOR, VAULT, 1000)
        .unwrap();
    let checkpoint_before = vault.last_commission_per_token(PLAYER_X);

    let intruder = 0xbad;
    let result = vault.clear_commission(intruder, PLAYER_X);
    assert_eq!(result, Err(VaultError::Unauthorized { account: intruder }));
    assert_eq!(
        vault.last_commission_per_token(PLAYER_X),
        checkpoint_before
    );
}

// Scenario: a reset by the bound oracle copies the accumulator into the
// account's checkpoint, after which the pending commission reads zero.
#[test]
fn clear_commission_aligns_checkpoint() {
    let mut vault = initialized_vault();
    let mut oracle = MemoryOracle::new(100);
    oracle.set_balance(PLAYER_X, 40);
    oracle.set_balance(DEPOSITOR, 1000);
    vault
        .accumulate_aton(&mut oracle, DEPOSITOR, VAULT, 1000)
        .unwrap();
    assert!(vault.player_commission(&oracle, PLAYER_X) > 0);

    assert_eq!(vault.clear_commission(ATON, PLAYER_X), Ok(()));
    assert_eq!(
        vault.last_commission_per_token(PLAYER_X),
        vault.accumulated_commission_per_token()
    );
    assert_eq!(vault.player_commission(&oracle, PLAYER_X), 0);
}

#[test]
fn clear_commission_is_idempotent() {
    let mut vault = initialized_vault();
    let mut oracle = MemoryOracle::new(100);
    oracle.set_balance(DEPOSITOR, 1000);
    vault
        .accumulate_aton(&mut oracle, DEPOSITOR, VAULT, 1000)
        .unwrap();

    assert_eq!(vault.clear_commission(ATON, PLAYER_X), Ok(()));
    let after_first = vault.last_commission_per_token(PLAYER_X);
    assert_eq!(vault.clear_commission(ATON, PLAYER_X), Ok(()));
    assert_eq!(vault.last_commission_per_token(PLAYER_X), after_first);
}

// The accumulator and the deposit total never decrease, and no checkpoint
// ever runs ahead of the accumulator, across a mixed sequence of operations.
#[test]
fn counters_monotonic_and_checkpoints_bounded() {
    let mut vault = initialized_vault();
    let mut oracle = MemoryOracle::new(100);
    oracle.set_balance(PLAYER_X, 40);
    oracle.set_balance(DEPOSITOR, 10_000);

    let mut last_acc = 0u128;
    let mut last_total = 0u128;
    let amounts = [1000u128, 0, 250, 1, 500];
    for (round, &amount) in amounts.iter().enumerate() {
        let _ = vault.accumulate_aton(&mut oracle, DEPOSITOR, VAULT, amount);
        if round % 2 == 0 {
            vault.clear_commission(ATON, PLAYER_X).unwrap();
        }
        let acc = vault.accumulated_commission_per_token();
        let total = vault.total_commission_in_aton();
        assert!(acc >= last_acc);
        assert!(total >= last_total);
        assert!(vault.last_commission_per_token(PLAYER_X) <= acc);
        assert!(vault.last_commission_per_token(DEPOSITOR) <= acc);
        last_acc = acc;
        last_total = total;
    }
    assert_eq!(last_total, 1751);
}

// An owed amount that collapses below one PCT_DENOM unit after scaling is
// reported as zero.
#[test]
fn player_commission_small_amounts_collapse_to_zero() {
    let mut vault = initialized_vault();
    let mut oracle = MemoryOracle::new(1_000_000_000_000);
    oracle.set_balance(PLAYER_X, 1);
    oracle.set_balance(DEPOSITOR, 1);

    // delta = 1 * SCALE / 10^12 = 10^6 per share; for a balance of 1 the
    // scaled value is 10^6 * 10^7 / 10^18 = 0.
    assert_eq!(
        vault.accumulate_aton(&mut oracle, DEPOSITOR, VAULT, 1),
        Ok(true)
    );
    assert_eq!(vault.accumulated_commission_per_token(), 1_000_000);
    assert_eq!(vault.player_commission(&oracle, PLAYER_X), 0);
}

// A positive scaled value below PCT_DENOM still reports zero after the
// second-stage division.
#[test]
fn player_commission_sub_denominator_rounds_to_zero() {
    let mut vault = initialized_vault();
    let mut oracle = MemoryOracle::new(1_000_000);
    oracle.set_balance(PLAYER_X, 1);
    oracle.set_balance(DEPOSITOR, 1);

    // delta = 1 * SCALE / 10^6 = 10^12; scaled = 10^12 * 10^7 / 10^18 = 10,
    // and 10 / PCT_DENOM truncates to 0.
    assert_eq!(
        vault.accumulate_aton(&mut oracle, DEPOSITOR, VAULT, 1),
        Ok(true)
    );
    assert_eq!(vault.accumulated_commission_per_token(), 1_000_000_000_000);
    assert_eq!(vault.player_commission(&oracle, PLAYER_X), 0);
    // Sanity: the constants drive the collapse.
    assert!(10 < PCT_DENOM);
}

// An overflowing product on the read path degrades to zero instead of
// failing.
#[test]
fn player_commission_overflow_degrades_to_zero() {
    let mut vault = initialized_vault();
    let mut oracle = MemoryOracle::new(1);
    oracle.set_balance(PLAYER_X, u128::MAX);
    oracle.set_balance(DEPOSITOR, 2);

    // delta = 2 * SCALE / 1 = 2 * 10^18; u128::MAX * 2 * 10^18 overflows.
    assert_eq!(
        vault.accumulate_aton(&mut oracle, DEPOSITOR, VAULT, 2),
        Ok(true)
    );
    assert_eq!(vault.player_commission(&oracle, PLAYER_X), 0);
}

#[test]
fn claimed_commissions_default_to_zero() {
    let vault = initialized_vault();
    assert_eq!(vault.claimed_commissions(PLAYER_X), 0);
    assert_eq!(vault.claimed_commissions(0), 0);
}
