//! The commission ledger itself: the global accumulator, the running total of
//! deposits, and the per-account checkpoints and claimed totals.
//!
//! All amounts are unsigned integers.  Account identities are opaque unsigned
//! integers; `0` is the null identity, reserved to mean "not yet bound".

use crate::kv::kv_get;
use crate::kv::kv_lookup;
use crate::kv::kv_set;
use crate::oracle::Oracle;
use vstd::prelude::*;

verus! {

/// Fixed-point scaling factor for the commission-per-share accumulator.
pub const SCALE: u128 = 1000000000000000000;

/// Secondary precision denominator applied when reporting a pending
/// commission: amounts below one `PCT_DENOM` unit after scaling collapse
/// to zero, damping rounding noise at very small owed amounts.
pub const PCT_DENOM: u128 = 10000000;

/// The ways ledger operations may fail.  Each failure aborts the operation
/// atomically and carries the offending account.
#[derive(Clone, Copy, Debug, PartialEq, Eq, Structural)]
pub enum VaultError {
    /// A caller-supplied amount fails a required positivity constraint.
    InvalidAmount { account: u128 },
    /// A caller other than the bound oracle invoked a restricted operation.
    Unauthorized { account: u128 },
    /// An external oracle call did not succeed.
    DependencyFailure { account: u128 },
}

/// The ledger state.  Created at genesis with every field zero; mutated only
/// by [`Vault::initialize`], [`Vault::accumulate_aton`] and
/// [`Vault::clear_commission`].
pub struct Vault {
    accumulated_commission_per_token: u128,
    total_commission_in_aton: u128,
    last_commission_per_token: Vec<(u128, u128)>,
    claimed_commissions: Vec<(u128, u128)>,
    aton_address: u128,
}

/// The reported pending commission for an account with reference-asset
/// balance `balance` and owed-per-share difference `owed_per_share`.
///
/// The raw product is scaled down in two stages, each with truncating
/// division: first by `SCALE` to undo the accumulator's scaling (folded here
/// with a multiplication by `PCT_DENOM`), then by `PCT_DENOM`.  A product
/// that overflows the word size degrades to zero rather than failing, since
/// this sits on a read path that must not block other operations.
pub open spec fn pending_commission_of(balance: u128, owed_per_share: u128) -> u128 {
    if balance * owed_per_share > u128::MAX {
        0u128
    } else if balance * owed_per_share * PCT_DENOM > u128::MAX {
        0u128
    } else {
        let scaled = balance * owed_per_share * PCT_DENOM / (SCALE as int);
        if scaled > 0 {
            (scaled / (PCT_DENOM as int)) as u128
        } else {
            0u128
        }
    }
}

impl Vault {
    /// The global commission-per-share accumulator, scaled by `SCALE`.
    pub closed spec fn acc_per_share(&self) -> u128 {
        self.accumulated_commission_per_token
    }

    /// The running total of all commission ever successfully deposited and
    /// distributed.
    pub closed spec fn total_deposited(&self) -> u128 {
        self.total_commission_in_aton
    }

    /// `account`'s checkpoint: the accumulator value at its last settlement.
    pub closed spec fn checkpoint_of(&self, account: u128) -> u128 {
        kv_lookup(self.last_commission_per_token@, account)
    }

    /// `account`'s recorded claimed total (reporting only; no core operation
    /// debits or credits it).
    pub closed spec fn claimed_of(&self, account: u128) -> u128 {
        kv_lookup(self.claimed_commissions@, account)
    }

    /// The bound oracle identity, or `0` before initialization.
    pub closed spec fn oracle_address(&self) -> u128 {
        self.aton_address
    }

    /// Well-formedness: no account's checkpoint is ever ahead of the global
    /// accumulator.
    pub open spec fn wf(&self) -> bool {
        forall|a: u128| self.checkpoint_of(a) <= self.acc_per_share()
    }

    /// The still-unsettled accumulator growth for `account`, computed with
    /// saturating subtraction (zero if the checkpoint were ever ahead).
    pub open spec fn owed_per_share(&self, account: u128) -> u128 {
        if self.acc_per_share() >= self.checkpoint_of(account) {
            (self.acc_per_share() - self.checkpoint_of(account)) as u128
        } else {
            0u128
        }
    }
}

/// How a successful deposit of `amount` against reference-asset supply
/// `supply` transforms the ledger: with a zero supply nothing changes (the
/// deposit is absorbed); otherwise the accumulator grows by the truncated
/// scaled per-share delta and the running total by the amount.  Checkpoints,
/// claimed totals and the bound oracle identity are untouched.
pub open spec fn accumulate_rel(pre: Vault, post: Vault, amount: u128, supply: u128) -> bool {
    &&& amount > 0
    &&& post.oracle_address() == pre.oracle_address()
    &&& forall|a: u128| post.checkpoint_of(a) == pre.checkpoint_of(a)
    &&& forall|a: u128| post.claimed_of(a) == pre.claimed_of(a)
    &&& if supply == 0 {
            &&& post.acc_per_share() == pre.acc_per_share()
            &&& post.total_deposited() == pre.total_deposited()
        } else {
            &&& post.acc_per_share() == pre.acc_per_share() + (amount * SCALE) / (supply as int)
            &&& post.total_deposited() == pre.total_deposited() + amount
        }
}

/// How a successful checkpoint reset for `player` transforms the ledger:
/// `player`'s checkpoint is overwritten with the current accumulator and
/// everything else is untouched.
pub open spec fn clear_rel(pre: Vault, post: Vault, player: u128) -> bool {
    &&& post.acc_per_share() == pre.acc_per_share()
    &&& post.total_deposited() == pre.total_deposited()
    &&& post.oracle_address() == pre.oracle_address()
    &&& post.checkpoint_of(player) == pre.acc_per_share()
    &&& forall|a: u128| a != player ==> post.checkpoint_of(a) == pre.checkpoint_of(a)
    &&& forall|a: u128| post.claimed_of(a) == pre.claimed_of(a)
}

/// How a successful one-time initialization transforms the ledger: it can
/// only happen while the oracle identity is still null, and it touches no
/// accounting field.
pub open spec fn initialize_rel(pre: Vault, post: Vault) -> bool {
    &&& pre.oracle_address() == 0
    &&& post.acc_per_share() == pre.acc_per_share()
    &&& post.total_deposited() == pre.total_deposited()
    &&& forall|a: u128| post.checkpoint_of(a) == pre.checkpoint_of(a)
    &&& forall|a: u128| post.claimed_of(a) == pre.claimed_of(a)
}

impl Vault {
    /// The ledger at genesis: every counter, checkpoint and claimed total is
    /// zero and no oracle identity is bound yet.
    pub fn new() -> (vault: Vault)
        ensures
            vault.acc_per_share() == 0,
            vault.total_deposited() == 0,
            forall|a: u128| vault.checkpoint_of(a) == 0,
            forall|a: u128| vault.claimed_of(a) == 0,
            vault.oracle_address() == 0,
            vault.wf(),
    {
        Vault {
            accumulated_commission_per_token: 0,
            total_commission_in_aton: 0,
            last_commission_per_token: Vec::new(),
            claimed_commissions: Vec::new(),
            aton_address: 0,
        }
    }

    /// The bound oracle identity, or `0` before initialization.
    pub fn aton_address(&self) -> (address: u128)
        ensures
            address == self.oracle_address(),
    {
        self.aton_address
    }

    /// One-time binding of the oracle identity.  Returns `true` on success;
    /// if an identity is already bound the call changes nothing and returns
    /// `false` (safe to call again rather than an aborting error).
    pub fn initialize(&mut self, _aton_address: u128) -> (result: bool)
        requires
            old(self).wf(),
        ensures
            result == (old(self).oracle_address() == 0),
            result ==> final(self).oracle_address() == _aton_address,
            result ==> initialize_rel(*old(self), *final(self)),
            !result ==> *final(self) == *old(self),
            final(self).wf(),
    {
        if self.aton_address != 0 {
            return false;
        }
        self.aton_address = _aton_address;
        true
    }

    /// Accept a positive `amount` of the commission asset from `sender`,
    /// pulling it into the ledger's custody at `vault_address` through the
    /// oracle, and accrue it pro rata over the current reference-asset
    /// supply.
    ///
    /// Fails with `InvalidAmount` on a zero amount and with
    /// `DependencyFailure` when the oracle refuses the custody transfer; a
    /// failed call leaves every ledger field exactly as it was.  With a zero
    /// total supply the deposit succeeds and custody moves, but nothing is
    /// distributed (degenerate case, not an error).
    pub fn accumulate_aton<O: Oracle>(
        &mut self,
        oracle: &mut O,
        sender: u128,
        vault_address: u128,
        amount: u128,
    ) -> (result: Result<bool, VaultError>)
        requires
            old(self).wf(),
            old(oracle).total_supply_spec() > 0 ==> amount * SCALE <= u128::MAX,
            old(oracle).total_supply_spec() > 0 ==> old(self).acc_per_share() + (amount * SCALE)
                / (old(oracle).total_supply_spec() as int) <= u128::MAX,
            old(oracle).total_supply_spec() > 0 ==> old(self).total_deposited() + amount
                <= u128::MAX,
        ensures
            final(self).wf(),
            // The accumulator and the deposit total never decrease.
            final(self).acc_per_share() >= old(self).acc_per_share(),
            final(self).total_deposited() >= old(self).total_deposited(),
            // Success exactly when the amount is positive and the oracle
            // admits the custody transfer.
            result is Ok <==> (amount > 0 && old(oracle).can_transfer_from(
                sender,
                vault_address,
                amount,
            )),
            result is Ok ==> result == Ok::<bool, VaultError>(true),
            result is Ok ==> accumulate_rel(
                *old(self),
                *final(self),
                amount,
                old(oracle).total_supply_spec(),
            ),
            // A failed call mutates no ledger field and names its cause.
            amount == 0 ==> result == Err::<bool, VaultError>(
                VaultError::InvalidAmount { account: sender },
            ) && *final(oracle) == *old(oracle),
            result is Err ==> *final(self) == *old(self),
            amount > 0 && !old(oracle).can_transfer_from(sender, vault_address, amount)
                ==> result == Err::<bool, VaultError>(
                VaultError::DependencyFailure { account: sender },
            ),
            // Custody: on success the deposit has moved into the ledger's
            // account at the oracle; supply is never minted or burned.
            final(oracle).total_supply_spec() == old(oracle).total_supply_spec(),
            result is Ok && sender != vault_address ==> final(oracle).balance_of_spec(
                vault_address,
            ) == old(oracle).balance_of_spec(vault_address) + amount,
            result is Ok && sender != vault_address ==> final(oracle).balance_of_spec(sender)
                == old(oracle).balance_of_spec(sender) - amount,
            forall|a: u128| a != sender && a != vault_address ==> final(oracle).balance_of_spec(a)
                == old(oracle).balance_of_spec(a),
    {
        if amount == 0 {
            return Err(VaultError::InvalidAmount { account: sender });
        }
        let transferred = oracle.transfer_from(sender, vault_address, amount);
        if !transferred {
            return Err(VaultError::DependencyFailure { account: sender });
        }
        let supply = oracle.total_supply();
        self._add_commission(amount, supply);
        Ok(true)
    }

    /// Everything the ledger can report about `player` in one read:
    /// the supplied native-asset balance handed through unchanged, the
    /// player's reference-asset balance, their pending commission, their
    /// recorded claimed total, and the ledger-wide deposit total.
    pub fn summary<O: Oracle>(
        &self,
        oracle: &O,
        player: u128,
        native_balance: u128,
    ) -> (result: Result<(u128, u128, u128, u128, u128), VaultError>)
        ensures
            result == Ok::<(u128, u128, u128, u128, u128), VaultError>(
                (
                    native_balance,
                    oracle.balance_of_spec(player),
                    pending_commission_of(
                        oracle.balance_of_spec(player),
                        self.owed_per_share(player),
                    ),
                    self.claimed_of(player),
                    self.total_deposited(),
                ),
            ),
    {
        let aton_balance = self._balance_of(oracle, player);
        Ok((
            native_balance,
            aton_balance,
            self.player_commission(oracle, player),
            kv_get(&self.claimed_commissions, player),
            self.total_commission_in_aton,
        ))
    }

    /// The unclaimed commission currently reported for `player`: the
    /// accumulator growth since the player's checkpoint, weighted by the
    /// player's reference-asset balance and reduced through the two-stage
    /// fixed-point rule of [`pending_commission_of`].
    ///
    /// A pure read: deterministic in the current accumulator, checkpoint and
    /// balance, and it never fails.
    pub fn player_commission<O: Oracle>(&self, oracle: &O, player: u128) -> (commission: u128)
        ensures
            commission == pending_commission_of(
                oracle.balance_of_spec(player),
                self.owed_per_share(player),
            ),
    {
        let last = kv_get(&self.last_commission_per_token, player);
        let acc = self.accumulated_commission_per_token;
        let owed_per_token: u128 = if acc >= last {
            acc - last
        } else {
            0
        };
        let player_aton_balance = self._balance_of(oracle, player);

        let raw: u128 = match player_aton_balance.checked_mul(owed_per_token) {
            Some(product) => product,
            None => 0,
        };
        let scaled_numerator: u128 = match raw.checked_mul(PCT_DENOM) {
            Some(product) => product,
            None => 0,
        };
        let scaled = scaled_numerator / SCALE;
        if scaled > 0 {
            scaled / PCT_DENOM
        } else {
            0
        }
    }

    /// Reset `player`'s checkpoint to the current accumulator, restricted to
    /// the bound oracle (`sender` is the caller's identity).  Called by the
    /// oracle just before it changes `player`'s reference-asset balance, so
    /// that future accrual is measured against the new balance only.
    ///
    /// Any other caller fails with `Unauthorized` and mutates nothing.
    pub fn clear_commission(&mut self, sender: u128, player: u128) -> (result: Result<
        (),
        VaultError,
    >)
        requires
            old(self).wf(),
        ensures
            final(self).wf(),
            result is Ok <==> sender == old(self).oracle_address(),
            result is Ok ==> clear_rel(*old(self), *final(self), player),
            result is Ok ==> final(self).checkpoint_of(player) == final(self).acc_per_share(),
            result is Err ==> result == Err::<(), VaultError>(
                VaultError::Unauthorized { account: sender },
            ) && *final(self) == *old(self),
    {
        if sender != self.aton_address {
            return Err(VaultError::Unauthorized { account: sender });
        }
        let acc = self.accumulated_commission_per_token;
        kv_set(&mut self.last_commission_per_token, player, acc);
        proof {
            assert forall|a: u128| self.checkpoint_of(a) <= self.acc_per_share() by {
                if a != player {
                    assert(self.checkpoint_of(a) == old(self).checkpoint_of(a));
                }
            }
        }
        Ok(())
    }

    /// Fold a deposit of `new_commission_aton` into the global counters,
    /// given the reference-asset supply read from the oracle: no change with
    /// a zero supply, otherwise the accumulator grows by the truncated
    /// scaled per-share delta and the total by the deposit.
    pub fn _add_commission(&mut self, new_commission_aton: u128, total_supply: u128)
        requires
            old(self).wf(),
            total_supply > 0 ==> new_commission_aton * SCALE <= u128::MAX,
            total_supply > 0 ==> old(self).acc_per_share() + (new_commission_aton * SCALE) / (
            total_supply as int) <= u128::MAX,
            total_supply > 0 ==> old(self).total_deposited() + new_commission_aton <= u128::MAX,
        ensures
            final(self).wf(),
            final(self).acc_per_share() >= old(self).acc_per_share(),
            final(self).total_deposited() >= old(self).total_deposited(),
            total_supply == 0 ==> *final(self) == *old(self),
            total_supply > 0 ==> final(self).acc_per_share() == old(self).acc_per_share() + (
            new_commission_aton * SCALE) / (total_supply as int),
            total_supply > 0 ==> final(self).total_deposited() == old(self).total_deposited()
                + new_commission_aton,
            forall|a: u128| final(self).checkpoint_of(a) == old(self).checkpoint_of(a),
            forall|a: u128| final(self).claimed_of(a) == old(self).claimed_of(a),
            final(self).oracle_address() == old(self).oracle_address(),
    {
        if total_supply > 0 {
            let additional_commission = (new_commission_aton * SCALE) / total_supply;
            self.accumulated_commission_per_token = self.accumulated_commission_per_token
                + additional_commission;
            self.total_commission_in_aton = self.total_commission_in_aton + new_commission_aton;
        }
        proof {
            assert forall|a: u128| self.checkpoint_of(a) <= self.acc_per_share() by {
                assert(old(self).checkpoint_of(a) <= old(self).acc_per_share());
            }
        }
    }

    /// The reference-asset balance of `player`, read through the oracle.
    pub fn _balance_of<O: Oracle>(&self, oracle: &O, player: u128) -> (balance: u128)
        ensures
            balance == oracle.balance_of_spec(player),
    {
        oracle.balance_of(player)
    }

    /// The global commission-per-share accumulator, scaled by `SCALE`.
    pub fn accumulated_commission_per_token(&self) -> (value: u128)
        ensures
            value == self.acc_per_share(),
    {
        self.accumulated_commission_per_token
    }

    /// The running total of all commission ever successfully distributed.
    pub fn total_commission_in_aton(&self) -> (value: u128)
        ensures
            value == self.total_deposited(),
    {
        self.total_commission_in_aton
    }

    /// `account`'s checkpoint: the accumulator value at its last settlement.
    pub fn last_commission_per_token(&self, account: u128) -> (value: u128)
        ensures
            value == self.checkpoint_of(account),
    {
        kv_get(&self.last_commission_per_token, account)
    }

    /// `account`'s recorded claimed total.
    pub fn claimed_commissions(&self, account: u128) -> (value: u128)
        ensures
            value == self.claimed_of(account),
    {
        kv_get(&self.claimed_commissions, account)
    }
}

} // verus!
