//! The balance-and-supply oracle: the external collaborator that owns the
//! reference asset's balances, its total supply and its custody transfers.
//!
//! The ledger consumes the oracle through the [`Oracle`] capability trait, so
//! the core never assumes a concrete transport.  [`MemoryOracle`] is a
//! verified in-memory implementation, suitable for tests and simulations.

use crate::kv::kv_get;
use crate::kv::kv_lookup;
use crate::kv::kv_set;
use vstd::prelude::*;

verus! {

/// The capability set the ledger consumes from the balance-and-supply oracle.
///
/// An implementation decides, through `can_transfer_from`, on which states and
/// arguments a custody transfer succeeds; the exec methods are bound to the
/// spec-level state so that callers can reason exactly about what they read.
pub trait Oracle {
    /// The current total circulating supply of the reference asset.
    spec fn total_supply_spec(&self) -> u128;

    /// The reference-asset balance of `owner`.
    spec fn balance_of_spec(&self, owner: u128) -> u128;

    /// Whether a transfer of `amount` from `from` to `to` succeeds in the
    /// oracle's current state.
    spec fn can_transfer_from(&self, from: u128, to: u128, amount: u128) -> bool;

    /// Read the current total supply of the reference asset.
    fn total_supply(&self) -> (supply: u128)
        ensures
            supply == self.total_supply_spec(),
    ;

    /// Read the reference-asset balance of `owner`.
    fn balance_of(&self, owner: u128) -> (balance: u128)
        ensures
            balance == self.balance_of_spec(owner),
    ;

    /// Move `amount` units of the reference asset from `from` to `to`.
    ///
    /// Succeeds exactly when the oracle's own `can_transfer_from` admits the
    /// transfer; a transfer never mints or burns, so the total supply is
    /// unchanged, and a failed transfer moves nothing.
    fn transfer_from(&mut self, from: u128, to: u128, amount: u128) -> (ok: bool)
        ensures
            ok == old(self).can_transfer_from(from, to, amount),
            final(self).total_supply_spec() == old(self).total_supply_spec(),
            ok ==> old(self).balance_of_spec(from) >= amount,
            !ok ==> forall|a: u128|
                final(self).balance_of_spec(a) == old(self).balance_of_spec(a),
            ok && from == to ==> forall|a: u128|
                final(self).balance_of_spec(a) == old(self).balance_of_spec(a),
            ok && from != to ==> final(self).balance_of_spec(from)
                == old(self).balance_of_spec(from) - amount,
            ok && from != to ==> final(self).balance_of_spec(to)
                == old(self).balance_of_spec(to) + amount,
            forall|a: u128| a != from && a != to
                ==> final(self).balance_of_spec(a) == old(self).balance_of_spec(a),
    ;
}

/// A verified in-memory oracle: balances in a key-value store and a stored
/// total supply.  A transfer succeeds when the payer's balance covers the
/// amount and crediting the payee cannot overflow.
pub struct MemoryOracle {
    balances: Vec<(u128, u128)>,
    supply: u128,
}

impl MemoryOracle {
    /// A fresh oracle with the given total supply and all balances zero.
    pub fn new(total_supply: u128) -> (oracle: MemoryOracle)
        ensures
            oracle.total_supply_spec() == total_supply,
            forall|a: u128| oracle.balance_of_spec(a) == 0,
    {
        MemoryOracle { balances: Vec::new(), supply: total_supply }
    }

    /// Set `account`'s balance outright, leaving every other balance and the
    /// total supply unchanged.
    pub fn set_balance(&mut self, account: u128, balance: u128)
        ensures
            final(self).balance_of_spec(account) == balance,
            forall|a: u128| a != account
                ==> final(self).balance_of_spec(a) == old(self).balance_of_spec(a),
            final(self).total_supply_spec() == old(self).total_supply_spec(),
    {
        kv_set(&mut self.balances, account, balance);
    }
}

impl Oracle for MemoryOracle {
    closed spec fn total_supply_spec(&self) -> u128 {
        self.supply
    }

    closed spec fn balance_of_spec(&self, owner: u128) -> u128 {
        kv_lookup(self.balances@, owner)
    }

    open spec fn can_transfer_from(&self, from: u128, to: u128, amount: u128) -> bool {
        &&& self.balance_of_spec(from) >= amount
        &&& (from != to ==> self.balance_of_spec(to) + amount <= u128::MAX)
    }

    fn total_supply(&self) -> (supply: u128) {
        self.supply
    }

    fn balance_of(&self, owner: u128) -> (balance: u128) {
        kv_get(&self.balances, owner)
    }

    fn transfer_from(&mut self, from: u128, to: u128, amount: u128) -> (ok: bool) {
        let from_balance = kv_get(&self.balances, from);
        if from_balance < amount {
            return false;
        }
        if from == to {
            return true;
        }
        let to_balance = kv_get(&self.balances, to);
        if to_balance > u128::MAX - amount {
            return false;
        }
        kv_set(&mut self.balances, from, from_balance - amount);
        kv_set(&mut self.balances, to, to_balance + amount);
        true
    }
}

} // verus!
