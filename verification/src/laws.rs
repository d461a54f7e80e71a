//! Ledger-wide laws, stated over the transition relations of [`crate::vault`]
//! and proved once and for all: monotonicity of the global counters, the
//! checkpoint bound as an invariant of every reachable state, and idempotence
//! of the checkpoint reset.

use crate::vault::Vault;
use crate::vault::accumulate_rel;
use crate::vault::clear_rel;
use crate::vault::initialize_rel;
use crate::vault::pending_commission_of;
use crate::vault::PCT_DENOM;
use crate::vault::SCALE;
use vstd::arithmetic::div_mod::lemma_div_denominator;
use vstd::arithmetic::div_mod::lemma_div_multiples_vanish_quotient;
use vstd::arithmetic::div_mod::lemma_div_pos_is_pos;
use vstd::arithmetic::mul::lemma_mul_inequality;
use vstd::arithmetic::mul::lemma_mul_nonnegative;
use vstd::prelude::*;

verus! {

/// One atomic ledger operation, observed at the state level: a pure read or
/// a failed mutation (both change nothing), a successful one-time
/// initialization, a successful checkpoint reset, or a successful deposit.
pub open spec fn ledger_step(pre: Vault, post: Vault) -> bool {
    ||| post == pre
    ||| initialize_rel(pre, post)
    ||| exists|player: u128| clear_rel(pre, post, player)
    ||| exists|amount: u128, supply: u128| accumulate_rel(pre, post, amount, supply)
}

/// Monotonicity, one step: no ledger operation ever decreases the global
/// accumulator or the running total of deposits.
pub proof fn lemma_step_monotonic(pre: Vault, post: Vault)
    requires
        ledger_step(pre, post),
    ensures
        pre.acc_per_share() <= post.acc_per_share(),
        pre.total_deposited() <= post.total_deposited(),
{
    if post == pre {
    } else if initialize_rel(pre, post) {
    } else if exists|player: u128| clear_rel(pre, post, player) {
    } else {
        let (amount, supply) = choose|amount: u128, supply: u128|
            accumulate_rel(pre, post, amount, supply);
        if supply > 0 {
            lemma_mul_nonnegative(amount as int, SCALE as int);
            lemma_div_pos_is_pos((amount * SCALE) as int, supply as int);
        }
    }
}

/// Monotonicity over whole histories: along any sequence of states linked by
/// ledger operations, the global accumulator and the running total of
/// deposits are non-decreasing.
pub proof fn lemma_monotonic_over_sequence(states: Seq<Vault>)
    requires
        forall|k: int| 0 <= k < states.len() - 1 ==> #[trigger] ledger_step(states[k], states[k + 1]),
    ensures
        forall|i: int, j: int|
            0 <= i <= j < states.len() ==> states[i].acc_per_share() <= states[j].acc_per_share()
                && states[i].total_deposited() <= states[j].total_deposited(),
{
    assert forall|i: int, j: int| 0 <= i <= j < states.len() implies states[i].acc_per_share()
        <= states[j].acc_per_share() && states[i].total_deposited()
        <= states[j].total_deposited() by {
        lemma_reach_monotonic(states, i, j);
    }
}

proof fn lemma_reach_monotonic(states: Seq<Vault>, i: int, j: int)
    requires
        0 <= i <= j < states.len(),
        forall|k: int| 0 <= k < states.len() - 1 ==> #[trigger] ledger_step(states[k], states[k + 1]),
    ensures
        states[i].acc_per_share() <= states[j].acc_per_share(),
        states[i].total_deposited() <= states[j].total_deposited(),
    decreases j - i,
{
    if i < j {
        lemma_reach_monotonic(states, i, j - 1);
        assert(ledger_step(states[j - 1], states[j - 1 + 1]));
        lemma_step_monotonic(states[j - 1], states[j]);
    }
}

/// The checkpoint bound, one step: every ledger operation preserves the
/// invariant that no account's checkpoint is ahead of the global
/// accumulator.
pub proof fn lemma_step_preserves_wf(pre: Vault, post: Vault)
    requires
        pre.wf(),
        ledger_step(pre, post),
    ensures
        post.wf(),
{
    lemma_step_monotonic(pre, post);
    if post == pre {
    } else if initialize_rel(pre, post) {
        assert forall|a: u128| post.checkpoint_of(a) <= post.acc_per_share() by {
            assert(pre.checkpoint_of(a) <= pre.acc_per_share());
        }
    } else if exists|player: u128| clear_rel(pre, post, player) {
        let player = choose|player: u128| clear_rel(pre, post, player);
        assert forall|a: u128| post.checkpoint_of(a) <= post.acc_per_share() by {
            if a != player {
                assert(pre.checkpoint_of(a) <= pre.acc_per_share());
            }
        }
    } else {
        let (amount, supply) = choose|amount: u128, supply: u128|
            accumulate_rel(pre, post, amount, supply);
        assert forall|a: u128| post.checkpoint_of(a) <= post.acc_per_share() by {
            assert(pre.checkpoint_of(a) <= pre.acc_per_share());
        }
    }
}

/// The checkpoint bound over whole histories: starting from a well-formed
/// state (such as genesis), every state reachable by ledger operations
/// satisfies `checkpoint_of(a) <= acc_per_share()` for every account.
pub proof fn lemma_wf_over_sequence(states: Seq<Vault>)
    requires
        states.len() > 0,
        states[0].wf(),
        forall|k: int| 0 <= k < states.len() - 1 ==> #[trigger] ledger_step(states[k], states[k + 1]),
    ensures
        forall|i: int| 0 <= i < states.len() ==> states[i].wf(),
{
    assert forall|i: int| 0 <= i < states.len() implies states[i].wf() by {
        lemma_wf_at(states, i);
    }
}

proof fn lemma_wf_at(states: Seq<Vault>, i: int)
    requires
        0 <= i < states.len(),
        states[0].wf(),
        forall|k: int| 0 <= k < states.len() - 1 ==> #[trigger] ledger_step(states[k], states[k + 1]),
    ensures
        states[i].wf(),
    decreases i,
{
    if i > 0 {
        lemma_wf_at(states, i - 1);
        assert(ledger_step(states[i - 1], states[i - 1 + 1]));
        lemma_step_preserves_wf(states[i - 1], states[i]);
    }
}

/// Idempotence of the checkpoint reset: two consecutive successful resets of
/// the same account, with no accrual in between, leave the second call with
/// nothing to change — the whole ledger state is the same after the second
/// reset as after the first.
pub proof fn lemma_clear_commission_idempotent(v0: Vault, v1: Vault, v2: Vault, player: u128)
    requires
        clear_rel(v0, v1, player),
        clear_rel(v1, v2, player),
    ensures
        v2.checkpoint_of(player) == v1.checkpoint_of(player),
        forall|a: u128| v2.checkpoint_of(a) == v1.checkpoint_of(a),
        forall|a: u128| v2.claimed_of(a) == v1.claimed_of(a),
        v2.acc_per_share() == v1.acc_per_share(),
        v2.total_deposited() == v1.total_deposited(),
        v2.oracle_address() == v1.oracle_address(),
{
    assert forall|a: u128| v2.checkpoint_of(a) == v1.checkpoint_of(a) by {
        if a != player {
            assert(v2.checkpoint_of(a) == v1.checkpoint_of(a));
        }
    }
}

/// Where no intermediate product overflows the word size, the two-stage
/// fixed-point reduction cancels its secondary denominator exactly: the
/// reported pending commission is the raw weighted growth scaled down once,
/// `(balance * owed_per_share) / SCALE`, with truncating division.
pub proof fn lemma_pending_commission_exact(balance: u128, owed_per_share: u128)
    requires
        balance * owed_per_share * PCT_DENOM <= u128::MAX,
    ensures
        pending_commission_of(balance, owed_per_share) == (balance * owed_per_share) / (
        SCALE as int),
{
    let raw = balance * owed_per_share;
    let p = PCT_DENOM as int;
    let s = SCALE as int;
    lemma_mul_nonnegative(balance as int, owed_per_share as int);
    lemma_mul_inequality(1, p, raw);
    assert(raw <= raw * p);
    let scaled = raw * p / s;
    lemma_mul_nonnegative(raw, p);
    lemma_div_denominator(raw * p, s, p);
    assert(scaled / p == (raw * p) / (s * p));
    lemma_div_multiples_vanish_quotient(p, raw, s);
    assert(raw / s == (p * raw) / (p * s));
    assert(scaled / p == raw / s);
    if scaled > 0 {
        assert(pending_commission_of(balance, owed_per_share) == scaled / p);
    } else {
        lemma_div_pos_is_pos(raw * p, s);
        assert(scaled == 0);
        assert(pending_commission_of(balance, owed_per_share) == 0);
    }
}

/// Where no intermediate product overflows the word size, the reported
/// pending commission grows monotonically with the unsettled accumulator
/// growth.  (On an overflowing product the report degrades to zero instead,
/// so the claim is stated on the non-overflowing domain.)
pub proof fn lemma_pending_commission_monotone(balance: u128, owed_low: u128, owed_high: u128)
    requires
        owed_low <= owed_high,
        balance * owed_high * PCT_DENOM <= u128::MAX,
    ensures
        pending_commission_of(balance, owed_low) <= pending_commission_of(balance, owed_high),
{
    lemma_mul_inequality(owed_low as int, owed_high as int, balance as int);
    assert(balance * owed_low <= balance * owed_high);
    lemma_mul_nonnegative(balance as int, owed_low as int);
    lemma_mul_inequality(balance * owed_low, balance * owed_high, PCT_DENOM as int);
    assert(balance * owed_low * PCT_DENOM <= u128::MAX);
    lemma_pending_commission_exact(balance, owed_low);
    lemma_pending_commission_exact(balance, owed_high);
    vstd::arithmetic::div_mod::lemma_div_is_ordered(
        balance * owed_low,
        balance * owed_high,
        SCALE as int,
    );
}

/// On every input, overflowing ones included, the reported pending
/// commission never exceeds the raw weighted growth scaled down once:
/// `(balance * owed_per_share) / SCALE`.
pub proof fn lemma_pending_commission_bounded(balance: u128, owed_per_share: u128)
    ensures
        pending_commission_of(balance, owed_per_share) <= (balance * owed_per_share) / (
        SCALE as int),
{
    let raw = balance * owed_per_share;
    lemma_mul_nonnegative(balance as int, owed_per_share as int);
    lemma_div_pos_is_pos(raw, SCALE as int);
    if raw > u128::MAX {
        assert(pending_commission_of(balance, owed_per_share) == 0);
    } else if raw * PCT_DENOM > u128::MAX {
        assert(pending_commission_of(balance, owed_per_share) == 0);
    } else {
        lemma_pending_commission_exact(balance, owed_per_share);
    }
}

} // verus!
