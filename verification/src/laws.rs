//! Ledger-level theorems about the engine.
//!
//! The exec operations act on one vault and one position at a time; the
//! statements here quantify over a whole ledger — the vault together with
//! every position it has — and show that the operations' transition
//! formulas preserve a conservation invariant strong enough to bound what
//! all participants together can ever claim.

use vstd::prelude::*;
use vstd::arithmetic::div_mod::lemma_fundamental_div_mod;
use vstd::arithmetic::div_mod::lemma_mod_division_less_than_divisor;
use vstd::arithmetic::mul::lemma_mul_by_zero_is_zero;
use vstd::arithmetic::mul::lemma_mul_is_commutative;
use vstd::arithmetic::mul::lemma_mul_is_distributive_add_other_way;
use vstd::arithmetic::mul::lemma_mul_is_distributive_sub;
use vstd::arithmetic::mul::lemma_mul_left_inequality;
use vstd::arithmetic::mul::lemma_mul_nonnegative;
use crate::emission::advance_spec;
use crate::stake::accrued_of;
use crate::stake::lemma_accrued_le_exact;
use crate::stake::pending_of;
use crate::stake::UserStake;
use crate::vault::RPT_SCALE;
use crate::vault::Vault;

verus! {

/// Sum of all staked amounts in a ledger.
pub open spec fn total_amount(ss: Seq<UserStake>) -> int
    decreases ss.len(),
{
    if ss.len() == 0 {
        0
    } else {
        total_amount(ss.drop_last()) + ss.last().amount
    }
}

/// A position's exact scaled entitlement: the value its balance has earned
/// under the accumulator, minus what its debt snapshot already accounts
/// for, carried at full `RPT_SCALE` precision with no flooring.
pub open spec fn entitlement(s: UserStake, acc_rpt: u128) -> int {
    s.amount * acc_rpt - RPT_SCALE * s.reward_debt
}

/// Sum of the exact scaled entitlements of a ledger.
pub open spec fn entitlement_sum(ss: Seq<UserStake>, acc_rpt: u128) -> int
    decreases ss.len(),
{
    if ss.len() == 0 {
        0
    } else {
        entitlement_sum(ss.drop_last(), acc_rpt) + entitlement(ss.last(), acc_rpt)
    }
}

/// Sum of the claimable balances of a ledger.
pub open spec fn pending_sum(ss: Seq<UserStake>, acc_rpt: u128) -> int
    decreases ss.len(),
{
    if ss.len() == 0 {
        0
    } else {
        pending_sum(ss.drop_last(), acc_rpt) + pending_of(
            ss.last().amount,
            ss.last().reward_debt,
            acc_rpt,
        )
    }
}

/// Every position of the ledger is well-formed against the vault.
pub open spec fn positions_wf(v: Vault, ss: Seq<UserStake>) -> bool {
    forall|i: int| 0 <= i < ss.len() ==> (#[trigger] ss[i]).wf(v)
}

/// The conservation invariant of a ledger: the vault is well-formed, the
/// pool equals the sum of the positions, and everything already paid out
/// plus every exact entitlement still outstanding is covered by the units
/// the distributor has been handed.
pub open spec fn ledger_inv(v: Vault, ss: Seq<UserStake>, paid: int) -> bool {
    &&& v.wf()
    &&& 0 <= paid
    &&& total_amount(ss) == v.total_staked
    &&& positions_wf(v, ss)
    &&& RPT_SCALE * paid + entitlement_sum(ss, v.acc_reward_per_token) <= RPT_SCALE
        * v.allocated()
}

proof fn lemma_total_amount_update(ss: Seq<UserStake>, i: int, s2: UserStake)
    requires
        0 <= i < ss.len(),
    ensures
        total_amount(ss.update(i, s2)) == total_amount(ss) - ss[i].amount + s2.amount,
    decreases ss.len(),
{
    let ss2 = ss.update(i, s2);
    if i == ss.len() - 1 {
        assert(ss2.drop_last() =~= ss.drop_last());
    } else {
        assert(ss2.drop_last() =~= ss.drop_last().update(i, s2));
        lemma_total_amount_update(ss.drop_last(), i, s2);
        assert(ss2.last() == ss.last());
    }
}

proof fn lemma_entitlement_sum_update(ss: Seq<UserStake>, acc_rpt: u128, i: int, s2: UserStake)
    requires
        0 <= i < ss.len(),
    ensures
        entitlement_sum(ss.update(i, s2), acc_rpt) == entitlement_sum(ss, acc_rpt)
            - entitlement(ss[i], acc_rpt) + entitlement(s2, acc_rpt),
    decreases ss.len(),
{
    let ss2 = ss.update(i, s2);
    if i == ss.len() - 1 {
        assert(ss2.drop_last() =~= ss.drop_last());
    } else {
        assert(ss2.drop_last() =~= ss.drop_last().update(i, s2));
        lemma_entitlement_sum_update(ss.drop_last(), acc_rpt, i, s2);
        assert(ss2.last() == ss.last());
    }
}

/// Raising the accumulator raises the summed entitlement by exactly the
/// staked total times the increment.
proof fn lemma_entitlement_sum_shift(ss: Seq<UserStake>, acc1: u128, acc2: u128)
    ensures
        entitlement_sum(ss, acc2) == entitlement_sum(ss, acc1) + total_amount(ss) * (
        acc2 - acc1),
    decreases ss.len(),
{
    if ss.len() == 0 {
        lemma_mul_by_zero_is_zero(acc2 - acc1);
    } else {
        lemma_entitlement_sum_shift(ss.drop_last(), acc1, acc2);
        let s = ss.last();
        lemma_mul_is_distributive_sub(s.amount as int, acc2 as int, acc1 as int);
        lemma_mul_is_commutative(s.amount as int, acc2 - acc1);
        lemma_mul_is_distributive_add_other_way(
            acc2 - acc1,
            total_amount(ss.drop_last()),
            s.amount as int,
        );
    }
}

proof fn lemma_total_amount_nonneg(ss: Seq<UserStake>)
    ensures
        0 <= total_amount(ss),
    decreases ss.len(),
{
    if ss.len() > 0 {
        lemma_total_amount_nonneg(ss.drop_last());
    }
}

/// Every single position holds at most the summed total.
proof fn lemma_element_le_total(ss: Seq<UserStake>, j: int)
    requires
        0 <= j < ss.len(),
    ensures
        ss[j].amount <= total_amount(ss),
    decreases ss.len(),
{
    if j == ss.len() - 1 {
        lemma_total_amount_nonneg(ss.drop_last());
    } else {
        lemma_element_le_total(ss.drop_last(), j);
        assert(ss.drop_last()[j] == ss[j]);
    }
}

/// A position's claimable balance, scaled up, never exceeds its exact
/// entitlement.
proof fn lemma_pending_le_entitlement(s: UserStake, acc_rpt: u128)
    requires
        RPT_SCALE * s.reward_debt <= s.amount * acc_rpt,
    ensures
        0 <= pending_of(s.amount, s.reward_debt, acc_rpt),
        RPT_SCALE * pending_of(s.amount, s.reward_debt, acc_rpt) <= entitlement(s, acc_rpt),
{
    lemma_accrued_le_exact(s.amount, acc_rpt);
    if s.amount == 0 {
        lemma_mul_by_zero_is_zero(acc_rpt as int);
    }
}

/// Summed claimable balances, scaled up, never exceed the summed exact
/// entitlements.
proof fn lemma_pending_sum_le(v: Vault, ss: Seq<UserStake>)
    requires
        positions_wf(v, ss),
    ensures
        0 <= pending_sum(ss, v.acc_reward_per_token),
        RPT_SCALE * pending_sum(ss, v.acc_reward_per_token) <= entitlement_sum(
            ss,
            v.acc_reward_per_token,
        ),
    decreases ss.len(),
{
    if ss.len() > 0 {
        assert forall|i: int| 0 <= i < ss.drop_last().len() implies (#[trigger] ss.drop_last()[i]).wf(
            v,
        ) by {
            assert(ss.drop_last()[i] == ss[i]);
        }
        lemma_pending_sum_le(v, ss.drop_last());
        assert(ss[ss.len() - 1].wf(v));
        lemma_pending_le_entitlement(ss.last(), v.acc_reward_per_token);
    }
}

/// A freshly created vault with no positions satisfies the conservation
/// invariant: nothing emitted, nothing staked, nothing owed.
pub proof fn lemma_ledger_init(v: Vault)
    requires
        v.wf(),
        v.emitted == 0,
        v.unallocated == 0,
        v.total_staked == 0,
    ensures
        ledger_inv(v, Seq::<UserStake>::empty(), 0),
{
}

/// A new participant joining with an untouched position preserves the
/// conservation invariant: an empty position owes and is owed nothing.
pub proof fn lemma_join_preserves_ledger(v: Vault, ss: Seq<UserStake>, paid: int, s: UserStake)
    requires
        ledger_inv(v, ss, paid),
        s.amount == 0,
        s.reward_debt == 0,
        s.initialized <= 1,
    ensures
        ledger_inv(v, ss.push(s), paid),
{
    let ss2 = ss.push(s);
    assert(ss2.drop_last() =~= ss);
    assert(entitlement(s, v.acc_reward_per_token) == 0) by {
        lemma_mul_by_zero_is_zero(v.acc_reward_per_token as int);
    }
    assert forall|j: int| 0 <= j < ss2.len() implies (#[trigger] ss2[j]).wf(v) by {
        if j < ss.len() {
            assert(ss2[j] == ss[j]);
            assert(ss[j].wf(v));
        } else {
            lemma_mul_by_zero_is_zero(v.acc_reward_per_token as int);
        }
    }
}

/// An emission advance preserves the conservation invariant: the value the
/// distributor credits to the pool is covered by the units it was handed.
pub proof fn lemma_advance_preserves_ledger(v: Vault, ss: Seq<UserStake>, paid: int, now: int)
    requires
        ledger_inv(v, ss, paid),
    ensures
        ledger_inv(advance_spec(v, now), ss, paid),
{
    let va = advance_spec(v, now);
    crate::emission::lemma_advance_props(v, now);
    lemma_entitlement_sum_shift(ss, v.acc_reward_per_token, va.acc_reward_per_token);
    assert forall|i: int| 0 <= i < ss.len() implies (#[trigger] ss[i]).wf(va) by {
        assert(ss[i].wf(v));
        if ss[i].amount > 0 {
            lemma_mul_left_inequality(
                ss[i].amount as int,
                v.acc_reward_per_token as int,
                va.acc_reward_per_token as int,
            );
        } else {
            lemma_mul_by_zero_is_zero(v.acc_reward_per_token as int);
            lemma_mul_by_zero_is_zero(va.acc_reward_per_token as int);
        }
    }
}

/// A claim payout preserves the conservation invariant: whatever is paid
/// out (never more than the claimable balance) is retired from the
/// position's entitlement by the refreshed debt snapshot.
pub proof fn lemma_claim_preserves_ledger(
    v: Vault,
    ss: Seq<UserStake>,
    paid: int,
    i: int,
    pay: int,
)
    requires
        ledger_inv(v, ss, paid),
        0 <= i < ss.len(),
        0 <= pay <= pending_of(ss[i].amount, ss[i].reward_debt, v.acc_reward_per_token),
        ss[i].amount * v.acc_reward_per_token <= u128::MAX,
    ensures
        ledger_inv(
            v,
            ss.update(
                i,
                UserStake {
                    reward_debt: accrued_of(ss[i].amount, v.acc_reward_per_token) as u128,
                    ..ss[i]
                },
            ),
            paid + pay,
        ),
{
    let acc = v.acc_reward_per_token;
    let s = ss[i];
    let s2 = UserStake { reward_debt: accrued_of(s.amount, acc) as u128, ..s };
    assert(s.wf(v));
    lemma_accrued_le_exact(s.amount, acc);
    // the old debt cannot exceed the freshly floored accrual
    lemma_fundamental_div_mod(s.amount * acc, RPT_SCALE as int);
    lemma_mod_division_less_than_divisor(s.amount * acc, RPT_SCALE as int);
    let exact = s.amount * acc;
    assert(accrued_of(s.amount, acc) == exact / (RPT_SCALE as int));
    assert(s.reward_debt <= exact / (RPT_SCALE as int)) by {
        if s.reward_debt > exact / (RPT_SCALE as int) {
            lemma_mul_left_inequality(
                RPT_SCALE as int,
                exact / (RPT_SCALE as int) + 1,
                s.reward_debt as int,
            );
        }
    }
    lemma_total_amount_update(ss, i, s2);
    lemma_entitlement_sum_update(ss, acc, i, s2);
    let ss2 = ss.update(i, s2);
    assert forall|j: int| 0 <= j < ss2.len() implies (#[trigger] ss2[j]).wf(v) by {
        if j != i {
            assert(ss2[j] == ss[j]);
            assert(ss[j].wf(v));
        }
    }
}

/// A deposit reconciled at an exact point (the grown balance times the
/// accumulator divides evenly by the scale) preserves the conservation
/// invariant: the refreshed debt snapshot absorbs the whole entitlement.
///
/// The exactness hypothesis is essential, not a proof convenience: at a
/// non-divisible point the flooring of the new debt snapshot hands the
/// position a sub-unit entitlement that no emission backed, and with enough
/// such reconciliations the summed claimable balances really can exceed
/// the emitted total.
pub proof fn lemma_deposit_preserves_ledger(
    v: Vault,
    ss: Seq<UserStake>,
    paid: int,
    i: int,
    amount: u64,
)
    requires
        ledger_inv(v, ss, paid),
        0 <= i < ss.len(),
        amount > 0,
        v.total_staked + amount <= u64::MAX,
        ((ss[i].amount + amount) * v.acc_reward_per_token) % (RPT_SCALE as int) == 0,
        (ss[i].amount + amount) * v.acc_reward_per_token <= u128::MAX,
    ensures
        ledger_inv(
            (Vault { total_staked: (v.total_staked + amount) as u64, ..v }),
            ss.update(
                i,
                UserStake {
                    amount: (ss[i].amount + amount) as u64,
                    reward_debt: accrued_of(
                        (ss[i].amount + amount) as u64,
                        v.acc_reward_per_token,
                    ) as u128,
                    initialized: 1,
                    ..ss[i]
                },
            ),
            paid,
        ),
{
    let acc = v.acc_reward_per_token;
    let s = ss[i];
    let a2 = (s.amount + amount) as u64;
    let s2 = UserStake {
        amount: a2,
        reward_debt: accrued_of(a2, acc) as u128,
        initialized: 1,
        ..s
    };
    let v2 = Vault { total_staked: (v.total_staked + amount) as u64, ..v };
    assert(s.wf(v));
    lemma_accrued_le_exact(a2, acc);
    // exact reconciliation: the new entitlement is exactly zero
    lemma_fundamental_div_mod(a2 * acc, RPT_SCALE as int);
    assert(entitlement(s2, acc) == 0);
    lemma_mul_nonnegative(s.amount as int, acc as int);
    assert(entitlement(s, acc) >= 0);
    lemma_total_amount_update(ss, i, s2);
    lemma_entitlement_sum_update(ss, acc, i, s2);
    let ss2 = ss.update(i, s2);
    assert forall|j: int| 0 <= j < ss2.len() implies (#[trigger] ss2[j]).wf(v2) by {
        if j != i {
            assert(ss2[j] == ss[j]);
            assert(ss[j].wf(v));
        }
    }
}

/// A withdrawal reconciled at an exact point preserves the conservation
/// invariant, optionally paying out the claimable balance first.
pub proof fn lemma_withdraw_preserves_ledger(
    v: Vault,
    ss: Seq<UserStake>,
    paid: int,
    i: int,
    amount: u64,
    pay: int,
)
    requires
        ledger_inv(v, ss, paid),
        0 <= i < ss.len(),
        0 < amount <= ss[i].amount,
        0 <= pay <= pending_of(ss[i].amount, ss[i].reward_debt, v.acc_reward_per_token),
        ss[i].amount * v.acc_reward_per_token <= u128::MAX,
        ((ss[i].amount - amount) * v.acc_reward_per_token) % (RPT_SCALE as int) == 0,
    ensures
        ledger_inv(
            (Vault { total_staked: (v.total_staked - amount) as u64, ..v }),
            ss.update(
                i,
                UserStake {
                    amount: (ss[i].amount - amount) as u64,
                    reward_debt: accrued_of(
                        (ss[i].amount - amount) as u64,
                        v.acc_reward_per_token,
                    ) as u128,
                    ..ss[i]
                },
            ),
            paid + pay,
        ),
{
    let acc = v.acc_reward_per_token;
    let s = ss[i];
    let a2 = (s.amount - amount) as u64;
    let s2 = UserStake { amount: a2, reward_debt: accrued_of(a2, acc) as u128, ..s };
    let v2 = Vault { total_staked: (v.total_staked - amount) as u64, ..v };
    assert(s.wf(v));
    lemma_element_le_total(ss, i);
    lemma_accrued_le_exact(a2, acc);
    // the smaller balance has no saturation either
    assert(a2 * acc <= s.amount * acc) by {
        if acc > 0 {
            lemma_mul_is_commutative(a2 as int, acc as int);
            lemma_mul_is_commutative(s.amount as int, acc as int);
            lemma_mul_left_inequality(acc as int, a2 as int, s.amount as int);
        } else {
            lemma_mul_by_zero_is_zero(a2 as int);
            lemma_mul_by_zero_is_zero(s.amount as int);
            lemma_mul_is_commutative(a2 as int, acc as int);
            lemma_mul_is_commutative(s.amount as int, acc as int);
        }
    }
    // exact reconciliation: the new entitlement is exactly zero
    lemma_fundamental_div_mod(a2 * acc, RPT_SCALE as int);
    assert(entitlement(s2, acc) == 0);
    // the payout is covered by the old entitlement
    lemma_pending_le_entitlement(s, acc);
    lemma_total_amount_update(ss, i, s2);
    lemma_entitlement_sum_update(ss, acc, i, s2);
    let ss2 = ss.update(i, s2);
    assert forall|j: int| 0 <= j < ss2.len() implies (#[trigger] ss2[j]).wf(v2) by {
        lemma_total_amount_update(ss, i, s2);
        if j != i {
            assert(ss2[j] == ss[j]);
            assert(ss[j].wf(v));
            lemma_element_le_total(ss2, j);
        }
    }
}

/// Conservation: under the ledger invariant, everything already paid out
/// plus everything still claimable never exceeds the funded reward, and the
/// emitted total never exceeds it either.
pub proof fn lemma_conservation_bound(v: Vault, ss: Seq<UserStake>, paid: int)
    requires
        ledger_inv(v, ss, paid),
    ensures
        0 <= pending_sum(ss, v.acc_reward_per_token),
        paid + pending_sum(ss, v.acc_reward_per_token) <= v.reward_net,
        v.emitted <= v.reward_net,
{
    lemma_pending_sum_le(v, ss);
}

/// Fairness: two positions with equal balances and equal debt snapshots
/// have equal claimable balances under any common accumulator value.  Two
/// participants who stake equal amounts at the same accumulator point get
/// equal snapshots, so equal stakes over equal durations claim equally.
pub proof fn lemma_equal_positions_equal_pending(s1: UserStake, s2: UserStake, acc_rpt: u128)
    requires
        s1.amount == s2.amount,
        s1.reward_debt == s2.reward_debt,
    ensures
        pending_of(s1.amount, s1.reward_debt, acc_rpt) == pending_of(
            s2.amount,
            s2.reward_debt,
            acc_rpt,
        ),
{
}

} // verus!
