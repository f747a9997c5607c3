//! Per-participant stake ledger.
//!
//! Each participant carries a staked amount and a reward-debt snapshot; the
//! snapshot lets the claimable balance be computed in constant time without
//! re-scanning history.

use vstd::prelude::*;
use vstd::arithmetic::div_mod::lemma_fundamental_div_mod;
use vstd::arithmetic::div_mod::lemma_mod_division_less_than_divisor;
use vstd::arithmetic::div_mod::lemma_div_pos_is_pos;
use vstd::arithmetic::mul::lemma_mul_by_zero_is_zero;
use vstd::arithmetic::mul::lemma_mul_nonnegative;
use crate::math::mul_saturating;
use crate::math::sat_mul_u128;
use crate::vault::RPT_SCALE;
use crate::vault::Vault;

verus! {

/// One participant's position in one vault.
#[derive(Clone, Copy, PartialEq, Eq, Structural, Debug)]
pub struct UserStake {
    /// Opaque reference to the participant.
    pub owner: u64,
    /// The host's globally unique reference to the vault record the
    /// position belongs to (on chain, the vault account's address).
    pub vault: u64,
    /// Currently staked balance.
    pub amount: u64,
    /// Fixed-point snapshot of `amount * acc_reward_per_token / RPT_SCALE`
    /// as of the last reconciliation of this position.
    pub reward_debt: u128,
    /// Distinguishes "never deposited" (0) from "fully withdrawn" (1).
    pub initialized: u8,
}

/// Rewards accrued in total by a position of size `amount` under the
/// accumulator value `acc_rpt`: `floor(amount * acc_rpt / RPT_SCALE)`,
/// with the product saturating at the top of the 128-bit domain.
pub open spec fn accrued_of(amount: u64, acc_rpt: u128) -> int {
    sat_mul_u128(amount as int, acc_rpt as int) / (RPT_SCALE as int)
}

/// The claimable balance of a position: total accrual minus the reward-debt
/// snapshot, floored at zero and capped to the 64-bit payout domain.
pub open spec fn pending_of(amount: u64, reward_debt: u128, acc_rpt: u128) -> int {
    if amount == 0 {
        0
    } else {
        let diff = if accrued_of(amount, acc_rpt) >= reward_debt {
            accrued_of(amount, acc_rpt) - reward_debt
        } else {
            0
        };
        if diff > u64::MAX {
            u64::MAX as int
        } else {
            diff
        }
    }
}

impl UserStake {
    /// Well-formedness of a position against its vault: the position never
    /// holds more than the pool, and its debt snapshot never runs ahead of
    /// the exact (unfloored) accrual.
    pub open spec fn wf(self, v: Vault) -> bool {
        &&& self.amount <= v.total_staked
        &&& self.initialized <= 1
        &&& self.initialized == 0 ==> self.amount == 0 && self.reward_debt == 0
        &&& RPT_SCALE * self.reward_debt <= self.amount * v.acc_reward_per_token
    }
}

/// A freshly recomputed debt snapshot never runs ahead of the exact
/// (unfloored, unsaturated) accrual: `RPT_SCALE * accrued_of(a, acc)` is at
/// most `a * acc`, and the accrual is never negative.  This is what lets
/// every reconciliation re-establish a position's well-formedness.
pub proof fn lemma_accrued_le_exact(amount: u64, acc_rpt: u128)
    ensures
        0 <= accrued_of(amount, acc_rpt),
        RPT_SCALE * accrued_of(amount, acc_rpt) <= amount * acc_rpt,
        amount == 0 ==> accrued_of(amount, acc_rpt) == 0,
{
    let p = sat_mul_u128(amount as int, acc_rpt as int);
    lemma_mul_nonnegative(amount as int, acc_rpt as int);
    lemma_mul_by_zero_is_zero(acc_rpt as int);
    lemma_fundamental_div_mod(p, RPT_SCALE as int);
    lemma_mod_division_less_than_divisor(p, RPT_SCALE as int);
    lemma_div_pos_is_pos(p, RPT_SCALE as int);
}

/// Recomputes the reward-debt snapshot of a position of size `amount` under
/// the accumulator value `acc_rpt`.
pub fn reward_debt(amount: u64, acc_rpt: u128) -> (r: u128)
    ensures
        r == accrued_of(amount, acc_rpt),
{
    let prod = mul_saturating(amount as u128, acc_rpt);
    prod / RPT_SCALE
}

/// The claimable balance of a position, in integral reward units.
///
/// Returns 0 for an empty position; otherwise the accrual minus the debt
/// snapshot, saturating at zero if bookkeeping ever drifted and capped to
/// the 64-bit domain rather than wrapping.
pub fn pending_rewards(user_amount: u64, reward_debt: u128, acc_rpt: u128) -> (r: u64)
    ensures
        r == pending_of(user_amount, reward_debt, acc_rpt),
{
    if user_amount == 0 {
        return 0;
    }
    let prod = mul_saturating(user_amount as u128, acc_rpt);
    let accrued = prod / RPT_SCALE;
    let diff = if accrued >= reward_debt {
        accrued - reward_debt
    } else {
        0
    };
    if diff > u64::MAX as u128 {
        u64::MAX
    } else {
        diff as u64
    }
}

} // verus!
