//! Lifecycle controller: create, deposit, claim, withdraw, close.
//!
//! Every operation is a pure state transition from the current records plus
//! the caller-observed time to new records and a custody decision.  The
//! host performs the decided transfers; when an operation returns an error
//! it leaves every record unchanged, so the host has nothing to roll back.

use vstd::prelude::*;
use vstd::math::min;
use vstd::arithmetic::div_mod::lemma_div_is_ordered;
use vstd::arithmetic::mul::lemma_mul_inequality;
use crate::emission::advance_spec;
use crate::emission::update_rewards;
use crate::errors::VaultError;
use crate::stake::accrued_of;
use crate::stake::lemma_accrued_le_exact;
use crate::stake::pending_of;
use crate::stake::pending_rewards;
use crate::stake::reward_debt;
use crate::stake::UserStake;
use crate::vault::FEE_BPS;
use crate::vault::FEE_DENOM;
use crate::vault::RATE_SCALE;
use crate::vault::TERM_SECS;
use crate::vault::Vault;
use crate::admin::GlobalState;

verus! {

/// Deployment options of the engine.  The two vault variants in the wild
/// differ only in these switches.
#[derive(Clone, Copy, PartialEq, Eq, Structural, Debug)]
pub struct VaultPolicy {
    /// Reject deposits outside `[start_time, end_time]`.
    pub enforce_deposit_window: bool,
    /// Closure is a forced reclaim after a long grace period: remaining
    /// escrow is swept to the treasury and the pool is zeroed, instead of
    /// requiring the pool to be already empty.
    pub forced_close: bool,
    /// Seconds past `end_time` before a forced closure is permitted.
    pub forced_close_grace_secs: i64,
    /// Whether one creator/asset pair may address several vaults; purely an
    /// addressing concern of the storage layer, carried here so a host can
    /// keep its whole deployment configuration in one record.
    pub multi_vault_per_creator: bool,
}

/// The protocol skim for a funded reward amount: exactly `FEE_BPS` basis
/// points of it, floored.  The product is carried in the wide domain, so
/// the skim is exact for every 64-bit funding amount.
pub open spec fn fee_of(reward_net: u64) -> int {
    reward_net * FEE_BPS / (FEE_DENOM as int)
}

/// The start time a creation request resolves to: the caller-supplied time,
/// or five minutes from now.
pub open spec fn resolved_start(maybe_start_time: Option<i64>, now: i64) -> int {
    match maybe_start_time {
        Some(s) => s as int,
        None => now + 300,
    }
}

/// The units a payout actually moves: the claimable balance, clamped by the
/// balance the reward custody account really holds.
pub open spec fn payout_of(user: UserStake, acc_rpt: u128, reward_balance: u64) -> int {
    min(pending_of(user.amount, user.reward_debt, acc_rpt), reward_balance as int)
}

/// Validates a creation request and builds the vault record.
///
/// The caller funds `reward_gross = reward_net + fee` into the reward
/// custody account and the fee is skimmed out again immediately; both
/// transfers, like the flat creation fee, are the host's work and their
/// amounts are read off the returned record.
pub fn create_vault(
    state: &GlobalState,
    reward_net: u64,
    maybe_start_time: Option<i64>,
    now: i64,
    vault_id: u64,
    creator: u64,
    mint: u64,
) -> (r: Result<Vault, VaultError>)
    requires
        maybe_start_time is None ==> now + 300 <= i64::MAX,
        resolved_start(maybe_start_time, now) + TERM_SECS <= i64::MAX,
    ensures
        state.new_vaults_disabled ==> r == Err::<Vault, VaultError>(
            VaultError::VaultCreationDisabled,
        ),
        !state.new_vaults_disabled && reward_net == 0 ==> r == Err::<Vault, VaultError>(
            VaultError::ZeroAmount,
        ),
        !state.new_vaults_disabled && reward_net > 0 && reward_net + fee_of(reward_net)
            > u64::MAX ==> r == Err::<Vault, VaultError>(VaultError::MathOverflow),
        r is Ok <==> !state.new_vaults_disabled && reward_net > 0 && reward_net + fee_of(
            reward_net,
        ) <= u64::MAX,
        r matches Ok(v) ==> {
            &&& v.id == vault_id
            &&& v.creator == creator
            &&& v.mint == mint
            &&& v.start_time == resolved_start(maybe_start_time, now)
            &&& v.end_time == v.start_time + TERM_SECS
            &&& v.reward_net == reward_net
            &&& v.reward_fee == fee_of(reward_net)
            &&& v.reward_gross == reward_net + fee_of(reward_net)
            &&& v.rate_fp == reward_net * RATE_SCALE / (TERM_SECS as int)
            &&& v.emission_acc_fp == 0
            &&& v.emitted == 0
            &&& v.last_update_time == v.start_time
            &&& v.acc_reward_per_token == 0
            &&& v.unallocated == 0
            &&& v.total_staked == 0
            &&& v.version == 1
            &&& v.wf()
        },
{
    if state.new_vaults_disabled {
        return Err(VaultError::VaultCreationDisabled);
    }
    if reward_net == 0 {
        return Err(VaultError::ZeroAmount);
    }

    let start: i64 = match maybe_start_time {
        Some(s) => s,
        None => now + 300,
    };
    let end: i64 = start + TERM_SECS;

    let fee_wide: u128 = (reward_net as u128) * (FEE_BPS as u128) / (FEE_DENOM as u128);
    proof {
        lemma_mul_inequality(reward_net as int, u64::MAX as int, FEE_BPS as int);
        lemma_div_is_ordered(
            reward_net * FEE_BPS,
            u64::MAX as int * FEE_BPS as int,
            FEE_DENOM as int,
        );
    }
    let fee_tokens: u64 = fee_wide as u64;
    let reward_gross: u64 = match reward_net.checked_add(fee_tokens) {
        Some(g) => g,
        None => {
            return Err(VaultError::MathOverflow);
        },
    };

    let rate_fp: u128 = (reward_net as u128) * RATE_SCALE / (TERM_SECS as u128);

    Ok(
        Vault {
            id: vault_id,
            creator,
            mint,
            start_time: start,
            end_time: end,
            reward_net,
            reward_fee: fee_tokens,
            reward_gross,
            rate_fp,
            emission_acc_fp: 0,
            emitted: 0,
            last_update_time: start,
            acc_reward_per_token: 0,
            unallocated: 0,
            total_staked: 0,
            version: 1,
        },
    )
}

/// Adds `amount` to a participant's position.
///
/// Emission is advanced first, then the pool and the position grow and the
/// position's debt snapshot is refreshed against the advanced accumulator.
/// The host moves `amount` from the participant into escrow custody exactly
/// when the call returns `Ok`.
pub fn deposit(
    v: &mut Vault,
    user: &mut UserStake,
    amount: u64,
    now: i64,
    policy: &VaultPolicy,
) -> (r: Result<(), VaultError>)
    requires
        old(v).wf(),
        old(user).wf(*old(v)),
    ensures
        r == (if amount == 0 {
            Err::<(), VaultError>(VaultError::ZeroAmount)
        } else if policy.enforce_deposit_window && !(old(v).start_time <= now <= old(
            v,
        ).end_time) {
            Err::<(), VaultError>(VaultError::VaultEnded)
        } else if old(v).total_staked + amount > u64::MAX || old(user).amount + amount
            > u64::MAX {
            Err::<(), VaultError>(VaultError::MathOverflow)
        } else {
            Ok::<(), VaultError>(())
        }),
        r is Err ==> *final(v) == *old(v) && *final(user) == *old(user),
        r is Ok ==> {
            let va = advance_spec(*old(v), now as int);
            &&& *final(v) == (Vault { total_staked: (va.total_staked + amount) as u64, ..va })
            &&& *final(user) == (UserStake {
                amount: (old(user).amount + amount) as u64,
                reward_debt: accrued_of(
                    (old(user).amount + amount) as u64,
                    va.acc_reward_per_token,
                ) as u128,
                initialized: 1,
                ..*old(user)
            })
        },
        final(v).wf(),
        final(user).wf(*final(v)),
        old(v).acc_reward_per_token <= final(v).acc_reward_per_token,
        old(v).emitted <= final(v).emitted,
        old(v).last_update_time <= final(v).last_update_time,
{
    if amount == 0 {
        return Err(VaultError::ZeroAmount);
    }
    if policy.enforce_deposit_window {
        if !(now >= v.start_time && now <= v.end_time) {
            return Err(VaultError::VaultEnded);
        }
    }
    if amount > u64::MAX - v.total_staked || amount > u64::MAX - user.amount {
        return Err(VaultError::MathOverflow);
    }

    let res = update_rewards(v, now);
    match res {
        Ok(_) => {},
        Err(e) => {
            return Err(e);
        },
    }

    if user.initialized == 0 {
        user.amount = 0;
        user.reward_debt = 0;
        user.initialized = 1;
    }

    v.total_staked = v.total_staked + amount;
    user.amount = user.amount + amount;
    user.reward_debt = reward_debt(user.amount, v.acc_reward_per_token);
    proof {
        lemma_accrued_le_exact(user.amount, v.acc_reward_per_token);
    }
    Ok(())
}

/// The units a claim should move right now, given the advanced accumulator
/// and the balance the reward custody account holds: the position's
/// claimable balance, clamped defensively by that balance.
pub fn payout_pending(user: &UserStake, acc_rpt: u128, reward_balance: u64) -> (to_pay: u64)
    ensures
        to_pay == payout_of(*user, acc_rpt, reward_balance),
{
    let pend = pending_rewards(user.amount, user.reward_debt, acc_rpt);
    if pend <= reward_balance {
        pend
    } else {
        reward_balance
    }
}

/// Pays out a participant's accrued rewards.
///
/// Emission is advanced first; the returned amount is what the host must
/// move from reward custody to the participant, and the position's debt
/// snapshot is refreshed so nothing is paid twice.  A claim always
/// succeeds; with nothing accrued it simply moves nothing.
pub fn claim(v: &mut Vault, user: &mut UserStake, reward_balance: u64, now: i64) -> (r: Result<
    u64,
    VaultError,
>)
    requires
        old(v).wf(),
        old(user).wf(*old(v)),
    ensures
        ({
            let va = advance_spec(*old(v), now as int);
            &&& r == Ok::<u64, VaultError>(
                payout_of(*old(user), va.acc_reward_per_token, reward_balance) as u64,
            )
            &&& *final(v) == va
            &&& *final(user) == (UserStake {
                reward_debt: accrued_of(old(user).amount, va.acc_reward_per_token) as u128,
                ..*old(user)
            })
        }),
        final(v).wf(),
        final(user).wf(*final(v)),
        old(v).acc_reward_per_token <= final(v).acc_reward_per_token,
        old(v).emitted <= final(v).emitted,
        old(v).last_update_time <= final(v).last_update_time,
{
    let res = update_rewards(v, now);
    match res {
        Ok(_) => {},
        Err(e) => {
            return Err(e);
        },
    }

    let to_pay = payout_pending(user, v.acc_reward_per_token, reward_balance);
    user.reward_debt = reward_debt(user.amount, v.acc_reward_per_token);
    proof {
        lemma_accrued_le_exact(user.amount, v.acc_reward_per_token);
    }
    Ok(to_pay)
}

/// Removes `amount` from a participant's position, optionally claiming all
/// accrued rewards first.
///
/// Emission is advanced first.  On success the host moves `amount` from
/// escrow custody back to the participant and, when `claim_all` was set,
/// moves the returned reward units from reward custody as well.
pub fn withdraw(
    v: &mut Vault,
    user: &mut UserStake,
    amount: u64,
    claim_all: bool,
    reward_balance: u64,
    now: i64,
) -> (r: Result<u64, VaultError>)
    requires
        old(v).wf(),
        old(user).wf(*old(v)),
    ensures
        amount == 0 ==> r == Err::<u64, VaultError>(VaultError::ZeroAmount),
        amount > 0 && old(user).amount < amount ==> r == Err::<u64, VaultError>(
            VaultError::InsufficientStake,
        ),
        r is Ok <==> amount > 0 && old(user).amount >= amount,
        r is Err ==> *final(v) == *old(v) && *final(user) == *old(user),
        r is Ok ==> {
            let va = advance_spec(*old(v), now as int);
            let paid = if claim_all {
                payout_of(*old(user), va.acc_reward_per_token, reward_balance)
            } else {
                0
            };
            &&& r == Ok::<u64, VaultError>(paid as u64)
            &&& *final(v) == (Vault { total_staked: (va.total_staked - amount) as u64, ..va })
            &&& *final(user) == (UserStake {
                amount: (old(user).amount - amount) as u64,
                reward_debt: accrued_of(
                    (old(user).amount - amount) as u64,
                    va.acc_reward_per_token,
                ) as u128,
                ..*old(user)
            })
        },
        final(v).wf(),
        final(user).wf(*final(v)),
        old(v).acc_reward_per_token <= final(v).acc_reward_per_token,
        old(v).emitted <= final(v).emitted,
        old(v).last_update_time <= final(v).last_update_time,
{
    if amount == 0 {
        return Err(VaultError::ZeroAmount);
    }
    if user.amount < amount {
        return Err(VaultError::InsufficientStake);
    }

    let res = update_rewards(v, now);
    match res {
        Ok(_) => {},
        Err(e) => {
            return Err(e);
        },
    }

    let paid: u64 = if claim_all {
        payout_pending(user, v.acc_reward_per_token, reward_balance)
    } else {
        0
    };

    user.amount = user.amount - amount;
    v.total_staked = v.total_staked - amount;
    user.reward_debt = reward_debt(user.amount, v.acc_reward_per_token);
    proof {
        lemma_accrued_le_exact(user.amount, v.acc_reward_per_token);
    }
    Ok(paid)
}

/// What the host must sweep out of custody when a vault is closed.
#[derive(Clone, Copy, PartialEq, Eq, Structural, Debug)]
pub struct CloseOutcome {
    /// Residual reward units to move out of reward custody.
    pub sweep_reward: u64,
    /// Unwithdrawn escrow to move out of escrow custody (forced closure
    /// only; an ordinary closure requires the escrow to be empty already).
    pub sweep_escrow: u64,
}

/// Decides a vault closure.
///
/// An ordinary closure requires the term to be over, the pool to be empty,
/// and the escrow custody account to be empty; residual reward dust is
/// swept back to the vault's originator.  A forced closure (a destructive
/// reclaim of an abandoned vault, gated by a long grace period) sweeps both
/// custody accounts to the treasury and zeroes the pool.  The host performs
/// the sweeps and reclaims the storage.
pub fn close_vault(
    v: &mut Vault,
    now: i64,
    reward_balance: u64,
    escrow_balance: u64,
    policy: &VaultPolicy,
) -> (r: Result<CloseOutcome, VaultError>)
    requires
        old(v).wf(),
        policy.forced_close ==> policy.forced_close_grace_secs >= 0,
        policy.forced_close ==> old(v).end_time + policy.forced_close_grace_secs
            <= i64::MAX,
    ensures
        r is Err ==> *final(v) == *old(v),
        policy.forced_close ==> {
            &&& r is Ok <==> now >= old(v).end_time + policy.forced_close_grace_secs
            &&& r is Err ==> r == Err::<CloseOutcome, VaultError>(VaultError::GraceNotElapsed)
            &&& r matches Ok(o) ==> {
                &&& o.sweep_reward == reward_balance
                &&& o.sweep_escrow == escrow_balance
                &&& escrow_balance > 0 ==> final(v).total_staked == 0
                &&& escrow_balance == 0 ==> final(v).total_staked == old(v).total_staked
                &&& *final(v) == (Vault { total_staked: final(v).total_staked, ..*old(v) })
            }
        },
        !policy.forced_close ==> {
            &&& now < old(v).end_time ==> r == Err::<CloseOutcome, VaultError>(
                VaultError::NotEnded,
            )
            &&& now >= old(v).end_time && old(v).total_staked != 0 ==> r == Err::<
                CloseOutcome,
                VaultError,
            >(VaultError::StillStaked)
            &&& now >= old(v).end_time && old(v).total_staked == 0 && escrow_balance != 0
                ==> r == Err::<CloseOutcome, VaultError>(VaultError::EscrowNotEmpty)
            &&& r is Ok <==> now >= old(v).end_time && old(v).total_staked == 0
                && escrow_balance == 0
            &&& r matches Ok(o) ==> {
                &&& o.sweep_reward == reward_balance
                &&& o.sweep_escrow == 0
                &&& *final(v) == *old(v)
            }
        },
        final(v).wf(),
{
    if policy.forced_close {
        if now < v.end_time + policy.forced_close_grace_secs {
            return Err(VaultError::GraceNotElapsed);
        }
        if escrow_balance > 0 {
            v.total_staked = 0;
        }
        Ok(CloseOutcome { sweep_reward: reward_balance, sweep_escrow: escrow_balance })
    } else {
        if now < v.end_time {
            return Err(VaultError::NotEnded);
        }
        if v.total_staked != 0 {
            return Err(VaultError::StillStaked);
        }
        if escrow_balance != 0 {
            return Err(VaultError::EscrowNotEmpty);
        }
        Ok(CloseOutcome { sweep_reward: reward_balance, sweep_escrow: 0 })
    }
}

} // verus!
