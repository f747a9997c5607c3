//! Emission engine and accrual distributor.
//!
//! `update_rewards` advances a vault to the caller-supplied current time:
//! it converts elapsed seconds into integral reward units through the
//! fixed-point rate, caps total emission at the funded amount, and folds the
//! new units (plus any backlog orphaned while the pool was empty) into the
//! per-staked-unit accumulator.

use vstd::prelude::*;
use vstd::math::min;
use vstd::arithmetic::div_mod::lemma_fundamental_div_mod;
use vstd::arithmetic::div_mod::lemma_mod_division_less_than_divisor;
use vstd::arithmetic::div_mod::lemma_div_is_ordered;
use vstd::arithmetic::div_mod::lemma_div_nonincreasing;
use vstd::arithmetic::div_mod::lemma_div_of0;
use vstd::arithmetic::div_mod::lemma_div_pos_is_pos;
use vstd::arithmetic::div_mod::lemma_multiply_divide_lt;
use vstd::arithmetic::mul::lemma_mul_inequality;
use vstd::arithmetic::mul::lemma_mul_is_commutative;
use vstd::arithmetic::mul::lemma_mul_is_distributive_add;
use vstd::arithmetic::mul::lemma_mul_by_zero_is_zero;
use vstd::arithmetic::mul::lemma_mul_nonnegative;
use crate::errors::VaultError;
use crate::vault::RATE_SCALE;
use crate::vault::RPT_SCALE;
use crate::vault::TERM_SECS;
use crate::vault::Vault;

verus! {

/// The effective time an advance moves to: wall-clock `now`, clamped to the
/// end of the term.
pub open spec fn capped_time(v: Vault, now: int) -> int {
    min(now, v.end_time as int)
}

/// Fixed-point emission accumulated once the elapsed interval is folded in.
pub open spec fn accumulated_fp(v: Vault, now: int) -> int {
    v.emission_acc_fp + v.rate_fp * (capped_time(v, now) - v.last_update_time)
}

/// Integral units newly emitted by an advance to `now`: the integral part
/// of the accumulated fixed-point emission, capped by what is still owed.
pub open spec fn fresh_units(v: Vault, now: int) -> int {
    min(accumulated_fp(v, now) / (RATE_SCALE as int), v.reward_net - v.emitted)
}

/// Fractional emission carried to the next advance.
pub open spec fn carry_fp(v: Vault, now: int) -> int {
    accumulated_fp(v, now) % (RATE_SCALE as int)
}

/// The accrual distributor: folds `to_emit` newly emitted units into the
/// vault.  With an empty pool the units are parked in `unallocated`; with a
/// live pool the units and any parked backlog are folded into the
/// accumulator in one step.  When nothing fresh was emitted but stakers and
/// a backlog are both present, the backlog alone is flushed, so rewards
/// orphaned during an empty stretch are never stranded.
pub open spec fn distribute_spec(v: Vault, to_emit: int) -> Vault {
    if to_emit > 0 {
        if v.total_staked == 0 {
            Vault {
                unallocated: (v.unallocated + to_emit) as u64,
                emitted: (v.emitted + to_emit) as u64,
                ..v
            }
        } else {
            Vault {
                acc_reward_per_token: (v.acc_reward_per_token + (v.unallocated + to_emit)
                    * RPT_SCALE / (v.total_staked as int)) as u128,
                unallocated: 0,
                emitted: (v.emitted + to_emit) as u64,
                ..v
            }
        }
    } else if v.total_staked > 0 && v.unallocated > 0 {
        Vault {
            acc_reward_per_token: (v.acc_reward_per_token + v.unallocated * RPT_SCALE
                / (v.total_staked as int)) as u128,
            unallocated: 0,
            ..v
        }
    } else {
        v
    }
}

/// One advance of the emission cursor to `now`, as a whole: a no-op unless
/// the effective time moved forward, otherwise distribution of the fresh
/// units followed by the cursor update.
pub open spec fn advance_spec(v: Vault, now: int) -> Vault {
    if capped_time(v, now) <= v.last_update_time {
        v
    } else {
        Vault {
            emission_acc_fp: carry_fp(v, now) as u128,
            last_update_time: capped_time(v, now) as i64,
            ..distribute_spec(v, fresh_units(v, now))
        }
    }
}

/// Over any interval that fits in the term, the fixed-point emission never
/// exceeds the scaled funding.
proof fn lemma_rate_mul_bound(v: Vault, dt: int)
    requires
        v.wf(),
        0 <= dt <= TERM_SECS,
    ensures
        v.rate_fp * dt <= v.reward_net * RATE_SCALE,
{
    let scaled = v.reward_net * RATE_SCALE;
    let t = TERM_SECS as int;
    lemma_mul_inequality(dt, t, v.rate_fp as int);
    lemma_mul_is_commutative(dt, v.rate_fp as int);
    lemma_mul_is_commutative(t, v.rate_fp as int);
    lemma_fundamental_div_mod(scaled, t);
    lemma_mod_division_less_than_divisor(scaled, t);
}

/// What one advance does to a well-formed vault, at the specification
/// level: well-formedness is preserved; the accumulator, the emitted total
/// and the time cursor never decrease; the pool size and the term
/// parameters are untouched; whenever time moves forward while stakers are
/// present the orphaned backlog is fully flushed; and the per-token value
/// credited to the pool is backed by the units newly handed to the
/// distributor (`total_staked * (acc' - acc) <= RPT_SCALE * (allocated' -
/// allocated)`), so no advance ever credits more value than it emits.
pub proof fn lemma_advance_props(v: Vault, now: int)
    requires
        v.wf(),
    ensures
        advance_spec(v, now).wf(),
        v.acc_reward_per_token <= advance_spec(v, now).acc_reward_per_token,
        v.emitted <= advance_spec(v, now).emitted,
        v.last_update_time <= advance_spec(v, now).last_update_time,
        advance_spec(v, now).total_staked == v.total_staked,
        advance_spec(v, now).reward_net == v.reward_net,
        advance_spec(v, now).start_time == v.start_time,
        advance_spec(v, now).end_time == v.end_time,
        v.total_staked > 0 && capped_time(v, now) > v.last_update_time ==> advance_spec(
            v,
            now,
        ).unallocated == 0,
        v.allocated() <= advance_spec(v, now).allocated(),
        v.total_staked * (advance_spec(v, now).acc_reward_per_token
            - v.acc_reward_per_token) <= RPT_SCALE * (advance_spec(v, now).allocated()
            - v.allocated()),
{
    let va = advance_spec(v, now);
    if capped_time(v, now) <= v.last_update_time {
        lemma_mul_by_zero_is_zero(v.total_staked as int);
        assert(v.total_staked * (va.acc_reward_per_token - v.acc_reward_per_token) == 0);
    } else {
        let dt = capped_time(v, now) - v.last_update_time;
        lemma_rate_mul_bound(v, dt);
        lemma_mul_nonnegative(v.rate_fp as int, dt);
        let fp = accumulated_fp(v, now);
        lemma_div_pos_is_pos(fp, RATE_SCALE as int);
        lemma_mod_division_less_than_divisor(fp, RATE_SCALE as int);
        let e = fresh_units(v, now);
        let t = v.total_staked as int;
        if e > 0 && t == 0 {
            lemma_mul_by_zero_is_zero(va.acc_reward_per_token - v.acc_reward_per_token);
            assert(t * (va.acc_reward_per_token - v.acc_reward_per_token) == 0);
        } else if t > 0 && (e > 0 || v.unallocated > 0) {
            let folded = if e > 0 {
                v.unallocated + e
            } else {
                v.unallocated as int
            };
            let incr = folded * RPT_SCALE / t;
            lemma_mul_nonnegative(folded, RPT_SCALE as int);
            lemma_div_pos_is_pos(folded * RPT_SCALE, t);
            lemma_div_nonincreasing(folded * RPT_SCALE, t);
            lemma_fundamental_div_mod(folded * RPT_SCALE, t);
            lemma_mod_division_less_than_divisor(folded * RPT_SCALE, t);
            lemma_mul_is_commutative(t, incr);
            lemma_mul_is_commutative(RPT_SCALE as int, folded);
            assert(t * incr <= folded * RPT_SCALE);
            assert(va.acc_reward_per_token == v.acc_reward_per_token + incr);
        } else {
            lemma_mul_by_zero_is_zero(t);
            lemma_mul_is_commutative(t, va.acc_reward_per_token - v.acc_reward_per_token);
            assert(t * (va.acc_reward_per_token - v.acc_reward_per_token) == 0);
        }
    }
}

/// Idempotence: advancing twice to the same time is the same as advancing
/// once.  A real advance moves the cursor to the capped time, so the second
/// advance finds nothing left to do; repeated invocation at the same (or an
/// earlier) time never double-emits.
pub proof fn lemma_advance_idempotent(v: Vault, now: int)
    requires
        v.wf(),
    ensures
        advance_spec(advance_spec(v, now), now) == advance_spec(v, now),
{
    let va = advance_spec(v, now);
    if capped_time(v, now) > v.last_update_time {
        assert(va.last_update_time == capped_time(v, now));
        assert(va.end_time == v.end_time);
        assert(capped_time(va, now) == capped_time(v, now));
    }
}

/// No stranded emission: whenever time moves forward while the pool has
/// stakers, the whole backlog orphaned during earlier empty stretches is
/// folded into the accumulator — the pool is credited at least the
/// backlog's per-token value, and nothing stays parked.
pub proof fn lemma_backlog_not_stranded(v: Vault, now: int)
    requires
        v.wf(),
        v.total_staked > 0,
        capped_time(v, now) > v.last_update_time,
    ensures
        advance_spec(v, now).unallocated == 0,
        advance_spec(v, now).acc_reward_per_token >= v.acc_reward_per_token + v.unallocated
            * RPT_SCALE / (v.total_staked as int),
{
    let t = v.total_staked as int;
    let u = v.unallocated as int;
    let dt = capped_time(v, now) - v.last_update_time;
    lemma_rate_mul_bound(v, dt);
    lemma_mul_nonnegative(v.rate_fp as int, dt);
    let fp = accumulated_fp(v, now);
    lemma_div_pos_is_pos(fp, RATE_SCALE as int);
    let e = fresh_units(v, now);
    lemma_mul_nonnegative(u, RPT_SCALE as int);
    if e > 0 {
        assert(u * RPT_SCALE <= (u + e) * RPT_SCALE) by {
            lemma_mul_inequality(u, u + e, RPT_SCALE as int);
            lemma_mul_is_commutative(u, RPT_SCALE as int);
            lemma_mul_is_commutative(u + e, RPT_SCALE as int);
        }
        lemma_div_is_ordered(u * RPT_SCALE, (u + e) * RPT_SCALE, t);
        lemma_div_pos_is_pos((u + e) * RPT_SCALE, t);
    } else if u > 0 {
        lemma_div_pos_is_pos(u * RPT_SCALE, t);
    } else {
        lemma_mul_by_zero_is_zero(RPT_SCALE as int);
        lemma_div_of0(t);
    }
}

/// Advances the vault's emission and accrual state to the caller-observed
/// current time.  Idempotent: once `last_update_time` has reached the
/// capped time, further calls change nothing.  On a well-formed vault no
/// arithmetic step can overflow, so the advance always succeeds.
pub fn update_rewards(v: &mut Vault, now: i64) -> (r: Result<(), VaultError>)
    requires
        old(v).wf(),
    ensures
        r is Ok,
        *final(v) == advance_spec(*old(v), now as int),
        final(v).wf(),
        old(v).acc_reward_per_token <= final(v).acc_reward_per_token,
        old(v).emitted <= final(v).emitted,
        old(v).last_update_time <= final(v).last_update_time,
        final(v).total_staked == old(v).total_staked,
        final(v).reward_net == old(v).reward_net,
        old(v).total_staked > 0 && capped_time(*old(v), now as int) > old(v).last_update_time
            ==> final(v).unallocated == 0,
{
    let ghost v0 = *v;
    let capped_now = if now < v.end_time { now } else { v.end_time };
    if capped_now <= v.last_update_time {
        return Ok(());
    }

    let dt = (capped_now - v.last_update_time) as u128;
    proof {
        lemma_rate_mul_bound(v0, dt as int);
    }

    let add_fp = v.rate_fp * dt;
    v.emission_acc_fp = v.emission_acc_fp + add_fp;

    proof {
        lemma_mul_is_distributive_add(RATE_SCALE as int, v0.reward_net as int, 1);
        lemma_mul_is_commutative(RATE_SCALE as int, v0.reward_net as int);
        lemma_mul_is_commutative(RATE_SCALE as int, v0.reward_net + 1);
        lemma_multiply_divide_lt(
            v.emission_acc_fp as int,
            RATE_SCALE as int,
            v0.reward_net + 1,
        );
        lemma_div_pos_is_pos(v.emission_acc_fp as int, RATE_SCALE as int);
    }
    let mut to_emit = (v.emission_acc_fp / RATE_SCALE) as u64;
    proof {
        lemma_mod_division_less_than_divisor(v.emission_acc_fp as int, RATE_SCALE as int);
    }
    v.emission_acc_fp = v.emission_acc_fp % RATE_SCALE;

    let remaining = v.reward_net - v.emitted;
    if to_emit > remaining {
        to_emit = remaining;
    }

    if to_emit > 0 {
        if v.total_staked == 0 {
            v.unallocated = v.unallocated + to_emit;
        } else {
            let total = v.unallocated as u128 + to_emit as u128;
            let incr = total * RPT_SCALE / (v.total_staked as u128);
            proof {
                lemma_div_pos_is_pos((total * RPT_SCALE) as int, v0.total_staked as int);
                lemma_div_nonincreasing((total * RPT_SCALE) as int, v0.total_staked as int);
            }
            v.acc_reward_per_token = v.acc_reward_per_token + incr;
            v.unallocated = 0;
        }
        v.emitted = v.emitted + to_emit;
    } else {
        if v.total_staked > 0 && v.unallocated > 0 {
            let backlog = v.unallocated as u128;
            let incr = backlog * RPT_SCALE / (v.total_staked as u128);
            proof {
                lemma_div_pos_is_pos((backlog * RPT_SCALE) as int, v0.total_staked as int);
                lemma_div_nonincreasing((backlog * RPT_SCALE) as int, v0.total_staked as int);
            }
            v.acc_reward_per_token = v.acc_reward_per_token + incr;
            v.unallocated = 0;
        }
    }

    v.last_update_time = capped_now;
    Ok(())
}

} // verus!
