//! Exact expectations for the arithmetic helpers and the small records.

use driplet_vaults::counter::increment;
use driplet_vaults::counter::Counter;
use driplet_vaults::lifecycle::payout_pending;
use driplet_vaults::math::mul_saturating;
use driplet_vaults::stake::pending_rewards;
use driplet_vaults::stake::reward_debt;
use driplet_vaults::stake::UserStake;
use driplet_vaults::vault::RPT_SCALE;

#[test]
fn saturating_product_is_exact_below_the_cap() {
    assert_eq!(mul_saturating(0, u128::MAX), 0);
    assert_eq!(mul_saturating(7, 6), 42);
    assert_eq!(mul_saturating(1 << 64, 1 << 63), 1 << 127);
    assert_eq!(mul_saturating(u128::MAX, 1), u128::MAX);
}

#[test]
fn saturating_product_caps_at_the_top() {
    assert_eq!(mul_saturating(1 << 64, 1 << 64), u128::MAX);
    assert_eq!(mul_saturating(u128::MAX, 2), u128::MAX);
    assert_eq!(mul_saturating(3, u128::MAX / 2), u128::MAX);
}

#[test]
fn reward_debt_floors_the_scaled_product() {
    assert_eq!(reward_debt(0, 123), 0);
    assert_eq!(reward_debt(1_000, 999_999_000_000_000), 999_999);
    // one unit short of the next whole token
    assert_eq!(reward_debt(1, RPT_SCALE - 1), 0);
    assert_eq!(reward_debt(1, RPT_SCALE), 1);
}

#[test]
fn pending_is_accrual_minus_debt() {
    assert_eq!(pending_rewards(0, 0, 55), 0);
    assert_eq!(pending_rewards(1_000, 0, 999_999_000_000_000), 999_999);
    assert_eq!(pending_rewards(1_000, 999_998, 999_999_000_000_000), 1);
    // a stale larger debt must clamp to zero, not wrap
    assert_eq!(pending_rewards(1_000, 1_000_000, 999_999_000_000_000), 0);
}

#[test]
fn pending_saturates_in_the_wide_domain() {
    // the scaled product saturates, and the payout caps at the 64-bit top
    assert_eq!(pending_rewards(u64::MAX, 0, u128::MAX), u64::MAX);
}

#[test]
fn payout_clamps_to_custody_balance() {
    let u = UserStake { owner: 1, vault: 1, amount: 1_000, reward_debt: 0, initialized: 1 };
    assert_eq!(payout_pending(&u, 999_999_000_000_000, 400), 400);
    assert_eq!(payout_pending(&u, 999_999_000_000_000, u64::MAX), 999_999);
    let empty = UserStake { amount: 0, ..u };
    assert_eq!(payout_pending(&empty, 999_999_000_000_000, u64::MAX), 0);
}

#[test]
fn counter_increments_by_one() {
    let mut c = Counter { count: 41 };
    increment(&mut c);
    assert_eq!(c.count, 42);
}
